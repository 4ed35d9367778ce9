use wakeword_listener::channel::SampleChannel;
use wakeword_listener::chunker::{Chunker, Turn};

#[test]
fn eight_samples_make_two_chunks_of_four() {
    let mut chunker = Chunker::new(4).unwrap();
    let mut delivered: Vec<Vec<i16>> = Vec::new();
    let mut recording: Vec<i16> = Vec::new();
    for sample in [1i16, 2, 3, 4, 5, 6, 7, 8] {
        if let Turn::Chunk(chunk) = chunker.poll(Some(sample)) {
            for recorded in chunk.iter() {
                recording.push(*recorded);
            }
            delivered.push(chunk);
        }
    }
    assert_eq!(delivered, vec![vec![1, 2, 3, 4], vec![5, 6, 7, 8]]);
    assert_eq!(recording, vec![1, 2, 3, 4, 5, 6, 7, 8]);
    assert_eq!(chunker.pending(), 0);
}

#[test]
fn whole_chunks_put_together_are_the_stream() {
    let n = 16usize;
    let count = 5usize;
    let stream: Vec<i16> = (0..(n * count) as i16).map(|i| i.wrapping_mul(257)).collect();
    let mut chunker = Chunker::new(n).unwrap();
    let chunks = chunker.feed(&stream);
    assert_eq!(chunks.len(), count);
    for (k, chunk) in chunks.iter().enumerate() {
        assert_eq!(chunk.len(), n);
        assert_eq!(chunk.as_slice(), &stream[k * n..(k + 1) * n]);
    }
    assert_eq!(chunks.concat(), stream);
    assert_eq!(chunker.pending(), 0);
}

#[test]
fn leftover_samples_open_the_next_chunk() {
    let mut chunker = Chunker::new(4).unwrap();
    let first = chunker.feed(&[1, 2, 3, 4, 5, 6]);
    assert_eq!(first, vec![vec![1, 2, 3, 4]]);
    assert_eq!(chunker.pending(), 2);
    let second = chunker.feed(&[7]);
    assert!(second.is_empty());
    assert_eq!(chunker.pending(), 3);
    let third = chunker.feed(&[8, 9, 10, 11, 12, 13]);
    assert_eq!(third, vec![vec![5, 6, 7, 8], vec![9, 10, 11, 12]]);
    assert_eq!(chunker.pending(), 1);
}

#[test]
fn a_sample_is_kept_until_the_chunk_is_complete() {
    let mut chunker = Chunker::new(3).unwrap();
    assert_eq!(chunker.push_sample(5), None);
    assert_eq!(chunker.push_sample(6), None);
    assert_eq!(chunker.pending(), 2);
    assert_eq!(chunker.push_sample(7), Some(vec![5, 6, 7]));
    assert_eq!(chunker.pending(), 0);
    assert_eq!(chunker.push_sample(8), None);
    assert_eq!(chunker.pending(), 1);
}

#[test]
fn an_empty_poll_is_idle_and_changes_nothing() {
    let mut chunker = Chunker::new(2).unwrap();
    assert_eq!(chunker.poll(None), Turn::Idle);
    assert_eq!(chunker.poll(Some(1)), Turn::Kept);
    assert_eq!(chunker.poll(None), Turn::Idle);
    assert_eq!(chunker.pending(), 1);
    assert_eq!(chunker.poll(Some(2)), Turn::Chunk(vec![1, 2]));
    assert_eq!(chunker.poll(None), Turn::Idle);
    assert_eq!(chunker.pending(), 0);
}

#[test]
fn chunks_of_one_sample() {
    let mut chunker = Chunker::new(1).unwrap();
    assert_eq!(chunker.feed(&[9, 8, 7]), vec![vec![9], vec![8], vec![7]]);
    assert_eq!(chunker.pending(), 0);
}

#[test]
fn a_chunk_size_of_zero_gives_no_chunker() {
    assert!(Chunker::new(0).is_none());
    assert_eq!(Chunker::new(2048).unwrap().chunk_size(), 2048);
}

#[test]
fn feeding_nothing_gives_nothing() {
    let mut chunker = Chunker::new(4).unwrap();
    assert!(chunker.feed(&[]).is_empty());
    assert_eq!(chunker.pending(), 0);
}

#[test]
fn draining_a_channel_cuts_what_waited_in_it() {
    let mut channel = SampleChannel::new(16).unwrap();
    for sample in 1i16..=10 {
        assert_eq!(channel.push(sample), Ok(()));
    }
    let mut chunker = Chunker::new(4).unwrap();
    assert_eq!(chunker.push_sample(0), None);
    let chunks = chunker.drain(&mut channel);
    assert_eq!(chunks, vec![vec![0, 1, 2, 3], vec![4, 5, 6, 7]]);
    assert_eq!(chunker.pending(), 3);
    assert!(channel.is_empty());
    assert_eq!(channel.push(11), Ok(()));
    assert_eq!(chunker.drain(&mut channel), vec![vec![8, 9, 10, 11]]);
    assert!(chunker.drain(&mut channel).is_empty());
}

#[test]
fn a_stalled_consumer_backs_up_into_the_channel() {
    let mut channel = SampleChannel::new(8).unwrap();
    let mut refused = 0;
    for sample in 0i16..12 {
        if channel.push(sample).is_err() {
            refused += 1;
        }
    }
    assert_eq!(refused, 4);
    let mut chunker = Chunker::new(4).unwrap();
    let chunks = chunker.drain(&mut channel);
    assert_eq!(chunks, vec![vec![0, 1, 2, 3], vec![4, 5, 6, 7]]);
}
