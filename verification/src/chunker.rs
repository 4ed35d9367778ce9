//! The chunker: cuts the continuous sample stream into the fixed-size chunks
//! that the detection engine consumes. Chunks do not overlap and no sample is
//! skipped: chunk `k` of a stream holds its samples `k * n .. (k + 1) * n`.

use crate::channel::{tail_of, SampleChannel};
use vstd::arithmetic::div_mod::{lemma_fundamental_div_mod, lemma_fundamental_div_mod_converse};
use vstd::prelude::*;

verus! {

/// The number of whole chunks of `n` samples in a stream.
pub open spec fn chunk_count(stream: Seq<i16>, n: nat) -> nat {
    if n == 0 {
        0
    } else {
        stream.len() / n
    }
}

/// Chunk `k` of a stream cut into chunks of `n` samples.
pub open spec fn chunk_at(stream: Seq<i16>, n: nat, k: int) -> Seq<i16> {
    stream.subrange(k * n, k * n + n)
}

/// The whole chunks of a stream, in the order of the stream.
pub open spec fn chunks_of(stream: Seq<i16>, n: nat) -> Seq<Seq<i16>> {
    Seq::new(chunk_count(stream, n), |k: int| chunk_at(stream, n, k))
}

/// The samples at the end of a stream that do not fill a chunk.
pub open spec fn leftover(stream: Seq<i16>, n: nat) -> Seq<i16> {
    stream.subrange((chunk_count(stream, n) * n) as int, stream.len() as int)
}

/// The contents of a list of chunks.
pub open spec fn contents(chunks: Seq<Vec<i16>>) -> Seq<Seq<i16>> {
    Seq::new(chunks.len(), |k: int| chunks[k]@)
}

/// Where the whole chunks of a stream end: within the stream, and less than
/// one chunk before its end.
pub proof fn lemma_chunk_bounds(stream: Seq<i16>, n: nat)
    requires
        n > 0,
    ensures
        chunk_count(stream, n) * n + leftover(stream, n).len() == stream.len(),
        leftover(stream, n).len() < n,
        leftover(stream, n).len() == stream.len() % n,
{
    let len = stream.len() as int;
    let d = n as int;
    let q = len / d;
    lemma_fundamental_div_mod(len, d);
    assert(d * q == q * d) by (nonlinear_arith);
    assert(0 <= q) by (nonlinear_arith)
        requires
            0 <= len,
            0 < d,
            q == len / d,
    ;
}

/// Each whole chunk lies within the stream and holds `n` samples.
pub proof fn lemma_chunk_in_stream(stream: Seq<i16>, n: nat, k: int)
    requires
        n > 0,
        0 <= k < chunk_count(stream, n),
    ensures
        0 <= k * n,
        k * n + n <= chunk_count(stream, n) * n,
        k * n + n <= stream.len(),
        chunk_at(stream, n, k).len() == n,
{
    lemma_chunk_bounds(stream, n);
    let d = n as int;
    let q = chunk_count(stream, n) as int;
    assert(0 <= k * d && k * d + d <= q * d) by (nonlinear_arith)
        requires
            0 <= k < q,
            0 < d,
    ;
}

/// How the chunks of a stream change when one sample is added to it: the
/// sample joins the leftover, and when that fills a chunk, the chunk is cut.
pub proof fn lemma_chunks_push(stream: Seq<i16>, n: nat, sample: i16)
    requires
        n > 0,
    ensures
        leftover(stream, n).len() + 1 == n ==> {
            &&& chunks_of(stream.push(sample), n) == chunks_of(stream, n).push(
                leftover(stream, n).push(sample),
            )
            &&& leftover(stream.push(sample), n) == Seq::<i16>::empty()
        },
        leftover(stream, n).len() + 1 != n ==> {
            &&& chunks_of(stream.push(sample), n) == chunks_of(stream, n)
            &&& leftover(stream.push(sample), n) == leftover(stream, n).push(sample)
        },
{
    let longer = stream.push(sample);
    let len = stream.len() as int;
    let d = n as int;
    let q = chunk_count(stream, n) as int;
    let r = leftover(stream, n).len() as int;
    lemma_chunk_bounds(stream, n);
    lemma_chunk_bounds(longer, n);
    if r + 1 == d {
        assert(len + 1 == (q + 1) * d + 0) by (nonlinear_arith)
            requires
                q * d + r == len,
                r + 1 == d,
        ;
        lemma_fundamental_div_mod_converse(len + 1, d, q + 1, 0);
        assert(chunk_count(longer, n) == q + 1);
        let grown = chunks_of(stream, n).push(leftover(stream, n).push(sample));
        assert forall|k: int| 0 <= k < q + 1 implies chunks_of(longer, n)[k] == grown[k] by {
            if k < q {
                lemma_chunk_in_stream(stream, n, k);
                assert(chunk_at(longer, n, k) =~= chunk_at(stream, n, k));
            } else {
                assert(q * d + d == len + 1) by (nonlinear_arith)
                    requires
                        len + 1 == (q + 1) * d + 0,
                ;
                assert(chunk_at(longer, n, k) =~= leftover(stream, n).push(sample));
            }
        }
        assert(chunks_of(longer, n) =~= grown);
        assert(leftover(longer, n) =~= Seq::<i16>::empty());
    } else {
        assert(len + 1 == q * d + (r + 1));
        lemma_fundamental_div_mod_converse(len + 1, d, q, r + 1);
        assert(chunk_count(longer, n) == q);
        assert forall|k: int| 0 <= k < q implies chunks_of(longer, n)[k] == chunks_of(stream, n)[k] by {
            lemma_chunk_in_stream(stream, n, k);
            assert(chunk_at(longer, n, k) =~= chunk_at(stream, n, k));
        }
        assert(chunks_of(longer, n) =~= chunks_of(stream, n));
        assert(leftover(longer, n) =~= leftover(stream, n).push(sample));
    }
}

/// A stream shorter than a chunk has no chunk, and all of it is left over.
pub proof fn lemma_short_stream(stream: Seq<i16>, n: nat)
    requires
        stream.len() < n,
    ensures
        chunks_of(stream, n) == Seq::<Seq<i16>>::empty(),
        leftover(stream, n) == stream,
{
    let len = stream.len() as int;
    lemma_fundamental_div_mod_converse(len, n as int, 0, len);
    assert(chunks_of(stream, n) =~= Seq::<Seq<i16>>::empty());
    assert(leftover(stream, n) =~= stream);
}

/// A stream of `count` whole chunks is cut into exactly `count` chunks of `n`
/// samples each, nothing is left over, and the chunks put together in order
/// are the stream.
pub proof fn lemma_whole_chunks(stream: Seq<i16>, n: nat, count: nat)
    requires
        n > 0,
        stream.len() == count * n,
    ensures
        chunks_of(stream, n).len() == count,
        forall|k: int| 0 <= k < count ==> (#[trigger] chunks_of(stream, n)[k]).len() == n,
        chunks_of(stream, n).flatten() == stream,
        leftover(stream, n) == Seq::<i16>::empty(),
{
    lemma_fundamental_div_mod_converse(stream.len() as int, n as int, count as int, 0);
    lemma_chunk_bounds(stream, n);
    lemma_chunks_rejoin(stream, n);
    assert forall|k: int| 0 <= k < count implies (#[trigger] chunks_of(stream, n)[k]).len() == n by {
        lemma_chunk_in_stream(stream, n, k);
    }
    assert(leftover(stream, n) =~= Seq::<i16>::empty());
    assert(chunks_of(stream, n).flatten() + leftover(stream, n) =~= chunks_of(stream, n).flatten());
}

/// The chunks of a stream put together in order, followed by the leftover,
/// are the stream: cutting loses, repeats and reorders nothing.
pub proof fn lemma_chunks_rejoin(stream: Seq<i16>, n: nat)
    requires
        n > 0,
    ensures
        chunks_of(stream, n).flatten() + leftover(stream, n) == stream,
    decreases stream.len(),
{
    if stream.len() == 0 {
        lemma_short_stream(stream, n);
        assert(Seq::<Seq<i16>>::empty().flatten() =~= Seq::<i16>::empty());
        assert(chunks_of(stream, n).flatten() + leftover(stream, n) =~= stream);
    } else {
        let shorter = stream.drop_last();
        let sample = stream.last();
        assert(shorter.push(sample) =~= stream);
        lemma_chunks_rejoin(shorter, n);
        lemma_chunks_push(shorter, n, sample);
        let joined = chunks_of(shorter, n).flatten();
        let rest = leftover(shorter, n);
        if rest.len() + 1 == n {
            chunks_of(shorter, n).lemma_flatten_push(rest.push(sample));
            assert(joined + rest.push(sample) + Seq::<i16>::empty() =~= (joined + rest).push(sample));
        } else {
            assert(joined + rest.push(sample) =~= (joined + rest).push(sample));
        }
    }
}

/// What one turn of the processing loop came to.
#[derive(Debug, PartialEq, Eq)]
pub enum Turn {
    /// The channel had no sample. This is no error: the loop is to yield or
    /// wait a moment before it polls again.
    Idle,
    /// A sample was taken in and no chunk is complete yet.
    Kept,
    /// A sample was taken in and completed this chunk.
    Chunk(Vec<i16>),
}

/// Accumulates samples and cuts a chunk whenever enough have arrived.
pub struct Chunker {
    buffer: Vec<i16>,
    chunk_size: usize,
}

impl View for Chunker {
    type V = Seq<i16>;

    /// The samples accumulated since the last chunk was cut, oldest first.
    closed spec fn view(&self) -> Seq<i16> {
        self.buffer@
    }
}

impl Chunker {
    /// The chunk size is positive and fewer samples than a chunk are held.
    pub closed spec fn wf(&self) -> bool {
        &&& self.chunk_size > 0
        &&& self.buffer@.len() < self.chunk_size
    }

    /// The number of samples in each chunk.
    pub closed spec fn spec_chunk_size(&self) -> nat {
        self.chunk_size as nat
    }

    /// A well-formed chunker has a positive chunk size and holds less than a
    /// chunk.
    pub proof fn lemma_wf(&self)
        requires
            self.wf(),
        ensures
            self.spec_chunk_size() > 0,
            self@.len() < self.spec_chunk_size(),
            self.spec_chunk_size() <= usize::MAX,
    {
    }

    /// A chunker that holds no sample yet, or `None` when the chunk size is
    /// zero.
    pub fn new(chunk_size: usize) -> (made: Option<Chunker>)
        ensures
            made is Some <==> chunk_size > 0,
            made matches Some(chunker) ==> chunker.wf() && chunker@ == Seq::<i16>::empty()
                && chunker.spec_chunk_size() == chunk_size,
    {
        if chunk_size == 0 {
            None
        } else {
            Some(Chunker { buffer: Vec::new(), chunk_size })
        }
    }

    /// The number of samples in each chunk.
    pub fn chunk_size(&self) -> (n: usize)
        ensures
            n == self.spec_chunk_size(),
    {
        self.chunk_size
    }

    /// The number of samples accumulated since the last chunk was cut.
    pub fn pending(&self) -> (n: usize)
        ensures
            n == self@.len(),
    {
        self.buffer.len()
    }

    /// Takes in one sample. When it completes a chunk, the chunk is returned
    /// and accumulation starts over; otherwise the sample is kept.
    pub fn push_sample(&mut self, sample: i16) -> (chunk: Option<Vec<i16>>)
        requires
            old(self).wf(),
        ensures
            final(self).wf(),
            final(self).spec_chunk_size() == old(self).spec_chunk_size(),
            old(self)@.len() + 1 == old(self).spec_chunk_size() ==> {
                &&& chunk matches Some(samples)
                &&& samples@ == old(self)@.push(sample)
                &&& final(self)@ == Seq::<i16>::empty()
            },
            old(self)@.len() + 1 != old(self).spec_chunk_size() ==> {
                &&& chunk is None
                &&& final(self)@ == old(self)@.push(sample)
            },
    {
        self.buffer.push(sample);
        if self.buffer.len() == self.chunk_size {
            let mut chunk: Vec<i16> = Vec::new();
            std::mem::swap(&mut chunk, &mut self.buffer);
            Some(chunk)
        } else {
            None
        }
    }

    /// One turn of the processing loop: takes in what a poll of the channel
    /// gave. A poll that gave nothing changes nothing and leaves the loop idle
    /// for this turn; a sample is kept, or completes a chunk.
    pub fn poll(&mut self, polled: Option<i16>) -> (turn: Turn)
        requires
            old(self).wf(),
        ensures
            final(self).wf(),
            final(self).spec_chunk_size() == old(self).spec_chunk_size(),
            polled is None ==> turn is Idle && final(self)@ == old(self)@,
            polled matches Some(sample) ==> {
                if old(self)@.len() + 1 == old(self).spec_chunk_size() {
                    &&& turn matches Turn::Chunk(samples)
                    &&& samples@ == old(self)@.push(sample)
                    &&& final(self)@ == Seq::<i16>::empty()
                } else {
                    &&& turn is Kept
                    &&& final(self)@ == old(self)@.push(sample)
                }
            },
    {
        match polled {
            None => Turn::Idle,
            Some(sample) => match self.push_sample(sample) {
                Some(chunk) => Turn::Chunk(chunk),
                None => Turn::Kept,
            },
        }
    }

    /// Takes in a run of samples, one after the other, and returns the chunks
    /// that they complete, in order. Together with the samples held before,
    /// the run is cut into whole chunks; what does not fill a chunk is kept.
    pub fn feed(&mut self, samples: &[i16]) -> (chunks: Vec<Vec<i16>>)
        requires
            old(self).wf(),
        ensures
            final(self).wf(),
            final(self).spec_chunk_size() == old(self).spec_chunk_size(),
            contents(chunks@) == chunks_of(old(self)@ + samples@, old(self).spec_chunk_size()),
            final(self)@ == leftover(old(self)@ + samples@, old(self).spec_chunk_size()),
    {
        let ghost n = self.spec_chunk_size();
        let ghost held = self@;
        let mut chunks: Vec<Vec<i16>> = Vec::new();
        proof {
            lemma_short_stream(held, n);
            assert(held + samples@.take(0) =~= held);
            assert(contents(chunks@) =~= chunks_of(held, n));
        }
        let mut i: usize = 0;
        while i < samples.len()
            invariant
                i <= samples.len(),
                self.wf(),
                n > 0,
                self.spec_chunk_size() == n,
                contents(chunks@) == chunks_of(held + samples@.take(i as int), n),
                self@ == leftover(held + samples@.take(i as int), n),
            decreases samples.len() - i,
        {
            let ghost seen = held + samples@.take(i as int);
            let sample = samples[i];
            proof {
                lemma_chunks_push(seen, n, sample);
                assert(seen.push(sample) =~= held + samples@.take(i + 1));
            }
            let ghost before = chunks@;
            match self.push_sample(sample) {
                Some(chunk) => {
                    chunks.push(chunk);
                    assert(contents(chunks@) =~= contents(before).push(chunk@));
                },
                None => {},
            }
            i = i + 1;
        }
        proof {
            assert(samples@.take(samples.len() as int) =~= samples@);
        }
        chunks
    }

    /// Empties a channel into the chunker and returns the chunks that this
    /// completes, in order: the samples held before, followed by the samples
    /// that waited in the channel, are cut into whole chunks, and what does
    /// not fill a chunk is kept.
    pub fn drain(&mut self, channel: &mut SampleChannel) -> (chunks: Vec<Vec<i16>>)
        requires
            old(self).wf(),
            old(channel).wf(),
        ensures
            final(self).wf(),
            final(channel).wf(),
            final(self).spec_chunk_size() == old(self).spec_chunk_size(),
            final(channel).spec_capacity() == old(channel).spec_capacity(),
            final(channel)@ == Seq::<i16>::empty(),
            contents(chunks@) == chunks_of(old(self)@ + old(channel)@, old(self).spec_chunk_size()),
            final(self)@ == leftover(old(self)@ + old(channel)@, old(self).spec_chunk_size()),
    {
        let ghost n = self.spec_chunk_size();
        let ghost held = self@;
        let ghost waiting = channel@;
        let ghost capacity = channel.spec_capacity();
        let mut chunks: Vec<Vec<i16>> = Vec::new();
        let ghost mut taken: int = 0;
        proof {
            lemma_short_stream(held, n);
            assert(held + waiting.take(0) =~= held);
            assert(contents(chunks@) =~= chunks_of(held, n));
            assert(waiting.skip(0) =~= waiting);
        }
        loop
            invariant
                0 <= taken <= waiting.len(),
                self.wf(),
                channel.wf(),
                n > 0,
                self.spec_chunk_size() == n,
                channel.spec_capacity() == capacity,
                channel@ == waiting.skip(taken),
                contents(chunks@) == chunks_of(held + waiting.take(taken), n),
                self@ == leftover(held + waiting.take(taken), n),
            ensures
                self.wf(),
                channel.wf(),
                self.spec_chunk_size() == n,
                channel.spec_capacity() == capacity,
                channel@ == Seq::<i16>::empty(),
                contents(chunks@) == chunks_of(held + waiting, n),
                self@ == leftover(held + waiting, n),
            decreases waiting.len() - taken,
        {
            let ghost seen = held + waiting.take(taken);
            let ghost queued = channel@;
            let polled = channel.pop();
            match polled {
                None => {
                    proof {
                        assert(taken == waiting.len());
                        assert(waiting.take(taken) =~= waiting);
                    }
                    break ;
                },
                Some(sample) => {
                    proof {
                        assert(sample == waiting[taken]);
                        lemma_chunks_push(seen, n, sample);
                        assert(seen.push(sample) =~= held + waiting.take(taken + 1));
                        assert(tail_of(queued) =~= waiting.skip(taken + 1));
                    }
                    let ghost before = chunks@;
                    match self.push_sample(sample) {
                        Some(chunk) => {
                            chunks.push(chunk);
                            assert(contents(chunks@) =~= contents(before).push(chunk@));
                        },
                        None => {},
                    }
                    proof {
                        taken = taken + 1;
                    }
                },
            }
        }
        chunks
    }
}

} // verus!
