//! The sample channel: a fixed-capacity queue of 16-bit samples between the
//! capture callback and the processing loop, kept in a lock-free ring buffer.
//!
//! A [`SampleChannel`] owns both halves of the ring, so nothing else can touch
//! the queue and its contents are known exactly after every push and pop. For
//! use on two threads the channel is taken apart with
//! [`SampleChannel::into_halves`].

use ringbuf::{Consumer, Producer, RingBuffer};
use vstd::prelude::*;

verus! {

/// `ringbuf::Producer`: the writing half of a ring buffer.
#[verifier::external_type_specification]
#[verifier::external_body]
#[verifier::reject_recursive_types(T)]
pub struct ExProducer<T>(Producer<T>);

/// `ringbuf::Consumer`: the reading half of a ring buffer.
#[verifier::external_type_specification]
#[verifier::external_body]
#[verifier::reject_recursive_types(T)]
pub struct ExConsumer<T>(Consumer<T>);

/// Whether the two halves were split from one ring buffer.
pub uninterp spec fn ring_halves(producer: Producer<i16>, consumer: Consumer<i16>) -> bool;

/// The samples waiting in the ring buffer that the consumer reads, oldest first.
pub uninterp spec fn ring_samples(consumer: Consumer<i16>) -> Seq<i16>;

/// The capacity that the ring buffer behind the producer was made with.
pub uninterp spec fn ring_limit(producer: Producer<i16>) -> nat;

/// The largest capacity a channel can be made with. The ring allocates one
/// slot more than its capacity, two bytes each, and no allocation holds more
/// than `isize::MAX` bytes.
pub open spec fn max_capacity() -> nat {
    (usize::MAX / 4 - 1) as nat
}

/// `RingBuffer::<i16>::new(capacity).split()`: a fresh ring buffer of the given
/// capacity, empty, as its two halves. The bound keeps the slot count and the
/// allocation size within what `new` can compute and allocate.
#[verifier::external_body]
fn ring_split(capacity: usize) -> (halves: (Producer<i16>, Consumer<i16>))
    requires
        capacity <= max_capacity(),
    ensures
        ring_halves(halves.0, halves.1),
        ring_samples(halves.1) == Seq::<i16>::empty(),
        ring_limit(halves.0) == capacity,
{
    RingBuffer::<i16>::new(capacity).split()
}

/// `Producer::push`, called while both halves of one ring are held, so that
/// nothing else can touch the ring. When fewer samples wait than the capacity
/// allows, the sample goes to the back of the queue and the call reports
/// `true`; on a full ring nothing changes and it reports `false`. The consumer
/// is not used by the call: it is named because the queue it reads grows.
#[verifier::external_body]
#[allow(unused_variables)]
fn ring_push(producer: &mut Producer<i16>, consumer: &mut Consumer<i16>, sample: i16) -> (pushed: bool)
    requires
        ring_halves(*old(producer), *old(consumer)),
    ensures
        ring_halves(*final(producer), *final(consumer)),
        ring_limit(*final(producer)) == ring_limit(*old(producer)),
        pushed == (ring_samples(*old(consumer)).len() < ring_limit(*old(producer))),
        pushed ==> ring_samples(*final(consumer)) == ring_samples(*old(consumer)).push(sample),
        !pushed ==> ring_samples(*final(consumer)) == ring_samples(*old(consumer)),
{
    producer.push(sample).is_ok()
}

/// `Consumer::pop`, called while both halves of one ring are held. The oldest
/// waiting sample leaves the queue and is returned; on an empty ring nothing
/// changes and `None` is returned. The producer is not used by the call: it is
/// named because the ring it writes to is the one that shrinks.
#[verifier::external_body]
#[allow(unused_variables)]
fn ring_pop(producer: &mut Producer<i16>, consumer: &mut Consumer<i16>) -> (sample: Option<i16>)
    requires
        ring_halves(*old(producer), *old(consumer)),
    ensures
        ring_halves(*final(producer), *final(consumer)),
        ring_limit(*final(producer)) == ring_limit(*old(producer)),
        sample == head_of(ring_samples(*old(consumer))),
        ring_samples(*final(consumer)) == tail_of(ring_samples(*old(consumer))),
{
    consumer.pop()
}

/// The oldest sample of a queue, if it has one.
pub open spec fn head_of(queue: Seq<i16>) -> Option<i16> {
    if queue.len() > 0 {
        Some(queue[0])
    } else {
        None
    }
}

/// The queue without its oldest sample; an empty queue stays empty.
pub open spec fn tail_of(queue: Seq<i16>) -> Seq<i16> {
    if queue.len() > 0 {
        queue.subrange(1, queue.len() as int)
    } else {
        queue
    }
}

/// Whether a queue of the given capacity has room for one more sample.
pub open spec fn has_room(queue: Seq<i16>, capacity: nat) -> bool {
    queue.len() < capacity
}

/// The queue after a push was attempted: the sample is appended when there is
/// room, and the queue is unchanged when it is full.
pub open spec fn after_push(queue: Seq<i16>, capacity: nat, sample: i16) -> Seq<i16> {
    if has_room(queue, capacity) {
        queue.push(sample)
    } else {
        queue
    }
}

/// The producer found the channel full: the sample was not queued.
#[derive(Clone, Copy, Debug, PartialEq, Eq)]
pub struct ChannelFull;

/// A fixed-capacity first-in first-out queue of samples.
pub struct SampleChannel {
    producer: Producer<i16>,
    consumer: Consumer<i16>,
    capacity: usize,
    len: usize,
}

impl View for SampleChannel {
    type V = Seq<i16>;

    /// The samples waiting in the channel, oldest first.
    closed spec fn view(&self) -> Seq<i16> {
        ring_samples(self.consumer)
    }
}

impl SampleChannel {
    /// The channel's two halves belong together and its bookkeeping matches
    /// the ring.
    pub closed spec fn wf(&self) -> bool {
        &&& ring_halves(self.producer, self.consumer)
        &&& ring_limit(self.producer) == self.capacity
        &&& ring_samples(self.consumer).len() == self.len
        &&& self.len <= self.capacity
    }

    /// The capacity the channel was made with.
    pub closed spec fn spec_capacity(&self) -> nat {
        self.capacity as nat
    }

    /// A well-formed channel never holds more samples than its capacity.
    pub proof fn lemma_bounded(&self)
        requires
            self.wf(),
        ensures
            self@.len() <= self.spec_capacity(),
            self.spec_capacity() <= usize::MAX,
    {
    }

    /// An empty channel of the given capacity, or `None` when the capacity is
    /// larger than [`max_capacity`].
    pub fn new(capacity: usize) -> (made: Option<SampleChannel>)
        ensures
            made is Some <==> capacity <= max_capacity(),
            made matches Some(channel) ==> channel.wf() && channel@ == Seq::<i16>::empty()
                && channel.spec_capacity() == capacity,
    {
        if capacity > usize::MAX / 4 - 1 {
            return None;
        }
        let (producer, consumer) = ring_split(capacity);
        Some(SampleChannel { producer, consumer, capacity, len: 0 })
    }

    /// Queues one sample without blocking. A full channel refuses the sample
    /// and stays as it was.
    pub fn push(&mut self, sample: i16) -> (r: Result<(), ChannelFull>)
        requires
            old(self).wf(),
        ensures
            final(self).wf(),
            final(self).spec_capacity() == old(self).spec_capacity(),
            r is Ok <==> has_room(old(self)@, old(self).spec_capacity()),
            final(self)@ == after_push(old(self)@, old(self).spec_capacity(), sample),
    {
        let pushed = ring_push(&mut self.producer, &mut self.consumer, sample);
        if pushed {
            self.len = self.len + 1;
            Ok(())
        } else {
            Err(ChannelFull)
        }
    }

    /// Takes the oldest sample without blocking, or `None` from an empty
    /// channel.
    pub fn pop(&mut self) -> (sample: Option<i16>)
        requires
            old(self).wf(),
        ensures
            final(self).wf(),
            final(self).spec_capacity() == old(self).spec_capacity(),
            sample == head_of(old(self)@),
            final(self)@ == tail_of(old(self)@),
    {
        let sample = ring_pop(&mut self.producer, &mut self.consumer);
        if sample.is_some() {
            self.len = self.len - 1;
        }
        sample
    }

    /// The number of samples waiting.
    pub fn len(&self) -> (n: usize)
        requires
            self.wf(),
        ensures
            n == self@.len(),
            n <= self.spec_capacity(),
    {
        self.len
    }

    /// The capacity the channel was made with.
    pub fn capacity(&self) -> (n: usize)
        requires
            self.wf(),
        ensures
            n == self.spec_capacity(),
    {
        self.capacity
    }

    /// Whether no sample is waiting.
    pub fn is_empty(&self) -> (empty: bool)
        requires
            self.wf(),
        ensures
            empty == (self@.len() == 0),
    {
        self.len == 0
    }

    /// Whether the next push would be refused.
    pub fn is_full(&self) -> (full: bool)
        requires
            self.wf(),
        ensures
            full == !has_room(self@, self.spec_capacity()),
    {
        self.len == self.capacity
    }

    /// The number of samples that can still be queued.
    pub fn remaining(&self) -> (n: usize)
        requires
            self.wf(),
        ensures
            n == self.spec_capacity() - self@.len(),
    {
        self.capacity - self.len
    }

    /// Takes the channel apart, for a producer and a consumer that live on
    /// different threads. The halves still share the ring and what it holds.
    pub fn into_halves(self) -> (halves: (Producer<i16>, Consumer<i16>))
        requires
            self.wf(),
        ensures
            ring_halves(halves.0, halves.1),
            ring_samples(halves.1) == self@,
            ring_limit(halves.0) == self.spec_capacity(),
    {
        (self.producer, self.consumer)
    }
}

/// One use of a channel: a push of a sample, or a pop.
pub enum ChannelOp {
    Push(i16),
    Pop,
}

/// The samples that a script of operations hands to `push`, in order.
pub open spec fn offered(ops: Seq<ChannelOp>) -> Seq<i16>
    decreases ops.len(),
{
    if ops.len() == 0 {
        Seq::empty()
    } else {
        match ops.last() {
            ChannelOp::Push(sample) => offered(ops.drop_last()).push(sample),
            ChannelOp::Pop => offered(ops.drop_last()),
        }
    }
}

/// What a channel of the given capacity holds after a script of operations
/// ran on it, starting empty.
pub open spec fn queue_after(ops: Seq<ChannelOp>, capacity: nat) -> Seq<i16>
    decreases ops.len(),
{
    if ops.len() == 0 {
        Seq::empty()
    } else {
        let before = queue_after(ops.drop_last(), capacity);
        match ops.last() {
            ChannelOp::Push(sample) => after_push(before, capacity, sample),
            ChannelOp::Pop => tail_of(before),
        }
    }
}

/// The samples that the pops of a script return, in order, on a channel of
/// the given capacity that starts empty.
pub open spec fn delivered(ops: Seq<ChannelOp>, capacity: nat) -> Seq<i16>
    decreases ops.len(),
{
    if ops.len() == 0 {
        Seq::empty()
    } else {
        let earlier = delivered(ops.drop_last(), capacity);
        match ops.last() {
            ChannelOp::Push(_) => earlier,
            ChannelOp::Pop => match head_of(queue_after(ops.drop_last(), capacity)) {
                Some(sample) => earlier.push(sample),
                None => earlier,
            },
        }
    }
}

/// Whether a script stays within the capacity: each of its pushes finds room.
pub open spec fn within_capacity(ops: Seq<ChannelOp>, capacity: nat) -> bool
    decreases ops.len(),
{
    ops.len() == 0 || {
        &&& within_capacity(ops.drop_last(), capacity)
        &&& ops.last() is Push ==> has_room(queue_after(ops.drop_last(), capacity), capacity)
    }
}

/// First in, first out: whatever pushes and pops run on a channel within its
/// capacity, the samples delivered so far followed by the samples still
/// waiting are the samples offered, in the order they were offered. Nothing is
/// lost, repeated or reordered.
pub proof fn lemma_fifo(ops: Seq<ChannelOp>, capacity: nat)
    requires
        within_capacity(ops, capacity),
    ensures
        delivered(ops, capacity) + queue_after(ops, capacity) == offered(ops),
    decreases ops.len(),
{
    if ops.len() > 0 {
        let earlier = ops.drop_last();
        lemma_fifo(earlier, capacity);
        let before = queue_after(earlier, capacity);
        let got = delivered(earlier, capacity);
        match ops.last() {
            ChannelOp::Push(sample) => {
                assert(got + before.push(sample) =~= (got + before).push(sample));
            },
            ChannelOp::Pop => {
                if before.len() > 0 {
                    assert(got.push(before[0]) + tail_of(before) =~= got + before);
                }
            },
        }
    }
}

/// A channel never holds more than its capacity, whatever is pushed.
pub proof fn lemma_queue_bounded(ops: Seq<ChannelOp>, capacity: nat)
    ensures
        queue_after(ops, capacity).len() <= capacity,
    decreases ops.len(),
{
    if ops.len() > 0 {
        lemma_queue_bounded(ops.drop_last(), capacity);
    }
}

} // verus!
