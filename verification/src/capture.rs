//! The capture adapter: what the audio callback does with the samples it is
//! handed. Each sample is offered to the sample channel and mirrored to a
//! debug recording; the adapter keeps count of what went wrong and tells the
//! audio subsystem whether the stream goes on. Nothing here blocks.

use crate::channel::SampleChannel;
use vstd::prelude::*;

verus! {

/// What the callback does with a sample that the channel refuses.
#[derive(Clone, Copy, Debug, PartialEq, Eq, Structural)]
pub enum OverflowPolicy {
    /// The sample is dropped and counted, and the stream goes on.
    DropSample,
    /// The stream is ended.
    Abort,
}

/// What the callback tells the audio subsystem when it returns.
#[derive(Clone, Copy, Debug, PartialEq, Eq, Structural)]
pub enum StreamSignal {
    /// Keep the stream alive.
    Continue,
    /// End the stream.
    Abort,
}

/// A count raised by some amount, stopping at the largest value it can hold.
pub open spec fn raised(count: u64, by: nat) -> u64 {
    if count + by > u64::MAX {
        u64::MAX
    } else {
        (count + by) as u64
    }
}

/// The signal after one sample: the stream ends when the channel refused the
/// sample and the policy is to abort.
pub open spec fn signal_after(policy: OverflowPolicy, pushed: bool) -> StreamSignal {
    if !pushed && policy == OverflowPolicy::Abort {
        StreamSignal::Abort
    } else {
        StreamSignal::Continue
    }
}

/// How many samples of a buffer a channel with the given room takes.
pub open spec fn accepted(room: nat, offered: nat) -> nat {
    if offered <= room {
        offered
    } else {
        room
    }
}

/// How many samples of a buffer are counted as refused: under the drop policy
/// every sample that found no room, under the abort policy the one that ended
/// the stream.
pub open spec fn refused(policy: OverflowPolicy, room: nat, offered: nat) -> nat {
    if offered <= room {
        0
    } else if policy == OverflowPolicy::Abort {
        1
    } else {
        (offered - room) as nat
    }
}

/// The bookkeeping of the audio callback.
#[derive(Clone, Copy, Debug, PartialEq, Eq, Structural)]
pub struct CaptureAdapter {
    policy: OverflowPolicy,
    dropped: u64,
    sink_failures: u64,
}

impl CaptureAdapter {
    /// The overflow policy.
    pub closed spec fn spec_policy(&self) -> OverflowPolicy {
        self.policy
    }

    /// The number of samples that the channel refused.
    pub closed spec fn spec_dropped(&self) -> u64 {
        self.dropped
    }

    /// The number of samples that the debug recording failed to take.
    pub closed spec fn spec_sink_failures(&self) -> u64 {
        self.sink_failures
    }

    /// An adapter with the given overflow policy that has seen no sample.
    pub fn new(policy: OverflowPolicy) -> (adapter: CaptureAdapter)
        ensures
            adapter.spec_policy() == policy,
            adapter.spec_dropped() == 0,
            adapter.spec_sink_failures() == 0,
    {
        CaptureAdapter { policy, dropped: 0, sink_failures: 0 }
    }

    /// The overflow policy.
    pub fn policy(&self) -> (policy: OverflowPolicy)
        ensures
            policy == self.spec_policy(),
    {
        self.policy
    }

    /// The number of samples that the channel refused.
    pub fn dropped(&self) -> (n: u64)
        ensures
            n == self.spec_dropped(),
    {
        self.dropped
    }

    /// The number of samples that the debug recording failed to take.
    pub fn sink_failures(&self) -> (n: u64)
        ensures
            n == self.spec_sink_failures(),
    {
        self.sink_failures
    }

    /// Records what became of one sample: whether the channel took it and
    /// whether the debug recording took it. A refused sample is counted, and
    /// ends the stream under the abort policy; a failed write to the recording
    /// is counted and never ends the stream.
    pub fn on_sample(&mut self, pushed: bool, recorded: bool) -> (signal: StreamSignal)
        ensures
            final(self).spec_policy() == old(self).spec_policy(),
            final(self).spec_dropped() == raised(old(self).spec_dropped(), if pushed { 0 } else { 1 }),
            final(self).spec_sink_failures() == raised(
                old(self).spec_sink_failures(),
                if recorded { 0 } else { 1 },
            ),
            signal == signal_after(old(self).spec_policy(), pushed),
    {
        if !recorded && self.sink_failures < u64::MAX {
            self.sink_failures = self.sink_failures + 1;
        }
        if pushed {
            StreamSignal::Continue
        } else {
            if self.dropped < u64::MAX {
                self.dropped = self.dropped + 1;
            }
            match self.policy {
                OverflowPolicy::DropSample => StreamSignal::Continue,
                OverflowPolicy::Abort => StreamSignal::Abort,
            }
        }
    }

    /// Offers a buffer of samples to the channel, in order, as one run of the
    /// callback does. The channel takes samples until it is full. Under the
    /// drop policy the rest of the buffer is dropped and counted, and the
    /// stream goes on; under the abort policy the first refused sample is
    /// counted and ends the stream. Mirroring the buffer to the debug
    /// recording is left to the caller.
    pub fn capture(&mut self, channel: &mut SampleChannel, buffer: &[i16]) -> (signal: StreamSignal)
        requires
            old(channel).wf(),
        ensures
            final(channel).wf(),
            final(channel).spec_capacity() == old(channel).spec_capacity(),
            final(self).spec_policy() == old(self).spec_policy(),
            final(self).spec_sink_failures() == old(self).spec_sink_failures(),
            final(channel)@ == old(channel)@ + buffer@.take(
                accepted((old(channel).spec_capacity() - old(channel)@.len()) as nat, buffer@.len()) as int,
            ),
            final(self).spec_dropped() == raised(
                old(self).spec_dropped(),
                refused(
                    old(self).spec_policy(),
                    (old(channel).spec_capacity() - old(channel)@.len()) as nat,
                    buffer@.len(),
                ),
            ),
            signal == signal_after(
                old(self).spec_policy(),
                buffer@.len() <= old(channel).spec_capacity() - old(channel)@.len(),
            ),
    {
        let ghost queued = channel@;
        let ghost capacity = channel.spec_capacity();
        let ghost room = (capacity - queued.len()) as nat;
        let ghost policy = self.spec_policy();
        let ghost dropped = self.spec_dropped();
        proof {
            channel.lemma_bounded();
            assert(queued + buffer@.take(0) =~= queued);
        }
        let mut i: usize = 0;
        while i < buffer.len()
            invariant
                i <= buffer.len(),
                channel.wf(),
                channel.spec_capacity() == capacity,
                capacity == old(channel).spec_capacity(),
                queued == old(channel)@,
                policy == old(self).spec_policy(),
                dropped == old(self).spec_dropped(),
                queued.len() + room == capacity,
                self.spec_policy() == policy,
                self.spec_sink_failures() == old(self).spec_sink_failures(),
                channel@ == queued + buffer@.take(accepted(room, i as nat) as int),
                self.spec_dropped() == raised(dropped, refused(policy, room, i as nat)),
                i > room ==> policy == OverflowPolicy::DropSample,
            decreases buffer.len() - i,
        {
            let ghost before = channel@;
            let pushed = channel.push(buffer[i]).is_ok();
            proof {
                if i < room {
                    assert(before.push(buffer@[i as int]) =~= queued + buffer@.take(i + 1));
                }
            }
            let signal = self.on_sample(pushed, true);
            match signal {
                StreamSignal::Abort => {
                    return StreamSignal::Abort;
                },
                StreamSignal::Continue => {},
            }
            i = i + 1;
        }
        StreamSignal::Continue
    }
}

} // verus!
