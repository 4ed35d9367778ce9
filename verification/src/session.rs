//! The listening session controller: one listening window, from the start of
//! capture to teardown. The controller is told what happened and answers
//! with what to do next; it never acts itself. Whatever ends the window, it
//! asks for the engine to be stopped and then for capture to be stopped, each
//! exactly once.

use crate::capture::OverflowPolicy;
use crate::precise::{EngineError, Prediction, TriggerPolicy};
use vstd::prelude::*;

verus! {

/// Something that went wrong in a component of the pipeline.
#[derive(Clone, Copy, Debug, PartialEq, Eq, Structural)]
pub enum Fault {
    /// The audio device could not be opened, started or stopped.
    DeviceError,
    /// The sample channel refused a sample.
    ChannelFull,
    /// The detection engine client failed.
    Engine(EngineError),
    /// A recording could not be written.
    SinkWriteError,
}

/// Whether a fault ends the listening window. A full channel does so under
/// the abort policy only; a failed write to a recording never does; every
/// other fault always does.
pub open spec fn is_fatal(fault: Fault, overflow: OverflowPolicy) -> bool {
    match fault {
        Fault::DeviceError => true,
        Fault::ChannelFull => overflow == OverflowPolicy::Abort,
        Fault::Engine(_) => true,
        Fault::SinkWriteError => false,
    }
}

/// Whether a fault ends the listening window.
pub fn fault_is_fatal(fault: Fault, overflow: OverflowPolicy) -> (fatal: bool)
    ensures
        fatal == is_fatal(fault, overflow),
{
    match fault {
        Fault::DeviceError => true,
        Fault::ChannelFull => match overflow {
            OverflowPolicy::Abort => true,
            OverflowPolicy::DropSample => false,
        },
        Fault::Engine(_) => true,
        Fault::SinkWriteError => false,
    }
}

/// How far a listening window has come.
#[derive(Clone, Copy, Debug, PartialEq, Eq, Structural)]
pub enum Phase {
    /// Chunks flow to the engine.
    Listening,
    /// The window has ended and the engine is being stopped.
    StoppingEngine,
    /// The engine is stopped and capture is being stopped.
    StoppingCapture,
    /// Both are stopped.
    Closed,
}

/// Why a listening window ended.
#[derive(Clone, Copy, Debug, PartialEq, Eq, Structural)]
pub enum Outcome {
    /// A prediction triggered the wake word.
    Detected,
    /// The time allowed for the window ran out.
    TimedOut,
    /// A stop was asked for from outside.
    Interrupted,
    /// A fatal fault occurred.
    Failed(Fault),
}

/// What the controller is told.
#[derive(Clone, Copy, Debug, PartialEq, Eq, Structural)]
pub enum Event {
    /// The loop looked at the clock: so many whole seconds have passed since
    /// the window began.
    Tick(u64),
    /// The engine answered a chunk; the flag says whether the answer
    /// triggers the wake word.
    Prediction(bool),
    /// A stop was asked for from outside.
    StopRequested,
    /// A component reported a fault.
    Faulted(Fault),
    /// The engine has been stopped as asked.
    EngineStopped,
    /// Capture has been stopped as asked.
    CaptureStopped,
}

/// The event that the engine's answer to a chunk amounts to: a prediction,
/// triggering or not as the policy has it, or the engine's fault.
pub open spec fn answer_event(answer: Result<Prediction, EngineError>, policy: TriggerPolicy) -> Event {
    match answer {
        Ok(prediction) => Event::Prediction(policy.spec_triggers(prediction@)),
        Err(error) => Event::Faulted(Fault::Engine(error)),
    }
}

/// The event that the engine's answer to a chunk amounts to.
pub fn event_of_answer(answer: &Result<Prediction, EngineError>, policy: &TriggerPolicy) -> (event: Event)
    ensures
        event == answer_event(*answer, *policy),
{
    match answer {
        Ok(prediction) => Event::Prediction(policy.triggers(prediction)),
        Err(error) => Event::Faulted(Fault::Engine(*error)),
    }
}

/// What the controller asks for in answer to an event.
#[derive(Clone, Copy, Debug, PartialEq, Eq, Structural)]
pub enum Directive {
    /// Go on listening.
    Continue,
    /// Report the fault and go on listening.
    Report(Fault),
    /// Stop the detection engine client now.
    StopEngine,
    /// Stop the capture stream now.
    StopCapture,
    /// The window is over, for the given reason.
    Finished(Outcome),
    /// The event does not matter any more; do nothing.
    Ignore,
}

/// The controller of one listening window.
#[derive(Clone, Copy, Debug, PartialEq, Eq, Structural)]
pub struct ListeningSession {
    /// Where the window stands.
    pub phase: Phase,
    /// The seconds after which the window ends by itself, if any.
    pub timeout_secs: Option<u64>,
    /// What a full channel means for the window.
    pub overflow: OverflowPolicy,
    /// Why the window ended, once it has.
    pub outcome: Option<Outcome>,
}

/// The reason for which an event ends a window that is listening, if it does.
pub open spec fn ending(session: ListeningSession, event: Event) -> Option<Outcome> {
    match event {
        Event::Tick(elapsed) => match session.timeout_secs {
            Some(limit) => if elapsed >= limit {
                Some(Outcome::TimedOut)
            } else {
                None
            },
            None => None,
        },
        Event::Prediction(triggered) => if triggered {
            Some(Outcome::Detected)
        } else {
            None
        },
        Event::StopRequested => Some(Outcome::Interrupted),
        Event::Faulted(fault) => if is_fatal(fault, session.overflow) {
            Some(Outcome::Failed(fault))
        } else {
            None
        },
        Event::EngineStopped => None,
        Event::CaptureStopped => None,
    }
}

/// The controller after an event.
pub open spec fn next_session(session: ListeningSession, event: Event) -> ListeningSession {
    match session.phase {
        Phase::Listening => match ending(session, event) {
            Some(outcome) => ListeningSession {
                phase: Phase::StoppingEngine,
                outcome: Some(outcome),
                ..session
            },
            None => session,
        },
        Phase::StoppingEngine => if event == Event::EngineStopped {
            ListeningSession { phase: Phase::StoppingCapture, ..session }
        } else {
            session
        },
        Phase::StoppingCapture => if event == Event::CaptureStopped {
            ListeningSession { phase: Phase::Closed, ..session }
        } else {
            session
        },
        Phase::Closed => session,
    }
}

/// The controller's answer to an event.
pub open spec fn directive_for(session: ListeningSession, event: Event) -> Directive {
    match session.phase {
        Phase::Listening => match ending(session, event) {
            Some(_) => Directive::StopEngine,
            None => match event {
                Event::Faulted(fault) => Directive::Report(fault),
                _ => Directive::Continue,
            },
        },
        Phase::StoppingEngine => if event == Event::EngineStopped {
            Directive::StopCapture
        } else {
            Directive::Ignore
        },
        Phase::StoppingCapture => if event == Event::CaptureStopped {
            match session.outcome {
                Some(outcome) => Directive::Finished(outcome),
                None => Directive::Ignore,
            }
        } else {
            Directive::Ignore
        },
        Phase::Closed => Directive::Ignore,
    }
}

/// The controller is consistent: the reason for the end is known exactly when
/// the window has ended.
pub open spec fn consistent(session: ListeningSession) -> bool {
    session.outcome is Some <==> session.phase != Phase::Listening
}

impl ListeningSession {
    /// A controller for a window that is listening, with the given time limit
    /// in seconds, if any, and the given meaning of a full channel.
    pub fn new(timeout_secs: Option<u64>, overflow: OverflowPolicy) -> (session: ListeningSession)
        ensures
            session == (ListeningSession {
                phase: Phase::Listening,
                timeout_secs,
                overflow,
                outcome: None,
            }),
            consistent(session),
    {
        ListeningSession { phase: Phase::Listening, timeout_secs, overflow, outcome: None }
    }

    /// Takes an event and answers with what to do next.
    pub fn handle(&mut self, event: Event) -> (directive: Directive)
        ensures
            *final(self) == next_session(*old(self), event),
            directive == directive_for(*old(self), event),
            consistent(*old(self)) ==> consistent(*final(self)),
    {
        match self.phase {
            Phase::Listening => match self.ends_on(event) {
                Some(outcome) => {
                    self.phase = Phase::StoppingEngine;
                    self.outcome = Some(outcome);
                    Directive::StopEngine
                },
                None => match event {
                    Event::Faulted(fault) => Directive::Report(fault),
                    _ => Directive::Continue,
                },
            },
            Phase::StoppingEngine => match event {
                Event::EngineStopped => {
                    self.phase = Phase::StoppingCapture;
                    Directive::StopCapture
                },
                _ => Directive::Ignore,
            },
            Phase::StoppingCapture => match event {
                Event::CaptureStopped => {
                    self.phase = Phase::Closed;
                    match self.outcome {
                        Some(outcome) => Directive::Finished(outcome),
                        None => Directive::Ignore,
                    }
                },
                _ => Directive::Ignore,
            },
            Phase::Closed => Directive::Ignore,
        }
    }

    /// The reason for which an event ends the window while it is listening,
    /// if it does.
    pub fn ends_on(&self, event: Event) -> (outcome: Option<Outcome>)
        ensures
            outcome == ending(*self, event),
    {
        match event {
            Event::Tick(elapsed) => match self.timeout_secs {
                Some(limit) => if elapsed >= limit {
                    Some(Outcome::TimedOut)
                } else {
                    None
                },
                None => None,
            },
            Event::Prediction(triggered) => if triggered {
                Some(Outcome::Detected)
            } else {
                None
            },
            Event::StopRequested => Some(Outcome::Interrupted),
            Event::Faulted(fault) => if fault_is_fatal(fault, self.overflow) {
                Some(Outcome::Failed(fault))
            } else {
                None
            },
            Event::EngineStopped => None,
            Event::CaptureStopped => None,
        }
    }
}

/// The controller after a run of events.
pub open spec fn session_after(start: ListeningSession, events: Seq<Event>) -> ListeningSession
    decreases events.len(),
{
    if events.len() == 0 {
        start
    } else {
        next_session(session_after(start, events.drop_last()), events.last())
    }
}

/// The controller's answers to a run of events, in order.
pub open spec fn directives_for(start: ListeningSession, events: Seq<Event>) -> Seq<Directive>
    decreases events.len(),
{
    if events.len() == 0 {
        Seq::empty()
    } else {
        directives_for(start, events.drop_last()).push(
            directive_for(session_after(start, events.drop_last()), events.last()),
        )
    }
}

/// How often a directive occurs in a run of answers.
pub open spec fn occurrences(directives: Seq<Directive>, wanted: Directive) -> nat
    decreases directives.len(),
{
    if directives.len() == 0 {
        0
    } else {
        occurrences(directives.drop_last(), wanted) + if directives.last() == wanted {
            1nat
        } else {
            0nat
        }
    }
}

/// Teardown happens once and in order. Whatever events a listening window
/// sees, the controller has asked for the engine to be stopped exactly once
/// if the window has ended and not at all if it has not, and it has asked for
/// capture to be stopped exactly once if the engine's stop was confirmed and
/// not at all before. As this holds after every event, capture is never
/// stopped before the engine, and neither is stopped twice.
pub proof fn lemma_teardown_once(start: ListeningSession, events: Seq<Event>)
    requires
        start.phase == Phase::Listening,
    ensures
        occurrences(directives_for(start, events), Directive::StopEngine) == (if session_after(
            start,
            events,
        ).phase == Phase::Listening {
            0nat
        } else {
            1nat
        }),
        occurrences(directives_for(start, events), Directive::StopCapture) == (if session_after(
            start,
            events,
        ).phase == Phase::Listening || session_after(start, events).phase == Phase::StoppingEngine {
            0nat
        } else {
            1nat
        }),
    decreases events.len(),
{
    if events.len() > 0 {
        lemma_teardown_once(start, events.drop_last());
        let answers = directives_for(start, events);
        assert(answers.drop_last() =~= directives_for(start, events.drop_last()));
    }
}

/// Every way out of listening leads to teardown: an event that ends the
/// window is answered with the request to stop the engine, the confirmation
/// of that with the request to stop capture, and the confirmation of that
/// with the end of the window and the reason for it.
pub proof fn lemma_ending_tears_down(session: ListeningSession, event: Event, outcome: Outcome)
    requires
        session.phase == Phase::Listening,
        ending(session, event) == Some(outcome),
    ensures
        directive_for(session, event) == Directive::StopEngine,
        directive_for(next_session(session, event), Event::EngineStopped) == Directive::StopCapture,
        directive_for(
            next_session(next_session(session, event), Event::EngineStopped),
            Event::CaptureStopped,
        ) == Directive::Finished(outcome),
        next_session(
            next_session(next_session(session, event), Event::EngineStopped),
            Event::CaptureStopped,
        ).phase == Phase::Closed,
{
}

} // verus!
