use wakeword_listener::capture::OverflowPolicy;
use wakeword_listener::precise::{get_runner, EngineError, PipeReply, TriggerPolicy};
use wakeword_listener::session::{
    event_of_answer, fault_is_fatal, Directive, Event, Fault, ListeningSession, Outcome, Phase,
};

/// Stands for the components that the controller has stopped, and records
/// each stop in the order it was carried out.
struct FakeComponents {
    stops: Vec<&'static str>,
}

/// Carries out what the controller asks for until it asks for nothing more.
fn carry_out(
    session: &mut ListeningSession,
    components: &mut FakeComponents,
    first: Directive,
) -> Option<Outcome> {
    let mut directive = first;
    loop {
        match directive {
            Directive::StopEngine => {
                components.stops.push("engine");
                directive = session.handle(Event::EngineStopped);
            }
            Directive::StopCapture => {
                components.stops.push("capture");
                directive = session.handle(Event::CaptureStopped);
            }
            Directive::Finished(outcome) => return Some(outcome),
            _ => return None,
        }
    }
}

#[test]
fn a_crash_still_stops_capture() {
    let mut engine = get_runner(String::from("m"), 2);
    assert_eq!(engine.launched(true), Ok(()));
    let payload = engine.submit(&[1, 2]).unwrap();
    assert_eq!(payload.len(), 4);
    let answer = engine.get_prediction(PipeReply::Broken);
    assert_eq!(answer, Err(EngineError::EngineCrashed));

    let mut session = ListeningSession::new(Some(5), OverflowPolicy::DropSample);
    let mut components = FakeComponents { stops: Vec::new() };
    let event = event_of_answer(&answer, &TriggerPolicy::Never);
    assert_eq!(event, Event::Faulted(Fault::Engine(EngineError::EngineCrashed)));
    let directive = session.handle(event);
    assert_eq!(directive, Directive::StopEngine);
    let outcome = carry_out(&mut session, &mut components, directive);
    assert_eq!(outcome, Some(Outcome::Failed(Fault::Engine(EngineError::EngineCrashed))));
    assert_eq!(components.stops, vec!["engine", "capture"]);
    assert_eq!(session.phase, Phase::Closed);
}

#[test]
fn every_way_out_stops_engine_then_capture_once() {
    let ways = [
        (Event::Prediction(true), Outcome::Detected),
        (Event::Tick(5), Outcome::TimedOut),
        (Event::Tick(60), Outcome::TimedOut),
        (Event::StopRequested, Outcome::Interrupted),
        (Event::Faulted(Fault::DeviceError), Outcome::Failed(Fault::DeviceError)),
        (
            Event::Faulted(Fault::Engine(EngineError::MalformedResponse)),
            Outcome::Failed(Fault::Engine(EngineError::MalformedResponse)),
        ),
        (
            Event::Faulted(Fault::Engine(EngineError::ChunkSizeMismatch)),
            Outcome::Failed(Fault::Engine(EngineError::ChunkSizeMismatch)),
        ),
    ];
    for (event, expected) in ways {
        let mut session = ListeningSession::new(Some(5), OverflowPolicy::DropSample);
        let mut components = FakeComponents { stops: Vec::new() };
        assert_eq!(session.handle(Event::Prediction(false)), Directive::Continue);
        assert_eq!(session.handle(Event::Tick(4)), Directive::Continue);
        let directive = session.handle(event);
        let outcome = carry_out(&mut session, &mut components, directive);
        assert_eq!(outcome, Some(expected));
        assert_eq!(components.stops, vec!["engine", "capture"]);
        for late in [event, Event::EngineStopped, Event::CaptureStopped, Event::StopRequested] {
            assert_eq!(session.handle(late), Directive::Ignore);
        }
        assert_eq!(session.phase, Phase::Closed);
        assert_eq!(session.outcome, Some(expected));
    }
}

#[test]
fn events_during_teardown_do_not_repeat_a_stop() {
    let mut session = ListeningSession::new(None, OverflowPolicy::Abort);
    assert_eq!(session.handle(Event::StopRequested), Directive::StopEngine);
    assert_eq!(session.handle(Event::StopRequested), Directive::Ignore);
    assert_eq!(session.handle(Event::Prediction(true)), Directive::Ignore);
    assert_eq!(session.handle(Event::CaptureStopped), Directive::Ignore);
    assert_eq!(session.phase, Phase::StoppingEngine);
    assert_eq!(session.handle(Event::EngineStopped), Directive::StopCapture);
    assert_eq!(session.handle(Event::EngineStopped), Directive::Ignore);
    assert_eq!(session.handle(Event::Faulted(Fault::DeviceError)), Directive::Ignore);
    assert_eq!(session.phase, Phase::StoppingCapture);
    assert_eq!(session.handle(Event::CaptureStopped), Directive::Finished(Outcome::Interrupted));
    assert_eq!(session.handle(Event::CaptureStopped), Directive::Ignore);
}

#[test]
fn the_time_limit_is_checked_on_each_tick() {
    let mut session = ListeningSession::new(Some(5), OverflowPolicy::DropSample);
    for elapsed in 0..5 {
        assert_eq!(session.handle(Event::Tick(elapsed)), Directive::Continue);
    }
    assert_eq!(session.handle(Event::Tick(5)), Directive::StopEngine);
    assert_eq!(session.outcome, Some(Outcome::TimedOut));
}

#[test]
fn a_window_without_limit_never_times_out() {
    let mut session = ListeningSession::new(None, OverflowPolicy::DropSample);
    assert_eq!(session.handle(Event::Tick(u64::MAX)), Directive::Continue);
    assert_eq!(session.phase, Phase::Listening);
    let mut zero = ListeningSession::new(Some(0), OverflowPolicy::DropSample);
    assert_eq!(zero.handle(Event::Tick(0)), Directive::StopEngine);
}

#[test]
fn faults_that_are_not_fatal_are_reported() {
    let mut session = ListeningSession::new(Some(5), OverflowPolicy::DropSample);
    assert_eq!(
        session.handle(Event::Faulted(Fault::SinkWriteError)),
        Directive::Report(Fault::SinkWriteError)
    );
    assert_eq!(
        session.handle(Event::Faulted(Fault::ChannelFull)),
        Directive::Report(Fault::ChannelFull)
    );
    assert_eq!(session.phase, Phase::Listening);
    assert_eq!(session.outcome, None);
}

#[test]
fn a_full_channel_is_fatal_under_the_abort_policy_only() {
    assert!(fault_is_fatal(Fault::ChannelFull, OverflowPolicy::Abort));
    assert!(!fault_is_fatal(Fault::ChannelFull, OverflowPolicy::DropSample));
    assert!(!fault_is_fatal(Fault::SinkWriteError, OverflowPolicy::Abort));
    assert!(fault_is_fatal(Fault::DeviceError, OverflowPolicy::DropSample));
    assert!(fault_is_fatal(Fault::Engine(EngineError::EngineSpawnError), OverflowPolicy::DropSample));
    let mut session = ListeningSession::new(None, OverflowPolicy::Abort);
    assert_eq!(session.handle(Event::Faulted(Fault::ChannelFull)), Directive::StopEngine);
    assert_eq!(session.outcome, Some(Outcome::Failed(Fault::ChannelFull)));
}

#[test]
fn an_answer_becomes_an_event() {
    let mut engine = get_runner(String::from("m"), 1);
    assert_eq!(engine.launched(true), Ok(()));
    let answer = engine.get_prediction(PipeReply::Read(b"yes\n".to_vec()));
    assert_eq!(event_of_answer(&answer, &TriggerPolicy::Never), Event::Prediction(false));
    assert_eq!(
        event_of_answer(&answer, &TriggerPolicy::Exactly(String::from("yes"))),
        Event::Prediction(true)
    );
    assert_eq!(
        event_of_answer(&answer, &TriggerPolicy::Exactly(String::from("no"))),
        Event::Prediction(false)
    );
    let failed = engine.get_prediction(PipeReply::Read(vec![0xff, b'\n']));
    assert_eq!(
        event_of_answer(&failed, &TriggerPolicy::Never),
        Event::Faulted(Fault::Engine(EngineError::MalformedResponse))
    );
}

#[test]
fn confirmations_while_listening_change_nothing() {
    let mut session = ListeningSession::new(Some(5), OverflowPolicy::DropSample);
    assert_eq!(session.handle(Event::EngineStopped), Directive::Continue);
    assert_eq!(session.handle(Event::CaptureStopped), Directive::Continue);
    assert_eq!(session.phase, Phase::Listening);
}
