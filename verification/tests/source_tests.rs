use va_tool::endpoint::Endpoint;
use va_tool::input::{Input, InputUdp};
use va_tool::source::{Source, SourceAction, SourceEvent, SourceState, BACKOFF_SECS};

fn failing_input() -> InputUdp {
    // No host: open() fails on every attempt.
    InputUdp::new(Endpoint::new(None, None))
}

#[test]
fn supervisor_retries_failing_open_with_backoff() {
    // An input whose open always fails: at least 3 open attempts, each
    // separated by one full backoff.
    let mut source = Source::new(failing_input());
    let mut attempts = 0;
    let mut backoffs = 0;
    let mut action = source.start();
    for _ in 0..10 {
        action = match action {
            SourceAction::DoOpen => {
                attempts += 1;
                assert!(source.input_mut().open().is_err());
                source.step(SourceEvent::OpenErr)
            }
            SourceAction::DoBackoff => {
                // The embedding program would sleep BACKOFF_SECS here.
                backoffs += 1;
                source.step(SourceEvent::BackoffElapsed)
            }
            other => panic!("unexpected action {:?}", other),
        };
    }
    assert!(attempts >= 3);
    assert_eq!(backoffs, attempts);
    assert_eq!(BACKOFF_SECS, 3);
}

#[test]
fn start_moves_idle_to_opening() {
    let mut source = Source::new(failing_input());
    assert_eq!(source.state(), SourceState::Idle);
    assert_eq!(source.start(), SourceAction::DoOpen);
    assert_eq!(source.state(), SourceState::Opening);
}

#[test]
fn successful_open_moves_to_reading() {
    let mut source = Source::new(failing_input());
    source.start();
    assert_eq!(source.step(SourceEvent::OpenOk), SourceAction::DoRead);
    assert_eq!(source.state(), SourceState::Reading);
    assert_eq!(source.step(SourceEvent::ReadOk), SourceAction::DoRead);
    assert_eq!(source.step(SourceEvent::ReadErr), SourceAction::DoBackoff);
    assert_eq!(source.state(), SourceState::Failed);
    assert_eq!(source.step(SourceEvent::BackoffElapsed), SourceAction::DoOpen);
    assert_eq!(source.state(), SourceState::Opening);
}

#[test]
fn stop_is_observed_at_the_next_step() {
    let mut source = Source::new(failing_input());
    source.start();
    assert!(!source.is_stop_requested());
    source.stop().expect("stop");
    assert!(source.is_stop_requested());
    assert_eq!(source.step(SourceEvent::OpenOk), SourceAction::Exit);
}

#[test]
fn stop_before_start_wins() {
    let mut source = Source::new(failing_input());
    source.stop().expect("stop");
    assert_eq!(source.start(), SourceAction::Exit);
    assert_eq!(source.state(), SourceState::Idle);
}
