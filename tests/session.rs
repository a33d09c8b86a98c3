use torus::keypress::{DecodeError, KeypressEvent};
use torus::session::{loop_action, run_script, LoopAction, SessionEnd};

#[test]
fn quit_key_ends_the_script() {
    let (echoed, end) = run_script(b"abq");
    assert_eq!(echoed, vec![97, 98, 113]);
    assert_eq!(end, SessionEnd::QuitKey);
}

#[test]
fn bytes_after_quit_are_not_processed() {
    let (echoed, end) = run_script(b"hi\x03q after");
    assert_eq!(echoed, vec![104, 105, 3, 113]);
    assert_eq!(end, SessionEnd::QuitKey);
}

#[test]
fn escape_sequence_echoes_its_first_byte() {
    let (echoed, end) = run_script(&[27, 113, 120, 113]);
    assert_eq!(echoed, vec![27, 120, 113]);
    assert_eq!(end, SessionEnd::QuitKey);
}

#[test]
fn script_without_quit_runs_to_the_end() {
    let (echoed, end) = run_script(b"abc");
    assert_eq!(echoed, vec![97, 98, 99]);
    assert_eq!(end, SessionEnd::InputEnded(DecodeError::SourceRead));
}

#[test]
fn script_ending_in_escape_is_truncated() {
    let (echoed, end) = run_script(&[97, 27]);
    assert_eq!(echoed, vec![97]);
    assert_eq!(end, SessionEnd::InputEnded(DecodeError::TruncatedSequence));
}

#[test]
fn empty_script_ends_at_once() {
    let (echoed, end) = run_script(&[]);
    assert!(echoed.is_empty());
    assert_eq!(end, SessionEnd::InputEnded(DecodeError::SourceRead));
}

#[test]
fn loop_actions() {
    assert_eq!(
        loop_action(Ok(KeypressEvent::Printable(113))),
        LoopAction::EchoAndQuit(113)
    );
    assert_eq!(
        loop_action(Ok(KeypressEvent::Printable(65))),
        LoopAction::Echo(65)
    );
    assert_eq!(
        loop_action(Err(DecodeError::SourceRead)),
        LoopAction::Stop(DecodeError::SourceRead)
    );
}
