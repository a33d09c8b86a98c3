//! The read-classify-act cycle of an interactive session: what to do with each
//! decoded event, and the whole run over a scripted input.
use vstd::prelude::*;
use crate::keypress::{decode_at, next_event, DecodeError, KeypressEvent};

verus! {

/// The byte that ends a session.
pub const QUIT_KEY: u8 = 113;

/// What the loop does after one decode.
#[derive(Debug, Clone, Copy, PartialEq, Eq, Structural)]
pub enum LoopAction {
    /// Echo the byte and read on.
    Echo(u8),
    /// Echo the byte and end the session.
    EchoAndQuit(u8),
    /// End the session without echoing.
    Stop(DecodeError),
}

/// How a session ended.
#[derive(Debug, Clone, Copy, PartialEq, Eq, Structural)]
pub enum SessionEnd {
    /// The quit key was read.
    QuitKey,
    /// No further event could be decoded.
    InputEnded(DecodeError),
}

/// The action for the outcome of one decode: the event's originating byte is
/// echoed, and the quit key ends the session; a decode error ends it at once.
pub open spec fn action_of(outcome: Result<KeypressEvent, DecodeError>) -> LoopAction {
    match outcome {
        Ok(e) => if e.spec_originating_byte() == QUIT_KEY {
            LoopAction::EchoAndQuit(e.spec_originating_byte())
        } else {
            LoopAction::Echo(e.spec_originating_byte())
        },
        Err(err) => LoopAction::Stop(err),
    }
}

/// The bytes echoed, and how the session ends, when it runs over `input` from
/// position `pos`.
pub open spec fn run_from(input: Seq<u8>, pos: int) -> (Seq<u8>, SessionEnd)
    decreases input.len() - pos,
{
    match decode_at(input, pos) {
        Err(err) => (Seq::empty(), SessionEnd::InputEnded(err)),
        Ok((e, next)) => if e.spec_originating_byte() == QUIT_KEY {
            (seq![QUIT_KEY], SessionEnd::QuitKey)
        } else if pos < next <= input.len() {
            let rest = run_from(input, next);
            (seq![e.spec_originating_byte()].add(rest.0), rest.1)
        } else {
            (Seq::empty(), SessionEnd::InputEnded(DecodeError::SourceRead))
        },
    }
}

/// Decides what the loop does with the outcome of one decode.
pub fn loop_action(outcome: Result<KeypressEvent, DecodeError>) -> (r: LoopAction)
    ensures
        r == action_of(outcome),
{
    match outcome {
        Ok(e) => {
            let b = e.originating_byte();
            if b == QUIT_KEY {
                LoopAction::EchoAndQuit(b)
            } else {
                LoopAction::Echo(b)
            }
        },
        Err(err) => LoopAction::Stop(err),
    }
}

/// Runs a session over a scripted input: returns the bytes echoed, in order, and
/// how the session ended.
pub fn run_script(input: &[u8]) -> (r: (Vec<u8>, SessionEnd))
    ensures
        (r.0@, r.1) == run_from(input@, 0),
{
    let mut echoed: Vec<u8> = Vec::new();
    let mut pos: usize = 0;
    loop
        invariant
            pos <= input.len(),
            run_from(input@, 0) == (echoed@.add(run_from(input@, pos as int).0), run_from(
                input@,
                pos as int,
            ).1),
        decreases input.len() - pos,
    {
        match next_event(input, pos) {
            Err(err) => {
                assert(echoed@.add(Seq::empty()) =~= echoed@);
                return (echoed, SessionEnd::InputEnded(err));
            },
            Ok((e, next)) => {
                match loop_action(Ok(e)) {
                    LoopAction::EchoAndQuit(b) => {
                        echoed.push(b);
                        return (echoed, SessionEnd::QuitKey);
                    },
                    _ => {
                        let b = e.originating_byte();
                        let ghost before = echoed@;
                        echoed.push(b);
                        assert(before.add(run_from(input@, pos as int).0) =~= echoed@.add(
                            run_from(input@, next as int).0,
                        ));
                        pos = next;
                    },
                }
            },
        }
    }
}

proof fn lemma_quit_after(prefix: Seq<u8>, rest: Seq<u8>, pos: int)
    requires
        0 <= pos <= prefix.len(),
        run_from(prefix, pos).1 == SessionEnd::InputEnded(DecodeError::SourceRead),
    ensures
        run_from(prefix.add(seq![QUIT_KEY]).add(rest), pos) == (
            run_from(prefix, pos).0.push(QUIT_KEY),
            SessionEnd::QuitKey,
        ),
    decreases prefix.len() - pos,
{
    let full = prefix.add(seq![QUIT_KEY]).add(rest);
    assert(full[prefix.len() as int] == QUIT_KEY);
    assert forall|i: int| 0 <= i < prefix.len() implies full[i] == prefix[i] by {}
    if pos < prefix.len() {
        assert(decode_at(full, pos) == decode_at(prefix, pos));
        match decode_at(prefix, pos) {
            Ok((e, next)) => {
                lemma_quit_after(prefix, rest, next);
                assert(seq![e.spec_originating_byte()].add(run_from(prefix, next).0).push(QUIT_KEY)
                    =~= seq![e.spec_originating_byte()].add(run_from(prefix, next).0.push(QUIT_KEY)));
            },
            Err(_) => {},
        }
    } else {
        assert(run_from(prefix, pos).0.push(QUIT_KEY) =~= seq![QUIT_KEY]);
    }
}

/// A script whose bytes before a quit key decode into whole events, none of them
/// the quit key, makes the session echo what those bytes alone would echo, then
/// the quit key, and end there: nothing after the quit key is read.
pub proof fn lemma_quit_key_ends_session(prefix: Seq<u8>, rest: Seq<u8>)
    requires
        run_from(prefix, 0).1 == SessionEnd::InputEnded(DecodeError::SourceRead),
    ensures
        run_from(prefix.add(seq![QUIT_KEY]).add(rest), 0) == (
            run_from(prefix, 0).0.push(QUIT_KEY),
            SessionEnd::QuitKey,
        ),
{
    lemma_quit_after(prefix, rest, 0);
}

} // verus!
