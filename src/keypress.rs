//! Classification of the bytes read from a terminal in raw mode into keypress
//! events.
//!
//! A lone escape byte at the end of the input is an error
//! (`DecodeError::TruncatedSequence`), never a control event.
use vstd::prelude::*;

verus! {

/// The escape byte, which introduces a two-byte sequence (Alt+key).
pub const ESCAPE: u8 = 27;

/// Key code of the left Control key.
pub const KEY_LEFTCTRL: u16 = 29;

/// Key code of the right Control key.
pub const KEY_RIGHTCTRL: u16 = 97;

/// One decoded keystroke.
#[derive(Debug, Clone, Copy, PartialEq, Eq, Structural)]
pub enum KeypressEvent {
    /// A printable ASCII byte (32 to 126).
    Printable(u8),
    /// A control code (1 to 26, Ctrl+A to Ctrl+Z).
    Control(u8),
    /// The escape byte and the byte that followed it.
    EscapeSequence(u8, u8),
    /// Any other byte.
    Other(u8),
}

/// Why no event could be decoded.
#[derive(Debug, Clone, Copy, PartialEq, Eq, Structural)]
pub enum DecodeError {
    /// The source failed or had no byte left.
    SourceRead,
    /// An escape byte was the last byte available.
    TruncatedSequence,
}

/// The event of a byte other than the escape byte.
pub open spec fn single_byte_event(b: u8) -> KeypressEvent {
    if 1 <= b <= 26 {
        KeypressEvent::Control(b)
    } else if 32 <= b <= 126 {
        KeypressEvent::Printable(b)
    } else {
        KeypressEvent::Other(b)
    }
}

/// The outcome of decoding `first`, followed by `second` when the source had one
/// more byte. `second` matters only after an escape byte.
pub open spec fn event_of(first: u8, second: Option<u8>) -> Result<KeypressEvent, DecodeError> {
    if first == ESCAPE {
        match second {
            Some(b) => Ok(KeypressEvent::EscapeSequence(first, b)),
            None => Err(DecodeError::TruncatedSequence),
        }
    } else {
        Ok(single_byte_event(first))
    }
}

/// The outcome of decoding the event that starts at `pos` in `input`, with the
/// position just after it.
pub open spec fn decode_at(input: Seq<u8>, pos: int) -> Result<(KeypressEvent, int), DecodeError> {
    if pos >= input.len() {
        Err(DecodeError::SourceRead)
    } else if input[pos] == ESCAPE {
        if pos + 1 < input.len() {
            Ok((KeypressEvent::EscapeSequence(ESCAPE, input[pos + 1]), pos + 2))
        } else {
            Err(DecodeError::TruncatedSequence)
        }
    } else {
        Ok((single_byte_event(input[pos]), pos + 1))
    }
}

impl KeypressEvent {
    /// The first byte read for the event.
    pub open spec fn spec_originating_byte(self) -> u8 {
        match self {
            KeypressEvent::Printable(b) => b,
            KeypressEvent::Control(b) => b,
            KeypressEvent::EscapeSequence(b, _) => b,
            KeypressEvent::Other(b) => b,
        }
    }

    /// The first byte read for the event.
    pub fn originating_byte(&self) -> (r: u8)
        ensures
            r == self.spec_originating_byte(),
    {
        match self {
            KeypressEvent::Printable(b) => *b,
            KeypressEvent::Control(b) => *b,
            KeypressEvent::EscapeSequence(b, _) => *b,
            KeypressEvent::Other(b) => *b,
        }
    }
}

/// Whether the event starting with `first` needs one more byte.
pub fn needs_second_byte(first: u8) -> (r: bool)
    ensures
        r == (first == ESCAPE),
{
    first == ESCAPE
}

/// Decodes the event of `first`, with `second` the byte read after it, if one
/// was read and the source had it.
pub fn event_from_bytes(first: u8, second: Option<u8>) -> (r: Result<KeypressEvent, DecodeError>)
    ensures
        r == event_of(first, second),
{
    if first == ESCAPE {
        match second {
            Some(b) => Ok(KeypressEvent::EscapeSequence(first, b)),
            None => Err(DecodeError::TruncatedSequence),
        }
    } else if 1 <= first && first <= 26 {
        Ok(KeypressEvent::Control(first))
    } else if 32 <= first && first <= 126 {
        Ok(KeypressEvent::Printable(first))
    } else {
        Ok(KeypressEvent::Other(first))
    }
}

/// Decodes the event that starts at `pos` in `input`, and returns it with the
/// position just after it.
pub fn next_event(input: &[u8], pos: usize) -> (r: Result<(KeypressEvent, usize), DecodeError>)
    ensures
        r matches Ok((e, next)) ==> decode_at(input@, pos as int) == Ok::<_, DecodeError>(
            (e, next as int),
        ),
        r matches Err(err) ==> decode_at(input@, pos as int) == Err::<(KeypressEvent, int), _>(
            err,
        ),
{
    if pos >= input.len() {
        return Err(DecodeError::SourceRead);
    }
    let first = input[pos];
    let second = if needs_second_byte(first) && pos + 1 < input.len() {
        Some(input[pos + 1])
    } else {
        None
    };
    match event_from_bytes(first, second) {
        Ok(e) => {
            let next = if needs_second_byte(first) {
                pos + 2
            } else {
                pos + 1
            };
            Ok((e, next))
        },
        Err(err) => Err(err),
    }
}

/// An escape byte with nothing after it is a truncated sequence, wherever it
/// stands: as a pair of reads or at the end of an input.
pub proof fn lemma_truncated_escape(input: Seq<u8>)
    requires
        input.len() > 0,
        input.last() == ESCAPE,
    ensures
        event_of(ESCAPE, None) == Err::<KeypressEvent, _>(DecodeError::TruncatedSequence),
        decode_at(input, input.len() - 1) == Err::<(KeypressEvent, int), _>(
            DecodeError::TruncatedSequence,
        ),
{
}

/// Whether `this_key` is the code of a Control key, left or right.
pub fn is_control_pressed(this_key: u16) -> (r: bool)
    ensures
        r == (this_key == KEY_LEFTCTRL || this_key == KEY_RIGHTCTRL),
{
    this_key == KEY_LEFTCTRL || this_key == KEY_RIGHTCTRL
}

} // verus!
