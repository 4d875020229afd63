//! Scancode decoding: a protocol state machine that turns a stream of raw
//! keyboard bytes into discrete [`KeyEvent`]s, consuming exactly the bytes of
//! one logical event before re-synchronizing, even on error.

use vstd::prelude::*;

use super::{Error, KeyCode, KeyEvent, KeyState};

verus! {

/// First byte of a two-byte extended scancode sequence.
pub const EXTENDED_KEY_CODE: u8 = 0xE0;

/// First byte of a three-byte extended scancode sequence.
pub const EXTENDED2_KEY_CODE: u8 = 0xE1;

/// A scancode decoder: one protocol for turning raw bytes into key events.
pub trait ScancodeSet: Sized {
    /// The decoder state after consuming one byte.
    spec fn spec_next(self, code: u8) -> Self;

    /// What consuming one byte yields: nothing yet, a completed event, or an
    /// error for a byte with no mapping.
    spec fn spec_output(self, code: u8) -> Result<Option<KeyEvent>, Error>;

    /// Consumes one raw byte, advancing the decoder and yielding at most one
    /// completed key event.
    fn add_byte(&mut self, code: u8) -> (r: Result<Option<KeyEvent>, Error>)
        ensures
            *final(self) == old(self).spec_next(code),
            r == old(self).spec_output(code),
    ;
}

/// Decode progress within one multi-byte scancode sequence.
#[derive(Debug, Copy, Clone, Eq, PartialEq, Structural)]
pub enum DecodeState {
    /// At a sequence boundary.
    Start,
    /// The previous byte was the two-byte-sequence prefix.
    Extended,
    /// The previous byte was the three-byte-sequence prefix.
    Extended2,
}

/// The single-byte scancode table (scancode set 1, "make" codes with the
/// break bit cleared).
pub open spec fn map_scancode_spec(code: u8) -> Result<KeyCode, Error> {
    match code {
        0x01 => Ok(KeyCode::Escape),
        0x02 => Ok(KeyCode::Key1),
        0x03 => Ok(KeyCode::Key2),
        0x04 => Ok(KeyCode::Key3),
        0x05 => Ok(KeyCode::Key4),
        0x06 => Ok(KeyCode::Key5),
        0x07 => Ok(KeyCode::Key6),
        0x08 => Ok(KeyCode::Key7),
        0x09 => Ok(KeyCode::Key8),
        0x0A => Ok(KeyCode::Key9),
        0x0B => Ok(KeyCode::Key0),
        0x0C => Ok(KeyCode::OemMinus),
        0x0D => Ok(KeyCode::OemPlus),
        0x0E => Ok(KeyCode::Backspace),
        0x0F => Ok(KeyCode::Tab),
        0x10 => Ok(KeyCode::Q),
        0x11 => Ok(KeyCode::W),
        0x12 => Ok(KeyCode::E),
        0x13 => Ok(KeyCode::R),
        0x14 => Ok(KeyCode::T),
        0x15 => Ok(KeyCode::Y),
        0x16 => Ok(KeyCode::U),
        0x17 => Ok(KeyCode::I),
        0x18 => Ok(KeyCode::O),
        0x19 => Ok(KeyCode::P),
        0x1A => Ok(KeyCode::OemOpen),
        0x1B => Ok(KeyCode::OemClose),
        0x1C => Ok(KeyCode::Enter),
        0x1E => Ok(KeyCode::A),
        0x1F => Ok(KeyCode::S),
        0x20 => Ok(KeyCode::D),
        0x21 => Ok(KeyCode::F),
        0x22 => Ok(KeyCode::G),
        0x23 => Ok(KeyCode::H),
        0x24 => Ok(KeyCode::J),
        0x25 => Ok(KeyCode::K),
        0x26 => Ok(KeyCode::L),
        0x27 => Ok(KeyCode::OemColon),
        0x28 => Ok(KeyCode::OemQuote),
        0x29 => Ok(KeyCode::OemTilde),
        0x2A => Ok(KeyCode::LeftShift),
        0x2B => Ok(KeyCode::OemPipe),
        0x2C => Ok(KeyCode::Z),
        0x2D => Ok(KeyCode::X),
        0x2E => Ok(KeyCode::C),
        0x2F => Ok(KeyCode::V),
        0x30 => Ok(KeyCode::B),
        0x31 => Ok(KeyCode::N),
        0x32 => Ok(KeyCode::M),
        0x33 => Ok(KeyCode::OemComma),
        0x34 => Ok(KeyCode::OemPeriod),
        0x35 => Ok(KeyCode::OemQuestion),
        0x36 => Ok(KeyCode::RightShift),
        0x37 => Ok(KeyCode::NumpadMultiply),
        0x39 => Ok(KeyCode::Spacebar),
        0x3A => Ok(KeyCode::CapsLock),
        0x3B => Ok(KeyCode::F1),
        0x3C => Ok(KeyCode::F2),
        0x3D => Ok(KeyCode::F3),
        0x3E => Ok(KeyCode::F4),
        0x45 => Ok(KeyCode::NumpadLock),
        0x47 => Ok(KeyCode::Numpad7),
        0x48 => Ok(KeyCode::Numpad8),
        0x49 => Ok(KeyCode::Numpad9),
        0x4A => Ok(KeyCode::NumpadSubtract),
        0x4B => Ok(KeyCode::Numpad4),
        0x4C => Ok(KeyCode::Numpad5),
        0x4D => Ok(KeyCode::Numpad6),
        0x4E => Ok(KeyCode::NumpadAdd),
        0x4F => Ok(KeyCode::Numpad1),
        0x50 => Ok(KeyCode::Numpad2),
        0x51 => Ok(KeyCode::Numpad3),
        0x52 => Ok(KeyCode::Numpad0),
        0x53 => Ok(KeyCode::NumpadPeriod),
        _ => Err(Error::UnknownKeyCode),
    }
}

/// The extended scancode table (bytes after the two-byte-sequence prefix),
/// disjoint from the single-byte table: navigation keys, numpad enter and
/// divide, and the arrows.
pub open spec fn map_extended_scancode_spec(code: u8) -> Result<KeyCode, Error> {
    match code {
        0x1C => Ok(KeyCode::NumpadEnter),
        0x35 => Ok(KeyCode::NumpadDivide),
        0x47 => Ok(KeyCode::Home),
        0x48 => Ok(KeyCode::ArrowUp),
        0x49 => Ok(KeyCode::PageUp),
        0x4B => Ok(KeyCode::ArrowLeft),
        0x4D => Ok(KeyCode::ArrowRight),
        0x4F => Ok(KeyCode::End),
        0x50 => Ok(KeyCode::ArrowDown),
        0x51 => Ok(KeyCode::PageDown),
        0x52 => Ok(KeyCode::Insert),
        0x53 => Ok(KeyCode::Delete),
        _ => Err(Error::UnknownKeyCode),
    }
}

/// The decode state after one byte: only the two prefix bytes seen at a
/// sequence boundary leave `Start`; every other byte ends its sequence.
pub open spec fn next_state_spec(state: DecodeState, code: u8) -> DecodeState {
    match state {
        DecodeState::Start => {
            if code == EXTENDED_KEY_CODE {
                DecodeState::Extended
            } else if code == EXTENDED2_KEY_CODE {
                DecodeState::Extended2
            } else {
                DecodeState::Start
            }
        },
        DecodeState::Extended => DecodeState::Start,
        DecodeState::Extended2 => DecodeState::Start,
    }
}

/// A table lookup with the break-bit convention: bytes at and above 0x80 are
/// releases of the key given by the low seven bits, bytes below are presses.
pub open spec fn keyevent_from_table(
    table: spec_fn(u8) -> Result<KeyCode, Error>,
    code: u8,
) -> Result<Option<KeyEvent>, Error> {
    if code >= 0x80 {
        match table((code - 0x80) as u8) {
            Ok(k) => Ok(Some(KeyEvent { code: k, state: KeyState::Up })),
            Err(e) => Err(e),
        }
    } else {
        match table(code) {
            Ok(k) => Ok(Some(KeyEvent { code: k, state: KeyState::Down })),
            Err(e) => Err(e),
        }
    }
}

/// What one byte yields in each decode state: prefixes yield nothing yet,
/// table lookups yield one event or an error, and a byte after the
/// three-byte-sequence prefix is unsupported.
pub open spec fn decode_output_spec(state: DecodeState, code: u8) -> Result<
    Option<KeyEvent>,
    Error,
> {
    match state {
        DecodeState::Start => {
            if code == EXTENDED_KEY_CODE || code == EXTENDED2_KEY_CODE {
                Ok(None)
            } else {
                keyevent_from_table(|c: u8| map_scancode_spec(c), code)
            }
        },
        DecodeState::Extended => keyevent_from_table(|c: u8| map_extended_scancode_spec(c), code),
        DecodeState::Extended2 => Err(Error::UnknownKeyCode),
    }
}

/// The scancode set 1 decoder.
pub struct ScancodeSet1 {
    /// Progress within the current scancode sequence.
    pub state: DecodeState,
}

impl ScancodeSet1 {
    /// A fresh decoder, at a sequence boundary.
    pub fn new() -> (r: Self)
        ensures
            r.state == DecodeState::Start,
    {
        ScancodeSet1 { state: DecodeState::Start }
    }

    /// Looks a byte up in the single-byte table.
    pub fn map_scancode(code: u8) -> (r: Result<KeyCode, Error>)
        ensures
            r == map_scancode_spec(code),
    {
        match code {
            0x01 => Ok(KeyCode::Escape),
            0x02 => Ok(KeyCode::Key1),
            0x03 => Ok(KeyCode::Key2),
            0x04 => Ok(KeyCode::Key3),
            0x05 => Ok(KeyCode::Key4),
            0x06 => Ok(KeyCode::Key5),
            0x07 => Ok(KeyCode::Key6),
            0x08 => Ok(KeyCode::Key7),
            0x09 => Ok(KeyCode::Key8),
            0x0A => Ok(KeyCode::Key9),
            0x0B => Ok(KeyCode::Key0),
            0x0C => Ok(KeyCode::OemMinus),
            0x0D => Ok(KeyCode::OemPlus),
            0x0E => Ok(KeyCode::Backspace),
            0x0F => Ok(KeyCode::Tab),
            0x10 => Ok(KeyCode::Q),
            0x11 => Ok(KeyCode::W),
            0x12 => Ok(KeyCode::E),
            0x13 => Ok(KeyCode::R),
            0x14 => Ok(KeyCode::T),
            0x15 => Ok(KeyCode::Y),
            0x16 => Ok(KeyCode::U),
            0x17 => Ok(KeyCode::I),
            0x18 => Ok(KeyCode::O),
            0x19 => Ok(KeyCode::P),
            0x1A => Ok(KeyCode::OemOpen),
            0x1B => Ok(KeyCode::OemClose),
            0x1C => Ok(KeyCode::Enter),
            0x1E => Ok(KeyCode::A),
            0x1F => Ok(KeyCode::S),
            0x20 => Ok(KeyCode::D),
            0x21 => Ok(KeyCode::F),
            0x22 => Ok(KeyCode::G),
            0x23 => Ok(KeyCode::H),
            0x24 => Ok(KeyCode::J),
            0x25 => Ok(KeyCode::K),
            0x26 => Ok(KeyCode::L),
            0x27 => Ok(KeyCode::OemColon),
            0x28 => Ok(KeyCode::OemQuote),
            0x29 => Ok(KeyCode::OemTilde),
            0x2A => Ok(KeyCode::LeftShift),
            0x2B => Ok(KeyCode::OemPipe),
            0x2C => Ok(KeyCode::Z),
            0x2D => Ok(KeyCode::X),
            0x2E => Ok(KeyCode::C),
            0x2F => Ok(KeyCode::V),
            0x30 => Ok(KeyCode::B),
            0x31 => Ok(KeyCode::N),
            0x32 => Ok(KeyCode::M),
            0x33 => Ok(KeyCode::OemComma),
            0x34 => Ok(KeyCode::OemPeriod),
            0x35 => Ok(KeyCode::OemQuestion),
            0x36 => Ok(KeyCode::RightShift),
            0x37 => Ok(KeyCode::NumpadMultiply),
            0x39 => Ok(KeyCode::Spacebar),
            0x3A => Ok(KeyCode::CapsLock),
            0x3B => Ok(KeyCode::F1),
            0x3C => Ok(KeyCode::F2),
            0x3D => Ok(KeyCode::F3),
            0x3E => Ok(KeyCode::F4),
            0x45 => Ok(KeyCode::NumpadLock),
            0x47 => Ok(KeyCode::Numpad7),
            0x48 => Ok(KeyCode::Numpad8),
            0x49 => Ok(KeyCode::Numpad9),
            0x4A => Ok(KeyCode::NumpadSubtract),
            0x4B => Ok(KeyCode::Numpad4),
            0x4C => Ok(KeyCode::Numpad5),
            0x4D => Ok(KeyCode::Numpad6),
            0x4E => Ok(KeyCode::NumpadAdd),
            0x4F => Ok(KeyCode::Numpad1),
            0x50 => Ok(KeyCode::Numpad2),
            0x51 => Ok(KeyCode::Numpad3),
            0x52 => Ok(KeyCode::Numpad0),
            0x53 => Ok(KeyCode::NumpadPeriod),
            _ => Err(Error::UnknownKeyCode),
        }
    }

    /// Looks a byte up in the extended table.
    pub fn map_extended_scancode(code: u8) -> (r: Result<KeyCode, Error>)
        ensures
            r == map_extended_scancode_spec(code),
    {
        match code {
            0x1C => Ok(KeyCode::NumpadEnter),
            0x35 => Ok(KeyCode::NumpadDivide),
            0x47 => Ok(KeyCode::Home),
            0x48 => Ok(KeyCode::ArrowUp),
            0x49 => Ok(KeyCode::PageUp),
            0x4B => Ok(KeyCode::ArrowLeft),
            0x4D => Ok(KeyCode::ArrowRight),
            0x4F => Ok(KeyCode::End),
            0x50 => Ok(KeyCode::ArrowDown),
            0x51 => Ok(KeyCode::PageDown),
            0x52 => Ok(KeyCode::Insert),
            0x53 => Ok(KeyCode::Delete),
            _ => Err(Error::UnknownKeyCode),
        }
    }
}

impl ScancodeSet for ScancodeSet1 {
    open spec fn spec_next(self, code: u8) -> Self {
        ScancodeSet1 { state: next_state_spec(self.state, code) }
    }

    open spec fn spec_output(self, code: u8) -> Result<Option<KeyEvent>, Error> {
        decode_output_spec(self.state, code)
    }

    fn add_byte(&mut self, code: u8) -> (r: Result<Option<KeyEvent>, Error>) {
        match self.state {
            DecodeState::Start => {
                if code == EXTENDED_KEY_CODE {
                    self.state = DecodeState::Extended;
                    Ok(None)
                } else if code == EXTENDED2_KEY_CODE {
                    self.state = DecodeState::Extended2;
                    Ok(None)
                } else if code >= 0x80 {
                    match Self::map_scancode(code - 0x80) {
                        Ok(k) => Ok(Some(KeyEvent::new(k, KeyState::Up))),
                        Err(e) => Err(e),
                    }
                } else {
                    match Self::map_scancode(code) {
                        Ok(k) => Ok(Some(KeyEvent::new(k, KeyState::Down))),
                        Err(e) => Err(e),
                    }
                }
            },
            DecodeState::Extended => {
                self.state = DecodeState::Start;
                if code >= 0x80 {
                    match Self::map_extended_scancode(code - 0x80) {
                        Ok(k) => Ok(Some(KeyEvent::new(k, KeyState::Up))),
                        Err(e) => Err(e),
                    }
                } else {
                    match Self::map_extended_scancode(code) {
                        Ok(k) => Ok(Some(KeyEvent::new(k, KeyState::Down))),
                        Err(e) => Err(e),
                    }
                }
            },
            DecodeState::Extended2 => {
                self.state = DecodeState::Start;
                Err(Error::UnknownKeyCode)
            },
        }
    }
}

/// At a sequence boundary, every possible first byte behaves in one of three
/// ways: a prefix byte transitions out of `Start` and yields nothing yet; any
/// other byte stays in `Start` and yields one event whose direction follows
/// the break bit, or an error for an unmapped code.
pub proof fn lemma_first_byte_cases(b: u8)
    ensures
        b == EXTENDED_KEY_CODE ==> next_state_spec(DecodeState::Start, b)
            == DecodeState::Extended && decode_output_spec(DecodeState::Start, b) == Ok::<
            Option<KeyEvent>,
            Error,
        >(None),
        b == EXTENDED2_KEY_CODE ==> next_state_spec(DecodeState::Start, b)
            == DecodeState::Extended2 && decode_output_spec(DecodeState::Start, b) == Ok::<
            Option<KeyEvent>,
            Error,
        >(None),
        b != EXTENDED_KEY_CODE && b != EXTENDED2_KEY_CODE ==> {
            &&& next_state_spec(DecodeState::Start, b) == DecodeState::Start
            &&& match decode_output_spec(DecodeState::Start, b) {
                Ok(Some(ev)) => (b < 0x80 ==> ev.state == KeyState::Down) && (b >= 0x80
                    ==> ev.state == KeyState::Up),
                Ok(None) => false,
                Err(e) => e == Error::UnknownKeyCode,
            }
        },
{
}

/// Error recovery is local: after any byte that fails to decode from a
/// sequence boundary, the decoder is back at the boundary, and a following
/// well-mapped press byte yields exactly its own event.
pub proof fn lemma_error_recovery(bad: u8, good: u8, k: KeyCode)
    requires
        decode_output_spec(DecodeState::Start, bad) == Err::<Option<KeyEvent>, Error>(
            Error::UnknownKeyCode,
        ),
        good < 0x80,
        map_scancode_spec(good) == Ok::<KeyCode, Error>(k),
    ensures
        next_state_spec(DecodeState::Start, bad) == DecodeState::Start,
        decode_output_spec(next_state_spec(DecodeState::Start, bad), good) == Ok::<
            Option<KeyEvent>,
            Error,
        >(Some(KeyEvent { code: k, state: KeyState::Down })),
{
    assert(bad != EXTENDED_KEY_CODE && bad != EXTENDED2_KEY_CODE);
    assert(good != EXTENDED_KEY_CODE && good != EXTENDED2_KEY_CODE);
}

} // verus!
