//! Keyboard layouts: the fixed mapping from a key code plus the current
//! modifier state to a character or a raw key.

use vstd::prelude::*;

use super::{DecodedKey, KeyCode, Modifiers};

verus! {

/// A layout: one fixed mapping from key and modifier state to meaning.
pub trait KeyboardLayout {
    /// The mapping this layout implements.
    spec fn spec_map_keycode(keycode: KeyCode, modifiers: Modifiers) -> DecodedKey;

    /// Maps a pressed key under the given modifier state.
    fn map_keycode(&self, keycode: KeyCode, modifiers: &Modifiers) -> (r: DecodedKey)
        ensures
            r == Self::spec_map_keycode(keycode, *modifiers),
    ;
}

/// Zero-based letter index: `A` is 0 through `Z` at 25.
pub open spec fn letter_index(k: KeyCode) -> Option<u8> {
    match k {
        KeyCode::A => Some(0u8),
        KeyCode::B => Some(1u8),
        KeyCode::C => Some(2u8),
        KeyCode::D => Some(3u8),
        KeyCode::E => Some(4u8),
        KeyCode::F => Some(5u8),
        KeyCode::G => Some(6u8),
        KeyCode::H => Some(7u8),
        KeyCode::I => Some(8u8),
        KeyCode::J => Some(9u8),
        KeyCode::K => Some(10u8),
        KeyCode::L => Some(11u8),
        KeyCode::M => Some(12u8),
        KeyCode::N => Some(13u8),
        KeyCode::O => Some(14u8),
        KeyCode::P => Some(15u8),
        KeyCode::Q => Some(16u8),
        KeyCode::R => Some(17u8),
        KeyCode::S => Some(18u8),
        KeyCode::T => Some(19u8),
        KeyCode::U => Some(20u8),
        KeyCode::V => Some(21u8),
        KeyCode::W => Some(22u8),
        KeyCode::X => Some(23u8),
        KeyCode::Y => Some(24u8),
        KeyCode::Z => Some(25u8),
        _ => None,
    }
}

/// The digit a top-row number key carries: `Key0` is 0 through `Key9` at 9.
pub open spec fn digit_value(k: KeyCode) -> Option<u8> {
    match k {
        KeyCode::Key0 => Some(0u8),
        KeyCode::Key1 => Some(1u8),
        KeyCode::Key2 => Some(2u8),
        KeyCode::Key3 => Some(3u8),
        KeyCode::Key4 => Some(4u8),
        KeyCode::Key5 => Some(5u8),
        KeyCode::Key6 => Some(6u8),
        KeyCode::Key7 => Some(7u8),
        KeyCode::Key8 => Some(8u8),
        KeyCode::Key9 => Some(9u8),
        _ => None,
    }
}

/// The digit a numpad number key carries.
pub open spec fn numpad_value(k: KeyCode) -> Option<u8> {
    match k {
        KeyCode::Numpad0 => Some(0u8),
        KeyCode::Numpad1 => Some(1u8),
        KeyCode::Numpad2 => Some(2u8),
        KeyCode::Numpad3 => Some(3u8),
        KeyCode::Numpad4 => Some(4u8),
        KeyCode::Numpad5 => Some(5u8),
        KeyCode::Numpad6 => Some(6u8),
        KeyCode::Numpad7 => Some(7u8),
        KeyCode::Numpad8 => Some(8u8),
        KeyCode::Numpad9 => Some(9u8),
        _ => None,
    }
}

/// The symbol above each digit on the US top row.
pub open spec fn shifted_digit_char(d: u8) -> char {
    match d {
        0u8 => ')',
        1u8 => '!',
        2u8 => '@',
        3u8 => '#',
        4u8 => '$',
        5u8 => '%',
        6u8 => '^',
        7u8 => '&',
        8u8 => '*',
        _ => '(',
    }
}

/// The navigation key each numpad digit stands for when num lock is off.
pub open spec fn numpad_nav_key(d: u8) -> KeyCode {
    match d {
        0u8 => KeyCode::Insert,
        1u8 => KeyCode::End,
        2u8 => KeyCode::ArrowDown,
        3u8 => KeyCode::PageDown,
        4u8 => KeyCode::ArrowLeft,
        5u8 => KeyCode::Numpad5,
        6u8 => KeyCode::ArrowRight,
        7u8 => KeyCode::Home,
        8u8 => KeyCode::ArrowUp,
        _ => KeyCode::PageUp,
    }
}

/// A letter under the caps-effective state: upper case when shift and caps
/// lock disagree is in force, lower case otherwise.
pub open spec fn letter_key_spec(i: u8, m: Modifiers) -> DecodedKey
    recommends
        i < 26,
{
    if m.spec_is_caps() {
        DecodedKey::Unicode(((65 + i) as u8) as char)
    } else {
        DecodedKey::Unicode(((97 + i) as u8) as char)
    }
}

/// A top-row digit: its symbol when shifted, the digit itself otherwise.
pub open spec fn digit_key_spec(d: u8, m: Modifiers) -> DecodedKey
    recommends
        d < 10,
{
    if m.spec_is_shifted() {
        DecodedKey::Unicode(shifted_digit_char(d))
    } else {
        DecodedKey::Unicode(((48 + d) as u8) as char)
    }
}

/// A numpad digit: the digit when num lock is on, the navigation key printed
/// below it otherwise.
pub open spec fn numpad_key_spec(d: u8, m: Modifiers) -> DecodedKey
    recommends
        d < 10,
{
    if m.numlock {
        DecodedKey::Unicode(((48 + d) as u8) as char)
    } else {
        DecodedKey::RawKey(numpad_nav_key(d))
    }
}

/// A punctuation key with a fixed (unshifted, shifted) character pair.
pub open spec fn oem_key_spec(plain: char, shifted: char, m: Modifiers) -> DecodedKey {
    if m.spec_is_shifted() {
        DecodedKey::Unicode(shifted)
    } else {
        DecodedKey::Unicode(plain)
    }
}

/// The fixed 104-key US layout mapping. Enter always yields a line feed,
/// never a carriage return; keys with no character mapping pass through as
/// raw keys.
pub open spec fn us104_map_keycode_spec(k: KeyCode, m: Modifiers) -> DecodedKey {
    match letter_index(k) {
        Some(i) => letter_key_spec(i, m),
        None => match digit_value(k) {
            Some(d) => digit_key_spec(d, m),
            None => match numpad_value(k) {
                Some(d) => numpad_key_spec(d, m),
                None => match k {
                    KeyCode::Escape => DecodedKey::Unicode(27u8 as char),
                    KeyCode::OemOpen => oem_key_spec('[', '{', m),
                    KeyCode::OemClose => oem_key_spec(']', '}', m),
                    KeyCode::OemPipe => oem_key_spec('\\', '|', m),
                    KeyCode::OemColon => oem_key_spec(';', ':', m),
                    KeyCode::OemQuote => oem_key_spec('\'', '"', m),
                    KeyCode::OemComma => oem_key_spec(',', '<', m),
                    KeyCode::OemPeriod => oem_key_spec('.', '>', m),
                    KeyCode::OemQuestion => oem_key_spec('/', '?', m),
                    KeyCode::OemTilde => oem_key_spec('`', '~', m),
                    KeyCode::OemMinus => oem_key_spec('-', '_', m),
                    KeyCode::OemPlus => oem_key_spec('=', '+', m),
                    KeyCode::NumpadPeriod => if m.numlock {
                        DecodedKey::Unicode('.')
                    } else {
                        DecodedKey::Unicode(127u8 as char)
                    },
                    KeyCode::NumpadDivide => DecodedKey::Unicode('/'),
                    KeyCode::NumpadMultiply => DecodedKey::Unicode('*'),
                    KeyCode::NumpadSubtract => DecodedKey::Unicode('-'),
                    KeyCode::NumpadAdd => DecodedKey::Unicode('+'),
                    KeyCode::Backspace => DecodedKey::Unicode(8u8 as char),
                    KeyCode::Tab => DecodedKey::Unicode('\t'),
                    KeyCode::Spacebar => DecodedKey::Unicode(' '),
                    KeyCode::Delete => DecodedKey::Unicode(127u8 as char),
                    KeyCode::Enter => DecodedKey::Unicode('\n'),
                    KeyCode::NumpadEnter => DecodedKey::Unicode('\n'),
                    _ => DecodedKey::RawKey(k),
                },
            },
        },
    }
}

/// The fixed 104-key US layout.
pub struct Us104Key;

impl Us104Key {
    /// Letter lookup used by the layout body.
    fn letter_index_x(k: KeyCode) -> (r: Option<u8>)
        ensures
            r == letter_index(k),
            r matches Some(i) ==> i < 26,
    {
        match k {
            KeyCode::A => Some(0),
            KeyCode::B => Some(1),
            KeyCode::C => Some(2),
            KeyCode::D => Some(3),
            KeyCode::E => Some(4),
            KeyCode::F => Some(5),
            KeyCode::G => Some(6),
            KeyCode::H => Some(7),
            KeyCode::I => Some(8),
            KeyCode::J => Some(9),
            KeyCode::K => Some(10),
            KeyCode::L => Some(11),
            KeyCode::M => Some(12),
            KeyCode::N => Some(13),
            KeyCode::O => Some(14),
            KeyCode::P => Some(15),
            KeyCode::Q => Some(16),
            KeyCode::R => Some(17),
            KeyCode::S => Some(18),
            KeyCode::T => Some(19),
            KeyCode::U => Some(20),
            KeyCode::V => Some(21),
            KeyCode::W => Some(22),
            KeyCode::X => Some(23),
            KeyCode::Y => Some(24),
            KeyCode::Z => Some(25),
            _ => None,
        }
    }

    /// Top-row digit lookup used by the layout body.
    fn digit_value_x(k: KeyCode) -> (r: Option<u8>)
        ensures
            r == digit_value(k),
            r matches Some(d) ==> d < 10,
    {
        match k {
            KeyCode::Key0 => Some(0),
            KeyCode::Key1 => Some(1),
            KeyCode::Key2 => Some(2),
            KeyCode::Key3 => Some(3),
            KeyCode::Key4 => Some(4),
            KeyCode::Key5 => Some(5),
            KeyCode::Key6 => Some(6),
            KeyCode::Key7 => Some(7),
            KeyCode::Key8 => Some(8),
            KeyCode::Key9 => Some(9),
            _ => None,
        }
    }

    /// Numpad digit lookup used by the layout body.
    fn numpad_value_x(k: KeyCode) -> (r: Option<u8>)
        ensures
            r == numpad_value(k),
            r matches Some(d) ==> d < 10,
    {
        match k {
            KeyCode::Numpad0 => Some(0),
            KeyCode::Numpad1 => Some(1),
            KeyCode::Numpad2 => Some(2),
            KeyCode::Numpad3 => Some(3),
            KeyCode::Numpad4 => Some(4),
            KeyCode::Numpad5 => Some(5),
            KeyCode::Numpad6 => Some(6),
            KeyCode::Numpad7 => Some(7),
            KeyCode::Numpad8 => Some(8),
            KeyCode::Numpad9 => Some(9),
            _ => None,
        }
    }

    fn letter_key_x(i: u8, m: &Modifiers) -> (r: DecodedKey)
        requires
            i < 26,
        ensures
            r == letter_key_spec(i, *m),
    {
        if m.is_caps() {
            DecodedKey::Unicode((65 + i) as char)
        } else {
            DecodedKey::Unicode((97 + i) as char)
        }
    }

    fn digit_key_x(d: u8, m: &Modifiers) -> (r: DecodedKey)
        requires
            d < 10,
        ensures
            r == digit_key_spec(d, *m),
    {
        if m.is_shifted() {
            let c = match d {
                0 => ')',
                1 => '!',
                2 => '@',
                3 => '#',
                4 => '$',
                5 => '%',
                6 => '^',
                7 => '&',
                8 => '*',
                _ => '(',
            };
            DecodedKey::Unicode(c)
        } else {
            DecodedKey::Unicode((48 + d) as char)
        }
    }

    fn numpad_key_x(d: u8, m: &Modifiers) -> (r: DecodedKey)
        requires
            d < 10,
        ensures
            r == numpad_key_spec(d, *m),
    {
        if m.numlock {
            DecodedKey::Unicode((48 + d) as char)
        } else {
            let k = match d {
                0 => KeyCode::Insert,
                1 => KeyCode::End,
                2 => KeyCode::ArrowDown,
                3 => KeyCode::PageDown,
                4 => KeyCode::ArrowLeft,
                5 => KeyCode::Numpad5,
                6 => KeyCode::ArrowRight,
                7 => KeyCode::Home,
                8 => KeyCode::ArrowUp,
                _ => KeyCode::PageUp,
            };
            DecodedKey::RawKey(k)
        }
    }

    fn oem_key_x(plain: char, shifted: char, m: &Modifiers) -> (r: DecodedKey)
        ensures
            r == oem_key_spec(plain, shifted, *m),
    {
        if m.is_shifted() {
            DecodedKey::Unicode(shifted)
        } else {
            DecodedKey::Unicode(plain)
        }
    }
}

impl KeyboardLayout for Us104Key {
    open spec fn spec_map_keycode(keycode: KeyCode, modifiers: Modifiers) -> DecodedKey {
        us104_map_keycode_spec(keycode, modifiers)
    }

    fn map_keycode(&self, keycode: KeyCode, modifiers: &Modifiers) -> (r: DecodedKey) {
        if let Some(i) = Self::letter_index_x(keycode) {
            return Self::letter_key_x(i, modifiers);
        }
        if let Some(d) = Self::digit_value_x(keycode) {
            return Self::digit_key_x(d, modifiers);
        }
        if let Some(d) = Self::numpad_value_x(keycode) {
            return Self::numpad_key_x(d, modifiers);
        }
        match keycode {
            KeyCode::Escape => DecodedKey::Unicode(27u8 as char),
            KeyCode::OemOpen => Self::oem_key_x('[', '{', modifiers),
            KeyCode::OemClose => Self::oem_key_x(']', '}', modifiers),
            KeyCode::OemPipe => Self::oem_key_x('\\', '|', modifiers),
            KeyCode::OemColon => Self::oem_key_x(';', ':', modifiers),
            KeyCode::OemQuote => Self::oem_key_x('\'', '"', modifiers),
            KeyCode::OemComma => Self::oem_key_x(',', '<', modifiers),
            KeyCode::OemPeriod => Self::oem_key_x('.', '>', modifiers),
            KeyCode::OemQuestion => Self::oem_key_x('/', '?', modifiers),
            KeyCode::OemTilde => Self::oem_key_x('`', '~', modifiers),
            KeyCode::OemMinus => Self::oem_key_x('-', '_', modifiers),
            KeyCode::OemPlus => Self::oem_key_x('=', '+', modifiers),
            KeyCode::NumpadPeriod => {
                if modifiers.numlock {
                    DecodedKey::Unicode('.')
                } else {
                    DecodedKey::Unicode(127u8 as char)
                }
            },
            KeyCode::NumpadDivide => DecodedKey::Unicode('/'),
            KeyCode::NumpadMultiply => DecodedKey::Unicode('*'),
            KeyCode::NumpadSubtract => DecodedKey::Unicode('-'),
            KeyCode::NumpadAdd => DecodedKey::Unicode('+'),
            KeyCode::Backspace => DecodedKey::Unicode(8u8 as char),
            KeyCode::Tab => DecodedKey::Unicode('\t'),
            KeyCode::Spacebar => DecodedKey::Unicode(' '),
            KeyCode::Delete => DecodedKey::Unicode(127u8 as char),
            KeyCode::Enter => DecodedKey::Unicode('\n'),
            KeyCode::NumpadEnter => DecodedKey::Unicode('\n'),
            _ => DecodedKey::RawKey(keycode),
        }
    }
}

} // verus!
