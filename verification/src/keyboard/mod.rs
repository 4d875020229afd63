//! Keyboard input pipeline: raw scancode bytes become typed key events
//! ([`scancodes`]), and key events become characters or raw keys through a
//! layout ([`layouts`]), with shift/caps/numlock state tracked in between.

use vstd::prelude::*;

pub mod layouts;
pub mod scancodes;

use layouts::KeyboardLayout;
use scancodes::ScancodeSet;

verus! {

/// Errors produced while decoding a scancode stream.
#[derive(Debug, PartialEq, Eq, Copy, Clone, Structural)]
pub enum Error {
    /// The byte has no key mapping in the current decode state.
    UnknownKeyCode,
}

/// The physical keys of the supported 104-key board.
#[derive(Debug, PartialEq, Eq, Copy, Clone, Structural)]
pub enum KeyCode {
    Escape,
    // ======= LETTERS =======
    A,
    B,
    C,
    D,
    E,
    F,
    G,
    H,
    I,
    J,
    K,
    L,
    M,
    N,
    O,
    P,
    Q,
    R,
    S,
    T,
    U,
    V,
    W,
    X,
    Y,
    Z,
    // ======= TOP NUMBERS =======
    Key0,
    Key1,
    Key2,
    Key3,
    Key4,
    Key5,
    Key6,
    Key7,
    Key8,
    Key9,
    // ======= NUMPAD NUMBERS =======
    Numpad0,
    Numpad1,
    Numpad2,
    Numpad3,
    Numpad4,
    Numpad5,
    Numpad6,
    Numpad7,
    Numpad8,
    Numpad9,
    // ======= NUMPAD OTHERS =======
    NumpadLock,
    NumpadDivide,
    NumpadMultiply,
    NumpadSubtract,
    NumpadAdd,
    NumpadEnter,
    NumpadPeriod,
    // ======= NAVIGATION =======
    Insert,
    Delete,
    Home,
    End,
    PageUp,
    PageDown,
    // ======= ARROWS =======
    ArrowUp,
    ArrowRight,
    ArrowDown,
    ArrowLeft,
    // ======= CONTROL =======
    Tab,
    CapsLock,
    LeftShift,
    Spacebar,
    Backspace,
    Enter,
    RightShift,
    // ======= FUNCTION KEYS =======
    F1,
    F2,
    F3,
    F4,
    // ======= DOUBLE ASCII =======
    OemTilde,
    OemMinus,
    OemPlus,
    OemOpen,
    OemClose,
    OemPipe,
    OemColon,
    OemQuote,
    OemComma,
    OemPeriod,
    OemQuestion,
}

/// Whether a key transition is a press or a release.
#[derive(Debug, PartialEq, Eq, Copy, Clone, Structural)]
pub enum KeyState {
    Up,
    Down,
}

/// One decoded key transition: which key, and whether it went down or up.
#[derive(Debug, PartialEq, Eq, Copy, Clone, Structural)]
pub struct KeyEvent {
    pub code: KeyCode,
    pub state: KeyState,
}

impl KeyEvent {
    pub fn new(code: KeyCode, state: KeyState) -> (r: Self)
        ensures
            r == (KeyEvent { code, state }),
    {
        KeyEvent { code, state }
    }
}

/// The modifier state a keyboard tracks between key events.
///
/// The shift flags are level-tracked (true while held); caps lock and num
/// lock are toggles, flipped on each press.
#[derive(Debug, PartialEq, Eq, Copy, Clone, Hash, Structural)]
pub struct Modifiers {
    pub lshift: bool,
    pub rshift: bool,
    pub numlock: bool,
    pub capslock: bool,
}

impl Modifiers {
    /// Either shift key is held.
    pub open spec fn spec_is_shifted(self) -> bool {
        self.lshift || self.rshift
    }

    /// Letters print in upper case: shift inverted by caps lock.
    pub open spec fn spec_is_caps(self) -> bool {
        self.spec_is_shifted() != self.capslock
    }

    pub fn is_shifted(&self) -> (r: bool)
        ensures
            r == self.spec_is_shifted(),
    {
        self.lshift || self.rshift
    }

    pub fn is_caps(&self) -> (r: bool)
        ensures
            r == self.spec_is_caps(),
    {
        self.is_shifted() != self.capslock
    }
}

/// What a completed key press means to the consumer: a character, or a key
/// with no character mapping (arrows, function keys).
#[derive(Debug, PartialEq, Eq, Copy, Clone, Structural)]
pub enum DecodedKey {
    RawKey(KeyCode),
    Unicode(char),
}

/// True of the keys that only change modifier state and are consumed by the
/// keyboard rather than forwarded.
pub open spec fn is_modifier_key(code: KeyCode) -> bool {
    ||| code == KeyCode::LeftShift
    ||| code == KeyCode::RightShift
    ||| code == KeyCode::CapsLock
    ||| code == KeyCode::NumpadLock
}

/// The modifier state after one key event: shifts follow the key level, the
/// two lock keys toggle on each press, and every other key leaves the state
/// unchanged.
pub open spec fn update_modifiers_spec(m: Modifiers, ev: KeyEvent) -> Modifiers {
    match ev.code {
        KeyCode::LeftShift => Modifiers {
            lshift: ev.state == KeyState::Down,
            rshift: m.rshift,
            numlock: m.numlock,
            capslock: m.capslock,
        },
        KeyCode::RightShift => Modifiers {
            lshift: m.lshift,
            rshift: ev.state == KeyState::Down,
            numlock: m.numlock,
            capslock: m.capslock,
        },
        KeyCode::CapsLock => if ev.state == KeyState::Down {
            Modifiers {
                lshift: m.lshift,
                rshift: m.rshift,
                numlock: m.numlock,
                capslock: !m.capslock,
            }
        } else {
            m
        },
        KeyCode::NumpadLock => if ev.state == KeyState::Down {
            Modifiers {
                lshift: m.lshift,
                rshift: m.rshift,
                numlock: !m.numlock,
                capslock: m.capslock,
            }
        } else {
            m
        },
        _ => m,
    }
}

/// Pressing caps lock twice restores the modifier state exactly, so a
/// subsequent letter regains its original case.
pub proof fn lemma_capslock_toggle_restores(m: Modifiers)
    ensures
        update_modifiers_spec(
            update_modifiers_spec(m, KeyEvent { code: KeyCode::CapsLock, state: KeyState::Down }),
            KeyEvent { code: KeyCode::CapsLock, state: KeyState::Down },
        ) == m,
{
}

/// Pressing num lock twice likewise restores the modifier state.
pub proof fn lemma_numlock_toggle_restores(m: Modifiers)
    ensures
        update_modifiers_spec(
            update_modifiers_spec(m, KeyEvent { code: KeyCode::NumpadLock, state: KeyState::Down }),
            KeyEvent { code: KeyCode::NumpadLock, state: KeyState::Down },
        ) == m,
{
}

/// A keyboard: a scancode decoder, a layout, and the modifier state that ties
/// the two together.
pub struct Keyboard<L, S> where L: KeyboardLayout, S: ScancodeSet {
    layout: L,
    scancode_set: S,
    modifiers: Modifiers,
}

impl<L, S> Keyboard<L, S> where L: KeyboardLayout, S: ScancodeSet {
    /// The decoder state this keyboard currently holds.
    pub closed spec fn decoder(self) -> S {
        self.scancode_set
    }

    /// The modifier state this keyboard currently holds.
    pub closed spec fn modifiers(self) -> Modifiers {
        self.modifiers
    }

    /// What one key event produces: modifier keys are consumed, presses of
    /// other keys are mapped by the layout, and releases produce nothing.
    pub open spec fn keyevent_output_spec(m: Modifiers, ev: KeyEvent) -> Option<DecodedKey> {
        if is_modifier_key(ev.code) {
            None
        } else if ev.state == KeyState::Down {
            Some(L::spec_map_keycode(ev.code, m))
        } else {
            None
        }
    }

    /// A fresh keyboard: decoder as given, no shift held, num lock on, caps
    /// lock off.
    pub fn new(layout: L, scancode_set: S) -> (r: Self)
        ensures
            r.decoder() == scancode_set,
            r.modifiers() == (Modifiers {
                lshift: false,
                rshift: false,
                numlock: true,
                capslock: false,
            }),
    {
        Keyboard {
            layout,
            scancode_set,
            modifiers: Modifiers { lshift: false, rshift: false, numlock: true, capslock: false },
        }
    }

    /// Feeds one raw byte: the decoder always advances; only a completed,
    /// well-formed key event reaches the modifier tracker and the layout.
    pub fn add_byte(&mut self, byte: u8) -> (r: Option<DecodedKey>)
        ensures
            final(self).decoder() == old(self).decoder().spec_next(byte),
            match old(self).decoder().spec_output(byte) {
                Ok(Some(ev)) => {
                    &&& final(self).modifiers() == update_modifiers_spec(
                        old(self).modifiers(),
                        ev,
                    )
                    &&& r == Self::keyevent_output_spec(old(self).modifiers(), ev)
                },
                _ => {
                    &&& final(self).modifiers() == old(self).modifiers()
                    &&& r == None::<DecodedKey>
                },
            },
    {
        match self.scancode_set.add_byte(byte) {
            Ok(Some(key_event)) => self.process_keyevent(key_event),
            _ => None,
        }
    }

    /// Applies one key event: updates the modifiers and, for a press of a
    /// non-modifier key, asks the layout for its meaning.
    pub fn process_keyevent(&mut self, ev: KeyEvent) -> (r: Option<DecodedKey>)
        ensures
            final(self).modifiers() == update_modifiers_spec(old(self).modifiers(), ev),
            final(self).decoder() == old(self).decoder(),
            r == Self::keyevent_output_spec(old(self).modifiers(), ev),
    {
        match ev.code {
            KeyCode::LeftShift => {
                self.modifiers.lshift = ev.state == KeyState::Down;
                None
            },
            KeyCode::RightShift => {
                self.modifiers.rshift = ev.state == KeyState::Down;
                None
            },
            KeyCode::CapsLock => {
                if ev.state == KeyState::Down {
                    self.modifiers.capslock = !self.modifiers.capslock;
                }
                None
            },
            KeyCode::NumpadLock => {
                if ev.state == KeyState::Down {
                    self.modifiers.numlock = !self.modifiers.numlock;
                }
                None
            },
            _ => {
                if ev.state == KeyState::Down {
                    Some(self.layout.map_keycode(ev.code, &self.modifiers))
                } else {
                    None
                }
            },
        }
    }
}

} // verus!
