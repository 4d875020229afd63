use kfs_core::keyboard::layouts::{KeyboardLayout, Us104Key};
use kfs_core::keyboard::scancodes::{ScancodeSet, ScancodeSet1};
use kfs_core::keyboard::{DecodedKey, Error, KeyCode, KeyEvent, KeyState, Keyboard, Modifiers};

fn fresh() -> Keyboard<Us104Key, ScancodeSet1> {
    Keyboard::new(Us104Key, ScancodeSet1::new())
}

#[test]
fn first_byte_behaviour_covers_all_bytes() {
    for b in 0u16..=0xFF {
        let b = b as u8;
        let mut set = ScancodeSet1::new();
        let r = set.add_byte(b);
        if b == 0xE0 || b == 0xE1 {
            assert_eq!(r, Ok(None));
        } else {
            match r {
                Ok(Some(ev)) => {
                    if b < 0x80 {
                        assert_eq!(ev.state, KeyState::Down);
                    } else {
                        assert_eq!(ev.state, KeyState::Up);
                    }
                }
                Ok(None) => panic!("only prefixes may yield nothing"),
                Err(e) => assert_eq!(e, Error::UnknownKeyCode),
            }
            // back at the boundary: a well-known byte decodes normally
            let again = set.add_byte(0x1E);
            assert_eq!(again, Ok(Some(KeyEvent::new(KeyCode::A, KeyState::Down))));
        }
    }
}

#[test]
fn error_recovery_is_local() {
    let mut set = ScancodeSet1::new();
    assert_eq!(set.add_byte(0x54), Err(Error::UnknownKeyCode));
    assert_eq!(
        set.add_byte(0x1E),
        Ok(Some(KeyEvent::new(KeyCode::A, KeyState::Down)))
    );
}

#[test]
fn extended_sequence_round_trip() {
    let mut set = ScancodeSet1::new();
    assert_eq!(set.add_byte(0xE0), Ok(None));
    assert_eq!(
        set.add_byte(0x48),
        Ok(Some(KeyEvent::new(KeyCode::ArrowUp, KeyState::Down)))
    );
    assert_eq!(set.add_byte(0xE0), Ok(None));
    assert_eq!(
        set.add_byte(0xC8),
        Ok(Some(KeyEvent::new(KeyCode::ArrowUp, KeyState::Up)))
    );
}

#[test]
fn extended2_sequences_are_unsupported() {
    let mut set = ScancodeSet1::new();
    assert_eq!(set.add_byte(0xE1), Ok(None));
    assert_eq!(set.add_byte(0x1D), Err(Error::UnknownKeyCode));
    // and the decoder has re-synchronized
    assert_eq!(
        set.add_byte(0x1E),
        Ok(Some(KeyEvent::new(KeyCode::A, KeyState::Down)))
    );
}

#[test]
fn map_scancode_values() {
    assert_eq!(ScancodeSet1::map_scancode(0x01), Ok(KeyCode::Escape));
    assert_eq!(ScancodeSet1::map_scancode(0x1E), Ok(KeyCode::A));
    assert_eq!(ScancodeSet1::map_scancode(0x39), Ok(KeyCode::Spacebar));
    assert_eq!(ScancodeSet1::map_scancode(0x53), Ok(KeyCode::NumpadPeriod));
    // 0x1D is left control, which this set does not map
    assert_eq!(ScancodeSet1::map_scancode(0x1D), Err(Error::UnknownKeyCode));
}

#[test]
fn map_extended_scancode_values() {
    assert_eq!(
        ScancodeSet1::map_extended_scancode(0x1C),
        Ok(KeyCode::NumpadEnter)
    );
    assert_eq!(ScancodeSet1::map_extended_scancode(0x47), Ok(KeyCode::Home));
    assert_eq!(
        ScancodeSet1::map_extended_scancode(0x53),
        Ok(KeyCode::Delete)
    );
    assert_eq!(
        ScancodeSet1::map_extended_scancode(0x48),
        Ok(KeyCode::ArrowUp)
    );
    assert_eq!(
        ScancodeSet1::map_extended_scancode(0x1E),
        Err(Error::UnknownKeyCode)
    );
}

#[test]
fn shift_is_level_tracked() {
    let mut kb = fresh();
    assert_eq!(kb.add_byte(0x2A), None); // left shift down
    assert_eq!(kb.add_byte(0x1E), Some(DecodedKey::Unicode('A')));
    assert_eq!(kb.add_byte(0xAA), None); // left shift up
    assert_eq!(kb.add_byte(0x1E), Some(DecodedKey::Unicode('a')));
}

#[test]
fn capslock_toggles_and_restores() {
    let mut kb = fresh();
    assert_eq!(kb.add_byte(0x3A), None); // caps lock down
    assert_eq!(kb.add_byte(0xBA), None); // caps lock up
    assert_eq!(kb.add_byte(0x1E), Some(DecodedKey::Unicode('A')));
    assert_eq!(kb.add_byte(0x3A), None); // caps lock down again
    assert_eq!(kb.add_byte(0x1E), Some(DecodedKey::Unicode('a')));
}

#[test]
fn two_capslock_presses_restore_case() {
    let mut kb = fresh();
    assert_eq!(kb.add_byte(0x3A), None);
    assert_eq!(kb.add_byte(0x3A), None);
    assert_eq!(kb.add_byte(0x1E), Some(DecodedKey::Unicode('a')));
}

#[test]
fn shift_and_capslock_cancel_for_letters() {
    let mut kb = fresh();
    assert_eq!(kb.add_byte(0x3A), None); // caps lock on
    assert_eq!(kb.add_byte(0x2A), None); // shift held
    assert_eq!(kb.add_byte(0x1E), Some(DecodedKey::Unicode('a')));
    // but digits still shift to their symbols
    assert_eq!(kb.add_byte(0x02), Some(DecodedKey::Unicode('!')));
}

#[test]
fn numpad_follows_numlock() {
    let mut kb = fresh();
    // num lock starts on
    assert_eq!(kb.add_byte(0x47), Some(DecodedKey::Unicode('7')));
    assert_eq!(kb.add_byte(0x45), None); // num lock down: toggles off
    assert_eq!(kb.add_byte(0xC5), None); // num lock up
    assert_eq!(kb.add_byte(0x47), Some(DecodedKey::RawKey(KeyCode::Home)));
    assert_eq!(kb.add_byte(0x52), Some(DecodedKey::RawKey(KeyCode::Insert)));
}

#[test]
fn digit_row_shifts_to_symbols() {
    let mut kb = fresh();
    assert_eq!(kb.add_byte(0x02), Some(DecodedKey::Unicode('1')));
    assert_eq!(kb.add_byte(0x0B), Some(DecodedKey::Unicode('0')));
    assert_eq!(kb.add_byte(0x2A), None);
    assert_eq!(kb.add_byte(0x02), Some(DecodedKey::Unicode('!')));
    assert_eq!(kb.add_byte(0x0B), Some(DecodedKey::Unicode(')')));
}

#[test]
fn punctuation_pairs() {
    let mut kb = fresh();
    assert_eq!(kb.add_byte(0x0C), Some(DecodedKey::Unicode('-')));
    assert_eq!(kb.add_byte(0x33), Some(DecodedKey::Unicode(',')));
    assert_eq!(kb.add_byte(0x29), Some(DecodedKey::Unicode('`')));
    assert_eq!(kb.add_byte(0x36), None); // right shift down
    assert_eq!(kb.add_byte(0x0C), Some(DecodedKey::Unicode('_')));
    assert_eq!(kb.add_byte(0x33), Some(DecodedKey::Unicode('<')));
    assert_eq!(kb.add_byte(0x29), Some(DecodedKey::Unicode('~')));
}

#[test]
fn enter_yields_line_feed() {
    let mut kb = fresh();
    assert_eq!(kb.add_byte(0x1C), Some(DecodedKey::Unicode('\n')));
    assert_eq!(kb.add_byte(0xE0), None);
    assert_eq!(kb.add_byte(0x1C), Some(DecodedKey::Unicode('\n')));
}

#[test]
fn releases_of_plain_keys_yield_nothing() {
    let mut kb = fresh();
    assert_eq!(kb.add_byte(0x9E), None); // release of A
    assert_eq!(kb.add_byte(0x82), None); // release of the 1 key
}

#[test]
fn keys_without_characters_pass_through_raw() {
    let mut kb = fresh();
    assert_eq!(kb.add_byte(0x3B), Some(DecodedKey::RawKey(KeyCode::F1)));
    assert_eq!(kb.add_byte(0xE0), None);
    assert_eq!(kb.add_byte(0x4B), Some(DecodedKey::RawKey(KeyCode::ArrowLeft)));
}

#[test]
fn layout_maps_directly() {
    let m = Modifiers {
        lshift: false,
        rshift: false,
        numlock: true,
        capslock: false,
    };
    let layout = Us104Key;
    assert_eq!(
        layout.map_keycode(KeyCode::Escape, &m),
        DecodedKey::Unicode('\x1b')
    );
    assert_eq!(
        layout.map_keycode(KeyCode::Backspace, &m),
        DecodedKey::Unicode('\x08')
    );
    assert_eq!(
        layout.map_keycode(KeyCode::Delete, &m),
        DecodedKey::Unicode('\x7f')
    );
    assert_eq!(
        layout.map_keycode(KeyCode::Tab, &m),
        DecodedKey::Unicode('\t')
    );
    assert_eq!(
        layout.map_keycode(KeyCode::NumpadDivide, &m),
        DecodedKey::Unicode('/')
    );
    assert_eq!(
        layout.map_keycode(KeyCode::PageUp, &m),
        DecodedKey::RawKey(KeyCode::PageUp)
    );
}

#[test]
fn modifier_flags_combine() {
    let m = Modifiers {
        lshift: false,
        rshift: true,
        numlock: true,
        capslock: true,
    };
    assert!(m.is_shifted());
    assert!(!m.is_caps()); // shift and caps lock cancel
    let m2 = Modifiers {
        lshift: false,
        rshift: false,
        numlock: false,
        capslock: true,
    };
    assert!(!m2.is_shifted());
    assert!(m2.is_caps());
}
