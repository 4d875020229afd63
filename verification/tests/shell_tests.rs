use kfs_core::keyboard::{DecodedKey, KeyCode};
use kfs_core::multiboot::{next_tag_address, ElfSection, ElfSectionType, Tag};
use kfs_core::shell::{
    parse_command, CommandBuffer, QemuExitCode, ScreenAction, Shell, ShellCommand,
};
use kfs_core::vga::{Color, ColorCode, ScreenChar};

fn type_str(shell: &mut Shell, s: &str) {
    for ch in s.chars() {
        shell.send_key(DecodedKey::Unicode(ch));
    }
}

#[test]
fn typing_echoes_and_moves_the_cursor() {
    let mut shell = Shell::new();
    let (actions, cmd) = shell.send_key(DecodedKey::Unicode('h'));
    assert_eq!(cmd, None);
    assert_eq!(
        actions,
        vec![
            ScreenAction::SetCursor(2),
            ScreenAction::WriteByte(b'h'),
            ScreenAction::SetCursor(3),
        ]
    );
    let (actions, _) = shell.send_key(DecodedKey::Unicode('i'));
    assert_eq!(
        actions,
        vec![
            ScreenAction::SetCursor(3),
            ScreenAction::WriteByte(b'i'),
            ScreenAction::SetCursor(4),
        ]
    );
}

#[test]
fn inserting_mid_line_repaints_the_tail() {
    let mut shell = Shell::new();
    type_str(&mut shell, "ac");
    shell.send_key(DecodedKey::RawKey(KeyCode::ArrowLeft));
    let (actions, _) = shell.send_key(DecodedKey::Unicode('b'));
    assert_eq!(
        actions,
        vec![
            ScreenAction::SetCursor(3),
            ScreenAction::WriteByte(b'b'),
            ScreenAction::WriteByte(b'c'),
            ScreenAction::SetCursor(4),
        ]
    );
    // the submitted line confirms the insertion order
    let (_, cmd) = shell.send_key(DecodedKey::Unicode('\n'));
    assert_eq!(cmd, Some(b"abc".to_vec()));
}

#[test]
fn newline_submits_the_trimmed_line() {
    let mut shell = Shell::new();
    type_str(&mut shell, "  tty  ");
    let (actions, cmd) = shell.send_key(DecodedKey::Unicode('\n'));
    assert_eq!(cmd, Some(b"tty".to_vec()));
    assert_eq!(
        actions,
        vec![
            ScreenAction::WriteByte(b'\n'),
            ScreenAction::Execute,
            ScreenAction::SetForegroundColor(Color::Pink),
            ScreenAction::WriteByte(b'>'),
            ScreenAction::WriteByte(b' '),
            ScreenAction::ResetForegroundColor,
            ScreenAction::SetCursor(2),
        ]
    );
    // the line is cleared for the next command
    let (_, cmd) = shell.send_key(DecodedKey::Unicode('\n'));
    assert_eq!(cmd, None);
}

#[test]
fn blank_line_executes_nothing() {
    let mut shell = Shell::new();
    type_str(&mut shell, "   ");
    let (actions, cmd) = shell.send_key(DecodedKey::Unicode('\n'));
    assert_eq!(cmd, None);
    assert!(!actions.contains(&ScreenAction::Execute));
}

#[test]
fn backspace_removes_before_the_cursor() {
    let mut shell = Shell::new();
    type_str(&mut shell, "ab");
    let (actions, _) = shell.send_key(DecodedKey::Unicode('\x08'));
    assert_eq!(
        actions,
        vec![
            ScreenAction::SetCursor(3),
            ScreenAction::WriteByte(b' '),
            ScreenAction::SetCursor(3),
        ]
    );
    let (_, cmd) = shell.send_key(DecodedKey::Unicode('\n'));
    assert_eq!(cmd, Some(b"a".to_vec()));
}

#[test]
fn backspace_at_line_start_does_nothing() {
    let mut shell = Shell::new();
    let (actions, cmd) = shell.send_key(DecodedKey::Unicode('\x08'));
    assert_eq!(actions, vec![]);
    assert_eq!(cmd, None);
}

#[test]
fn delete_removes_under_the_cursor() {
    let mut shell = Shell::new();
    type_str(&mut shell, "abc");
    shell.send_key(DecodedKey::RawKey(KeyCode::Home));
    let (actions, _) = shell.send_key(DecodedKey::Unicode('\x7f'));
    assert_eq!(
        actions,
        vec![
            ScreenAction::SetCursor(2),
            ScreenAction::WriteByte(b'b'),
            ScreenAction::WriteByte(b'c'),
            ScreenAction::WriteByte(b' '),
            ScreenAction::SetCursor(2),
        ]
    );
    let (_, cmd) = shell.send_key(DecodedKey::Unicode('\n'));
    assert_eq!(cmd, Some(b"bc".to_vec()));
}

#[test]
fn delete_at_line_end_does_nothing() {
    let mut shell = Shell::new();
    type_str(&mut shell, "a");
    let (actions, cmd) = shell.send_key(DecodedKey::Unicode('\x7f'));
    assert_eq!(actions, vec![]);
    assert_eq!(cmd, None);
}

#[test]
fn escape_requests_exit() {
    let mut shell = Shell::new();
    let (actions, cmd) = shell.send_key(DecodedKey::Unicode('\x1b'));
    assert_eq!(actions, vec![ScreenAction::Exit]);
    assert_eq!(cmd, None);
}

#[test]
fn cursor_movement_keys() {
    let mut shell = Shell::new();
    type_str(&mut shell, "abc");
    let (actions, _) = shell.send_key(DecodedKey::RawKey(KeyCode::ArrowLeft));
    assert_eq!(actions, vec![ScreenAction::SetCursor(4)]);
    let (actions, _) = shell.send_key(DecodedKey::RawKey(KeyCode::ArrowRight));
    assert_eq!(actions, vec![ScreenAction::SetCursor(5)]);
    // at the end, right moves nowhere
    let (actions, _) = shell.send_key(DecodedKey::RawKey(KeyCode::ArrowRight));
    assert_eq!(actions, vec![]);
    let (actions, _) = shell.send_key(DecodedKey::RawKey(KeyCode::Home));
    assert_eq!(actions, vec![ScreenAction::SetCursor(2)]);
    // at the start, left moves nowhere
    let (actions, _) = shell.send_key(DecodedKey::RawKey(KeyCode::ArrowLeft));
    assert_eq!(actions, vec![]);
    let (actions, _) = shell.send_key(DecodedKey::RawKey(KeyCode::End));
    assert_eq!(actions, vec![ScreenAction::SetCursor(5)]);
}

#[test]
fn scrolling_keys_forward_to_the_console() {
    let mut shell = Shell::new();
    assert_eq!(
        shell.send_key(DecodedKey::RawKey(KeyCode::ArrowUp)).0,
        vec![ScreenAction::MoveUp]
    );
    assert_eq!(
        shell.send_key(DecodedKey::RawKey(KeyCode::ArrowDown)).0,
        vec![ScreenAction::MoveDown]
    );
    assert_eq!(
        shell.send_key(DecodedKey::RawKey(KeyCode::PageUp)).0,
        vec![ScreenAction::MoveAllTheWayUp]
    );
    assert_eq!(
        shell.send_key(DecodedKey::RawKey(KeyCode::PageDown)).0,
        vec![ScreenAction::MoveAllTheWayDown]
    );
}

#[test]
fn function_keys_switch_screens() {
    let mut shell = Shell::new();
    type_str(&mut shell, "abc");
    let (actions, _) = shell.send_key(DecodedKey::RawKey(KeyCode::F2));
    assert_eq!(
        actions,
        vec![ScreenAction::SwitchScreen { screen_idx: 1, cursor: 2 }]
    );
    // switching to the displayed screen does nothing
    let (actions, _) = shell.send_key(DecodedKey::RawKey(KeyCode::F2));
    assert_eq!(actions, vec![]);
    // each screen keeps its own line: screen 2 is empty
    let (_, cmd) = shell.send_key(DecodedKey::Unicode('\n'));
    assert_eq!(cmd, None);
    // back on the first screen the line is still there, cursor preserved
    let (actions, _) = shell.send_key(DecodedKey::RawKey(KeyCode::F1));
    assert_eq!(
        actions,
        vec![ScreenAction::SwitchScreen { screen_idx: 0, cursor: 5 }]
    );
    let (_, cmd) = shell.send_key(DecodedKey::Unicode('\n'));
    assert_eq!(cmd, Some(b"abc".to_vec()));
}

#[test]
fn unprintable_input_is_ignored() {
    let mut shell = Shell::new();
    let (actions, cmd) = shell.send_key(DecodedKey::Unicode('\x01'));
    assert_eq!(actions, vec![]);
    assert_eq!(cmd, None);
    let (actions, _) = shell.send_key(DecodedKey::RawKey(KeyCode::Insert));
    assert_eq!(actions, vec![]);
}

#[test]
fn long_lines_stop_at_the_row_edge() {
    let mut shell = Shell::new();
    for _ in 0..80 {
        shell.send_key(DecodedKey::Unicode('x'));
    }
    let (_, cmd) = shell.send_key(DecodedKey::Unicode('\n'));
    // only 77 columns fit beside the prompt
    assert_eq!(cmd.unwrap().len(), 77);
}

#[test]
fn command_names_parse() {
    assert_eq!(parse_command(b"clear"), Some(ShellCommand::Clear));
    assert_eq!(parse_command(b"exit"), Some(ShellCommand::Exit));
    assert_eq!(parse_command(b"halt"), Some(ShellCommand::Halt));
    assert_eq!(parse_command(b"help"), Some(ShellCommand::Help));
    assert_eq!(parse_command(b"pgdt"), Some(ShellCommand::Pgdt));
    assert_eq!(parse_command(b"pks"), Some(ShellCommand::Pks));
    assert_eq!(parse_command(b"reboot"), Some(ShellCommand::Reboot));
    assert_eq!(parse_command(b"tty"), Some(ShellCommand::Tty));
    assert_eq!(parse_command(b"unknown"), None);
    assert_eq!(parse_command(b""), None);
    assert_eq!(parse_command(b"Clear"), None);
}

#[test]
fn qemu_exit_codes() {
    assert_eq!(QemuExitCode::Success.code(), 0x10);
    assert_eq!(QemuExitCode::Failed.code(), 0x11);
}

#[test]
fn color_codes_pack_background_high() {
    assert_eq!(ColorCode::new(Color::White, Color::Black).bits, 15);
    assert_eq!(ColorCode::new(Color::Black, Color::White).bits, 240);
    assert_eq!(ColorCode::new(Color::Pink, Color::Blue).bits, 16 + 13);
}

#[test]
fn screen_blanks() {
    assert_eq!(
        ScreenChar::black_space(),
        ScreenChar { ascii_character: b' ', color_code: ColorCode { bits: 0 } }
    );
    assert_eq!(
        ScreenChar::white_space(),
        ScreenChar { ascii_character: b' ', color_code: ColorCode { bits: 15 } }
    );
}

#[test]
fn elf_section_fields_and_type() {
    let s = ElfSection { typ: 1, flags: 0x6, addr: 0x10_0000, size: 0x2000 };
    assert_eq!(s.section_type(), ElfSectionType::ProgramSection);
    assert_eq!(s.start_address(), 0x10_0000);
    assert_eq!(s.size(), 0x2000);
    assert_eq!(s.flags(), 0x6);
    let env = ElfSection { typ: 0x6ABC_0000, flags: 0, addr: 0, size: 0 };
    assert_eq!(env.section_type(), ElfSectionType::EnvironmentSpecific);
    let proc = ElfSection { typ: 0x7000_0001, flags: 0, addr: 0, size: 0 };
    assert_eq!(proc.section_type(), ElfSectionType::ProcessorSpecific);
}

#[test]
fn tag_walk_alignment() {
    // a 16-byte tag at 0 ends at 16, already aligned
    assert_eq!(next_tag_address(0, 16), 16);
    // a 17-byte tag rounds up to the next 8-byte boundary
    assert_eq!(next_tag_address(0, 17), 24);
    assert_eq!(next_tag_address(8, 9), 24);
    assert_eq!(next_tag_address(100, 12), 112);
    let end = Tag { typ: 0, size: 8 };
    assert!(end.is_end_tag());
    let other = Tag { typ: 6, size: 24 };
    assert!(!other.is_end_tag());
}

#[test]
fn command_buffer_editing() {
    let mut cb = CommandBuffer::new(Color::Pink);
    assert_eq!(cb.set_pos(0), 2);
    cb.insert_byte(b'a');
    cb.insert_byte(b'c');
    assert_eq!(cb.move_left(), Some(3));
    cb.insert_byte(b'b');
    assert_eq!(cb.trimmed(), b"abc".to_vec());
    assert_eq!(cb.byte_at(0), b'a');
    assert_eq!(cb.byte_at(1), b'b');
    assert_eq!(cb.byte_at(2), b'c');
    assert_eq!(cb.move_right(), Some(5));
    assert_eq!(cb.move_right(), None);
    cb.delete_byte(true);
    assert_eq!(cb.trimmed(), b"ab".to_vec());
    assert_eq!(cb.move_left(), Some(3));
    assert_eq!(cb.move_left(), Some(2));
    assert_eq!(cb.move_left(), None);
}

#[test]
fn command_buffer_trims_spaces() {
    let mut cb = CommandBuffer::new(Color::White);
    for b in *b"  pks " {
        cb.insert_byte(b);
    }
    assert_eq!(cb.trimmed(), b"pks".to_vec());
    let empty = CommandBuffer::new(Color::White);
    assert_eq!(empty.trimmed(), Vec::<u8>::new());
    let mut spaces = CommandBuffer::new(Color::White);
    spaces.insert_byte(b' ');
    spaces.insert_byte(b' ');
    assert_eq!(spaces.trimmed(), Vec::<u8>::new());
}

#[test]
fn welcome_rows_have_the_screen_width() {
    let frame = Shell::print_welcome_line(b' ', 0xC9, 0xCD, 0xBB, b' ');
    assert_eq!(frame.len(), 80);
    assert_eq!(frame[0], ScreenAction::WriteByte(b' '));
    assert_eq!(frame[2], ScreenAction::WriteByte(b' '));
    assert_eq!(frame[3], ScreenAction::WriteByte(0xC9));
    assert_eq!(frame[7], ScreenAction::WriteByte(0xCD));
    assert_eq!(frame[76], ScreenAction::WriteByte(0xBB));

    let title = Shell::print_welcome_title(b"hello");
    assert_eq!(title.len(), 80);
    assert_eq!(title[2], ScreenAction::WriteByte(0xBA));
    // 74 - 5 = 69 spare columns: 34 left of the text, 35 right of it
    assert_eq!(title[3 + 34], ScreenAction::WriteByte(b'h'));
    assert_eq!(title[3 + 38], ScreenAction::WriteByte(b'o'));
    assert_eq!(title[77], ScreenAction::WriteByte(0xBA));
}

#[test]
fn prompt_uses_the_screen_color() {
    let shell = Shell::new();
    assert_eq!(
        shell.print_prompt(),
        vec![
            ScreenAction::SetForegroundColor(Color::Pink),
            ScreenAction::WriteByte(b'>'),
            ScreenAction::WriteByte(b' '),
            ScreenAction::ResetForegroundColor,
        ]
    );
}
