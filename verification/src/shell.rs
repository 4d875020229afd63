//! The line-editing shell: per-screen command buffers, cursor movement, and
//! the keystroke dispatch that turns one decoded key into buffer edits and
//! console actions.
//!
//! The console itself (the renderer, the cursor port, the command handlers'
//! output) is outside the verified library. Every function here only edits
//! the buffers and returns the exact sequence of [`ScreenAction`]s the
//! console glue must perform, in order.

use vstd::prelude::*;

use crate::keyboard::{DecodedKey, KeyCode};
use crate::vga::{Color, VGA_SCREENS, VGA_WIDTH};

verus! {

/// Width of the prompt, the two bytes `"> "`.
pub const PROMPT_LEN: usize = 2;

/// Longest command that fits on one row beside the prompt and the cursor.
pub const MAX_COMMAND_LEN: usize = VGA_WIDTH - PROMPT_LEN - 1;

/// The byte a space prints as.
pub const SPACE: u8 = 32;

/// One console operation the shell has decided on.
#[derive(Debug, Clone, Copy, PartialEq, Eq, Structural)]
pub enum ScreenAction {
    /// Print one byte at the cursor.
    WriteByte(u8),
    /// Move the cursor to a column of the input row.
    SetCursor(usize),
    /// Change the foreground color for the following writes.
    SetForegroundColor(Color),
    /// Return to the default foreground color.
    ResetForegroundColor,
    /// Execute the command the shell hands back alongside the actions.
    Execute,
    /// Scroll one row back into history.
    MoveUp,
    /// Scroll one row forward.
    MoveDown,
    /// Scroll to the oldest kept row.
    MoveAllTheWayUp,
    /// Scroll to the live row.
    MoveAllTheWayDown,
    /// Display another virtual screen, with the cursor at the given column.
    SwitchScreen { screen_idx: usize, cursor: usize },
    /// Leave the system.
    Exit,
}

/// The commands the shell knows.
#[derive(Debug, Clone, Copy, PartialEq, Eq, Structural)]
pub enum ShellCommand {
    /// Clear the screen.
    Clear,
    /// Exit the system.
    Exit,
    /// Halt the system.
    Halt,
    /// Show the help message.
    Help,
    /// Print the global descriptor table.
    Pgdt,
    /// Print the kernel stack.
    Pks,
    /// Reboot the system.
    Reboot,
    /// Show the current screen number.
    Tty,
}

/// The bytes of the name `clear`.
pub open spec fn clear_name() -> Seq<u8> {
    seq![0x63u8, 0x6Cu8, 0x65u8, 0x61u8, 0x72u8]
}

/// The bytes of the name `exit`.
pub open spec fn exit_name() -> Seq<u8> {
    seq![0x65u8, 0x78u8, 0x69u8, 0x74u8]
}

/// The bytes of the name `halt`.
pub open spec fn halt_name() -> Seq<u8> {
    seq![0x68u8, 0x61u8, 0x6Cu8, 0x74u8]
}

/// The bytes of the name `help`.
pub open spec fn help_name() -> Seq<u8> {
    seq![0x68u8, 0x65u8, 0x6Cu8, 0x70u8]
}

/// The bytes of the name `pgdt`.
pub open spec fn pgdt_name() -> Seq<u8> {
    seq![0x70u8, 0x67u8, 0x64u8, 0x74u8]
}

/// The bytes of the name `pks`.
pub open spec fn pks_name() -> Seq<u8> {
    seq![0x70u8, 0x6Bu8, 0x73u8]
}

/// The bytes of the name `reboot`.
pub open spec fn reboot_name() -> Seq<u8> {
    seq![0x72u8, 0x65u8, 0x62u8, 0x6Fu8, 0x6Fu8, 0x74u8]
}

/// The bytes of the name `tty`.
pub open spec fn tty_name() -> Seq<u8> {
    seq![0x74u8, 0x74u8, 0x79u8]
}

/// The command a trimmed input names, if any.
pub open spec fn command_of(s: Seq<u8>) -> Option<ShellCommand> {
    if s == clear_name() {
        Some(ShellCommand::Clear)
    } else if s == exit_name() {
        Some(ShellCommand::Exit)
    } else if s == halt_name() {
        Some(ShellCommand::Halt)
    } else if s == help_name() {
        Some(ShellCommand::Help)
    } else if s == pgdt_name() {
        Some(ShellCommand::Pgdt)
    } else if s == pks_name() {
        Some(ShellCommand::Pks)
    } else if s == reboot_name() {
        Some(ShellCommand::Reboot)
    } else if s == tty_name() {
        Some(ShellCommand::Tty)
    } else {
        None
    }
}

/// Whether a byte slice equals a known spec sequence is decided byte by
/// byte; this helper checks one candidate name.
fn bytes_match(cmd: &[u8], name: &Vec<u8>) -> (r: bool)
    ensures
        r == (cmd@ == name@),
{
    if cmd.len() != name.len() {
        assert(cmd@.len() != name@.len());
        return false;
    }
    let n = cmd.len();
    let mut i: usize = 0;
    while i < n
        invariant
            n == cmd@.len() == name@.len(),
            i <= n,
            forall|j: int| 0 <= j < i ==> cmd@[j] == name@[j],
        decreases n - i,
    {
        if cmd[i] != name[i] {
            return false;
        }
        i = i + 1;
    }
    proof {
        assert(cmd@ =~= name@);
    }
    true
}

/// Looks a trimmed command up in the fixed command table.
pub fn parse_command(cmd: &[u8]) -> (r: Option<ShellCommand>)
    ensures
        r == command_of(cmd@),
{
    let clear: Vec<u8> = vec![0x63u8, 0x6C, 0x65, 0x61, 0x72];
    let exit: Vec<u8> = vec![0x65u8, 0x78, 0x69, 0x74];
    let halt: Vec<u8> = vec![0x68u8, 0x61, 0x6C, 0x74];
    let help: Vec<u8> = vec![0x68u8, 0x65, 0x6C, 0x70];
    let pgdt: Vec<u8> = vec![0x70u8, 0x67, 0x64, 0x74];
    let pks: Vec<u8> = vec![0x70u8, 0x6B, 0x73];
    let reboot: Vec<u8> = vec![0x72u8, 0x65, 0x62, 0x6F, 0x6F, 0x74];
    let tty: Vec<u8> = vec![0x74u8, 0x74, 0x79];
    proof {
        assert(clear@ =~= clear_name());
        assert(exit@ =~= exit_name());
        assert(halt@ =~= halt_name());
        assert(help@ =~= help_name());
        assert(pgdt@ =~= pgdt_name());
        assert(pks@ =~= pks_name());
        assert(reboot@ =~= reboot_name());
        assert(tty@ =~= tty_name());
    }
    if bytes_match(cmd, &clear) {
        Some(ShellCommand::Clear)
    } else if bytes_match(cmd, &exit) {
        Some(ShellCommand::Exit)
    } else if bytes_match(cmd, &halt) {
        Some(ShellCommand::Halt)
    } else if bytes_match(cmd, &help) {
        Some(ShellCommand::Help)
    } else if bytes_match(cmd, &pgdt) {
        Some(ShellCommand::Pgdt)
    } else if bytes_match(cmd, &pks) {
        Some(ShellCommand::Pks)
    } else if bytes_match(cmd, &reboot) {
        Some(ShellCommand::Reboot)
    } else if bytes_match(cmd, &tty) {
        Some(ShellCommand::Tty)
    } else {
        None
    }
}

/// The exit status handed to the hypervisor's debug-exit device.
#[derive(Debug, Clone, Copy, PartialEq, Eq, Structural)]
pub enum QemuExitCode {
    Success,
    Failed,
}

impl QemuExitCode {
    /// The value written to the exit device.
    pub fn code(self) -> (r: u32)
        ensures
            self == QemuExitCode::Success ==> r == 0x10,
            self == QemuExitCode::Failed ==> r == 0x11,
    {
        match self {
            QemuExitCode::Success => 0x10,
            QemuExitCode::Failed => 0x11,
        }
    }
}

/// Index of the first byte of `s` at or after `i` that is not a space.
pub open spec fn trim_start_idx(s: Seq<u8>, i: int) -> int
    decreases s.len() - i,
{
    if 0 <= i < s.len() && s[i] == SPACE {
        trim_start_idx(s, i + 1)
    } else {
        i
    }
}

/// Index just past the last non-space byte of `s` before `e`, not receding
/// past `start`.
pub open spec fn trim_end_idx(s: Seq<u8>, start: int, e: int) -> int
    decreases e - start,
{
    if start < e <= s.len() && s[e - 1] == SPACE {
        trim_end_idx(s, start, e - 1)
    } else {
        e
    }
}

/// `s` with leading and trailing spaces removed.
pub open spec fn trimmed_spec(s: Seq<u8>) -> Seq<u8> {
    let start = trim_start_idx(s, 0);
    s.subrange(start, trim_end_idx(s, start, s.len() as int))
}

/// One per-screen command line: the typed bytes, the cursor position inside
/// them, and the screen's prompt color.
pub struct CommandBuffer {
    buffer: Vec<u8>,
    len: usize,
    pos: usize,
    color: Color,
}

impl CommandBuffer {
    /// The bytes typed so far.
    pub closed spec fn contents(self) -> Seq<u8> {
        self.buffer@.take(self.len as int)
    }

    /// How many bytes are typed.
    pub closed spec fn spec_len(self) -> int {
        self.len as int
    }

    /// Where the cursor stands, between 0 and the length.
    pub closed spec fn spec_pos(self) -> int {
        self.pos as int
    }

    /// The prompt color of this screen.
    pub closed spec fn spec_color(self) -> Color {
        self.color
    }

    /// The buffer's backing store is full-size and cursor and length are in
    /// range.
    pub closed spec fn wf(self) -> bool {
        &&& self.buffer@.len() == MAX_COMMAND_LEN
        &&& self.len <= MAX_COMMAND_LEN
        &&& self.pos <= self.len
    }

    /// An empty command line.
    pub fn new(color: Color) -> (r: Self)
        ensures
            r.wf(),
            r.contents() == Seq::<u8>::empty(),
            r.spec_len() == 0,
            r.spec_pos() == 0,
            r.spec_color() == color,
    {
        let mut buffer: Vec<u8> = Vec::new();
        let mut i: usize = 0;
        while i < MAX_COMMAND_LEN
            invariant
                i <= MAX_COMMAND_LEN,
                buffer@.len() == i,
            decreases MAX_COMMAND_LEN - i,
        {
            buffer.push(0);
            i = i + 1;
        }
        let r = CommandBuffer { buffer, len: 0, pos: 0, color };
        proof {
            assert(r.contents() =~= Seq::<u8>::empty());
        }
        r
    }

    /// The byte at one position of the typed contents.
    pub fn byte_at(&self, i: usize) -> (r: u8)
        requires
            self.wf(),
            i < self.spec_len(),
        ensures
            r == self.contents()[i as int],
    {
        self.buffer[i]
    }

    /// Moves the cursor; the returned column is where the console cursor
    /// belongs, prompt included.
    pub fn set_pos(&mut self, pos: usize) -> (cursor: usize)
        requires
            old(self).wf(),
            pos <= old(self).spec_len(),
        ensures
            final(self).wf(),
            final(self).spec_pos() == pos,
            final(self).contents() == old(self).contents(),
            final(self).spec_len() == old(self).spec_len(),
            final(self).spec_color() == old(self).spec_color(),
            cursor == PROMPT_LEN + pos,
    {
        self.pos = pos;
        PROMPT_LEN + pos
    }

    /// Moves the cursor one place left, if it is not at the start; returns
    /// the console column to move to, if any.
    pub fn move_left(&mut self) -> (cursor: Option<usize>)
        requires
            old(self).wf(),
        ensures
            final(self).wf(),
            final(self).contents() == old(self).contents(),
            final(self).spec_len() == old(self).spec_len(),
            final(self).spec_color() == old(self).spec_color(),
            old(self).spec_pos() > 0 ==> final(self).spec_pos() == old(self).spec_pos() - 1
                && cursor == Some((PROMPT_LEN + old(self).spec_pos() - 1) as usize),
            old(self).spec_pos() == 0 ==> final(self).spec_pos() == 0 && cursor == None::<usize>,
    {
        if self.pos > 0 {
            Some(self.set_pos(self.pos - 1))
        } else {
            None
        }
    }

    /// Moves the cursor one place right, if it is not at the end; returns
    /// the console column to move to, if any.
    pub fn move_right(&mut self) -> (cursor: Option<usize>)
        requires
            old(self).wf(),
        ensures
            final(self).wf(),
            final(self).contents() == old(self).contents(),
            final(self).spec_len() == old(self).spec_len(),
            final(self).spec_color() == old(self).spec_color(),
            old(self).spec_pos() < old(self).spec_len() ==> final(self).spec_pos() == old(
                self,
            ).spec_pos() + 1 && cursor == Some((PROMPT_LEN + old(self).spec_pos() + 1) as usize),
            old(self).spec_pos() == old(self).spec_len() ==> final(self).spec_pos() == old(
                self,
            ).spec_pos() && cursor == None::<usize>,
    {
        if self.pos < self.len {
            Some(self.set_pos(self.pos + 1))
        } else {
            None
        }
    }

    /// Inserts one byte at the cursor, pushing the tail right; the cursor
    /// advances past it.
    pub fn insert_byte(&mut self, byte: u8)
        requires
            old(self).wf(),
            old(self).spec_len() < MAX_COMMAND_LEN,
        ensures
            final(self).wf(),
            final(self).contents() == old(self).contents().insert(old(self).spec_pos(), byte),
            final(self).spec_len() == old(self).spec_len() + 1,
            final(self).spec_pos() == old(self).spec_pos() + 1,
            final(self).spec_color() == old(self).spec_color(),
    {
        let ghost pre = *old(self);
        let mut i = self.len;
        while i > self.pos
            invariant
                self.pos <= i <= self.len,
                self.len == pre.spec_len() < MAX_COMMAND_LEN,
                self.pos == pre.spec_pos(),
                self.color == pre.spec_color(),
                self.buffer@.len() == MAX_COMMAND_LEN,
                pre.wf(),
                // below the cursor and the not-yet-shifted middle are intact
                forall|j: int| 0 <= j < i ==> self.buffer@[j] == pre.contents()[j],
                // the tail from i+1 up to len is the old tail shifted right
                forall|j: int|
                    i < j <= self.len ==> self.buffer@[j] == pre.contents()[j - 1],
            decreases i,
        {
            let moved = self.buffer[i - 1];
            self.buffer.set(i, moved);
            i = i - 1;
        }
        self.buffer.set(self.pos, byte);
        self.len = self.len + 1;
        self.pos = self.pos + 1;
        proof {
            assert(self.contents() =~= pre.contents().insert(pre.spec_pos(), byte));
        }
    }

    /// Removes the byte at the cursor (or, deleting backwards, the byte
    /// before it, moving the cursor onto its place), pulling the tail left.
    pub fn delete_byte(&mut self, decrement_pos: bool)
        requires
            old(self).wf(),
            decrement_pos ==> old(self).spec_pos() > 0,
            !decrement_pos ==> old(self).spec_pos() < old(self).spec_len(),
        ensures
            final(self).wf(),
            final(self).spec_pos() == if decrement_pos {
                old(self).spec_pos() - 1
            } else {
                old(self).spec_pos()
            },
            final(self).contents() == old(self).contents().remove(final(self).spec_pos()),
            final(self).spec_len() == old(self).spec_len() - 1,
            final(self).spec_color() == old(self).spec_color(),
    {
        let ghost pre = *old(self);
        self.len = self.len - 1;
        if decrement_pos {
            self.pos = self.pos - 1;
        }
        let mut i = self.pos;
        while i < self.len
            invariant
                self.pos <= i <= self.len,
                self.len == pre.spec_len() - 1,
                self.pos == if decrement_pos {
                    pre.spec_pos() - 1
                } else {
                    pre.spec_pos()
                },
                self.pos <= self.len,
                self.color == pre.spec_color(),
                self.buffer@.len() == MAX_COMMAND_LEN,
                pre.wf(),
                forall|j: int| 0 <= j < self.pos ==> self.buffer@[j] == pre.contents()[j],
                forall|j: int| self.pos <= j < i ==> self.buffer@[j] == pre.contents()[j + 1],
                forall|j: int| i <= j <= self.len ==> self.buffer@[j] == pre.contents()[j],
            decreases self.len - i,
        {
            let moved = self.buffer[i + 1];
            self.buffer.set(i, moved);
            i = i + 1;
        }
        proof {
            assert(self.contents() =~= pre.contents().remove(self.spec_pos()));
        }
    }

    /// The typed bytes with surrounding spaces removed, as the command to
    /// look up.
    pub fn trimmed(&self) -> (r: Vec<u8>)
        requires
            self.wf(),
        ensures
            r@ == trimmed_spec(self.contents()),
    {
        let ghost s = self.contents();
        let mut start: usize = 0;
        while start < self.len && self.buffer[start] == SPACE
            invariant
                self.wf(),
                s == self.contents(),
                start <= self.len,
                trim_start_idx(s, 0) == trim_start_idx(s, start as int),
            decreases self.len - start,
        {
            start = start + 1;
        }
        assert(trim_start_idx(s, start as int) == start as int);
        let mut end: usize = self.len;
        while end > start && self.buffer[end - 1] == SPACE
            invariant
                self.wf(),
                s == self.contents(),
                start <= end <= self.len,
                trim_start_idx(s, 0) == start as int,
                trim_end_idx(s, start as int, self.spec_len()) == trim_end_idx(
                    s,
                    start as int,
                    end as int,
                ),
            decreases end,
        {
            end = end - 1;
        }
        assert(trim_end_idx(s, start as int, end as int) == end as int);
        let mut r: Vec<u8> = Vec::new();
        let mut i = start;
        while i < end
            invariant
                self.wf(),
                s == self.contents(),
                start <= i <= end <= self.len,
                r@.len() == i - start,
                forall|j: int| 0 <= j < i - start ==> r@[j] == s[start + j],
            decreases end - i,
        {
            r.push(self.buffer[i]);
            i = i + 1;
        }
        proof {
            assert(r@ =~= trimmed_spec(s));
        }
        r
    }
}

/// The actions that print the prompt in one screen's color.
pub open spec fn prompt_actions(color: Color) -> Seq<ScreenAction> {
    seq![
        ScreenAction::SetForegroundColor(color),
        ScreenAction::WriteByte(0x3E),
        ScreenAction::WriteByte(SPACE),
        ScreenAction::ResetForegroundColor,
    ]
}

/// The write of each byte of `contents` from `pos` to the end, in order.
pub open spec fn echo_tail_actions(contents: Seq<u8>, pos: int) -> Seq<ScreenAction> {
    Seq::new((contents.len() - pos) as nat, |i: int| ScreenAction::WriteByte(contents[pos + i]))
}

/// The console actions of inserting one byte at `pos`: park the cursor,
/// repaint the tail from the inserted byte on, and step the cursor past it.
pub open spec fn insert_actions(contents_after: Seq<u8>, pos: int) -> Seq<ScreenAction> {
    seq![ScreenAction::SetCursor((PROMPT_LEN + pos) as usize)] + echo_tail_actions(
        contents_after,
        pos,
    ) + seq![ScreenAction::SetCursor((PROMPT_LEN + pos + 1) as usize)]
}

/// The console actions of removing the byte at `pos`: park the cursor,
/// repaint the shortened tail, blank the freed cell, and park again.
pub open spec fn delete_actions(contents_after: Seq<u8>, pos: int) -> Seq<ScreenAction> {
    seq![ScreenAction::SetCursor((PROMPT_LEN + pos) as usize)] + echo_tail_actions(
        contents_after,
        pos,
    ) + seq![ScreenAction::WriteByte(SPACE), ScreenAction::SetCursor((PROMPT_LEN + pos) as usize)]
}

/// Blank columns kept left and right of the welcome box.
pub const WELCOME_MARGIN: usize = 2;

/// How often the inner corner byte of a welcome frame row repeats.
pub const CORNER_REPEAT: usize = 3;

/// `n` writes of one byte.
pub open spec fn repeat_write(byte: u8, n: int) -> Seq<ScreenAction> {
    Seq::new(n as nat, |i: int| ScreenAction::WriteByte(byte))
}

/// One write per byte of `s`, in order.
pub open spec fn echo_actions(s: Seq<u8>) -> Seq<ScreenAction> {
    Seq::new(s.len(), |i: int| ScreenAction::WriteByte(s[i]))
}

/// One frame row of the welcome box: margin, a corner byte, the repeated
/// inner corner, the filler across the middle, and the mirrored right side.
pub open spec fn welcome_line_actions(
    left: u8,
    left2: u8,
    middle: u8,
    right2: u8,
    right: u8,
) -> Seq<ScreenAction> {
    repeat_write(SPACE, WELCOME_MARGIN as int) + seq![ScreenAction::WriteByte(left)]
        + repeat_write(left2, CORNER_REPEAT as int) + repeat_write(
        middle,
        VGA_WIDTH - 2 * (WELCOME_MARGIN + CORNER_REPEAT + 1),
    ) + repeat_write(right2, CORNER_REPEAT as int) + seq![ScreenAction::WriteByte(right)]
        + repeat_write(SPACE, WELCOME_MARGIN as int)
}

/// One banner row between the box walls, centred: a spare column goes to the
/// right of the text.
pub open spec fn welcome_title_actions(s: Seq<u8>) -> Seq<ScreenAction>
    recommends
        s.len() + 2 + 2 * WELCOME_MARGIN <= VGA_WIDTH,
{
    let remaining = VGA_WIDTH - 2 - 2 * WELCOME_MARGIN - s.len();
    repeat_write(SPACE, WELCOME_MARGIN as int) + seq![ScreenAction::WriteByte(0xBA)]
        + repeat_write(SPACE, remaining / 2) + echo_actions(s) + repeat_write(
        SPACE,
        (remaining + 1) / 2,
    ) + seq![ScreenAction::WriteByte(0xBA)] + repeat_write(SPACE, WELCOME_MARGIN as int)
}

/// Appends `n` writes of one byte.
fn push_repeat(actions: &mut Vec<ScreenAction>, byte: u8, n: usize)
    ensures
        final(actions)@ == old(actions)@ + repeat_write(byte, n as int),
{
    let ghost start = actions@;
    let mut i: usize = 0;
    while i < n
        invariant
            i <= n,
            actions@.len() == start.len() + i,
            forall|j: int| 0 <= j < start.len() ==> #[trigger] actions@[j] == start[j],
            forall|j: int|
                start.len() <= j < actions@.len() ==> #[trigger] actions@[j]
                    == ScreenAction::WriteByte(byte),
        decreases n - i,
    {
        actions.push(ScreenAction::WriteByte(byte));
        i = i + 1;
    }
    proof {
        assert(actions@ =~= start + repeat_write(byte, n as int));
    }
}

/// Appends one write per byte of `s`.
fn push_echo(actions: &mut Vec<ScreenAction>, s: &[u8])
    ensures
        final(actions)@ == old(actions)@ + echo_actions(s@),
{
    let ghost start = actions@;
    let n = s.len();
    let mut i: usize = 0;
    while i < n
        invariant
            i <= n,
            n == s@.len(),
            actions@.len() == start.len() + i,
            forall|j: int| 0 <= j < start.len() ==> #[trigger] actions@[j] == start[j],
            forall|j: int|
                start.len() <= j < actions@.len() ==> #[trigger] actions@[j]
                    == ScreenAction::WriteByte(s@[j - start.len()]),
        decreases n - i,
    {
        actions.push(ScreenAction::WriteByte(s[i]));
        i = i + 1;
    }
    proof {
        assert(actions@ =~= start + echo_actions(s@));
    }
}

/// The shell: one command line per virtual screen, and which screen is
/// displayed.
pub struct Shell {
    screen_idx: usize,
    commands: Vec<CommandBuffer>,
}

/// The shell after a keystroke that only edits the displayed screen's
/// command line: that line's contents and cursor become as given, everything
/// else stays.
pub open spec fn buffer_becomes(pre: Shell, post: Shell, contents: Seq<u8>, pos: int) -> bool {
    let s = pre.spec_screen_idx();
    &&& post.spec_screen_idx() == s
    &&& post.buffers().len() == pre.buffers().len()
    &&& forall|j: int|
        0 <= j < pre.buffers().len() && j != s ==> post.buffers()[j] == pre.buffers()[j]
    &&& post.buffers()[s].contents() == contents
    &&& post.buffers()[s].spec_pos() == pos
    &&& post.buffers()[s].spec_len() == contents.len()
    &&& post.buffers()[s].spec_color() == pre.buffers()[s].spec_color()
}

/// A keystroke that changes nothing: same shell, no actions, no command.
pub open spec fn shell_unchanged(
    pre: Shell,
    post: Shell,
    actions: Seq<ScreenAction>,
    cmd: Option<Seq<u8>>,
) -> bool {
    &&& post == pre
    &&& actions.len() == 0
    &&& cmd == None::<Seq<u8>>
}

/// What one keystroke does: the new shell state, the console actions in
/// order, and the command to execute, if the line was submitted and
/// non-blank.
pub open spec fn send_key_post(
    pre: Shell,
    post: Shell,
    key: DecodedKey,
    actions: Seq<ScreenAction>,
    cmd: Option<Seq<u8>>,
) -> bool {
    let s = pre.spec_screen_idx();
    let buf = pre.buffers()[s];
    match key {
        DecodedKey::Unicode(ch) => {
            let code = ch as u32;
            if code == 10 {  // line feed: submit the line
                let trimmed = trimmed_spec(buf.contents());
                &&& buffer_becomes(pre, post, Seq::empty(), 0)
                &&& actions == seq![ScreenAction::WriteByte(10)] + (if trimmed.len() > 0 {
                    seq![ScreenAction::Execute]
                } else {
                    Seq::<ScreenAction>::empty()
                }) + prompt_actions(buf.spec_color()) + seq![ScreenAction::SetCursor(PROMPT_LEN)]
                &&& cmd == (if trimmed.len() > 0 {
                    Some(trimmed)
                } else {
                    None::<Seq<u8>>
                })
            } else if code == 8 {  // backspace: delete before the cursor
                if buf.spec_pos() > 0 {
                    let contents = buf.contents().remove(buf.spec_pos() - 1);
                    &&& buffer_becomes(pre, post, contents, buf.spec_pos() - 1)
                    &&& actions == delete_actions(contents, buf.spec_pos() - 1)
                    &&& cmd == None::<Seq<u8>>
                } else {
                    shell_unchanged(pre, post, actions, cmd)
                }
            } else if code == 27 {  // escape: leave the system
                &&& post == pre
                &&& actions == seq![ScreenAction::Exit]
                &&& cmd == None::<Seq<u8>>
            } else if code == 127 {  // delete: remove under the cursor
                if buf.spec_pos() < buf.spec_len() {
                    let contents = buf.contents().remove(buf.spec_pos());
                    &&& buffer_becomes(pre, post, contents, buf.spec_pos())
                    &&& actions == delete_actions(contents, buf.spec_pos())
                    &&& cmd == None::<Seq<u8>>
                } else {
                    shell_unchanged(pre, post, actions, cmd)
                }
            } else if 32 <= code <= 126 {  // printable: insert at the cursor
                if buf.spec_len() < MAX_COMMAND_LEN {
                    let contents = buf.contents().insert(buf.spec_pos(), code as u8);
                    &&& buffer_becomes(pre, post, contents, buf.spec_pos() + 1)
                    &&& actions == insert_actions(contents, buf.spec_pos())
                    &&& cmd == None::<Seq<u8>>
                } else {
                    shell_unchanged(pre, post, actions, cmd)
                }
            } else {
                shell_unchanged(pre, post, actions, cmd)
            }
        },
        DecodedKey::RawKey(k) => match k {
            KeyCode::ArrowLeft => if buf.spec_pos() > 0 {
                &&& buffer_becomes(pre, post, buf.contents(), buf.spec_pos() - 1)
                &&& actions == seq![
                    ScreenAction::SetCursor((PROMPT_LEN + buf.spec_pos() - 1) as usize),
                ]
                &&& cmd == None::<Seq<u8>>
            } else {
                shell_unchanged(pre, post, actions, cmd)
            },
            KeyCode::ArrowRight => if buf.spec_pos() < buf.spec_len() {
                &&& buffer_becomes(pre, post, buf.contents(), buf.spec_pos() + 1)
                &&& actions == seq![
                    ScreenAction::SetCursor((PROMPT_LEN + buf.spec_pos() + 1) as usize),
                ]
                &&& cmd == None::<Seq<u8>>
            } else {
                shell_unchanged(pre, post, actions, cmd)
            },
            KeyCode::Home => {
                &&& buffer_becomes(pre, post, buf.contents(), 0)
                &&& actions == seq![ScreenAction::SetCursor(PROMPT_LEN)]
                &&& cmd == None::<Seq<u8>>
            },
            KeyCode::End => {
                &&& buffer_becomes(pre, post, buf.contents(), buf.spec_len())
                &&& actions == seq![
                    ScreenAction::SetCursor((PROMPT_LEN + buf.spec_len()) as usize),
                ]
                &&& cmd == None::<Seq<u8>>
            },
            KeyCode::ArrowUp => post == pre && actions == seq![ScreenAction::MoveUp] && cmd
                == None::<Seq<u8>>,
            KeyCode::ArrowDown => post == pre && actions == seq![ScreenAction::MoveDown] && cmd
                == None::<Seq<u8>>,
            KeyCode::PageUp => post == pre && actions == seq![ScreenAction::MoveAllTheWayUp] && cmd
                == None::<Seq<u8>>,
            KeyCode::PageDown => post == pre && actions == seq![ScreenAction::MoveAllTheWayDown]
                && cmd == None::<Seq<u8>>,
            KeyCode::F1 => switch_screen_post(pre, post, 0, actions, cmd),
            KeyCode::F2 => switch_screen_post(pre, post, 1, actions, cmd),
            KeyCode::F3 => switch_screen_post(pre, post, 2, actions, cmd),
            KeyCode::F4 => switch_screen_post(pre, post, 3, actions, cmd),
            _ => shell_unchanged(pre, post, actions, cmd),
        },
    }
}

/// Switching to a screen displays it with the cursor where its own command
/// line last stood; switching to the displayed screen does nothing.
pub open spec fn switch_screen_post(
    pre: Shell,
    post: Shell,
    idx: int,
    actions: Seq<ScreenAction>,
    cmd: Option<Seq<u8>>,
) -> bool {
    if idx != pre.spec_screen_idx() {
        &&& post.buffers() == pre.buffers()
        &&& post.spec_screen_idx() == idx
        &&& actions == seq![
            ScreenAction::SwitchScreen {
                screen_idx: idx as usize,
                cursor: (pre.buffers()[idx].spec_pos() + PROMPT_LEN) as usize,
            },
        ]
        &&& cmd == None::<Seq<u8>>
    } else {
        shell_unchanged(pre, post, actions, cmd)
    }
}

impl Shell {
    /// Which screen is displayed.
    pub closed spec fn spec_screen_idx(self) -> int {
        self.screen_idx as int
    }

    /// The per-screen command lines.
    pub closed spec fn buffers(self) -> Seq<CommandBuffer> {
        self.commands@
    }

    /// One command line per screen, all in range and well-formed.
    pub closed spec fn wf(self) -> bool {
        &&& self.commands@.len() == VGA_SCREENS
        &&& self.screen_idx < VGA_SCREENS
        &&& forall|i: int| 0 <= i < VGA_SCREENS ==> self.commands@[i].wf()
    }

    /// A fresh shell: the first screen displayed, every line empty, each
    /// screen with its own prompt color.
    pub fn new() -> (r: Self)
        ensures
            r.wf(),
            r.spec_screen_idx() == 0,
            r.buffers().len() == VGA_SCREENS,
            forall|i: int|
                0 <= i < VGA_SCREENS ==> r.buffers()[i].contents() == Seq::<u8>::empty()
                    && r.buffers()[i].spec_pos() == 0,
            r.buffers()[0].spec_color() == Color::Pink,
            r.buffers()[1].spec_color() == Color::LightCyan,
            r.buffers()[2].spec_color() == Color::LightRed,
            r.buffers()[3].spec_color() == Color::LightGreen,
    {
        let mut commands: Vec<CommandBuffer> = Vec::new();
        commands.push(CommandBuffer::new(Color::Pink));
        commands.push(CommandBuffer::new(Color::LightCyan));
        commands.push(CommandBuffer::new(Color::LightRed));
        commands.push(CommandBuffer::new(Color::LightGreen));
        Shell { screen_idx: 0, commands }
    }

    /// Displays another screen.
    fn switch_screen(&mut self, screen_idx: usize, actions: &mut Vec<ScreenAction>)
        requires
            old(self).wf(),
            screen_idx < VGA_SCREENS,
            old(actions)@.len() == 0,
        ensures
            final(self).wf(),
            switch_screen_post(
                *old(self),
                *final(self),
                screen_idx as int,
                final(actions)@,
                None::<Seq<u8>>,
            ),
    {
        if screen_idx != self.screen_idx {
            self.screen_idx = screen_idx;
            let cb = &self.commands[screen_idx];
            actions.push(
                ScreenAction::SwitchScreen { screen_idx, cursor: cb.pos + PROMPT_LEN },
            );
            proof {
                assert(actions@ =~= seq![
                    ScreenAction::SwitchScreen {
                        screen_idx,
                        cursor: (self.buffers()[screen_idx as int].spec_pos()
                            + PROMPT_LEN) as usize,
                    },
                ]);
            }
        }
    }

    /// The writes of one frame row of the welcome box.
    pub fn print_welcome_line(left: u8, left2: u8, middle: u8, right2: u8, right: u8) -> (r: Vec<
        ScreenAction,
    >)
        ensures
            r@ == welcome_line_actions(left, left2, middle, right2, right),
    {
        let mut r: Vec<ScreenAction> = Vec::new();
        push_repeat(&mut r, SPACE, WELCOME_MARGIN);
        r.push(ScreenAction::WriteByte(left));
        push_repeat(&mut r, left2, CORNER_REPEAT);
        push_repeat(&mut r, middle, VGA_WIDTH - 2 * (WELCOME_MARGIN + CORNER_REPEAT + 1));
        push_repeat(&mut r, right2, CORNER_REPEAT);
        r.push(ScreenAction::WriteByte(right));
        push_repeat(&mut r, SPACE, WELCOME_MARGIN);
        proof {
            assert(r@ =~= welcome_line_actions(left, left2, middle, right2, right));
        }
        r
    }

    /// The writes of one banner row of the welcome box, centred between the
    /// walls.
    pub fn print_welcome_title(s: &[u8]) -> (r: Vec<ScreenAction>)
        requires
            s@.len() + 2 + 2 * WELCOME_MARGIN <= VGA_WIDTH,
        ensures
            r@ == welcome_title_actions(s@),
    {
        let remaining = VGA_WIDTH - 2 - 2 * WELCOME_MARGIN - s.len();
        let mut r: Vec<ScreenAction> = Vec::new();
        push_repeat(&mut r, SPACE, WELCOME_MARGIN);
        r.push(ScreenAction::WriteByte(0xBA));
        push_repeat(&mut r, SPACE, remaining / 2);
        push_echo(&mut r, s);
        push_repeat(&mut r, SPACE, (remaining + 1) / 2);
        r.push(ScreenAction::WriteByte(0xBA));
        push_repeat(&mut r, SPACE, WELCOME_MARGIN);
        proof {
            assert(r@ =~= welcome_title_actions(s@));
        }
        r
    }

    /// The writes that print the prompt in one screen's color.
    pub fn print_prompt(&self) -> (r: Vec<ScreenAction>)
        requires
            self.wf(),
        ensures
            r@ == prompt_actions(self.buffers()[self.spec_screen_idx()].spec_color()),
    {
        let color = (&self.commands[self.screen_idx]).color;
        let mut r: Vec<ScreenAction> = Vec::new();
        r.push(ScreenAction::SetForegroundColor(color));
        r.push(ScreenAction::WriteByte(0x3E));
        r.push(ScreenAction::WriteByte(SPACE));
        r.push(ScreenAction::ResetForegroundColor);
        proof {
            assert(r@ =~= prompt_actions(self.buffers()[self.spec_screen_idx()].spec_color()));
        }
        r
    }

    /// Applies one decoded key: edits the displayed command line, and
    /// returns the console actions to perform in order, together with the
    /// submitted command when a non-blank line was entered.
    pub fn send_key(&mut self, key: DecodedKey) -> (r: (Vec<ScreenAction>, Option<Vec<u8>>))
        requires
            old(self).wf(),
        ensures
            final(self).wf(),
            send_key_post(
                *old(self),
                *final(self),
                key,
                r.0@,
                match r.1 {
                    Some(v) => Some(v@),
                    None => None::<Seq<u8>>,
                },
            ),
    {
        let ghost pre = *old(self);
        let s = self.screen_idx;
        let mut actions: Vec<ScreenAction> = Vec::new();
        let mut cmd: Option<Vec<u8>> = None;
        match key {
            DecodedKey::Unicode(ch) => {
                let code = ch as u32;
                if code == 10 {
                    actions.push(ScreenAction::WriteByte(10));
                    let trimmed = (&self.commands[s]).trimmed();
                    let ghost trimmed_view = trimmed@;
                    if trimmed.len() > 0 {
                        actions.push(ScreenAction::Execute);
                        cmd = Some(trimmed);
                    }
                    let color = (&self.commands[s]).color;
                    actions.push(ScreenAction::SetForegroundColor(color));
                    actions.push(ScreenAction::WriteByte(0x3E));
                    actions.push(ScreenAction::WriteByte(SPACE));
                    actions.push(ScreenAction::ResetForegroundColor);
                    actions.push(ScreenAction::SetCursor(PROMPT_LEN));
                    let cb = &mut self.commands[s];
                    cb.len = 0;
                    cb.pos = 0;
                    proof {
                        let buf = pre.buffers()[s as int];
                        assert(self.buffers()[s as int].contents() =~= Seq::<u8>::empty());
                        if trimmed_view.len() > 0 {
                            assert(actions@ =~= seq![ScreenAction::WriteByte(10)] + seq![
                                ScreenAction::Execute,
                            ] + prompt_actions(buf.spec_color()) + seq![
                                ScreenAction::SetCursor(PROMPT_LEN),
                            ]);
                        } else {
                            assert(actions@ =~= seq![ScreenAction::WriteByte(10)]
                                + Seq::<ScreenAction>::empty() + prompt_actions(buf.spec_color())
                                + seq![ScreenAction::SetCursor(PROMPT_LEN)]);
                        }
                    }
                } else if code == 8 {
                    if (&self.commands[s]).pos > 0 {
                        self.delete_and_repaint(s, true, &mut actions);
                    }
                } else if code == 27 {
                    actions.push(ScreenAction::Exit);
                    proof {
                        assert(actions@ =~= seq![ScreenAction::Exit]);
                    }
                } else if code == 127 {
                    if (&self.commands[s]).pos < (&self.commands[s]).len {
                        self.delete_and_repaint(s, false, &mut actions);
                    }
                } else if 32 <= code && code <= 126 {
                    if (&self.commands[s]).len < MAX_COMMAND_LEN {
                        let byte = code as u8;
                        let pos0 = (&self.commands[s]).pos;
                        let cb = &mut self.commands[s];
                        cb.insert_byte(byte);
                        actions.push(ScreenAction::SetCursor(PROMPT_LEN + pos0));
                        let n = (&self.commands[s]).len;
                        let ghost contents = self.buffers()[s as int].contents();
                        let mut i = pos0;
                        while i < n
                            invariant
                                self.wf(),
                                s < VGA_SCREENS,
                                s == self.spec_screen_idx(),
                                pos0 <= i <= n,
                                n == self.buffers()[s as int].spec_len(),
                                contents == self.buffers()[s as int].contents(),
                                actions@.len() == 1 + i - pos0,
                                actions@[0] == ScreenAction::SetCursor(
                                    (PROMPT_LEN + pos0) as usize,
                                ),
                                forall|j: int|
                                    1 <= j < actions@.len() ==> #[trigger] actions@[j]
                                        == ScreenAction::WriteByte(contents[pos0 + j - 1]),
                            decreases n - i,
                        {
                            let b = (&self.commands[s]).byte_at(i);
                            actions.push(ScreenAction::WriteByte(b));
                            i = i + 1;
                        }
                        actions.push(ScreenAction::SetCursor(PROMPT_LEN + pos0 + 1));
                        proof {
                            assert(actions@ =~= insert_actions(contents, pos0 as int));
                        }
                    }
                }
            },
            DecodedKey::RawKey(k) => {
                match k {
                    KeyCode::ArrowLeft => {
                        if (&self.commands[s]).pos > 0 {
                            let cb = &mut self.commands[s];
                            let cursor = cb.move_left();
                            if let Some(c) = cursor {
                                actions.push(ScreenAction::SetCursor(c));
                                proof {
                                    assert(actions@ =~= seq![ScreenAction::SetCursor(c)]);
                                }
                            }
                        }
                    },
                    KeyCode::ArrowRight => {
                        if (&self.commands[s]).pos < (&self.commands[s]).len {
                            let cb = &mut self.commands[s];
                            let cursor = cb.move_right();
                            if let Some(c) = cursor {
                                actions.push(ScreenAction::SetCursor(c));
                                proof {
                                    assert(actions@ =~= seq![ScreenAction::SetCursor(c)]);
                                }
                            }
                        }
                    },
                    KeyCode::Home => {
                        let cb = &mut self.commands[s];
                        let cursor = cb.set_pos(0);
                        actions.push(ScreenAction::SetCursor(cursor));
                        proof {
                            assert(actions@ =~= seq![ScreenAction::SetCursor(cursor)]);
                        }
                    },
                    KeyCode::End => {
                        let cb = &mut self.commands[s];
                        let end = cb.len;
                        let cursor = cb.set_pos(end);
                        actions.push(ScreenAction::SetCursor(cursor));
                        proof {
                            assert(actions@ =~= seq![ScreenAction::SetCursor(cursor)]);
                        }
                    },
                    KeyCode::ArrowUp => {
                        actions.push(ScreenAction::MoveUp);
                        proof {
                            assert(actions@ =~= seq![ScreenAction::MoveUp]);
                        }
                    },
                    KeyCode::ArrowDown => {
                        actions.push(ScreenAction::MoveDown);
                        proof {
                            assert(actions@ =~= seq![ScreenAction::MoveDown]);
                        }
                    },
                    KeyCode::PageUp => {
                        actions.push(ScreenAction::MoveAllTheWayUp);
                        proof {
                            assert(actions@ =~= seq![ScreenAction::MoveAllTheWayUp]);
                        }
                    },
                    KeyCode::PageDown => {
                        actions.push(ScreenAction::MoveAllTheWayDown);
                        proof {
                            assert(actions@ =~= seq![ScreenAction::MoveAllTheWayDown]);
                        }
                    },
                    KeyCode::F1 => self.switch_screen(0, &mut actions),
                    KeyCode::F2 => self.switch_screen(1, &mut actions),
                    KeyCode::F3 => self.switch_screen(2, &mut actions),
                    KeyCode::F4 => self.switch_screen(3, &mut actions),
                    _ => {},
                }
            },
        }
        (actions, cmd)
    }

    /// Removes one byte from the displayed line and repaints its tail.
    fn delete_and_repaint(&mut self, s: usize, decrement_pos: bool, actions: &mut Vec<ScreenAction>)
        requires
            old(self).wf(),
            s == old(self).spec_screen_idx(),
            old(actions)@.len() == 0,
            decrement_pos ==> old(self).buffers()[s as int].spec_pos() > 0,
            !decrement_pos ==> old(self).buffers()[s as int].spec_pos() < old(
                self,
            ).buffers()[s as int].spec_len(),
        ensures
            final(self).wf(),
            ({
                let buf = old(self).buffers()[s as int];
                let pos = if decrement_pos {
                    buf.spec_pos() - 1
                } else {
                    buf.spec_pos()
                };
                let contents = buf.contents().remove(pos);
                &&& buffer_becomes(*old(self), *final(self), contents, pos)
                &&& final(actions)@ == delete_actions(contents, pos)
            }),
    {
        let cb = &mut self.commands[s];
        cb.delete_byte(decrement_pos);
        let pos0 = (&self.commands[s]).pos;
        let n = (&self.commands[s]).len;
        let ghost contents = self.buffers()[s as int].contents();
        actions.push(ScreenAction::SetCursor(PROMPT_LEN + pos0));
        let mut i = pos0;
        while i < n
            invariant
                self.wf(),
                s < VGA_SCREENS,
                s == self.spec_screen_idx(),
                pos0 <= i <= n,
                pos0 == self.buffers()[s as int].spec_pos(),
                n == self.buffers()[s as int].spec_len(),
                contents == self.buffers()[s as int].contents(),
                actions@.len() == 1 + i - pos0,
                actions@[0] == ScreenAction::SetCursor((PROMPT_LEN + pos0) as usize),
                forall|j: int|
                    1 <= j < actions@.len() ==> #[trigger] actions@[j] == ScreenAction::WriteByte(
                        contents[pos0 + j - 1],
                    ),
            decreases n - i,
        {
            let b = (&self.commands[s]).byte_at(i);
            actions.push(ScreenAction::WriteByte(b));
            i = i + 1;
        }
        actions.push(ScreenAction::WriteByte(SPACE));
        actions.push(ScreenAction::SetCursor(PROMPT_LEN + pos0));
        proof {
            assert(actions@ =~= delete_actions(contents, pos0 as int));
        }
    }
}


} // verus!
