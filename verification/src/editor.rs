//! The editor state: cursor, viewport, mode state machine, and the command
//! interpreter. Each input byte is dispatched according to the active mode;
//! the outcome tells the caller whether to keep running and whether a save
//! of the serialized document should be attempted.

use crate::buffer::EditorBuffer;
use crate::text::push_all;
use vstd::prelude::*;

verus! {

pub const KEY_ESC: u8 = 0x1b;
pub const KEY_CR: u8 = 0x0d;
pub const KEY_LF: u8 = 0x0a;
pub const KEY_BS: u8 = 0x08;
pub const KEY_DEL: u8 = 0x7f;

/// The active interpretation rule-set for input bytes.
#[derive(PartialEq, Eq, Structural, Clone, Copy, Debug)]
pub enum Mode {
    Normal,
    Insert,
    Command,
}

/// What the event loop must do after a keypress: keep running or stop, and
/// whether a save of the document should be attempted first. The save
/// itself is the storage collaborator's job, outside this crate.
#[derive(PartialEq, Eq, Structural, Clone, Copy, Debug)]
pub enum EditorAction {
    Continue,
    Quit,
    SaveAndContinue,
    SaveAndQuit,
}

/// A byte that Insert and Command mode accept as text: not a C0 or C1
/// control byte and not DEL. Column math is byte-based by design.
pub open spec fn is_printable(b: u8) -> bool {
    (0x20 <= b < 0x7f) || 0xa0 <= b
}

fn printable(b: u8) -> (r: bool)
    ensures
        r == is_printable(b),
{
    (0x20 <= b && b < 0x7f) || 0xa0 <= b
}

/// The greeting shown in the status line of a fresh session.
pub open spec fn welcome_msg() -> Seq<u8> {
    seq!['W' as u8, 'E' as u8, 'L' as u8, 'C' as u8, 'O' as u8, 'M' as u8, 'E' as u8, '!' as u8, ' ' as u8, ':' as u8, 'q' as u8, ' ' as u8, 't' as u8, 'o' as u8, ' ' as u8, 'q' as u8, 'u' as u8, 'i' as u8, 't' as u8]
}

fn make_welcome_msg() -> (r: Vec<u8>)
    ensures
        r@ == welcome_msg(),
{
    let mut r: Vec<u8> = Vec::new();
    r.push('W' as u8);
    r.push('E' as u8);
    r.push('L' as u8);
    r.push('C' as u8);
    r.push('O' as u8);
    r.push('M' as u8);
    r.push('E' as u8);
    r.push('!' as u8);
    r.push(' ' as u8);
    r.push(':' as u8);
    r.push('q' as u8);
    r.push(' ' as u8);
    r.push('t' as u8);
    r.push('o' as u8);
    r.push(' ' as u8);
    r.push('q' as u8);
    r.push('u' as u8);
    r.push('i' as u8);
    r.push('t' as u8);
    proof {
        assert(r@ =~= welcome_msg());
    }
    r
}

/// Status text for a save attempt without a configured file name.
pub open spec fn no_filename_msg() -> Seq<u8> {
    seq!['N' as u8, 'o' as u8, ' ' as u8, 'f' as u8, 'i' as u8, 'l' as u8, 'e' as u8, ' ' as u8, 'n' as u8, 'a' as u8, 'm' as u8, 'e' as u8, '!' as u8, ' ' as u8, 'U' as u8, 's' as u8, 'e' as u8, ' ' as u8, ':' as u8, 'w' as u8, ' ' as u8, '<' as u8, 'f' as u8, 'i' as u8, 'l' as u8, 'e' as u8, 'n' as u8, 'a' as u8, 'm' as u8, 'e' as u8, '>' as u8, ' ' as u8, '(' as u8, 'T' as u8, 'B' as u8, 'D' as u8, ')' as u8]
}

fn make_no_filename_msg() -> (r: Vec<u8>)
    ensures
        r@ == no_filename_msg(),
{
    let mut r: Vec<u8> = Vec::new();
    r.push('N' as u8);
    r.push('o' as u8);
    r.push(' ' as u8);
    r.push('f' as u8);
    r.push('i' as u8);
    r.push('l' as u8);
    r.push('e' as u8);
    r.push(' ' as u8);
    r.push('n' as u8);
    r.push('a' as u8);
    r.push('m' as u8);
    r.push('e' as u8);
    r.push('!' as u8);
    r.push(' ' as u8);
    r.push('U' as u8);
    r.push('s' as u8);
    r.push('e' as u8);
    r.push(' ' as u8);
    r.push(':' as u8);
    r.push('w' as u8);
    r.push(' ' as u8);
    r.push('<' as u8);
    r.push('f' as u8);
    r.push('i' as u8);
    r.push('l' as u8);
    r.push('e' as u8);
    r.push('n' as u8);
    r.push('a' as u8);
    r.push('m' as u8);
    r.push('e' as u8);
    r.push('>' as u8);
    r.push(' ' as u8);
    r.push('(' as u8);
    r.push('T' as u8);
    r.push('B' as u8);
    r.push('D' as u8);
    r.push(')' as u8);
    proof {
        assert(r@ =~= no_filename_msg());
    }
    r
}

/// Prefix of the status text confirming a successful save.
pub open spec fn saved_prefix() -> Seq<u8> {
    seq!['S' as u8, 'a' as u8, 'v' as u8, 'e' as u8, 'd' as u8, ' ' as u8, 't' as u8, 'o' as u8, ' ' as u8]
}

fn make_saved_prefix() -> (r: Vec<u8>)
    ensures
        r@ == saved_prefix(),
{
    let mut r: Vec<u8> = Vec::new();
    r.push('S' as u8);
    r.push('a' as u8);
    r.push('v' as u8);
    r.push('e' as u8);
    r.push('d' as u8);
    r.push(' ' as u8);
    r.push('t' as u8);
    r.push('o' as u8);
    r.push(' ' as u8);
    proof {
        assert(r@ =~= saved_prefix());
    }
    r
}

/// Prefix of the status text reporting a failed save.
pub open spec fn error_prefix() -> Seq<u8> {
    seq!['E' as u8, 'r' as u8, 'r' as u8, 'o' as u8, 'r' as u8, ':' as u8, ' ' as u8]
}

fn make_error_prefix() -> (r: Vec<u8>)
    ensures
        r@ == error_prefix(),
{
    let mut r: Vec<u8> = Vec::new();
    r.push('E' as u8);
    r.push('r' as u8);
    r.push('r' as u8);
    r.push('o' as u8);
    r.push('r' as u8);
    r.push(':' as u8);
    r.push(' ' as u8);
    proof {
        assert(r@ =~= error_prefix());
    }
    r
}

/// Prefix of the status text for an unrecognized command.
pub open spec fn unknown_prefix() -> Seq<u8> {
    seq!['U' as u8, 'n' as u8, 'k' as u8, 'n' as u8, 'o' as u8, 'w' as u8, 'n' as u8, ':' as u8, ' ' as u8]
}

fn make_unknown_prefix() -> (r: Vec<u8>)
    ensures
        r@ == unknown_prefix(),
{
    let mut r: Vec<u8> = Vec::new();
    r.push('U' as u8);
    r.push('n' as u8);
    r.push('k' as u8);
    r.push('n' as u8);
    r.push('o' as u8);
    r.push('w' as u8);
    r.push('n' as u8);
    r.push(':' as u8);
    r.push(' ' as u8);
    proof {
        assert(r@ =~= unknown_prefix());
    }
    r
}

/// Prefix of the status text after a document was read in.
pub open spec fn opened_prefix() -> Seq<u8> {
    seq!['O' as u8, 'p' as u8, 'e' as u8, 'n' as u8, 'e' as u8, 'd' as u8, ':' as u8, ' ' as u8]
}

fn make_opened_prefix() -> (r: Vec<u8>)
    ensures
        r@ == opened_prefix(),
{
    let mut r: Vec<u8> = Vec::new();
    r.push('O' as u8);
    r.push('p' as u8);
    r.push('e' as u8);
    r.push('n' as u8);
    r.push('e' as u8);
    r.push('d' as u8);
    r.push(':' as u8);
    r.push(' ' as u8);
    proof {
        assert(r@ =~= opened_prefix());
    }
    r
}

/// Prefix of the status text when the named file could not be read and a fresh document starts in its place.
pub open spec fn new_file_prefix() -> Seq<u8> {
    seq!['N' as u8, 'e' as u8, 'w' as u8, ' ' as u8, 'f' as u8, 'i' as u8, 'l' as u8, 'e' as u8, ':' as u8, ' ' as u8]
}

fn make_new_file_prefix() -> (r: Vec<u8>)
    ensures
        r@ == new_file_prefix(),
{
    let mut r: Vec<u8> = Vec::new();
    r.push('N' as u8);
    r.push('e' as u8);
    r.push('w' as u8);
    r.push(' ' as u8);
    r.push('f' as u8);
    r.push('i' as u8);
    r.push('l' as u8);
    r.push('e' as u8);
    r.push(':' as u8);
    r.push(' ' as u8);
    proof {
        assert(r@ =~= new_file_prefix());
    }
    r
}

/// The whole editor state, owned by the event loop and handed around by
/// exclusive reference; there are no process-wide statics.
pub struct EditorConfig {
    pub cx: usize,
    pub cy: usize,
    pub screen_cols: u16,
    pub screen_rows: u16,
    pub row_offset: usize,
    pub mode: Mode,
    pub buffer: EditorBuffer,
    pub command_buffer: Vec<u8>,
    pub status_msg: Vec<u8>,
    pub filename: Option<Vec<u8>>,
}

impl EditorConfig {
    /// The cursor invariant: the row exists, and the column sits on a
    /// character of that row or exactly one position past its end.
    pub open spec fn wf(&self) -> bool {
        &&& self.buffer.wf()
        &&& (self.cy as int) < self.buffer@.len()
        &&& (self.cx as int) <= self.buffer@[self.cy as int].len()
    }

    /// Screen rows available for document text: everything but the one row
    /// reserved for the status line, and at least one even on a degenerate
    /// terminal.
    pub open spec fn spec_body_rows(&self) -> int {
        if self.screen_rows >= 2 {
            self.screen_rows - 1
        } else {
            1
        }
    }

    pub fn body_rows(&self) -> (n: usize)
        ensures
            n == self.spec_body_rows(),
    {
        if self.screen_rows >= 2 {
            (self.screen_rows - 1) as usize
        } else {
            1
        }
    }

    /// A fresh editor on a terminal of the given geometry: empty one-line
    /// document, cursor at the origin, Normal mode, greeting status.
    pub fn new(screen_cols: u16, screen_rows: u16) -> (ed: EditorConfig)
        ensures
            ed.wf(),
            ed.cx == 0,
            ed.cy == 0,
            ed.screen_cols == screen_cols,
            ed.screen_rows == screen_rows,
            ed.row_offset == 0,
            ed.mode is Normal,
            ed.buffer@ == seq![Seq::<u8>::empty()],
            ed.command_buffer@ == Seq::<u8>::empty(),
            ed.status_msg@ == welcome_msg(),
            ed.filename is None,
    {
        let ed = EditorConfig {
            cx: 0,
            cy: 0,
            screen_cols,
            screen_rows,
            row_offset: 0,
            mode: Mode::Normal,
            buffer: EditorBuffer::new(),
            command_buffer: Vec::new(),
            status_msg: make_welcome_msg(),
            filename: None,
        };
        proof {
            assert(ed.buffer@ =~~= seq![Seq::<u8>::empty()]);
        }
        ed
    }
}

/// Fields a keypress can never touch: the terminal geometry, the scroll
/// offset (recomputed only before a render), and the configured file name.
pub open spec fn keeps_frame(pre: EditorConfig, post: EditorConfig) -> bool {
    &&& post.screen_cols == pre.screen_cols
    &&& post.screen_rows == pre.screen_rows
    &&& post.row_offset == pre.row_offset
    &&& post.filename == pre.filename
}

/// The row the cursor lands on: `j` moves down unless on the last row, `k`
/// moves up unless on the first; other keys leave the row alone.
pub open spec fn cy_after_move(pre: EditorConfig, key: u8) -> int {
    if key == 'j' as u8 && pre.cy + 1 < pre.buffer@.len() {
        pre.cy + 1
    } else if key == 'k' as u8 && pre.cy > 0 {
        pre.cy - 1
    } else {
        pre.cy as int
    }
}

/// The column the cursor lands on: `h` moves left of a positive column,
/// `l` moves right while still on a character, and any result is clamped
/// to the length of the destination row (a shorter destination line
/// truncates the column).
pub open spec fn cx_after_move(pre: EditorConfig, key: u8) -> int {
    let tentative = if key == 'h' as u8 && pre.cx > 0 {
        pre.cx - 1
    } else if key == 'l' as u8 && (pre.cx as int) < pre.buffer@[pre.cy as int].len() {
        pre.cx + 1
    } else {
        pre.cx as int
    };
    let limit = pre.buffer@[cy_after_move(pre, key)].len();
    if tentative > limit {
        limit as int
    } else {
        tentative
    }
}

impl EditorConfig {
    /// One `h`/`j`/`k`/`l` cursor move; any other key is ignored. Never
    /// touches the text.
    pub fn move_cursor(&mut self, key: u8)
        requires
            old(self).wf(),
        ensures
            final(self).wf(),
            final(self).cy == cy_after_move(*old(self), key),
            final(self).cx == cx_after_move(*old(self), key),
            final(self).buffer == old(self).buffer,
            final(self).mode == old(self).mode,
            final(self).command_buffer == old(self).command_buffer,
            final(self).status_msg == old(self).status_msg,
            keeps_frame(*old(self), *final(self)),
    {
        let row_count = self.buffer.line_count();
        if key == 'h' as u8 {
            if self.cx > 0 {
                self.cx -= 1;
            }
        } else if key == 'j' as u8 {
            if self.cy + 1 < row_count {
                self.cy += 1;
            }
        } else if key == 'k' as u8 {
            if self.cy > 0 {
                self.cy -= 1;
            }
        } else if key == 'l' as u8 {
            if self.cx < self.buffer.line_len(self.cy) {
                self.cx += 1;
            }
        }
        let limit = self.buffer.line_len(self.cy);
        if self.cx > limit {
            self.cx = limit;
        }
    }
}

/// The delete-before-cursor policy of Insert-mode backspace: a no-op at the
/// document start; within a line, the character left of the cursor goes and
/// the cursor steps left; at column 0 of a later row, the row is joined onto
/// the previous line and the cursor lands on the join point.
pub open spec fn deleted_back(pre: EditorConfig, post: EditorConfig) -> bool {
    if pre.cx == 0 && pre.cy == 0 {
        &&& post.buffer == pre.buffer
        &&& post.cx == pre.cx
        &&& post.cy == pre.cy
    } else if pre.cx > 0 {
        &&& post.buffer@ == pre.buffer@.update(
            pre.cy as int,
            pre.buffer@[pre.cy as int].remove(pre.cx - 1),
        )
        &&& post.cy == pre.cy
        &&& post.cx == pre.cx - 1
    } else {
        &&& post.buffer@ == pre.buffer@.update(
            pre.cy - 1,
            pre.buffer@[pre.cy - 1] + pre.buffer@[pre.cy as int],
        ).remove(pre.cy as int)
        &&& post.cy == pre.cy - 1
        &&& post.cx == pre.buffer@[pre.cy - 1].len()
    }
}

impl EditorConfig {
    /// Insert a character at the cursor; the cursor advances past it.
    pub fn insert_char(&mut self, c: u8)
        requires
            old(self).wf(),
        ensures
            final(self).wf(),
            final(self).buffer@ == old(self).buffer@.update(
                old(self).cy as int,
                old(self).buffer@[old(self).cy as int].insert(old(self).cx as int, c),
            ),
            final(self).cy == old(self).cy,
            final(self).cx == old(self).cx + 1,
            final(self).mode == old(self).mode,
            final(self).command_buffer == old(self).command_buffer,
            final(self).status_msg == old(self).status_msg,
            keeps_frame(*old(self), *final(self)),
    {
        self.buffer.insert_char(self.cy, self.cx, c);
        let grown = self.buffer.line_len(self.cy);
        proof {
            // the row just grew by one, so the old column is below usize::MAX
            assert(self.cx < grown);
        }
        self.cx += 1;
    }

    /// Delete before the cursor, following the backspace policy above.
    pub fn delete_char(&mut self)
        requires
            old(self).wf(),
        ensures
            final(self).wf(),
            deleted_back(*old(self), *final(self)),
            final(self).mode == old(self).mode,
            final(self).command_buffer == old(self).command_buffer,
            final(self).status_msg == old(self).status_msg,
            keeps_frame(*old(self), *final(self)),
    {
        if self.cx == 0 && self.cy == 0 {
            return;
        }
        if self.cx > 0 {
            self.buffer.delete_char(self.cy, self.cx - 1);
            self.cx -= 1;
        } else {
            let join_col = self.buffer.line_len(self.cy - 1);
            self.buffer.join_with_previous(self.cy);
            self.cy -= 1;
            self.cx = join_col;
        }
    }
}

/// Leading and trailing spaces of a command buffer are ignored.
pub open spec fn trim_front(s: Seq<u8>) -> Seq<u8>
    decreases s.len(),
{
    if s.len() > 0 && s[0] == ' ' as u8 {
        trim_front(s.drop_first())
    } else {
        s
    }
}

pub open spec fn trim_back(s: Seq<u8>) -> Seq<u8>
    decreases s.len(),
{
    if s.len() > 0 && s.last() == ' ' as u8 {
        trim_back(s.drop_last())
    } else {
        s
    }
}

pub open spec fn trim_spaces(s: Seq<u8>) -> Seq<u8> {
    trim_back(trim_front(s))
}

/// If the first `i` bytes are spaces and byte `i` is not, trimming the
/// front drops exactly those `i` bytes.
proof fn lemma_trim_front_skip(s: Seq<u8>, i: int)
    requires
        0 <= i <= s.len(),
        forall|j: int| 0 <= j < i ==> s[j] == ' ' as u8,
        i == s.len() || s[i] != ' ' as u8,
    ensures
        trim_front(s) == s.skip(i),
    decreases i,
{
    if i == 0 {
        assert(s.skip(0) =~= s);
    } else {
        lemma_trim_front_skip(s.drop_first(), i - 1);
        assert(s.drop_first().skip(i - 1) =~= s.skip(i));
    }
}

/// If everything from byte `i` on is a space and byte `i - 1` is not,
/// trimming the back keeps exactly the first `i` bytes.
proof fn lemma_trim_back_take(s: Seq<u8>, i: int)
    requires
        0 <= i <= s.len(),
        forall|j: int| i <= j < s.len() ==> s[j] == ' ' as u8,
        i == 0 || s[i - 1] != ' ' as u8,
    ensures
        trim_back(s) == s.take(i),
    decreases s.len() - i,
{
    if i == s.len() {
        assert(s.take(i) =~= s);
    } else {
        lemma_trim_back_take(s.drop_last(), i);
        assert(s.drop_last().take(i) =~= s.take(i));
    }
}

/// The command buffer as the interpreter reads it: without leading and
/// trailing spaces.
fn trimmed(s: &Vec<u8>) -> (r: Vec<u8>)
    ensures
        r@ == trim_spaces(s@),
{
    let mut start: usize = 0;
    while start < s.len() && s[start] == ' ' as u8
        invariant
            start <= s.len(),
            forall|j: int| 0 <= j < start ==> s@[j] == ' ' as u8,
        decreases s.len() - start,
    {
        start += 1;
    }
    let mut end: usize = s.len();
    while end > start && s[end - 1] == ' ' as u8
        invariant
            start <= end <= s.len(),
            forall|j: int| end <= j < s.len() ==> s@[j] == ' ' as u8,
        decreases end,
    {
        end -= 1;
    }
    let mut r: Vec<u8> = Vec::new();
    let mut i: usize = start;
    while i < end
        invariant
            start <= i <= end <= s.len(),
            r@ == s@.subrange(start as int, i as int),
        decreases end - i,
    {
        proof {
            assert(s@.subrange(start as int, i + 1) =~= s@.subrange(start as int, i as int).push(
                s@[i as int],
            ));
        }
        r.push(s[i]);
        i += 1;
    }
    proof {
        lemma_trim_front_skip(s@, start as int);
        let front = s@.skip(start as int);
        lemma_trim_back_take(front, end - start);
        assert(front.take(end - start) =~= s@.subrange(start as int, end as int));
    }
    r
}

/// What submitting the command buffer does: the trimmed buffer selects a
/// save, a quit, both, or an unknown-command notice; the editor is back in
/// Normal mode with an empty command buffer either way, and the text and
/// cursor are untouched.
pub open spec fn executed_command(pre: EditorConfig, post: EditorConfig, act: EditorAction) -> bool {
    let cmd = trim_spaces(pre.command_buffer@);
    &&& post.mode is Normal
    &&& post.command_buffer@ == Seq::<u8>::empty()
    &&& post.buffer == pre.buffer
    &&& post.cx == pre.cx
    &&& post.cy == pre.cy
    &&& keeps_frame(pre, post)
    &&& if cmd == seq!['w' as u8] {
        if pre.filename is Some {
            &&& act is SaveAndContinue
            &&& post.status_msg == pre.status_msg
        } else {
            &&& act is Continue
            &&& post.status_msg@ == no_filename_msg()
        }
    } else if cmd == seq!['q' as u8] {
        &&& act is Quit
        &&& post.status_msg == pre.status_msg
    } else if cmd == seq!['w' as u8, 'q' as u8] {
        if pre.filename is Some {
            &&& act is SaveAndQuit
            &&& post.status_msg == pre.status_msg
        } else {
            &&& act is Quit
            &&& post.status_msg@ == no_filename_msg()
        }
    } else {
        &&& act is Continue
        &&& post.status_msg@ == unknown_prefix() + cmd
    }
}

impl EditorConfig {
    /// Interpret the accumulated command buffer: `w` asks for a save, `q`
    /// quits, `wq` asks for a save and quits whatever the save does, and
    /// anything else leaves an unknown-command notice. A save request
    /// without a configured file name becomes a "no file name" notice
    /// instead; when the command only quits, nothing else changes.
    pub fn execute_command(&mut self) -> (act: EditorAction)
        requires
            old(self).wf(),
        ensures
            final(self).wf(),
            executed_command(*old(self), *final(self), act),
    {
        let cmd = trimmed(&self.command_buffer);
        let act: EditorAction;
        if cmd.len() == 1 && cmd[0] == 'w' as u8 {
            proof {
                assert(cmd@ =~= seq!['w' as u8]);
            }
            if self.filename.is_some() {
                act = EditorAction::SaveAndContinue;
            } else {
                self.status_msg = make_no_filename_msg();
                act = EditorAction::Continue;
            }
        } else if cmd.len() == 1 && cmd[0] == 'q' as u8 {
            proof {
                assert(cmd@ =~= seq!['q' as u8]);
            }
            act = EditorAction::Quit;
        } else if cmd.len() == 2 && cmd[0] == 'w' as u8 && cmd[1] == 'q' as u8 {
            proof {
                assert(cmd@ =~= seq!['w' as u8, 'q' as u8]);
            }
            if self.filename.is_some() {
                act = EditorAction::SaveAndQuit;
            } else {
                self.status_msg = make_no_filename_msg();
                act = EditorAction::Quit;
            }
        } else {
            let mut msg = make_unknown_prefix();
            push_all(&mut msg, &cmd);
            self.status_msg = msg;
            act = EditorAction::Continue;
        }
        self.mode = Mode::Normal;
        self.command_buffer = Vec::new();
        act
    }

    /// Attach a named document before editing starts: the load
    /// collaborator's lines when the path could be read, or nothing when it
    /// could not, which starts a new, empty named document rather than
    /// failing. The status line reports which of the two happened.
    pub fn attach_file(&mut self, name: Vec<u8>, loaded: Option<&Vec<Vec<u8>>>)
        requires
            old(self).wf(),
            old(self).cx == 0,
            old(self).cy == 0,
        ensures
            final(self).wf(),
            final(self).filename == Some(name),
            loaded matches Some(lines) ==> {
                &&& lines@.len() > 0 ==> final(self).buffer@ == lines@.map_values(|l: Vec<u8>| l@)
                &&& lines@.len() == 0 ==> final(self).buffer@ == seq![Seq::<u8>::empty()]
                &&& final(self).status_msg@ == opened_prefix() + name@
            },
            loaded is None ==> final(self).buffer == old(self).buffer
                && final(self).status_msg@ == new_file_prefix() + name@,
            final(self).mode == old(self).mode,
            final(self).command_buffer == old(self).command_buffer,
            final(self).cx == 0,
            final(self).cy == 0,
            final(self).row_offset == old(self).row_offset,
            final(self).screen_cols == old(self).screen_cols,
            final(self).screen_rows == old(self).screen_rows,
    {
        match loaded {
            Some(lines) => {
                self.buffer.load_lines(lines);
                let mut msg = make_opened_prefix();
                push_all(&mut msg, &name);
                self.status_msg = msg;
            },
            None => {
                let mut msg = make_new_file_prefix();
                push_all(&mut msg, &name);
                self.status_msg = msg;
            },
        }
        self.filename = Some(name);
    }

    /// Status after the storage collaborator reported a successful save.
    pub fn record_save_success(&mut self)
        requires
            old(self).filename is Some,
        ensures
            final(self).status_msg@ == saved_prefix() + old(self).filename.unwrap()@,
            final(self).buffer == old(self).buffer,
            final(self).mode == old(self).mode,
            final(self).command_buffer == old(self).command_buffer,
            final(self).cx == old(self).cx,
            final(self).cy == old(self).cy,
            keeps_frame(*old(self), *final(self)),
    {
        let mut msg = make_saved_prefix();
        match &self.filename {
            Some(name) => {
                push_all(&mut msg, name);
            },
            None => {
                proof {
                    assert(false);
                }
            },
        }
        self.status_msg = msg;
    }

    /// Status after the storage collaborator reported a failed save, with
    /// its human-readable description.
    pub fn record_save_error(&mut self, description: &Vec<u8>)
        ensures
            final(self).status_msg@ == error_prefix() + description@,
            final(self).buffer == old(self).buffer,
            final(self).mode == old(self).mode,
            final(self).command_buffer == old(self).command_buffer,
            final(self).cx == old(self).cx,
            final(self).cy == old(self).cy,
            keeps_frame(*old(self), *final(self)),
    {
        let mut msg = make_error_prefix();
        push_all(&mut msg, description);
        self.status_msg = msg;
    }
}

/// Normal mode: `i` and `:` switch modes, `h`/`j`/`k`/`l` move the cursor,
/// everything else is ignored; the text is never touched.
pub open spec fn normal_step(pre: EditorConfig, post: EditorConfig, key: u8, act: EditorAction) -> bool {
    &&& act is Continue
    &&& keeps_frame(pre, post)
    &&& post.buffer == pre.buffer
    &&& post.status_msg == pre.status_msg
    &&& if key == 'i' as u8 {
        &&& post.mode is Insert
        &&& post.command_buffer == pre.command_buffer
        &&& post.cx == pre.cx
        &&& post.cy == pre.cy
    } else if key == ':' as u8 {
        &&& post.mode is Command
        &&& post.command_buffer@ == Seq::<u8>::empty()
        &&& post.cx == pre.cx
        &&& post.cy == pre.cy
    } else if key == 'h' as u8 || key == 'j' as u8 || key == 'k' as u8 || key == 'l' as u8 {
        &&& post.mode is Normal
        &&& post.command_buffer == pre.command_buffer
        &&& post.cy == cy_after_move(pre, key)
        &&& post.cx == cx_after_move(pre, key)
    } else {
        post == pre
    }
}

/// Insert mode: ESC returns to Normal, CR/LF splits the line at the cursor,
/// backspace deletes before the cursor, a printable byte is inserted, and
/// other control bytes are ignored.
pub open spec fn insert_step(pre: EditorConfig, post: EditorConfig, key: u8, act: EditorAction) -> bool {
    &&& act is Continue
    &&& keeps_frame(pre, post)
    &&& post.status_msg == pre.status_msg
    &&& post.command_buffer == pre.command_buffer
    &&& if key == KEY_ESC {
        &&& post.mode is Normal
        &&& post.buffer == pre.buffer
        &&& post.cx == pre.cx
        &&& post.cy == pre.cy
    } else if key == KEY_CR || key == KEY_LF {
        &&& post.mode is Insert
        &&& post.buffer@ == pre.buffer@.update(
            pre.cy as int,
            pre.buffer@[pre.cy as int].take(pre.cx as int),
        ).insert(pre.cy + 1, pre.buffer@[pre.cy as int].skip(pre.cx as int))
        &&& post.cy == pre.cy + 1
        &&& post.cx == 0
    } else if key == KEY_DEL || key == KEY_BS {
        &&& post.mode is Insert
        &&& deleted_back(pre, post)
    } else if is_printable(key) {
        &&& post.mode is Insert
        &&& post.buffer@ == pre.buffer@.update(
            pre.cy as int,
            pre.buffer@[pre.cy as int].insert(pre.cx as int, key),
        )
        &&& post.cy == pre.cy
        &&& post.cx == pre.cx + 1
    } else {
        post == pre
    }
}

/// Command mode: ESC cancels and clears the pending buffer, CR/LF submits
/// it, backspace shortens it, a printable byte extends it, and other
/// control bytes are ignored; the text and cursor are never touched.
pub open spec fn command_step(pre: EditorConfig, post: EditorConfig, key: u8, act: EditorAction) -> bool {
    &&& keeps_frame(pre, post)
    &&& post.buffer == pre.buffer
    &&& post.cx == pre.cx
    &&& post.cy == pre.cy
    &&& if key == KEY_ESC {
        &&& act is Continue
        &&& post.mode is Normal
        &&& post.command_buffer@ == Seq::<u8>::empty()
        &&& post.status_msg == pre.status_msg
    } else if key == KEY_CR || key == KEY_LF {
        executed_command(pre, post, act)
    } else if key == KEY_DEL || key == KEY_BS {
        &&& act is Continue
        &&& post.mode is Command
        &&& post.command_buffer@ == (if pre.command_buffer@.len() > 0 {
            pre.command_buffer@.drop_last()
        } else {
            pre.command_buffer@
        })
        &&& post.status_msg == pre.status_msg
    } else if is_printable(key) {
        &&& act is Continue
        &&& post.mode is Command
        &&& post.command_buffer@ == pre.command_buffer@.push(key)
        &&& post.status_msg == pre.status_msg
    } else {
        &&& act is Continue
        &&& post == pre
    }
}

impl EditorConfig {
    /// Route one input byte through the mode state machine of the active
    /// mode. The returned action tells the event loop whether to keep
    /// running and whether to attempt a save first.
    pub fn handle_keypress(&mut self, key: u8) -> (act: EditorAction)
        requires
            old(self).wf(),
        ensures
            final(self).wf(),
            old(self).mode is Normal ==> normal_step(*old(self), *final(self), key, act),
            old(self).mode is Insert ==> insert_step(*old(self), *final(self), key, act),
            old(self).mode is Command ==> command_step(*old(self), *final(self), key, act),
    {
        match self.mode {
            Mode::Normal => {
                if key == 'i' as u8 {
                    self.mode = Mode::Insert;
                } else if key == ':' as u8 {
                    self.mode = Mode::Command;
                    self.command_buffer = Vec::new();
                } else if key == 'h' as u8 || key == 'j' as u8 || key == 'k' as u8 || key
                    == 'l' as u8 {
                    self.move_cursor(key);
                }
                EditorAction::Continue
            },
            Mode::Insert => {
                if key == KEY_ESC {
                    self.mode = Mode::Normal;
                } else if key == KEY_CR || key == KEY_LF {
                    self.buffer.split_line(self.cy, self.cx);
                    let grown = self.buffer.line_count();
                    proof {
                        // the document just grew by one row, so the old row
                        // index is below usize::MAX
                        assert(self.cy + 1 < grown);
                    }
                    self.cy += 1;
                    self.cx = 0;
                } else if key == KEY_DEL || key == KEY_BS {
                    self.delete_char();
                } else if printable(key) {
                    self.insert_char(key);
                }
                EditorAction::Continue
            },
            Mode::Command => {
                if key == KEY_ESC {
                    self.mode = Mode::Normal;
                    self.command_buffer = Vec::new();
                    EditorAction::Continue
                } else if key == KEY_CR || key == KEY_LF {
                    self.execute_command()
                } else if key == KEY_DEL || key == KEY_BS {
                    let _dropped = self.command_buffer.pop();
                    EditorAction::Continue
                } else if printable(key) {
                    self.command_buffer.push(key);
                    EditorAction::Continue
                } else {
                    EditorAction::Continue
                }
            },
        }
    }

    /// The cursor's buffer row is inside the viewport.
    pub open spec fn cursor_visible(&self) -> bool {
        self.row_offset <= self.cy < self.row_offset + self.spec_body_rows()
    }

    /// The scroll offset after the minimal-scroll recompute: just enough
    /// movement to bring the cursor row into the body area, never further.
    pub open spec fn spec_scrolled_offset(pre: EditorConfig) -> int {
        let body = pre.spec_body_rows();
        if (pre.cy as int) < pre.row_offset {
            pre.cy as int
        } else if pre.cy >= pre.row_offset + body {
            pre.cy - body + 1
        } else {
            pre.row_offset as int
        }
    }

    /// Recompute the scroll offset before a render so the cursor row is
    /// visible.
    pub fn scroll(&mut self)
        requires
            old(self).wf(),
        ensures
            final(self).row_offset == EditorConfig::spec_scrolled_offset(*old(self)),
            final(self).cursor_visible(),
            final(self).wf(),
            final(self).cx == old(self).cx,
            final(self).cy == old(self).cy,
            final(self).buffer == old(self).buffer,
            final(self).mode == old(self).mode,
            final(self).command_buffer == old(self).command_buffer,
            final(self).status_msg == old(self).status_msg,
            final(self).filename == old(self).filename,
            final(self).screen_cols == old(self).screen_cols,
            final(self).screen_rows == old(self).screen_rows,
    {
        let body = self.body_rows();
        if self.cy < self.row_offset {
            self.row_offset = self.cy;
        }
        if self.cy - self.row_offset >= body {
            self.row_offset = self.cy - (body - 1);
        }
    }
}

} // verus!
