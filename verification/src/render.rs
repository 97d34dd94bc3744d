//! The render planner: from the editor state, the pure description of one
//! frame — the visible body rows, the status line, and where the terminal
//! cursor belongs. Turning this into escape sequences is the output
//! collaborator's job, outside this crate.

use crate::editor::{EditorConfig, Mode};
use crate::text::{copy_bytes, push_all};
use vstd::prelude::*;

verus! {

/// The glyph standing in for a screen row below the end of the document.
pub const PLACEHOLDER: u8 = 0x7e;

/// The decimal digits of a non-negative number, most significant first.
pub open spec fn dec_digits(n: int) -> Seq<u8>
    recommends
        n >= 0,
    decreases n,
{
    if n < 10 {
        seq![(0x30 + if 0 <= n { n } else { 0 }) as u8]
    } else {
        dec_digits(n / 10).push((0x30 + n % 10) as u8)
    }
}

fn dec_usize(n: usize) -> (r: Vec<u8>)
    ensures
        r@ == dec_digits(n as int),
    decreases n,
{
    if n < 10 {
        let mut r: Vec<u8> = Vec::new();
        r.push(0x30u8 + (n as u8));
        proof {
            assert(r@ =~= dec_digits(n as int));
        }
        r
    } else {
        let mut r = dec_usize(n / 10);
        r.push(0x30u8 + ((n % 10) as u8));
        r
    }
}

/// `s` cut off at width `w`.
pub open spec fn clipped(s: Seq<u8>, w: int) -> Seq<u8> {
    if s.len() <= w {
        s
    } else {
        s.take(w)
    }
}

/// `s` brought to exactly width `w`: cut off when longer, filled with
/// spaces when shorter, so a highlighted status bar spans the full width.
pub open spec fn padded(s: Seq<u8>, w: int) -> Seq<u8> {
    if s.len() >= w {
        s.take(w)
    } else {
        s + Seq::new((w - s.len()) as nat, |i: int| ' ' as u8)
    }
}

fn clip_to(s: &Vec<u8>, w: usize) -> (r: Vec<u8>)
    ensures
        r@ == clipped(s@, w as int),
{
    let mut r = copy_bytes(s);
    r.truncate(w);
    r
}

fn pad_to(s: Vec<u8>, w: usize) -> (r: Vec<u8>)
    ensures
        r@ == padded(s@, w as int),
{
    let mut r = s;
    r.truncate(w);
    while r.len() < w
        invariant
            s@.len() >= w ==> r@ == s@.take(w as int),
            s@.len() < w ==> r@ == s@ + Seq::new((r@.len() - s@.len()) as nat, |i: int| ' ' as u8),
            s@.len() < w ==> s@.len() <= r@.len() <= w,
        decreases w - r@.len(),
    {
        proof {
            let k = (r@.len() - s@.len()) as nat;
            assert(Seq::new((k + 1) as nat, |i: int| ' ' as u8) =~= Seq::new(
                k,
                |i: int| ' ' as u8,
            ).push(' ' as u8));
            assert(s@ + Seq::new((k + 1) as nat, |i: int| ' ' as u8) =~= (s@ + Seq::new(
                k,
                |i: int| ' ' as u8,
            )).push(' ' as u8));
        }
        r.push(' ' as u8);
    }
    r
}

/// The status-line label of Normal mode.
pub open spec fn label_normal() -> Seq<u8> {
    seq!['-' as u8, '-' as u8, ' ' as u8, 'N' as u8, 'O' as u8, 'R' as u8, 'M' as u8, 'A' as u8, 'L' as u8, ' ' as u8, '-' as u8, '-' as u8]
}

fn make_label_normal() -> (r: Vec<u8>)
    ensures
        r@ == label_normal(),
{
    let mut r: Vec<u8> = Vec::new();
    r.push('-' as u8);
    r.push('-' as u8);
    r.push(' ' as u8);
    r.push('N' as u8);
    r.push('O' as u8);
    r.push('R' as u8);
    r.push('M' as u8);
    r.push('A' as u8);
    r.push('L' as u8);
    r.push(' ' as u8);
    r.push('-' as u8);
    r.push('-' as u8);
    proof {
        assert(r@ =~= label_normal());
    }
    r
}

/// The status-line label of Insert mode.
pub open spec fn label_insert() -> Seq<u8> {
    seq!['-' as u8, '-' as u8, ' ' as u8, 'I' as u8, 'N' as u8, 'S' as u8, 'E' as u8, 'R' as u8, 'T' as u8, ' ' as u8, '-' as u8, '-' as u8]
}

fn make_label_insert() -> (r: Vec<u8>)
    ensures
        r@ == label_insert(),
{
    let mut r: Vec<u8> = Vec::new();
    r.push('-' as u8);
    r.push('-' as u8);
    r.push(' ' as u8);
    r.push('I' as u8);
    r.push('N' as u8);
    r.push('S' as u8);
    r.push('E' as u8);
    r.push('R' as u8);
    r.push('T' as u8);
    r.push(' ' as u8);
    r.push('-' as u8);
    r.push('-' as u8);
    proof {
        assert(r@ =~= label_insert());
    }
    r
}

/// Separator introducing the cursor position in the status line.
pub open spec fn pos_prefix() -> Seq<u8> {
    seq![' ' as u8, '|' as u8, ' ' as u8, 'P' as u8, 'o' as u8, 's' as u8, ':' as u8, ' ' as u8]
}

fn make_pos_prefix() -> (r: Vec<u8>)
    ensures
        r@ == pos_prefix(),
{
    let mut r: Vec<u8> = Vec::new();
    r.push(' ' as u8);
    r.push('|' as u8);
    r.push(' ' as u8);
    r.push('P' as u8);
    r.push('o' as u8);
    r.push('s' as u8);
    r.push(':' as u8);
    r.push(' ' as u8);
    proof {
        assert(r@ =~= pos_prefix());
    }
    r
}

/// Separator between the position and the status message.
pub open spec fn field_sep() -> Seq<u8> {
    seq![' ' as u8, '|' as u8, ' ' as u8]
}

fn make_field_sep() -> (r: Vec<u8>)
    ensures
        r@ == field_sep(),
{
    let mut r: Vec<u8> = Vec::new();
    r.push(' ' as u8);
    r.push('|' as u8);
    r.push(' ' as u8);
    proof {
        assert(r@ =~= field_sep());
    }
    r
}

/// The label the status line carries for each mode; Command mode shows the
/// pending command instead and has no label.
pub open spec fn mode_label(m: Mode) -> Seq<u8> {
    match m {
        Mode::Normal => label_normal(),
        Mode::Insert => label_insert(),
        Mode::Command => Seq::empty(),
    }
}

/// The content of body row `i` of the screen: the buffer row `rowOffset + i`
/// cut off at the screen width, or the placeholder glyph past the end of
/// the document.
pub open spec fn visible_line(ed: EditorConfig, i: int) -> Seq<u8> {
    if ed.row_offset + i < ed.buffer@.len() {
        clipped(ed.buffer@[ed.row_offset + i], ed.screen_cols as int)
    } else {
        seq![PLACEHOLDER]
    }
}

/// The content of the status line: in Command mode the pending command
/// behind its `:` indicator; otherwise the mode label, the cursor position
/// and the status message, brought to exactly the screen width.
pub open spec fn status_line(ed: EditorConfig) -> Seq<u8> {
    if ed.mode is Command {
        seq![':' as u8] + ed.command_buffer@
    } else {
        padded(
            mode_label(ed.mode) + pos_prefix() + dec_digits(ed.cx as int) + seq![',' as u8]
                + dec_digits(ed.cy as int) + field_sep() + ed.status_msg@,
            ed.screen_cols as int,
        )
    }
}

/// One frame, as pure data: the body rows in order, the status line, and
/// the screen position the cursor ends on, all in 0-based coordinates.
/// The output collaborator translates to its 1-based convention.
pub struct RenderPlan {
    pub lines: Vec<Vec<u8>>,
    pub status: Vec<u8>,
    pub cursor_row: usize,
    pub cursor_col: usize,
}

impl EditorConfig {
    /// Plan one frame. The scroll offset must have been recomputed first
    /// (`scroll`), so the cursor row is inside the viewport.
    pub fn render_plan(&self) -> (plan: RenderPlan)
        requires
            self.wf(),
            self.cursor_visible(),
        ensures
            plan.lines@.len() == self.spec_body_rows(),
            forall|i: int|
                0 <= i < plan.lines@.len() ==> plan.lines@[i]@ == visible_line(*self, i),
            plan.status@ == status_line(*self),
            plan.cursor_row == self.cy - self.row_offset,
            plan.cursor_col == self.cx,
    {
        let body = self.body_rows();
        let line_count = self.buffer.line_count();
        let mut lines: Vec<Vec<u8>> = Vec::new();
        let mut i: usize = 0;
        while i < body
            invariant
                i <= body,
                body == self.spec_body_rows(),
                self.wf(),
                self.cursor_visible(),
                line_count == self.buffer@.len(),
                lines@.len() == i,
                forall|k: int| 0 <= k < i ==> lines@[k]@ == visible_line(*self, k),
            decreases body - i,
        {
            if i < line_count - self.row_offset {
                let row = self.buffer.line(self.row_offset + i);
                lines.push(clip_to(row, self.screen_cols as usize));
            } else {
                let mut ph: Vec<u8> = Vec::new();
                ph.push(PLACEHOLDER);
                proof {
                    assert(ph@ =~= seq![PLACEHOLDER]);
                }
                lines.push(ph);
            }
            i += 1;
        }
        let status: Vec<u8> = match self.mode {
            Mode::Command => {
                let mut st: Vec<u8> = Vec::new();
                st.push(':' as u8);
                push_all(&mut st, &self.command_buffer);
                proof {
                    assert(st@ =~= seq![':' as u8] + self.command_buffer@);
                }
                st
            },
            _ => {
                let mut st = match self.mode {
                    Mode::Normal => make_label_normal(),
                    _ => make_label_insert(),
                };
                push_all(&mut st, &make_pos_prefix());
                push_all(&mut st, &dec_usize(self.cx));
                st.push(',' as u8);
                push_all(&mut st, &dec_usize(self.cy));
                push_all(&mut st, &make_field_sep());
                push_all(&mut st, &self.status_msg);
                proof {
                    assert(st@ =~= mode_label(self.mode) + pos_prefix() + dec_digits(
                        self.cx as int,
                    ) + seq![',' as u8] + dec_digits(self.cy as int) + field_sep()
                        + self.status_msg@);
                }
                pad_to(st, self.screen_cols as usize)
            },
        };
        RenderPlan { lines, status, cursor_row: self.cy - self.row_offset, cursor_col: self.cx }
    }
}

} // verus!
