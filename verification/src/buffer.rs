//! The line store: an ordered sequence of rows with character-level editing
//! operations and a newline-joined serialization.

use crate::row::Row;
use crate::text::copy_bytes;
use vstd::prelude::*;

verus! {

pub const NEWLINE: u8 = 0x0a;

/// The document text as one byte string: the lines joined by single newline
/// separators, with no trailing newline.
pub open spec fn text_of(lines: Seq<Seq<u8>>) -> Seq<u8>
    decreases lines.len(),
{
    if lines.len() == 0 {
        Seq::empty()
    } else if lines.len() == 1 {
        lines[0]
    } else {
        text_of(lines.drop_last()) + seq![NEWLINE] + lines.last()
    }
}

/// The document: a sequence of rows that is never empty (an empty document
/// is one blank row).
pub struct EditorBuffer {
    pub rows: Vec<Row>,
}

impl View for EditorBuffer {
    type V = Seq<Seq<u8>>;

    open spec fn view(&self) -> Seq<Seq<u8>> {
        self.rows@.map_values(|r: Row| r@)
    }
}

impl EditorBuffer {
    pub open spec fn wf(&self) -> bool {
        self@.len() >= 1
    }

    /// A new document: exactly one empty line.
    pub fn new() -> (b: EditorBuffer)
        ensures
            b.wf(),
            b@.len() == 1,
            b@[0] == Seq::<u8>::empty(),
    {
        let mut rows: Vec<Row> = Vec::new();
        rows.push(Row::new(Vec::new()));
        EditorBuffer { rows }
    }

    /// Replace the whole document with the given lines, as handed over by
    /// the load collaborator; an empty file still yields one blank line.
    pub fn load_lines(&mut self, lines: &Vec<Vec<u8>>)
        ensures
            final(self).wf(),
            lines@.len() > 0 ==> final(self)@ == lines@.map_values(|l: Vec<u8>| l@),
            lines@.len() == 0 ==> final(self)@ == seq![Seq::<u8>::empty()],
    {
        self.rows.clear();
        let mut i: usize = 0;
        while i < lines.len()
            invariant
                i <= lines.len(),
                self@ == lines@.map_values(|l: Vec<u8>| l@).take(i as int),
            decreases lines.len() - i,
        {
            self.rows.push(Row::new(copy_bytes(&lines[i])));
            proof {
                let mapped = lines@.map_values(|l: Vec<u8>| l@);
                assert(mapped.take(i as int).len() == i as int);
                assert(self@ =~~= mapped.take(i + 1));
            }
            i += 1;
        }
        proof {
            let mapped = lines@.map_values(|l: Vec<u8>| l@);
            assert(mapped.take(lines@.len() as int) =~= mapped);
        }
        if self.rows.is_empty() {
            self.rows.push(Row::new(Vec::new()));
            proof {
                assert(self@ =~= seq![Seq::<u8>::empty()]);
            }
        }
    }

    pub fn line_count(&self) -> (n: usize)
        ensures
            n == self@.len(),
    {
        self.rows.len()
    }

    /// The bytes of one row.
    pub fn line(&self, row: usize) -> (l: &Vec<u8>)
        requires
            row < self@.len(),
        ensures
            l@ == self@[row as int],
    {
        &self.rows[row].content
    }

    pub fn line_len(&self, row: usize) -> (n: usize)
        requires
            row < self@.len(),
        ensures
            n == self@[row as int].len(),
    {
        self.rows[row].len()
    }

    /// Insert `c` at `col` of `row`; a column at or past the end of the
    /// line appends, tolerating a cursor just past the last character.
    pub fn insert_char(&mut self, row: usize, col: usize, c: u8)
        requires
            row < old(self)@.len(),
        ensures
            col <= old(self)@[row as int].len() ==> final(self)@ == old(self)@.update(
                row as int,
                old(self)@[row as int].insert(col as int, c),
            ),
            col > old(self)@[row as int].len() ==> final(self)@ == old(self)@.update(
                row as int,
                old(self)@[row as int].push(c),
            ),
    {
        self.rows[row].insert_char(col, c);
        proof {
            if col <= old(self)@[row as int].len() {
                assert(self@ =~~= old(self)@.update(
                    row as int,
                    old(self)@[row as int].insert(col as int, c),
                ));
            } else {
                assert(self@ =~~= old(self)@.update(row as int, old(self)@[row as int].push(c)));
            }
        }
    }

    /// Remove the character at `col` of `row`; an out-of-range column is a
    /// silent no-op.
    pub fn delete_char(&mut self, row: usize, col: usize)
        requires
            row < old(self)@.len(),
        ensures
            col < old(self)@[row as int].len() ==> final(self)@ == old(self)@.update(
                row as int,
                old(self)@[row as int].remove(col as int),
            ),
            col >= old(self)@[row as int].len() ==> final(self)@ == old(self)@,
    {
        self.rows[row].delete_char(col);
        proof {
            if col < old(self)@[row as int].len() {
                assert(self@ =~~= old(self)@.update(
                    row as int,
                    old(self)@[row as int].remove(col as int),
                ));
            } else {
                assert(self@ =~~= old(self)@);
            }
        }
    }

    /// Truncate `row` at `col` and insert the cut-off remainder as a new
    /// line immediately below.
    pub fn split_line(&mut self, row: usize, col: usize)
        requires
            row < old(self)@.len(),
            col <= old(self)@[row as int].len(),
        ensures
            final(self)@ == old(self)@.update(row as int, old(self)@[row as int].take(col as int))
                .insert(row + 1, old(self)@[row as int].skip(col as int)),
    {
        let mut line = self.rows.remove(row);
        let rest = line.content.split_off(col);
        self.rows.insert(row, Row::new(rest));
        self.rows.insert(row, line);
        proof {
            assert(self@ =~~= old(self)@.update(
                row as int,
                old(self)@[row as int].take(col as int),
            ).insert(row + 1, old(self)@[row as int].skip(col as int)));
        }
    }

    /// Remove `row` and append its full content to the end of the previous
    /// line. Joining at row 0 is forbidden: there is no previous line.
    pub fn join_with_previous(&mut self, row: usize)
        requires
            1 <= row < old(self)@.len(),
        ensures
            final(self)@ == old(self)@.update(
                row - 1,
                old(self)@[row - 1] + old(self)@[row as int],
            ).remove(row as int),
    {
        let line = self.rows.remove(row);
        let mut prev = self.rows.remove(row - 1);
        let mut tail = line.content;
        prev.content.append(&mut tail);
        self.rows.insert(row - 1, prev);
        proof {
            assert(self@ =~~= old(self)@.update(
                row - 1,
                old(self)@[row - 1] + old(self)@[row as int],
            ).remove(row as int));
        }
    }

    /// Serialize the document: lines joined by a single newline.
    pub fn rows_to_string(&self) -> (text: Vec<u8>)
        requires
            self.wf(),
        ensures
            text@ == text_of(self@),
    {
        let mut text = copy_bytes(&self.rows[0].content);
        let mut i: usize = 1;
        while i < self.rows.len()
            invariant
                1 <= i <= self@.len(),
                self.wf(),
                text@ == text_of(self@.take(i as int)),
            decreases self@.len() - i,
        {
            proof {
                let t = self@.take(i + 1);
                assert(t.drop_last() =~= self@.take(i as int));
                assert(t.last() == self@[i as int]);
            }
            text.push(NEWLINE);
            let mut piece = copy_bytes(&self.rows[i].content);
            text.append(&mut piece);
            proof {
                assert(text@ =~= text_of(self@.take(i as int)) + seq![NEWLINE] + self@[i as int]);
            }
            i += 1;
        }
        proof {
            assert(self@.take(self@.len() as int) =~= self@);
        }
        text
    }
}

/// Inserting a character at a column of a line and then deleting at the
/// same column restores the original line content: `insert_char` and
/// `delete_char` at one position are inverses.
pub proof fn lemma_insert_delete_roundtrip(line: Seq<u8>, col: int, c: u8)
    requires
        0 <= col <= line.len(),
    ensures
        line.insert(col, c).remove(col) == line,
{
    assert(line.insert(col, c).remove(col) =~= line);
}

/// The same round trip over the whole document, as `insert_char` then
/// `delete_char` leave it.
pub proof fn lemma_insert_delete_document(doc: Seq<Seq<u8>>, row: int, col: int, c: u8)
    requires
        0 <= row < doc.len(),
        0 <= col <= doc[row].len(),
    ensures
        ({
            let inserted = doc.update(row, doc[row].insert(col, c));
            inserted.update(row, inserted[row].remove(col)) == doc
        }),
{
    let inserted = doc.update(row, doc[row].insert(col, c));
    lemma_insert_delete_roundtrip(doc[row], col, c);
    assert(inserted.update(row, inserted[row].remove(col)) =~~= doc);
}

/// Splitting a line at a column and then joining the two pieces restores
/// the original line content exactly.
pub proof fn lemma_split_join_roundtrip(line: Seq<u8>, col: int)
    requires
        0 <= col <= line.len(),
    ensures
        line.take(col) + line.skip(col) == line,
{
    assert(line.take(col) + line.skip(col) =~= line);
}

/// The same round trip over the whole document: after `split_line` at any
/// column of a row, `join_with_previous` on the new row below restores the
/// document exactly.
pub proof fn lemma_split_join_document(doc: Seq<Seq<u8>>, row: int, col: int)
    requires
        0 <= row < doc.len(),
        0 <= col <= doc[row].len(),
    ensures
        ({
            let split = doc.update(row, doc[row].take(col)).insert(row + 1, doc[row].skip(col));
            split.update(row, split[row] + split[row + 1]).remove(row + 1) == doc
        }),
{
    let split = doc.update(row, doc[row].take(col)).insert(row + 1, doc[row].skip(col));
    lemma_split_join_roundtrip(doc[row], col);
    assert(split.update(row, split[row] + split[row + 1]).remove(row + 1) =~~= doc);
}

} // verus!
