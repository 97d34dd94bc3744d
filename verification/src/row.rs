//! A single line of text, stored as a sequence of bytes.

use vstd::prelude::*;

verus! {

/// One row of the document. Column math is byte-based: the editor does not
/// attempt multi-byte-aware column handling.
pub struct Row {
    pub content: Vec<u8>,
}

impl View for Row {
    type V = Seq<u8>;

    open spec fn view(&self) -> Seq<u8> {
        self.content@
    }
}

impl Row {
    /// A row holding exactly the given bytes.
    pub fn new(s: Vec<u8>) -> (r: Row)
        ensures
            r@ == s@,
    {
        Row { content: s }
    }

    pub fn len(&self) -> (n: usize)
        ensures
            n == self@.len(),
    {
        self.content.len()
    }

    /// Insert `c` at column `at`; a column at or past the end degrades to an
    /// append, so a cursor sitting just past the last character is tolerated.
    pub fn insert_char(&mut self, at: usize, c: u8)
        ensures
            at <= old(self)@.len() ==> final(self)@ == old(self)@.insert(at as int, c),
            at > old(self)@.len() ==> final(self)@ == old(self)@.push(c),
    {
        if at >= self.content.len() {
            self.content.push(c);
        } else {
            self.content.insert(at, c);
        }
    }

    /// Remove the character at column `at`; an out-of-range column is a
    /// silent no-op, not an error.
    pub fn delete_char(&mut self, at: usize)
        ensures
            at < old(self)@.len() ==> final(self)@ == old(self)@.remove(at as int),
            at >= old(self)@.len() ==> final(self)@ == old(self)@,
    {
        if at < self.content.len() {
            self.content.remove(at);
        }
    }
}

} // verus!
