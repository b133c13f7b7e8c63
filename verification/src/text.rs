//! The text-input buffer.
//!
//! The caret is measured in whole characters, never in bytes, so no edit can
//! land inside a multi-byte character.

use vstd::prelude::*;

verus! {

/// Relies on String::push: appends exactly the given character.
#[verifier::external_body]
pub fn push_char(s: &mut String, c: char)
    ensures
        final(s)@ == old(s)@.push(c),
{
    s.push(c);
}

/// A line of text being composed, with a caret the edits happen at.
#[derive(Clone, Debug, PartialEq, Eq)]
pub struct InputBuffer {
    text: Vec<char>,
    caret: usize,
}

impl InputBuffer {
    /// The characters composed so far.
    pub closed spec fn text_view(self) -> Seq<char> {
        self.text@
    }

    /// The caret, in characters from the start; edits happen just before it.
    pub closed spec fn caret_view(self) -> int {
        self.caret as int
    }

    pub open spec fn well_formed(self) -> bool {
        0 <= self.caret_view() <= self.text_view().len()
    }

    pub open spec fn is_empty_view(self) -> bool {
        self.text_view().len() == 0 && self.caret_view() == 0
    }

    /// An empty buffer with the caret at the start.
    pub fn new() -> (b: InputBuffer)
        ensures
            b.well_formed(),
            b.is_empty_view(),
    {
        InputBuffer { text: Vec::new(), caret: 0 }
    }

    pub fn len(&self) -> (n: usize)
        ensures
            n as int == self.text_view().len(),
    {
        self.text.len()
    }

    pub fn caret(&self) -> (p: usize)
        ensures
            p as int == self.caret_view(),
    {
        self.caret
    }

    /// The composed text as a string.
    pub fn value(&self) -> (s: String)
        ensures
            s@ == self.text_view(),
    {
        let mut s = String::new();
        let mut i: usize = 0;
        while i < self.text.len()
            invariant
                0 <= i <= self.text@.len(),
                s@ == self.text@.subrange(0, i as int),
            decreases self.text@.len() - i,
        {
            push_char(&mut s, self.text[i]);
            i = i + 1;
            proof {
                assert(s@ =~= self.text@.subrange(0, i as int));
            }
        }
        proof {
            assert(s@ =~= self.text@);
        }
        s
    }

    /// Insert a character at the caret; the caret moves past it.
    pub fn insert_char(&mut self, c: char)
        requires
            old(self).well_formed(),
        ensures
            final(self).well_formed(),
            final(self).text_view() == old(self).text_view().insert(old(self).caret_view(), c),
            final(self).caret_view() == old(self).caret_view() + 1,
    {
        self.text.insert(self.caret, c);
        let n = self.text.len();
        assert(self.caret < n);
        self.caret = self.caret + 1;
    }

    /// Remove the character before the caret, if any; the caret moves back
    /// over it. At the start of the line nothing changes.
    pub fn delete_prev(&mut self)
        requires
            old(self).well_formed(),
        ensures
            final(self).well_formed(),
            old(self).caret_view() == 0 ==> *final(self) == *old(self),
            old(self).caret_view() > 0 ==> final(self).text_view() == old(self).text_view().remove(
                old(self).caret_view() - 1,
            ) && final(self).caret_view() == old(self).caret_view() - 1,
    {
        if self.caret > 0 {
            self.text.remove(self.caret - 1);
            self.caret = self.caret - 1;
        }
    }

    /// Move the caret one character back; at the start nothing changes.
    pub fn caret_prev(&mut self)
        requires
            old(self).well_formed(),
        ensures
            final(self).well_formed(),
            final(self).text_view() == old(self).text_view(),
            final(self).caret_view() == if old(self).caret_view() == 0 {
                0int
            } else {
                old(self).caret_view() - 1
            },
    {
        if self.caret > 0 {
            self.caret = self.caret - 1;
        }
    }

    /// Move the caret one character forward; at the end nothing changes.
    pub fn caret_next(&mut self)
        requires
            old(self).well_formed(),
        ensures
            final(self).well_formed(),
            final(self).text_view() == old(self).text_view(),
            final(self).caret_view() == if old(self).caret_view() == old(
                self,
            ).text_view().len() as int {
                old(self).caret_view()
            } else {
                old(self).caret_view() + 1
            },
    {
        let n = self.text.len();
        if self.caret < n {
            self.caret = self.caret + 1;
        }
    }

    /// Move the caret to the start of the line.
    pub fn caret_start(&mut self)
        requires
            old(self).well_formed(),
        ensures
            final(self).well_formed(),
            final(self).text_view() == old(self).text_view(),
            final(self).caret_view() == 0,
    {
        self.caret = 0;
    }

    /// Move the caret to the end of the line.
    pub fn caret_end(&mut self)
        requires
            old(self).well_formed(),
        ensures
            final(self).well_formed(),
            final(self).text_view() == old(self).text_view(),
            final(self).caret_view() == old(self).text_view().len() as int,
    {
        self.caret = self.text.len();
    }

    /// Drop the composed text and put the caret back at the start.
    pub fn clear(&mut self)
        ensures
            final(self).well_formed(),
            final(self).is_empty_view(),
    {
        self.text = Vec::new();
        self.caret = 0;
    }
}

} // verus!
