//! A cursor over the characters of a source text, with one character of
//! lookahead.

use vstd::prelude::*;

verus! {

/// A position in a source text. The characters before it are consumed, the
/// one at it is the next.
pub struct Cursor {
    chars: Vec<char>,
    pos: usize,
}

impl Cursor {
    /// The whole text, consumed or not.
    pub closed spec fn source(&self) -> Seq<char> {
        self.chars@
    }

    /// The number of characters consumed so far.
    pub closed spec fn index(&self) -> int {
        self.pos as int
    }

    /// The cursor lies within its text, whose length is a machine number.
    #[verifier::type_invariant]
    pub open spec fn in_bounds(self) -> bool {
        0 <= self.index() <= self.source().len() <= usize::MAX
    }

    /// The characters not yet consumed.
    pub open spec fn rest(&self) -> Seq<char> {
        self.source().skip(self.index())
    }

    /// The next character, if there is one.
    pub open spec fn peek_spec(&self) -> Option<char> {
        if 0 <= self.index() < self.source().len() {
            Some(self.source()[self.index()])
        } else {
            None
        }
    }

    /// A cursor at the beginning of `source`.
    pub fn new(source: &str) -> (cursor: Cursor)
        ensures
            cursor.source() == source@,
            cursor.index() == 0,
    {
        let mut chars: Vec<char> = Vec::new();
        for c in it: source.chars()
            invariant
                it.seq() == source@,
                chars@ == it.history(),
        {
            chars.push(c);
        }
        assert(chars@ =~= source@);
        assert(chars@.len() == chars.len());
        Cursor { chars, pos: 0 }
    }

    /// The number of characters consumed so far, which is also the index of
    /// the next one.
    pub fn position(&self) -> (i: usize)
        ensures
            i == self.index(),
    {
        proof {
            use_type_invariant(self);
        }
        self.pos
    }

    /// The next character, which stays where it is; `None` at the end of the
    /// text.
    pub fn peek(&self) -> (next: Option<char>)
        ensures
            next == self.peek_spec(),
    {
        proof {
            use_type_invariant(self);
        }
        if self.pos < self.chars.len() {
            Some(self.chars[self.pos])
        } else {
            None
        }
    }

    /// Consumes the next character and returns it; at the end of the text
    /// nothing changes and `None` is returned.
    pub fn advance(&mut self) -> (next: Option<char>)
        ensures
            final(self).source() == old(self).source(),
            next == old(self).peek_spec(),
            final(self).index() == if next is Some {
                old(self).index() + 1
            } else {
                old(self).index()
            },
    {
        proof {
            use_type_invariant(&*self);
        }
        if self.pos < self.chars.len() {
            let c = self.chars[self.pos];
            self.pos = self.pos + 1;
            Some(c)
        } else {
            None
        }
    }
}

} // verus!
