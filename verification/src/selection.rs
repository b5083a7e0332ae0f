//! A selection over a text buffer: a pair of character offsets.

use vstd::prelude::*;

verus! {

/// A range of text between two character offsets. The `anchor` is where the
/// selection was started and stays put while it is extended; the `active`
/// end is the one that moves, and is where the caret is drawn. When both are
/// equal the selection is a caret.
#[derive(Clone, Copy, Debug, PartialEq, Eq, Structural)]
pub struct Selection {
    pub anchor: usize,
    pub active: usize,
}

impl Selection {
    /// The smaller of the two offsets, as a mathematical integer.
    pub open spec fn lower(self) -> int {
        if self.anchor <= self.active {
            self.anchor as int
        } else {
            self.active as int
        }
    }

    /// The larger of the two offsets, as a mathematical integer.
    pub open spec fn upper(self) -> int {
        if self.anchor <= self.active {
            self.active as int
        } else {
            self.anchor as int
        }
    }

    /// Both offsets lie inside a text of `len` characters.
    pub open spec fn within(self, len: nat) -> bool {
        self.anchor <= len && self.active <= len
    }

    /// The selection with each offset that lies past `len` moved back to `len`.
    pub open spec fn clamp(self, len: nat) -> Selection {
        Selection {
            anchor: if self.anchor <= len { self.anchor } else { len as usize },
            active: if self.active <= len { self.active } else { len as usize },
        }
    }

    /// A selection from `anchor` to `active`.
    pub fn new(anchor: usize, active: usize) -> (sel: Selection)
        ensures
            sel == (Selection { anchor, active }),
    {
        Selection { anchor, active }
    }

    /// A caret at `pos`.
    pub fn caret(pos: usize) -> (sel: Selection)
        ensures
            sel == (Selection { anchor: pos, active: pos }),
    {
        Selection { anchor: pos, active: pos }
    }

    /// Whether the selection is a caret, that is, selects nothing.
    pub fn is_caret(&self) -> (caret: bool)
        ensures
            caret == (self.anchor == self.active),
    {
        self.anchor == self.active
    }

    /// The offset at which the selected range starts.
    pub fn min(&self) -> (pos: usize)
        ensures
            pos == self.lower(),
    {
        if self.anchor <= self.active {
            self.anchor
        } else {
            self.active
        }
    }

    /// The offset at which the selected range ends.
    pub fn max(&self) -> (pos: usize)
        ensures
            pos == self.upper(),
    {
        if self.anchor <= self.active {
            self.active
        } else {
            self.anchor
        }
    }

    /// The selection constrained to a text of `len` characters.
    pub fn constrained(&self, len: usize) -> (sel: Selection)
        ensures
            sel == self.clamp(len as nat),
            sel.within(len as nat),
    {
        Selection {
            anchor: if self.anchor <= len { self.anchor } else { len },
            active: if self.active <= len { self.active } else { len },
        }
    }
}

} // verus!
