//! The raw editor: a text buffer, a selection over it, and the discrete
//! actions that change them.

use crate::selection::Selection;
use crate::text::{boundary, chars_of, find_boundary, slice_of, splice, spliced, Direction, Unit};
use vstd::prelude::*;

verus! {

/// One discrete edit. Each is a function from a buffer and a selection to a
/// new buffer and a new selection; copying and cutting also hand the
/// selected text out, for a clipboard.
#[derive(Clone, Debug)]
pub enum EditAction {
    /// Moves the active end one `unit` in `direction`. The anchor follows
    /// it, so that a caret results, unless `extend` is set.
    MoveCaret { unit: Unit, direction: Direction, extend: bool },
    /// Deletes the selected text, or, from a caret, one `unit` in
    /// `direction`.
    Delete { unit: Unit, direction: Direction },
    /// Puts the text in place of the selection.
    Insert(String),
    /// Selects the whole buffer.
    SelectAll,
    /// Hands the selected text out and changes nothing.
    Copy,
    /// Hands the selected text out and deletes it.
    Cut,
    /// Puts the pasted text in place of the selection.
    Paste(String),
}

/// What a raw editor holds, as mathematics: the text and the selection.
pub struct EditorState {
    pub text: Seq<char>,
    pub selection: Selection,
}

impl EditorState {
    /// The selection lies inside the text, and the text is no longer than
    /// a buffer can be.
    pub open spec fn well_formed(self) -> bool {
        &&& self.text.len() <= usize::MAX
        &&& self.selection.within(self.text.len())
    }

    /// The selected text.
    pub open spec fn selected(self) -> Seq<char> {
        self.text.subrange(self.selection.lower(), self.selection.upper())
    }

    /// The state after `insert` took the place of the selected text: the
    /// caret stands behind what was inserted.
    pub open spec fn replace_selection(self, insert: Seq<char>) -> EditorState {
        let at = (self.selection.lower() + insert.len()) as usize;
        EditorState {
            text: spliced(self.text, self.selection.lower(), self.selection.upper(), insert),
            selection: Selection { anchor: at, active: at },
        }
    }

    /// Where a movement takes the active end. A movement by one character
    /// that does not extend a selected range goes to the end of that range
    /// on the movement's side; every other movement goes one unit on from
    /// the active end.
    pub open spec fn destination(self, unit: Unit, direction: Direction, extend: bool) -> int {
        if unit == Unit::Character && !extend && self.selection.anchor != self.selection.active {
            match direction {
                Direction::Backward => self.selection.lower(),
                Direction::Forward => self.selection.upper(),
            }
        } else {
            boundary(self.text, self.selection.active as int, unit, direction)
        }
    }

    /// The state after a movement.
    pub open spec fn moved(self, unit: Unit, direction: Direction, extend: bool) -> EditorState {
        let to = self.destination(unit, direction, extend) as usize;
        EditorState {
            text: self.text,
            selection: Selection {
                anchor: if extend {
                    self.selection.anchor
                } else {
                    to
                },
                active: to,
            },
        }
    }

    /// The state after a deletion: a selected range goes; from a caret, the
    /// text between the caret and the boundary one unit away goes.
    pub open spec fn deleted(self, unit: Unit, direction: Direction) -> EditorState {
        if self.selection.anchor != self.selection.active {
            self.replace_selection(Seq::empty())
        } else {
            let to = boundary(self.text, self.selection.active as int, unit, direction) as usize;
            (EditorState {
                text: self.text,
                selection: Selection { anchor: self.selection.active, active: to },
            }).replace_selection(Seq::empty())
        }
    }

    /// The state with everything selected, from the start to the end.
    pub open spec fn all_selected(self) -> EditorState {
        EditorState {
            text: self.text,
            selection: Selection { anchor: 0, active: self.text.len() as usize },
        }
    }

    /// The state after a pointer press at `offset`: the active end goes
    /// there, or to the text's end if the offset lies past it, and the
    /// anchor follows unless the selection is being extended.
    pub open spec fn clicked(self, offset: usize, extend: bool) -> EditorState {
        let to = if offset <= self.text.len() {
            offset
        } else {
            self.text.len() as usize
        };
        EditorState {
            text: self.text,
            selection: Selection {
                anchor: if extend {
                    self.selection.anchor
                } else {
                    to
                },
                active: to,
            },
        }
    }

    /// The state after `action`.
    pub open spec fn apply(self, action: EditAction) -> EditorState {
        match action {
            EditAction::MoveCaret { unit, direction, extend } => self.moved(
                unit,
                direction,
                extend,
            ),
            EditAction::Delete { unit, direction } => self.deleted(unit, direction),
            EditAction::Insert(text) => self.replace_selection(text@),
            EditAction::SelectAll => self.all_selected(),
            EditAction::Copy => self,
            EditAction::Cut => if self.selection.anchor != self.selection.active {
                self.replace_selection(Seq::empty())
            } else {
                self
            },
            EditAction::Paste(text) => self.replace_selection(text@),
        }
    }

    /// The text that `action` hands out for the clipboard: the selected
    /// text, when something is selected and the action copies or cuts.
    pub open spec fn clipboard(self, action: EditAction) -> Option<Seq<char>> {
        match action {
            EditAction::Copy | EditAction::Cut => if self.selection.anchor
                != self.selection.active {
                Some(self.selected())
            } else {
                None
            },
            _ => None,
        }
    }
}

/// Whatever the action, a selection that lay inside the text lies inside
/// the text afterwards, provided the new text's length is one that a buffer
/// can have.
pub proof fn lemma_apply_keeps_selection_in_text(state: EditorState, action: EditAction)
    requires
        state.well_formed(),
        state.apply(action).text.len() <= usize::MAX,
    ensures
        state.apply(action).well_formed(),
{
    match action {
        EditAction::MoveCaret { unit, direction, extend } => {
            lemma_move_shape(state, unit, direction, extend);
        },
        EditAction::Delete { unit, direction } => {
            crate::text::lemma_boundary_in_text(
                state.text,
                state.selection.active as int,
                unit,
                direction,
            );
        },
        _ => {},
    }
}

/// Moving leaves the text alone and keeps the selection inside it; moving
/// without extending collapses the selection to a caret at the destination,
/// and moving with it keeps the anchor.
pub proof fn lemma_move_shape(state: EditorState, unit: Unit, direction: Direction, extend: bool)
    requires
        state.well_formed(),
    ensures
        state.moved(unit, direction, extend).text == state.text,
        state.moved(unit, direction, extend).well_formed(),
        state.moved(unit, direction, extend).selection.active == state.destination(
            unit,
            direction,
            extend,
        ),
        !extend ==> state.moved(unit, direction, extend).selection.anchor == state.destination(
            unit,
            direction,
            extend,
        ),
        extend ==> state.moved(unit, direction, extend).selection.anchor
            == state.selection.anchor,
{
    crate::text::lemma_boundary_in_text(state.text, state.selection.active as int, unit, direction);
}

/// Inserting while a range is selected replaces the range: what stood
/// before the range and behind it stays, the inserted text stands between,
/// and the caret stands behind the inserted text.
pub proof fn lemma_insert_shape(state: EditorState, insert: Seq<char>)
    requires
        state.well_formed(),
    ensures
        ({
            let after = state.replace_selection(insert);
            let lo = state.selection.lower();
            let hi = state.selection.upper();
            &&& after.text.len() == state.text.len() - (hi - lo) + insert.len()
            &&& after.text.subrange(0, lo) == state.text.subrange(0, lo)
            &&& after.text.subrange(lo, lo + insert.len()) == insert
            &&& after.text.subrange(lo + insert.len(), after.text.len() as int)
                == state.text.subrange(hi, state.text.len() as int)
            &&& after.text.len() <= usize::MAX ==> after.selection == (Selection {
                anchor: (lo + insert.len()) as usize,
                active: (lo + insert.len()) as usize,
            }) && after.well_formed()
        }),
{
    let after = state.replace_selection(insert);
    let lo = state.selection.lower();
    let hi = state.selection.upper();
    assert(after.text.subrange(0, lo) =~= state.text.subrange(0, lo));
    assert(after.text.subrange(lo, lo + insert.len()) =~= insert);
    assert(after.text.subrange(lo + insert.len(), after.text.len() as int)
        =~= state.text.subrange(hi, state.text.len() as int));
}

/// Deleting from a caret deletes one unit in the given direction: the text
/// between the caret and the boundary one unit away goes, the rest stays,
/// and the caret stands where the gap was.
pub proof fn lemma_delete_from_caret(state: EditorState, unit: Unit, direction: Direction)
    requires
        state.well_formed(),
        state.selection.anchor == state.selection.active,
    ensures
        ({
            let after = state.deleted(unit, direction);
            let caret = state.selection.active as int;
            let to = boundary(state.text, caret, unit, direction);
            let lo = if to < caret { to } else { caret };
            let hi = if to < caret { caret } else { to };
            &&& 0 <= lo <= hi <= state.text.len()
            &&& after.text == state.text.subrange(0, lo) + state.text.subrange(
                hi,
                state.text.len() as int,
            )
            &&& after.selection == (Selection { anchor: lo as usize, active: lo as usize })
            &&& after.well_formed()
        }),
{
    let caret = state.selection.active as int;
    crate::text::lemma_boundary_in_text(state.text, caret, unit, direction);
    let to = boundary(state.text, caret, unit, direction);
    let lo = if to < caret { to } else { caret };
    let hi = if to < caret { caret } else { to };
    assert(state.deleted(unit, direction).text =~= state.text.subrange(0, lo)
        + state.text.subrange(hi, state.text.len() as int));
}

/// A text buffer under edit, with its selection.
///
/// The selection always lies inside the buffer: both its offsets are at most
/// the buffer's length in characters.
#[derive(Debug)]
pub struct RawEditor {
    buffer: String,
    selection: Selection,
}

impl Clone for RawEditor {
    fn clone(&self) -> (editor: RawEditor)
        ensures
            editor@ == self@,
    {
        proof {
            use_type_invariant(self);
        }
        RawEditor { buffer: self.buffer.clone(), selection: self.selection }
    }
}

impl RawEditor {
    #[verifier::type_invariant]
    spec fn selection_in_buffer(&self) -> bool {
        &&& self.buffer@.len() <= usize::MAX
        &&& self.selection.within(self.buffer@.len())
    }

    /// The text and the selection.
    pub closed spec fn view(&self) -> EditorState {
        EditorState { text: self.buffer@, selection: self.selection }
    }

    /// An editor with an empty buffer and the caret at its start.
    pub fn new() -> (editor: RawEditor)
        ensures
            editor@ == (EditorState {
                text: Seq::empty(),
                selection: Selection { anchor: 0, active: 0 },
            }),
    {
        RawEditor { buffer: String::new(), selection: Selection { anchor: 0, active: 0 } }
    }

    /// The buffer.
    pub fn text(&self) -> (text: &str)
        ensures
            text@ == self@.text,
    {
        self.buffer.as_str()
    }

    /// Whether the buffer holds exactly `text`.
    pub fn has_text(&self, text: &String) -> (same: bool)
        ensures
            same == (self@.text == text@),
    {
        self.buffer == *text
    }

    /// The buffer's length in characters.
    pub fn len(&self) -> (len: usize)
        ensures
            len == self@.text.len(),
            self@.well_formed(),
    {
        proof {
            use_type_invariant(self);
        }
        self.buffer.as_str().unicode_len()
    }

    /// The selection.
    pub fn selection(&self) -> (selection: Selection)
        ensures
            selection == self@.selection,
            self@.well_formed(),
    {
        proof {
            use_type_invariant(self);
        }
        self.selection
    }

    /// Replaces the buffer. A selection that reached past the new text's
    /// end is moved back to it.
    pub fn set_text(&mut self, text: String)
        ensures
            final(self)@ == (EditorState {
                text: text@,
                selection: old(self)@.selection.clamp(text@.len()),
            }),
            final(self)@.well_formed(),
    {
        let len: usize = text.as_str().unicode_len();
        let selection: Selection = self.selection.constrained(len);
        *self = RawEditor { buffer: text, selection };
    }

    /// Replaces the selection, moving back to the buffer's end an offset
    /// that lies past it.
    pub fn set_selection(&mut self, selection: Selection)
        ensures
            final(self)@ == (EditorState {
                text: old(self)@.text,
                selection: selection.clamp(old(self)@.text.len()),
            }),
            final(self)@.well_formed(),
    {
        let len: usize = self.buffer.as_str().unicode_len();
        self.selection = selection.constrained(len);
    }

    /// Selects the whole buffer.
    pub fn select_all(&mut self)
        ensures
            final(self)@ == old(self)@.all_selected(),
            final(self)@.well_formed(),
    {
        let len: usize = self.buffer.as_str().unicode_len();
        self.selection = Selection { anchor: 0, active: len };
    }

    /// Moves the active end to `offset`, or to the buffer's end if the
    /// offset lies past it, as a pointer press there does. The anchor
    /// follows unless `extend` is set.
    pub fn click(&mut self, offset: usize, extend: bool)
        ensures
            final(self)@ == old(self)@.clicked(offset, extend),
            final(self)@.well_formed(),
    {
        proof {
            use_type_invariant(&*self);
        }
        let len: usize = self.buffer.as_str().unicode_len();
        let to: usize = if offset <= len {
            offset
        } else {
            len
        };
        let anchor: usize = if extend {
            self.selection.anchor
        } else {
            to
        };
        self.selection = Selection { anchor, active: to };
    }

    /// The selected text, if any is selected.
    pub fn selected_text(&self) -> (text: Option<String>)
        ensures
            match text {
                Some(t) => self@.selection.anchor != self@.selection.active && t@
                    == self@.selected(),
                None => self@.selection.anchor == self@.selection.active,
            },
    {
        proof {
            use_type_invariant(self);
        }
        if self.selection.is_caret() {
            None
        } else {
            Some(slice_of(self.buffer.as_str(), self.selection.min(), self.selection.max()))
        }
    }

    /// Puts `insert` in place of the selected text and the caret behind it.
    pub fn insert(&mut self, insert: &str)
        ensures
            final(self)@ == old(self)@.replace_selection(insert@),
            final(self)@.well_formed(),
    {
        proof {
            use_type_invariant(&*self);
        }
        let len: usize = self.buffer.as_str().unicode_len();
        let tail: usize = len - self.selection.max();
        let buffer: String = splice(
            self.buffer.as_str(),
            self.selection.min(),
            self.selection.max(),
            insert,
        );
        let new_len: usize = buffer.as_str().unicode_len();
        let at: usize = new_len - tail;
        *self = RawEditor { buffer, selection: Selection { anchor: at, active: at } };
    }

    /// Performs one action, and returns the text that it hands out for the
    /// clipboard, if any.
    pub fn apply(&mut self, action: &EditAction) -> (clipboard: Option<String>)
        ensures
            final(self)@ == old(self)@.apply(*action),
            match clipboard {
                Some(text) => old(self)@.clipboard(*action) == Some(text@),
                None => old(self)@.clipboard(*action) is None,
            },
            final(self)@.well_formed(),
    {
        proof {
            use_type_invariant(&*self);
        }
        match action {
            EditAction::MoveCaret { unit, direction, extend } => {
                let to: usize = if matches!(unit, Unit::Character) && !*extend
                    && !self.selection.is_caret() {
                    match direction {
                        Direction::Backward => self.selection.min(),
                        Direction::Forward => self.selection.max(),
                    }
                } else {
                    let chars: Vec<char> = chars_of(self.buffer.as_str());
                    find_boundary(&chars, self.selection.active, *unit, *direction)
                };
                let anchor: usize = if *extend {
                    self.selection.anchor
                } else {
                    to
                };
                self.selection = Selection { anchor, active: to };
                None
            },
            EditAction::Delete { unit, direction } => {
                if self.selection.is_caret() {
                    let chars: Vec<char> = chars_of(self.buffer.as_str());
                    let to: usize = find_boundary(&chars, self.selection.active, *unit, *direction);
                    self.selection = Selection { anchor: self.selection.active, active: to };
                }
                self.insert("");
                proof {
                    reveal_strlit("");
                    assert(""@ =~= Seq::<char>::empty());
                }
                None
            },
            EditAction::Insert(text) => {
                self.insert(text.as_str());
                None
            },
            EditAction::SelectAll => {
                self.select_all();
                None
            },
            EditAction::Copy => self.selected_text(),
            EditAction::Cut => {
                let clipboard: Option<String> = self.selected_text();
                if clipboard.is_some() {
                    self.insert("");
                    proof {
                        reveal_strlit("");
                        assert(""@ =~= Seq::<char>::empty());
                    }
                }
                clipboard
            },
            EditAction::Paste(text) => {
                self.insert(text.as_str());
                None
            },
        }
    }
}

} // verus!
