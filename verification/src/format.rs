//! The formatter: the capability that turns a typed value into text and
//! text into a typed value, and that judges text while it is being typed.

use crate::selection::Selection;
use vstd::prelude::*;

verus! {

/// Why a text was not accepted.
#[derive(Clone, Debug)]
pub struct ValidationError {
    message: String,
}

impl ValidationError {
    /// The reason, in words.
    pub closed spec fn view(&self) -> Seq<char> {
        self.message@
    }

    /// An error with the given reason.
    pub fn new(message: String) -> (error: ValidationError)
        ensures
            error@ == message@,
    {
        ValidationError { message }
    }

    /// The reason, in words.
    pub fn message(&self) -> (message: &str)
        ensures
            message@ == self@,
    {
        self.message.as_str()
    }
}

/// The text in `text`, if there is one, as mathematics.
pub open spec fn text_of(text: Option<String>) -> Option<Seq<char>> {
    match text {
        Some(t) => Some(t@),
        None => None,
    }
}

/// A formatter's judgement of a text under edit, as mathematics.
pub struct Verdict {
    /// The text that is to stand in place of the judged one, if any.
    pub text_change: Option<Seq<char>>,
    /// The selection that is to stand in place of the current one, if any.
    pub selection_change: Option<Selection>,
    /// Whether the judged text was rejected.
    pub is_err: bool,
}

/// A formatter's judgement of a text under edit: whether it is acceptable as
/// far as it goes, and what the formatter would put in its place.
#[derive(Clone, Debug)]
pub struct Validation {
    /// The reason for which the text was rejected, if it was.
    pub error: Option<ValidationError>,
    /// The text that is to stand in place of the judged one, if any.
    pub text_change: Option<String>,
    /// The selection that is to stand in place of the current one, if any.
    pub selection_change: Option<Selection>,
}

impl Validation {
    /// The judgement as mathematics.
    pub open spec fn view(&self) -> Verdict {
        Verdict {
            text_change: text_of(self.text_change),
            selection_change: self.selection_change,
            is_err: self.error is Some,
        }
    }

    /// The text is acceptable as it is.
    pub fn success() -> (validation: Validation)
        ensures
            validation@ == (Verdict { text_change: None, selection_change: None, is_err: false }),
            validation.error is None,
    {
        Validation { error: None, text_change: None, selection_change: None }
    }

    /// The text is rejected, for the given reason.
    pub fn failure(error: ValidationError) -> (validation: Validation)
        ensures
            validation@ == (Verdict { text_change: None, selection_change: None, is_err: true }),
            validation.error == Some(error),
    {
        Validation { error: Some(error), text_change: None, selection_change: None }
    }

    /// The same judgement, with `text` to be put in place of the judged text.
    pub fn change_text(self, text: String) -> (validation: Validation)
        ensures
            validation@ == (Verdict { text_change: Some(text@), ..self@ }),
            validation.error == self.error,
    {
        Validation {
            error: self.error,
            text_change: Some(text),
            selection_change: self.selection_change,
        }
    }

    /// The same judgement, with `selection` to be put in place of the
    /// current selection.
    pub fn change_selection(self, selection: Selection) -> (validation: Validation)
        ensures
            validation@ == (Verdict { selection_change: Some(selection), ..self@ }),
            validation.error == self.error,
            validation.text_change == self.text_change,
    {
        Validation {
            error: self.error,
            text_change: self.text_change,
            selection_change: Some(selection),
        }
    }

    /// Whether the text was rejected.
    pub fn is_err(&self) -> (rejected: bool)
        ensures
            rejected == self@.is_err,
    {
        self.error.is_some()
    }

    /// The reason for which the text was rejected, if it was.
    pub fn error(&self) -> (error: Option<&ValidationError>)
        ensures
            match error {
                Some(reason) => self.error == Some(*reason),
                None => self.error is None,
            },
    {
        self.error.as_ref()
    }
}

/// The four functions that a formatter computes. A formatter has no state
/// and no side effects, so each of its operations is a function of its
/// arguments.
#[verifier::reject_recursive_types(T)]
pub struct FormatterModel<T> {
    /// The canonical text of a value.
    pub format: spec_fn(T) -> Seq<char>,
    /// The text with which the editing of a value starts.
    pub format_for_editing: spec_fn(T) -> Seq<char>,
    /// The value that a text stands for, if it stands for one.
    pub value: spec_fn(Seq<char>) -> Option<T>,
    /// The judgement of a text under edit, with the selection in it.
    pub validate: spec_fn(Seq<char>, Selection) -> Verdict,
}

/// Turns a value of type `T` into text and text into a value, and judges
/// text that is still being typed. It is called on every keystroke, and is
/// expected to be fast and free of side effects.
pub trait Formatter<T> {
    /// The functions that this formatter computes. An implementation that
    /// does not say what they are has some fixed functions that are not
    /// known.
    open spec fn model(&self) -> FormatterModel<T> {
        arbitrary()
    }

    /// The canonical text of `value`, as it is shown when the field is not
    /// being edited.
    fn format(&self, value: &T) -> (text: String)
        ensures
            text@ == (self.model().format)(*value),
    ;

    /// The text with which the editing of `value` starts. It may differ
    /// from the canonical text, for example by leaving out separators.
    fn format_for_editing(&self, value: &T) -> (text: String)
        ensures
            text@ == (self.model().format_for_editing)(*value),
    ;

    /// The value that `input` stands for, or the reason for which it stands
    /// for none.
    fn value(&self, input: &str) -> (parsed: Result<T, ValidationError>)
        ensures
            match parsed {
                Ok(value) => (self.model().value)(input@) == Some(value),
                Err(_) => (self.model().value)(input@) is None,
            },
    ;

    /// Judges `input` while it is being typed, with the selection in it.
    /// The text need not yet stand for a value to be acceptable.
    fn validate_partial_input(&self, input: &str, selection: &Selection) -> (validation: Validation)
        ensures
            validation@ == (self.model().validate)(input@, *selection),
    ;
}

} // verus!
