//! A field that edits a typed value through a formatter.
//!
//! The field is in one of two states. While it is not being edited its
//! buffer shows the canonical text of the value. Editing begins with a
//! press of the pointer or with the arrival of the focus. While it lasts,
//! every change of the buffer is put before the formatter, which accepts
//! it, replaces it or has it taken back. Editing ends when it is completed,
//! which writes the value that the buffer stands for, or cancelled, which
//! leaves the value as it was.
//!
//! What happens when the value is changed from outside while it is being
//! edited is a matter of choice. Here the editing is cancelled: the buffer
//! shows the new value, and the field gives up the focus.

use crate::edit::{lemma_apply_keeps_selection_in_text, EditAction, EditorState};
use crate::format::{text_of, Formatter, FormatterModel, Validation, Verdict};
use crate::host::{
    Context, Event, FocusRequest, Key, LifeCycle, Metrics, Outcome, Requests, Response,
};
use crate::selection::Selection;
use crate::textbox::{TextBox, TextBoxState};
use vstd::prelude::*;

verus! {

/// Whether `event` asks for the editing to be completed: the enter key, or
/// the event that says so.
pub open spec fn is_complete_signal(event: Event) -> bool {
    event is Complete || event == Event::KeyDown(Key::Enter)
}

/// Whether `event` asks for the editing to be cancelled: the escape key, or
/// the event that says so.
pub open spec fn is_cancel_signal(event: Event) -> bool {
    event is Cancel || event == Event::KeyDown(Key::Escape)
}

/// Whether `event` is a key press.
pub open spec fn is_key(event: Event) -> bool {
    event is KeyDown
}

/// The replacement text of a judgement, unless the formatter rejects it
/// when it is asked about that text alone, with a caret at its start. A
/// formatter that offers a text which it does not accept is not trusted.
pub open spec fn trusted_replacement<T>(m: FormatterModel<T>, verdict: Verdict) -> Option<
    Seq<char>,
> {
    match verdict.text_change {
        Some(text) => if ((m.validate)(text, Selection { anchor: 0, active: 0 })).is_err {
            None
        } else {
            Some(text)
        },
        None => None,
    }
}

/// The replacement text of a judgement, if the formatter rejects it when
/// it is asked about that text alone.
pub open spec fn refused_replacement<T>(m: FormatterModel<T>, verdict: Verdict) -> Option<
    Seq<char>,
> {
    match verdict.text_change {
        Some(text) => if ((m.validate)(text, Selection { anchor: 0, active: 0 })).is_err {
            Some(text)
        } else {
            None
        },
        None => None,
    }
}

/// The text that is put in place of an edited buffer after the formatter
/// judged it, if any is: the replacement, where one is offered and can be
/// trusted; else, where the buffer was rejected, the last good text; else
/// none, and the buffer stays as it was edited.
pub open spec fn resolved_text<T>(
    m: FormatterModel<T>,
    verdict: Verdict,
    last_good: Seq<char>,
) -> Option<Seq<char>> {
    match trusted_replacement(m, verdict) {
        Some(text) => Some(text),
        None => if verdict.is_err {
            Some(last_good)
        } else {
            None
        },
    }
}

/// The selection that is put in place of the editor's after the formatter
/// judged an edited buffer, if any is: the formatter's, where it offers
/// one; else, where the buffer was rejected, the selection from before the
/// edit; else none.
pub open spec fn resolved_selection(verdict: Verdict, before: Selection) -> Option<Selection> {
    match verdict.selection_change {
        Some(selection) => Some(selection),
        None => if verdict.is_err {
            Some(before)
        } else {
            None
        },
    }
}

/// What a value field holds, as mathematics.
pub struct SessionState {
    /// The text field inside, with the buffer under edit.
    pub inner: TextBoxState,
    /// Whether the text is being edited.
    pub editing: bool,
    /// The last text that the formatter did not reject.
    pub last_good: Seq<char>,
    /// The selection that the next update is to put in place of the
    /// editor's, if any.
    pub pending_selection: Option<Selection>,
}

impl SessionState {
    /// A value field as it is built around a text field.
    pub open spec fn initial(inner: TextBoxState) -> SessionState {
        SessionState { inner, editing: false, last_good: Seq::empty(), pending_selection: None }
    }

    /// The buffer.
    pub open spec fn buffer(self) -> Seq<char> {
        self.inner.editor.text
    }

    /// The selection is inside the buffer, and the buffer is no longer
    /// than a buffer can be.
    pub open spec fn well_formed(self) -> bool {
        self.inner.editor.well_formed()
    }

    /// While the field is not being edited, its buffer shows the canonical
    /// text of `value`.
    pub open spec fn shows<T>(self, m: FormatterModel<T>, value: T) -> bool {
        !self.editing ==> self.buffer() == (m.format)(value)
    }

    /// The state with `inner` for its text field.
    pub open spec fn with_inner(self, inner: TextBoxState) -> SessionState {
        SessionState { inner, ..self }
    }

    /// The state with `text` for its buffer. A selection that reached past
    /// the text's end is moved back to it.
    pub open spec fn with_text(self, text: Seq<char>) -> SessionState {
        self.with_inner(
            TextBoxState {
                editor: EditorState {
                    text,
                    selection: self.inner.editor.selection.clamp(text.len()),
                },
                ..self.inner
            },
        )
    }

    /// The state after editing began: the buffer and the last good text
    /// are the text with which the editing of `value` starts.
    pub open spec fn begun<T>(self, m: FormatterModel<T>, value: T) -> SessionState {
        let text = (m.format_for_editing)(value);
        SessionState { editing: true, last_good: text, ..self.with_text(text) }
    }

    /// The state after the editing was to be completed. Where the buffer
    /// stands for a value, the editing is over and the buffer shows the
    /// canonical text of that value, whatever it looked like. Where it does
    /// not, the editing goes on with the whole buffer selected. A field
    /// that is not being edited is left as it is.
    pub open spec fn completed<T>(self, m: FormatterModel<T>) -> SessionState {
        if !self.editing {
            self
        } else {
            match (m.value)(self.buffer()) {
                Some(value) => SessionState {
                    editing: false,
                    ..self.with_text((m.format)(value))
                },
                None => self.with_inner(
                    TextBoxState { editor: self.inner.editor.all_selected(), ..self.inner },
                ),
            }
        }
    }

    /// The value after the editing was to be completed: the one that the
    /// buffer stands for, or the old one where it stands for none or the
    /// field is not being edited.
    pub open spec fn committed<T>(self, m: FormatterModel<T>, value: T) -> T {
        if !self.editing {
            value
        } else {
            match (m.value)(self.buffer()) {
                Some(parsed) => parsed,
                None => value,
            }
        }
    }

    /// What the completing asks of the host: after success to lay the
    /// field out and to take the focus back if the field holds it; after
    /// failure to give the field the focus if it does not hold it, so that
    /// the user sees what is wrong.
    pub open spec fn complete_requests<T>(self, m: FormatterModel<T>, focused: bool) -> Requests {
        if !self.editing {
            Requests::nothing()
        } else {
            match (m.value)(self.buffer()) {
                Some(_) => Requests {
                    layout: true,
                    focus: if focused {
                        FocusRequest::Resign
                    } else {
                        FocusRequest::Nothing
                    },
                    ..Requests::nothing()
                },
                None => Requests {
                    focus: if focused {
                        FocusRequest::Nothing
                    } else {
                        FocusRequest::Request
                    },
                    ..Requests::nothing()
                },
            }
        }
    }

    /// The state after the editing was cancelled: it is over, and the
    /// buffer shows the canonical text of the value.
    pub open spec fn cancelled<T>(self, m: FormatterModel<T>, value: T) -> SessionState {
        SessionState { editing: false, ..self.with_text((m.format)(value)) }
    }

    /// What the cancelling asks of the host: to lay the field out, and to
    /// take the focus back.
    pub open spec fn cancel_requests() -> Requests {
        Requests { layout: true, focus: FocusRequest::Resign, ..Requests::nothing() }
    }

    /// The formatter's judgement of the buffer as it stands, with the
    /// selection in it.
    pub open spec fn verdict<T>(self, m: FormatterModel<T>) -> Verdict {
        (m.validate)(self.inner.editor.text, self.inner.editor.selection)
    }

    /// The state after an edit was put before the formatter; `before` is
    /// the selection from before the edit.
    ///
    /// A buffer that still holds the last good text is not judged. Else
    /// the text and the selection that the judgement resolves to take
    /// effect: the text at once, the selection with the next update. The
    /// text that then stands in the buffer is the last good text from now
    /// on; a buffer that was rolled back holds the old one.
    pub open spec fn validated<T>(self, m: FormatterModel<T>, before: Selection) -> SessionState {
        if self.buffer() == self.last_good {
            self
        } else {
            let verdict = self.verdict(m);
            let pending = resolved_selection(verdict, before);
            match resolved_text(m, verdict, self.last_good) {
                Some(text) => SessionState {
                    last_good: text,
                    pending_selection: pending,
                    ..self.with_text(text)
                },
                None => SessionState {
                    last_good: self.buffer(),
                    pending_selection: pending,
                    ..self
                },
            }
        }
    }

    /// The replacement text that the formatter offered for an edit and
    /// then rejected itself, if there was one.
    pub open spec fn refused<T>(self, m: FormatterModel<T>) -> Option<Seq<char>> {
        if self.buffer() == self.last_good {
            None
        } else {
            refused_replacement(m, self.verdict(m))
        }
    }

    /// The state after an event.
    ///
    /// While the field is being edited, the signals complete or cancel the
    /// editing, and every other event goes to the text field inside, after
    /// which the buffer is put before the formatter. While it is not, a
    /// press of the pointer begins the editing and then goes to the text
    /// field inside; every other event is ignored.
    pub open spec fn after_event<T>(
        self,
        m: FormatterModel<T>,
        value: T,
        event: Event,
        ctx: Context,
    ) -> SessionState {
        if self.editing {
            if is_complete_signal(event) {
                self.completed(m)
            } else if is_cancel_signal(event) {
                self.cancelled(m, value)
            } else {
                self.with_inner(self.inner.after_event(event, ctx)).validated(
                    m,
                    self.inner.editor.selection,
                )
            }
        } else if event is MouseDown {
            let begun = self.begun(m, value);
            begun.with_inner(begun.inner.after_event(event, ctx))
        } else {
            self
        }
    }

    /// The value after an event: only the completing of the editing
    /// writes it.
    pub open spec fn value_after_event<T>(
        self,
        m: FormatterModel<T>,
        value: T,
        event: Event,
    ) -> T {
        if self.editing && is_complete_signal(event) {
            self.committed(m, value)
        } else {
            value
        }
    }

    /// What an event gives: what the host is asked to do, and the texts
    /// that go with it.
    pub open spec fn event_outcome<T>(
        self,
        m: FormatterModel<T>,
        event: Event,
        ctx: Context,
    ) -> Outcome {
        if self.editing {
            if is_complete_signal(event) {
                Outcome::of(
                    Requests { handled: is_key(event), ..self.complete_requests(m, ctx.focused) },
                )
            } else if is_cancel_signal(event) {
                Outcome::of(Requests { handled: is_key(event), ..SessionState::cancel_requests() })
            } else {
                let inner = self.inner.event_outcome(event, ctx);
                Outcome {
                    requests: Requests { paint: true, update: true, ..inner.requests },
                    clipboard: inner.clipboard,
                    rejected_replacement: self.with_inner(
                        self.inner.after_event(event, ctx),
                    ).refused(m),
                }
            }
        } else if event is MouseDown {
            self.inner.event_outcome(event, ctx)
        } else {
            Outcome::of(Requests::nothing())
        }
    }

    /// The state after a change in the field's life with its host.
    ///
    /// When the field is attached, its buffer and its last good text show
    /// the canonical text of the value. When it loses the focus, the
    /// editing is completed; when it gains the focus and is not being
    /// edited, editing begins.
    pub open spec fn after_lifecycle<T>(
        self,
        m: FormatterModel<T>,
        value: T,
        event: LifeCycle,
    ) -> SessionState {
        let text = (m.format)(value);
        match event {
            LifeCycle::WidgetAdded => SessionState {
                last_good: text,
                ..self.with_inner(self.inner.after_lifecycle(event, text))
            },
            LifeCycle::FocusChanged(focused) => {
                let state = self.with_inner(self.inner.after_lifecycle(event, text));
                if !focused {
                    state.completed(m)
                } else if !state.editing {
                    state.begun(m, value)
                } else {
                    state
                }
            },
            LifeCycle::Other => self,
        }
    }

    /// The value after a change in the field's life: the loss of the
    /// focus completes the editing, which writes the value.
    pub open spec fn value_after_lifecycle<T>(
        self,
        m: FormatterModel<T>,
        value: T,
        event: LifeCycle,
    ) -> T {
        match event {
            LifeCycle::FocusChanged(focused) => if !focused {
                self.with_inner(self.inner.after_lifecycle(event, (m.format)(value))).committed(
                    m,
                    value,
                )
            } else {
                value
            },
            _ => value,
        }
    }

    /// What a change in the field's life asks of the host.
    pub open spec fn lifecycle_requests<T>(
        self,
        m: FormatterModel<T>,
        value: T,
        event: LifeCycle,
    ) -> Requests {
        let inner = TextBoxState::lifecycle_requests(event);
        match event {
            LifeCycle::FocusChanged(focused) => {
                let state = self.with_inner(
                    self.inner.after_lifecycle(event, (m.format)(value)),
                );
                if !focused {
                    let complete = state.complete_requests(m, false);
                    Requests { focus: complete.focus, layout: complete.layout, ..inner }
                } else if !state.editing {
                    Requests { layout: true, ..inner }
                } else {
                    inner
                }
            },
            _ => inner,
        }
    }

    /// The state with the pending selection put in place of the editor's.
    pub open spec fn synchronized(self) -> SessionState {
        match self.pending_selection {
            Some(selection) => SessionState {
                pending_selection: None,
                ..self.with_inner(
                    TextBoxState {
                        editor: EditorState {
                            text: self.inner.editor.text,
                            selection: selection.clamp(self.inner.editor.text.len()),
                        },
                        ..self.inner
                    },
                )
            },
            None => self,
        }
    }

    /// The state after an update.
    ///
    /// A value that was changed from outside is shown in the buffer, and
    /// ends the editing if there was any. Else the text field inside is
    /// brought up to date if the field is being edited or the environment
    /// changed. In every case the pending selection takes effect.
    pub open spec fn after_update<T>(
        self,
        m: FormatterModel<T>,
        value: T,
        value_changed: bool,
        env_changed: bool,
        metrics: Metrics,
    ) -> SessionState {
        let state = if value_changed {
            self.cancelled(m, value)
        } else {
            self
        };
        let state = if value_changed || self.editing || env_changed {
            state.with_inner(state.inner.after_update(metrics))
        } else {
            state
        };
        state.synchronized()
    }

    /// What an update asks of the host: to lay the field out where the
    /// text or the environment changed, and to take the focus back where
    /// a change of the value ended the editing.
    pub open spec fn update_requests(
        self,
        value_changed: bool,
        env_changed: bool,
    ) -> Requests {
        Requests {
            layout: value_changed || env_changed,
            focus: if value_changed && self.editing {
                FocusRequest::Resign
            } else {
                FocusRequest::Nothing
            },
            ..Requests::nothing()
        }
    }
}

/// An edit that the formatter rejects without offering a text of its own
/// is taken back: the buffer holds the last good text again, the last good
/// text is the one from before, the editing goes on and the value is not
/// touched. Unless the formatter offers a selection, the selection from
/// before the edit is pending, and the next update puts it in place.
pub proof fn lemma_rejected_edit_is_rolled_back<T>(
    state: SessionState,
    m: FormatterModel<T>,
    value: T,
    event: Event,
    ctx: Context,
    metrics: Metrics,
    env_changed: bool,
)
    requires
        state.well_formed(),
        state.editing,
        !is_complete_signal(event),
        !is_cancel_signal(event),
        state.with_inner(state.inner.after_event(event, ctx)).buffer() != state.last_good,
        state.with_inner(state.inner.after_event(event, ctx)).verdict(m).is_err,
        state.with_inner(state.inner.after_event(event, ctx)).verdict(m).text_change is None,
    ensures
        ({
            let verdict = state.with_inner(state.inner.after_event(event, ctx)).verdict(m);
            let after = state.after_event(m, value, event, ctx);
            let later = after.after_update(m, value, false, env_changed, metrics);
            &&& after.editing
            &&& after.buffer() == state.last_good
            &&& after.last_good == state.last_good
            &&& state.value_after_event(m, value, event) == value
            &&& verdict.selection_change is None ==> {
                &&& after.pending_selection == Some(state.inner.editor.selection)
                &&& later.buffer() == state.last_good
                &&& state.buffer() == state.last_good ==> later.inner.editor.selection
                    == state.inner.editor.selection
            }
        }),
{
}

/// A replacement text that the formatter itself rejects counts for
/// nothing: the edit is resolved as if no text had been offered, so that a
/// rejected edit is taken back and an accepted one stays, and the refused
/// text is reported.
pub proof fn lemma_refused_replacement_counts_for_none<T>(
    state: SessionState,
    m: FormatterModel<T>,
    value: T,
    event: Event,
    ctx: Context,
)
    requires
        state.editing,
        !is_complete_signal(event),
        !is_cancel_signal(event),
        state.with_inner(state.inner.after_event(event, ctx)).buffer() != state.last_good,
        refused_replacement(
            m,
            state.with_inner(state.inner.after_event(event, ctx)).verdict(m),
        ) is Some,
    ensures
        ({
            let edited = state.with_inner(state.inner.after_event(event, ctx));
            let verdict = edited.verdict(m);
            let after = state.after_event(m, value, event, ctx);
            &&& resolved_text(m, verdict, state.last_good) == resolved_text(
                m,
                Verdict { text_change: None, ..verdict },
                state.last_good,
            )
            &&& verdict.is_err ==> after.buffer() == state.last_good && after.last_good
                == state.last_good
            &&& !verdict.is_err ==> after.buffer() == edited.buffer()
            &&& state.event_outcome(m, event, ctx).rejected_replacement == verdict.text_change
            &&& after.editing
        }),
{
}

/// After a successful commit the buffer holds the canonical text of the
/// value that was written, whatever the edited buffer looked like, and the
/// editing is over.
pub proof fn lemma_commit_canonicalizes<T>(state: SessionState, m: FormatterModel<T>, value: T)
    requires
        state.editing,
        (m.value)(state.buffer()) is Some,
    ensures
        state.committed(m, value) == (m.value)(state.buffer())->0,
        state.completed(m).buffer() == (m.format)(state.committed(m, value)),
        !state.completed(m).editing,
{
}

/// A commit that fails writes no value and ends nothing: the editing goes
/// on with the same buffer, all of it selected.
pub proof fn lemma_failed_commit_keeps_editing<T>(
    state: SessionState,
    m: FormatterModel<T>,
    value: T,
)
    requires
        state.editing,
        (m.value)(state.buffer()) is None,
    ensures
        state.committed(m, value) == value,
        state.completed(m).editing,
        state.completed(m).buffer() == state.buffer(),
        state.completed(m).last_good == state.last_good,
        state.completed(m).inner.editor.selection == (Selection {
            anchor: 0,
            active: state.buffer().len() as usize,
        }),
{
}

/// After a cancel the buffer holds the canonical text of the value, and
/// the editing is over. The signal that cancels leaves the value as it
/// was.
pub proof fn lemma_cancel_restores_display<T>(
    state: SessionState,
    m: FormatterModel<T>,
    value: T,
    event: Event,
    ctx: Context,
)
    requires
        state.editing,
        is_cancel_signal(event),
    ensures
        state.after_event(m, value, event, ctx) == state.cancelled(m, value),
        state.cancelled(m, value).buffer() == (m.format)(value),
        !state.cancelled(m, value).editing,
        state.value_after_event(m, value, event) == value,
{
}

/// Only the completing of the editing writes the value: after any other
/// event it is what it was.
pub proof fn lemma_only_commit_writes<T>(
    state: SessionState,
    m: FormatterModel<T>,
    value: T,
    event: Event,
)
    requires
        !(state.editing && is_complete_signal(event)),
    ensures
        state.value_after_event(m, value, event) == value,
{
}

/// Committing a second time, with no edit in between, changes neither the
/// field nor the value.
pub proof fn lemma_second_commit_changes_nothing<T>(
    state: SessionState,
    m: FormatterModel<T>,
    value: T,
)
    ensures
        state.completed(m).completed(m) == state.completed(m),
        state.completed(m).committed(m, state.committed(m, value)) == state.committed(m, value),
{
}

/// Cancelling does not depend on what the formatter makes of any text: two
/// formatters that give the value the same canonical text cancel alike,
/// however they parse and judge.
pub proof fn lemma_cancel_does_not_parse<T>(
    state: SessionState,
    m1: FormatterModel<T>,
    m2: FormatterModel<T>,
    value: T,
    event: Event,
    ctx: Context,
)
    requires
        state.editing,
        is_cancel_signal(event),
        (m1.format)(value) == (m2.format)(value),
    ensures
        state.after_event(m1, value, event, ctx) == state.after_event(m2, value, event, ctx),
        state.value_after_event(m1, value, event) == state.value_after_event(m2, value, event),
        state.event_outcome(m1, event, ctx) == state.event_outcome(m2, event, ctx),
{
}

/// Completing depends on what the formatter makes of one text, the buffer,
/// and on the canonical text of what it stands for: two formatters that
/// agree on these complete alike, however they parse other texts, and
/// however they judge.
pub proof fn lemma_complete_parses_the_buffer<T>(
    state: SessionState,
    m1: FormatterModel<T>,
    m2: FormatterModel<T>,
    value: T,
    event: Event,
    ctx: Context,
)
    requires
        state.editing,
        is_complete_signal(event),
        (m1.value)(state.buffer()) == (m2.value)(state.buffer()),
        (m1.value)(state.buffer()) matches Some(parsed) ==> (m1.format)(parsed) == (m2.format)(
            parsed,
        ),
    ensures
        state.after_event(m1, value, event, ctx) == state.after_event(m2, value, event, ctx),
        state.value_after_event(m1, value, event) == state.value_after_event(m2, value, event),
        state.event_outcome(m1, event, ctx) == state.event_outcome(m2, event, ctx),
{
}

/// While a field is not being edited it shows the canonical text of its
/// value, and no event changes that.
pub proof fn lemma_event_keeps_display<T>(
    state: SessionState,
    m: FormatterModel<T>,
    value: T,
    event: Event,
    ctx: Context,
)
    requires
        state.shows(m, value),
    ensures
        state.after_event(m, value, event, ctx).shows(
            m,
            state.value_after_event(m, value, event),
        ),
{
}

/// While a field is not being edited it shows the canonical text of its
/// value, and no change in its life with the host changes that; once it is
/// attached it shows it in any case.
pub proof fn lemma_lifecycle_keeps_display<T>(
    state: SessionState,
    m: FormatterModel<T>,
    value: T,
    event: LifeCycle,
)
    requires
        state.shows(m, value) || event == LifeCycle::WidgetAdded && !state.editing,
    ensures
        state.after_lifecycle(m, value, event).shows(
            m,
            state.value_after_lifecycle(m, value, event),
        ),
{
}

/// After an update a field that is not being edited shows the canonical
/// text of its value: of the new one, where the value was changed from
/// outside, which also ends the editing.
pub proof fn lemma_update_keeps_display<T>(
    state: SessionState,
    m: FormatterModel<T>,
    value: T,
    value_changed: bool,
    env_changed: bool,
    metrics: Metrics,
)
    requires
        value_changed || state.shows(m, value),
    ensures
        state.after_update(m, value, value_changed, env_changed, metrics).shows(m, value),
        value_changed ==> !state.after_update(
            m,
            value,
            value_changed,
            env_changed,
            metrics,
        ).editing,
{
}

/// Between events the last good text of a field that is being edited is
/// its buffer: what an edit is compared with, and taken back to, is the
/// text from before that edit.
pub proof fn lemma_event_keeps_last_good<T>(
    state: SessionState,
    m: FormatterModel<T>,
    value: T,
    event: Event,
    ctx: Context,
)
    requires
        state.editing ==> state.last_good == state.buffer(),
    ensures
        ({
            let after = state.after_event(m, value, event, ctx);
            after.editing ==> after.last_good == after.buffer()
        }),
{
}

/// A change in the field's life with its host leaves the last good text
/// of a field that is being edited equal to its buffer.
pub proof fn lemma_lifecycle_keeps_last_good<T>(
    state: SessionState,
    m: FormatterModel<T>,
    value: T,
    event: LifeCycle,
)
    requires
        state.editing ==> state.last_good == state.buffer(),
    ensures
        ({
            let after = state.after_lifecycle(m, value, event);
            after.editing ==> after.last_good == after.buffer()
        }),
{
}

/// An update leaves the last good text of a field that is being edited
/// equal to its buffer.
pub proof fn lemma_update_keeps_last_good<T>(
    state: SessionState,
    m: FormatterModel<T>,
    value: T,
    value_changed: bool,
    env_changed: bool,
    metrics: Metrics,
)
    requires
        state.editing ==> state.last_good == state.buffer(),
    ensures
        ({
            let after = state.after_update(m, value, value_changed, env_changed, metrics);
            after.editing ==> after.last_good == after.buffer()
        }),
{
}

/// The formatter accepts `text` as far as it goes, with some selection in
/// it.
pub open spec fn accepted<T>(m: FormatterModel<T>, text: Seq<char>) -> bool {
    exists|selection: Selection| !(#[trigger] (m.validate)(text, selection)).is_err
}

/// The last good text is never one that the formatter rejected: after an
/// edit it is the one from before, or a text that the formatter accepted.
/// A rolled back edit leaves it as it was.
pub proof fn lemma_last_good_was_not_rejected<T>(
    state: SessionState,
    m: FormatterModel<T>,
    value: T,
    event: Event,
    ctx: Context,
)
    requires
        state.editing,
        !is_complete_signal(event),
        !is_cancel_signal(event),
    ensures
        ({
            let edited = state.with_inner(state.inner.after_event(event, ctx));
            let after = state.after_event(m, value, event, ctx);
            &&& after.last_good == state.last_good || accepted(m, after.last_good)
            &&& edited.buffer() != state.last_good && edited.verdict(m).is_err
                && trusted_replacement(m, edited.verdict(m)) is None ==> after.last_good
                == state.last_good
        }),
{
    let edited = state.with_inner(state.inner.after_event(event, ctx));
    let after = state.after_event(m, value, event, ctx);
    if edited.buffer() != state.last_good {
        let verdict = edited.verdict(m);
        match trusted_replacement(m, verdict) {
            Some(text) => {
                assert(!((m.validate)(text, Selection { anchor: 0, active: 0 })).is_err);
            },
            None => {
                if !verdict.is_err {
                    assert(!((m.validate)(edited.buffer(), edited.inner.editor.selection)).is_err);
                }
            },
        }
    }
}

/// An event leaves the selection inside the buffer, provided the buffer
/// that results is no longer than a buffer can be.
pub proof fn lemma_event_keeps_selection_in_text<T>(
    state: SessionState,
    m: FormatterModel<T>,
    value: T,
    event: Event,
    ctx: Context,
)
    requires
        state.well_formed(),
        state.after_event(m, value, event, ctx).buffer().len() <= usize::MAX,
    ensures
        state.after_event(m, value, event, ctx).well_formed(),
{
    let before = state.inner.editor;
    let edited = state.inner.after_event(event, ctx).editor;
    if state.editing && !is_complete_signal(event) && !is_cancel_signal(event)
        && edited.text.len() <= usize::MAX {
        match event {
            Event::Edit(action) => {
                lemma_apply_keeps_selection_in_text(before, action);
            },
            Event::KeyDown(Key::Edit(action)) => {
                lemma_apply_keeps_selection_in_text(before, action);
            },
            Event::Cut => {
                lemma_apply_keeps_selection_in_text(before, EditAction::Cut);
            },
            Event::Paste(text) => {
                lemma_apply_keeps_selection_in_text(before, EditAction::Paste(text));
            },
            _ => {},
        }
    }
}

/// A text field that manages a value of type `T` through a formatter.
pub struct ValueTextBox<T, F: Formatter<T>> {
    inner: TextBox,
    formatter: F,
    is_editing: bool,
    force_selection: Option<Selection>,
    old_buffer: String,
    value: core::marker::PhantomData<T>,
}

impl<T, F: Formatter<T>> ValueTextBox<T, F> {
    /// What the field holds.
    pub closed spec fn view(&self) -> SessionState {
        SessionState {
            inner: self.inner@,
            editing: self.is_editing,
            last_good: self.old_buffer@,
            pending_selection: self.force_selection,
        }
    }

    /// The functions that the field's formatter computes.
    pub closed spec fn model(&self) -> FormatterModel<T> {
        self.formatter.model()
    }

    /// A value field around `inner`, with `formatter`.
    pub fn new(inner: TextBox, formatter: F) -> (field: Self)
        ensures
            field@ == SessionState::initial(inner@),
            field.model() == formatter.model(),
    {
        ValueTextBox {
            inner,
            formatter,
            is_editing: false,
            force_selection: None,
            old_buffer: String::new(),
            value: core::marker::PhantomData,
        }
    }

    /// Whether the text is being edited.
    pub fn is_editing(&self) -> (editing: bool)
        ensures
            editing == self@.editing,
    {
        self.is_editing
    }

    /// The buffer.
    pub fn buffer(&self) -> (text: &str)
        ensures
            text@ == self@.buffer(),
    {
        self.inner.editor().text()
    }

    /// The selection as the editor holds it.
    pub fn selection(&self) -> (selection: Selection)
        ensures
            selection == self@.inner.editor.selection,
            self@.well_formed(),
    {
        self.inner.editor().selection()
    }

    /// The last text that the formatter did not reject.
    pub fn last_good_buffer(&self) -> (text: &str)
        ensures
            text@ == self@.last_good,
    {
        self.old_buffer.as_str()
    }

    /// The selection that the next update is to put in place of the
    /// editor's, if any.
    pub fn pending_selection(&self) -> (selection: Option<Selection>)
        ensures
            selection == self@.pending_selection,
    {
        self.force_selection
    }

    /// The text field inside.
    pub fn text_box(&self) -> (inner: &TextBox)
        ensures
            inner@ == self@.inner,
    {
        &self.inner
    }

    /// Starts the blinking anew with the timer that the host scheduled.
    pub fn reset_cursor_blink(&mut self, token: crate::blink::TimerToken)
        ensures
            final(self)@ == old(self)@.with_inner(
                TextBoxState {
                    blinker: crate::blink::Blinker { visible: true, token },
                    ..old(self)@.inner
                },
            ),
            final(self).model() == old(self).model(),
    {
        self.inner.reset_cursor_blink(token);
    }

    /// Goes on blinking with the timer that the host scheduled.
    pub fn continue_cursor_blink(&mut self, token: crate::blink::TimerToken)
        ensures
            final(self)@ == old(self)@.with_inner(
                TextBoxState {
                    blinker: crate::blink::Blinker {
                        visible: old(self)@.inner.blinker.visible,
                        token,
                    },
                    ..old(self)@.inner
                },
            ),
            final(self).model() == old(self).model(),
    {
        self.inner.continue_cursor_blink(token);
    }

    /// Begins the editing of `value`.
    pub fn begin(&mut self, value: &T)
        ensures
            final(self)@ == old(self)@.begun(old(self).model(), *value),
            final(self).model() == old(self).model(),
    {
        self.is_editing = true;
        let text: String = self.formatter.format_for_editing(value);
        self.old_buffer = text.clone();
        self.inner.force_rebuild(text);
    }

    /// Completes the editing: writes the value that the buffer stands for
    /// to `value`, or, where it stands for none, selects the whole buffer
    /// and goes on. `focused` says whether the field holds the focus.
    pub fn complete(&mut self, value: &mut T, focused: bool) -> (requests: Requests)
        ensures
            final(self)@ == old(self)@.completed(old(self).model()),
            *final(value) == old(self)@.committed(old(self).model(), *old(value)),
            requests == old(self)@.complete_requests(old(self).model(), focused),
            final(self).model() == old(self).model(),
    {
        let mut requests: Requests = Requests::nothing();
        if !self.is_editing {
            return requests;
        }
        match self.formatter.value(self.inner.editor().text()) {
            Ok(parsed) => {
                *value = parsed;
                let text: String = self.formatter.format(value);
                self.inner.force_rebuild(text);
                self.is_editing = false;
                requests.layout = true;
                if focused {
                    requests.focus = FocusRequest::Resign;
                }
            },
            Err(_) => {
                if !focused {
                    requests.focus = FocusRequest::Request;
                }
                self.inner.editor_mut().select_all();
            },
        }
        requests
    }

    /// Cancels the editing: the buffer shows `value` again, which is not
    /// touched.
    pub fn cancel(&mut self, value: &T) -> (requests: Requests)
        ensures
            final(self)@ == old(self)@.cancelled(old(self).model(), *value),
            requests == SessionState::cancel_requests(),
            final(self).model() == old(self).model(),
    {
        self.is_editing = false;
        let text: String = self.formatter.format(value);
        self.inner.force_rebuild(text);
        let mut requests: Requests = Requests::nothing();
        requests.layout = true;
        requests.focus = FocusRequest::Resign;
        requests
    }

    /// Puts the buffer before the formatter after an edit, and returns the
    /// replacement text that the formatter offered and then rejected
    /// itself, if there was one. `before` is the selection from before
    /// the edit.
    fn validate(&mut self, before: Selection) -> (refused: Option<String>)
        ensures
            final(self)@ == old(self)@.validated(old(self).model(), before),
            text_of(refused) == old(self)@.refused(old(self).model()),
            final(self).model() == old(self).model(),
    {
        if self.inner.editor().has_text(&self.old_buffer) {
            return None;
        }
        let selection: Selection = self.inner.editor().selection();
        let validation: Validation = self.formatter.validate_partial_input(
            self.inner.editor().text(),
            &selection,
        );
        let is_err: bool = validation.is_err();
        let pending: Option<Selection> = match validation.selection_change {
            Some(selection) => Some(selection),
            None => if is_err {
                Some(before)
            } else {
                None
            },
        };
        let mut refused: Option<String> = None;
        let mut new_text: Option<String> = None;
        match validation.text_change {
            Some(text) => {
                let start: Selection = Selection::caret(0);
                let again: Validation = self.formatter.validate_partial_input(
                    text.as_str(),
                    &start,
                );
                if again.is_err() {
                    refused = Some(text);
                } else {
                    new_text = Some(text);
                }
            },
            None => {},
        }
        if new_text.is_none() && is_err {
            new_text = Some(self.old_buffer.clone());
        }
        match new_text {
            Some(text) => {
                self.old_buffer = text.clone();
                self.inner.force_rebuild(text);
            },
            None => {
                self.old_buffer = String::from_str(self.inner.editor().text());
            },
        }
        self.force_selection = pending;
        refused
    }

    /// Handles an event, and returns what the host is asked to do.
    /// `value` is the value that the field manages; only the completing
    /// of the editing writes it.
    pub fn event(&mut self, event: &Event, value: &mut T, ctx: Context) -> (response: Response)
        ensures
            final(self)@ == old(self)@.after_event(old(self).model(), *old(value), *event, ctx),
            *final(value) == old(self)@.value_after_event(
                old(self).model(),
                *old(value),
                *event,
            ),
            response@ == old(self)@.event_outcome(old(self).model(), *event, ctx),
            final(self).model() == old(self).model(),
    {
        if self.is_editing {
            let before: Selection = self.inner.editor().selection();
            match event {
                Event::Complete => Response::of(self.complete(value, ctx.focused)),
                Event::Cancel => Response::of(self.cancel(value)),
                Event::KeyDown(Key::Enter) => {
                    let mut requests: Requests = self.complete(value, ctx.focused);
                    requests.handled = true;
                    Response::of(requests)
                },
                Event::KeyDown(Key::Escape) => {
                    let mut requests: Requests = self.cancel(value);
                    requests.handled = true;
                    Response::of(requests)
                },
                _ => {
                    let inner: Response = self.inner.event(event, ctx);
                    let refused: Option<String> = self.validate(before);
                    let mut requests: Requests = inner.requests;
                    requests.paint = true;
                    requests.update = true;
                    Response { requests, clipboard: inner.clipboard, rejected_replacement: refused }
                },
            }
        } else if matches!(event, Event::MouseDown { .. }) {
            self.begin(value);
            self.inner.event(event, ctx)
        } else {
            Response::of(Requests::nothing())
        }
    }

    /// Handles a change in the field's life with its host, and returns
    /// what the host is asked to do.
    pub fn lifecycle(&mut self, event: LifeCycle, value: &mut T) -> (requests: Requests)
        ensures
            final(self)@ == old(self)@.after_lifecycle(old(self).model(), *old(value), event),
            *final(value) == old(self)@.value_after_lifecycle(
                old(self).model(),
                *old(value),
                event,
            ),
            requests == old(self)@.lifecycle_requests(old(self).model(), *old(value), event),
            final(self).model() == old(self).model(),
    {
        match event {
            LifeCycle::WidgetAdded => {
                let text: String = self.formatter.format(value);
                let requests: Requests = self.inner.lifecycle(event, text.as_str());
                self.old_buffer = text;
                requests
            },
            LifeCycle::FocusChanged(focused) => {
                let mut requests: Requests = self.inner.lifecycle(event, "");
                if !focused {
                    let complete: Requests = self.complete(value, false);
                    requests.focus = complete.focus;
                    requests.layout = complete.layout;
                } else if !self.is_editing {
                    self.begin(value);
                    requests.layout = true;
                }
                requests
            },
            LifeCycle::Other => self.inner.lifecycle(event, ""),
        }
    }

    /// Brings the field up to date, and returns what the host is asked to
    /// do. `value_changed` says whether the value was changed from
    /// outside since the last update, `env_changed` whether the
    /// environment was.
    pub fn update(
        &mut self,
        value: &T,
        value_changed: bool,
        env_changed: bool,
        metrics: Metrics,
    ) -> (requests: Requests)
        ensures
            final(self)@ == old(self)@.after_update(
                old(self).model(),
                *value,
                value_changed,
                env_changed,
                metrics,
            ),
            requests == old(self)@.update_requests(value_changed, env_changed),
            final(self).model() == old(self).model(),
    {
        let mut requests: Requests = Requests::nothing();
        if value_changed {
            if self.is_editing {
                requests.focus = FocusRequest::Resign;
            }
            self.cancel(value);
            self.inner.update(metrics, false);
            requests.layout = true;
        } else if self.is_editing {
            self.inner.update(metrics, false);
        } else if env_changed {
            self.inner.update(metrics, false);
        }
        if env_changed {
            requests.layout = true;
        }
        match self.force_selection {
            Some(selection) => {
                self.inner.editor_mut().set_selection(selection);
                self.force_selection = None;
            },
            None => {},
        }
        requests
    }
}

} // verus!
