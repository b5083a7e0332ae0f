//! A field that lets the user edit a text: a raw editor, together with the
//! bookkeeping of what is shown of it, which is how far the text is
//! scrolled and whether the caret is drawn.

use crate::blink::{Blinker, TimerToken};
use crate::edit::{EditAction, EditorState, RawEditor};
use crate::format::Formatter;
use crate::host::{
    Config, Context, Event, FocusRequest, Key, LifeCycle, Metrics, Outcome, Requests, Response,
    TimerRequest,
};
use crate::scroll::{scroll_offset, ScrollPort};
use crate::value_textbox::ValueTextBox;
use vstd::prelude::*;

verus! {

/// What a text field holds, as mathematics.
pub struct TextBoxState {
    /// The text and the selection.
    pub editor: EditorState,
    /// The text shown while the buffer is empty.
    pub placeholder: Seq<char>,
    /// How far the text is scrolled.
    pub scroll: int,
    /// Whether the next update leaves the scroll offset alone.
    pub suppress_scroll: bool,
    /// The state of the caret's blinking.
    pub blinker: Blinker,
    /// Whether the text may run over several lines.
    pub multiline: bool,
    /// Whether the focus that arrives next comes from a click.
    pub focused_from_click: bool,
    /// The settings.
    pub config: Config,
}

impl TextBoxState {
    /// A field as it is built: empty, unscrolled, and with a hidden caret.
    pub open spec fn initial(config: Config) -> TextBoxState {
        TextBoxState {
            editor: EditorState {
                text: Seq::empty(),
                selection: crate::selection::Selection { anchor: 0, active: 0 },
            },
            placeholder: Seq::empty(),
            scroll: 0,
            suppress_scroll: false,
            blinker: Blinker { visible: false, token: TimerToken::invalid() },
            multiline: false,
            focused_from_click: false,
            config,
        }
    }

    /// The state with the caret shown and no timer awaited: what any
    /// activity of the user makes of the blinking, until the host has
    /// scheduled the timer that it is then asked for.
    pub open spec fn woken(self) -> TextBoxState {
        TextBoxState { blinker: Blinker { visible: true, token: TimerToken::invalid() }, ..self }
    }

    /// The state after a key press.
    pub open spec fn after_key(self, key: Key) -> TextBoxState {
        match key {
            Key::Edit(action) => TextBoxState {
                editor: self.editor.apply(action),
                suppress_scroll: action is SelectAll,
                ..self.woken()
            },
            _ => self.woken(),
        }
    }

    /// The state after an event.
    ///
    /// A press of the pointer puts the caret where it fell, a move of the
    /// pointer while it is held extends the selection, a timer toggles the
    /// caret if it is the awaited one, and an edit changes the buffer. A
    /// key press restarts the blinking whether or not it stands for an
    /// edit. Only the selecting of everything keeps the next update from
    /// scrolling to the caret.
    pub open spec fn after_event(self, event: Event, ctx: Context) -> TextBoxState {
        let state = TextBoxState { suppress_scroll: false, ..self };
        match event {
            Event::MouseDown { offset, extend, focus } => if focus {
                state
            } else {
                TextBoxState {
                    editor: state.editor.clicked(offset, extend),
                    focused_from_click: true,
                    ..state.woken()
                }
            },
            Event::MouseMove { offset } => if ctx.active {
                TextBoxState { editor: state.editor.clicked(offset, true), ..state }
            } else {
                state
            },
            Event::Timer(token) => TextBoxState { blinker: state.blinker.fired(token), ..state },
            Event::Cut => if ctx.focused {
                TextBoxState { editor: state.editor.apply(EditAction::Cut), ..state }
            } else {
                state
            },
            Event::Edit(action) => TextBoxState { editor: state.editor.apply(action), ..state },
            Event::Paste(text) => TextBoxState {
                editor: state.editor.replace_selection(text@),
                ..state
            },
            Event::KeyDown(key) => state.after_key(key),
            _ => state,
        }
    }

    /// What a key press asks of the host: to move the focus for the tab
    /// key, to bring the field up to date for an edit, and in every case to
    /// restart the blinking and to paint.
    pub open spec fn key_outcome(self, key: Key) -> Outcome {
        let requests = Requests {
            timer: TimerRequest::Restart,
            paint: true,
            ..Requests::nothing()
        };
        match key {
            Key::Tab => Outcome::of(Requests { focus: FocusRequest::Next, ..requests }),
            Key::BackTab => Outcome::of(Requests { focus: FocusRequest::Previous, ..requests }),
            Key::Edit(action) => Outcome {
                requests: Requests { update: true, ..requests },
                clipboard: self.editor.clipboard(action),
                rejected_replacement: None,
            },
            _ => Outcome::of(requests),
        }
    }

    /// What an event asks of the host.
    pub open spec fn event_outcome(self, event: Event, ctx: Context) -> Outcome {
        let nothing = Requests::nothing();
        match event {
            Event::MouseDown { offset, extend, focus } => Outcome::of(
                Requests {
                    focus: FocusRequest::Request,
                    active: Some(true),
                    paint: true,
                    timer: if focus {
                        TimerRequest::Nothing
                    } else {
                        TimerRequest::Restart
                    },
                    ..nothing
                },
            ),
            Event::MouseMove { offset } => Outcome::of(
                Requests { text_cursor: true, paint: ctx.active, ..nothing },
            ),
            Event::MouseUp => if ctx.active {
                Outcome::of(Requests { active: Some(false), paint: true, ..nothing })
            } else {
                Outcome::of(nothing)
            },
            Event::Timer(token) => if token == self.blinker.token {
                Outcome::of(Requests { timer: TimerRequest::Continue, paint: true, ..nothing })
            } else {
                Outcome::of(nothing)
            },
            Event::Copy => if ctx.focused {
                Outcome {
                    requests: Requests { handled: true, ..nothing },
                    clipboard: self.editor.clipboard(EditAction::Copy),
                    rejected_replacement: None,
                }
            } else {
                Outcome::of(nothing)
            },
            Event::Cut => if ctx.focused {
                Outcome {
                    requests: Requests { handled: true, ..nothing },
                    clipboard: self.editor.clipboard(EditAction::Cut),
                    rejected_replacement: None,
                }
            } else {
                Outcome::of(nothing)
            },
            Event::Edit(action) => Outcome {
                requests: nothing,
                clipboard: self.editor.clipboard(action),
                rejected_replacement: None,
            },
            Event::KeyDown(key) => self.key_outcome(key),
            _ => Outcome::of(nothing),
        }
    }

    /// The state after a change in the field's life. When the field is
    /// attached it takes `text` for its buffer. When the focus changes the
    /// blinking starts anew; focus that arrives other than by a click
    /// selects the whole text, where the settings say so.
    pub open spec fn after_lifecycle(self, event: LifeCycle, text: Seq<char>) -> TextBoxState {
        match event {
            LifeCycle::WidgetAdded => TextBoxState {
                editor: EditorState {
                    text,
                    selection: self.editor.selection.clamp(text.len()),
                },
                ..self
            },
            LifeCycle::FocusChanged(focused) => TextBoxState {
                editor: if self.config.select_all_on_focus && focused
                    && !self.focused_from_click {
                    self.editor.all_selected()
                } else {
                    self.editor
                },
                focused_from_click: false,
                ..self.woken()
            },
            LifeCycle::Other => self,
        }
    }

    /// What a change in the field's life asks of the host.
    pub open spec fn lifecycle_requests(event: LifeCycle) -> Requests {
        match event {
            LifeCycle::WidgetAdded => Requests { register_for_focus: true, ..Requests::nothing() },
            LifeCycle::FocusChanged(_) => Requests {
                timer: TimerRequest::Restart,
                paint: true,
                ..Requests::nothing()
            },
            LifeCycle::Other => Requests::nothing(),
        }
    }

    /// The state after an update: the text is scrolled to the caret,
    /// unless the field has several lines or the last event selected
    /// everything.
    pub open spec fn after_update(self, metrics: Metrics) -> TextBoxState {
        if !self.suppress_scroll && !self.multiline {
            TextBoxState {
                scroll: scroll_offset(
                    metrics.caret_x as int,
                    metrics.viewport_width as int,
                    metrics.content_width as int,
                    self.scroll,
                    self.config.padding as int,
                ),
                ..self
            }
        } else {
            self
        }
    }

    /// Whether the caret is to be drawn.
    pub open spec fn draws_cursor(self) -> bool {
        self.blinker.visible && (!self.config.caret_only_when_collapsed
            || self.editor.selection.anchor == self.editor.selection.active)
    }
}

/// Whether `event` is something that the user did to the text or the
/// caret: a key press, or a press of the pointer that is more than the
/// raising of the window.
pub open spec fn is_activity(event: Event) -> bool {
    event is KeyDown || (event matches Event::MouseDown { focus, .. } && !focus)
}

/// The caret is shown right after the user did something, and it stays
/// shown until the timer fires that the host then schedules: every timer
/// from before is stale.
pub proof fn lemma_activity_shows_caret(
    state: TextBoxState,
    event: Event,
    ctx: Context,
    fresh: TimerToken,
    fired: TimerToken,
)
    requires
        is_activity(event),
        fired != fresh,
    ensures
        state.after_event(event, ctx).blinker.visible,
        state.event_outcome(event, ctx).requests.timer == TimerRequest::Restart,
        fired != TimerToken::invalid() ==> state.after_event(event, ctx).after_event(
            Event::Timer(fired),
            ctx,
        ).blinker.visible,
        (TextBoxState {
            blinker: Blinker { visible: true, token: fresh },
            ..state.after_event(event, ctx)
        }).after_event(Event::Timer(fired), ctx).blinker == (Blinker {
            visible: true,
            token: fresh,
        }),
{
}

/// An event that is not an edit, a press or a drag of the pointer, a paste
/// or a cut leaves the text and the selection alone.
pub proof fn lemma_other_events_keep_the_text(state: TextBoxState, event: Event, ctx: Context)
    requires
        event is MouseUp || event is Timer || event is Copy || event is Complete
            || event is Cancel || event is Other || (event matches Event::KeyDown(key)
            && !(key is Edit)),
    ensures
        state.after_event(event, ctx).editor == state.editor,
{
}

/// A field that lets the user edit a text.
#[derive(Debug)]
pub struct TextBox {
    placeholder: String,
    editor: RawEditor,
    hscroll: ScrollPort,
    suppress_adjust_hscroll: bool,
    blinker: Blinker,
    multiline: bool,
    was_focused_from_click: bool,
    config: Config,
}

impl TextBox {
    /// What the field holds.
    pub closed spec fn view(&self) -> TextBoxState {
        TextBoxState {
            editor: self.editor@,
            placeholder: self.placeholder@,
            scroll: self.hscroll@,
            suppress_scroll: self.suppress_adjust_hscroll,
            blinker: self.blinker,
            multiline: self.multiline,
            focused_from_click: self.was_focused_from_click,
            config: self.config,
        }
    }

    /// A single-line field with the usual settings.
    pub fn new() -> (textbox: TextBox)
        ensures
            textbox@ == TextBoxState::initial(Config::standard()),
    {
        TextBox::with_config(Config::standard())
    }

    /// A single-line field with the given settings.
    pub fn with_config(config: Config) -> (textbox: TextBox)
        ensures
            textbox@ == TextBoxState::initial(config),
    {
        TextBox {
            placeholder: String::new(),
            editor: RawEditor::new(),
            hscroll: ScrollPort::new(),
            suppress_adjust_hscroll: false,
            blinker: Blinker::new(),
            multiline: false,
            was_focused_from_click: false,
            config,
        }
    }

    /// A field of several lines with the usual settings.
    pub fn multiline() -> (textbox: TextBox)
        ensures
            textbox@ == (TextBoxState {
                multiline: true,
                ..TextBoxState::initial(Config::standard())
            }),
    {
        let mut this: TextBox = TextBox::new();
        this.multiline = true;
        this
    }

    /// The same field, showing `placeholder` while its buffer is empty.
    pub fn with_placeholder(self, placeholder: String) -> (textbox: TextBox)
        ensures
            textbox@ == (TextBoxState { placeholder: placeholder@, ..self@ }),
    {
        let mut this: TextBox = self;
        this.placeholder = placeholder;
        this
    }

    /// The text shown while the buffer is empty.
    pub fn placeholder(&self) -> (placeholder: &str)
        ensures
            placeholder@ == self@.placeholder,
    {
        self.placeholder.as_str()
    }

    /// The settings.
    pub fn config(&self) -> (config: Config)
        ensures
            config == self@.config,
    {
        self.config
    }

    /// The raw editor of this field.
    pub fn editor(&self) -> (editor: &RawEditor)
        ensures
            editor@ == self@.editor,
    {
        &self.editor
    }

    /// The raw editor of this field, to be changed in place.
    pub fn editor_mut(&mut self) -> (editor: &mut RawEditor)
        ensures
            editor@ == old(self)@.editor,
            final(self)@ == (TextBoxState { editor: final(editor)@, ..old(self)@ }),
    {
        &mut self.editor
    }

    /// This field with a formatter, which then manages a value of type `T`
    /// through it.
    pub fn with_formatter<T, F: Formatter<T>>(self, formatter: F) -> (field: ValueTextBox<T, F>)
        ensures
            field@ == crate::value_textbox::SessionState::initial(self@),
            field.model() == formatter.model(),
    {
        ValueTextBox::new(self, formatter)
    }

    /// Replaces the buffer. A selection that reached past the new text's
    /// end is moved back to it.
    pub fn force_rebuild(&mut self, text: String)
        ensures
            final(self)@ == (TextBoxState {
                editor: EditorState {
                    text: text@,
                    selection: old(self)@.editor.selection.clamp(text@.len()),
                },
                ..old(self)@
            }),
    {
        self.editor.set_text(text);
    }

    /// How far the text is scrolled.
    pub fn hscroll_offset(&self) -> (offset: u64)
        ensures
            offset == self@.scroll,
    {
        self.hscroll.offset()
    }

    /// Scrolls the text to the caret, for a field of width `self_width`.
    pub fn update_hscroll(&mut self, caret_x: u32, content_width: u32, self_width: u32)
        ensures
            final(self)@ == (TextBoxState {
                scroll: scroll_offset(
                    caret_x as int,
                    self_width as int,
                    content_width as int,
                    old(self)@.scroll,
                    old(self)@.config.padding as int,
                ),
                ..old(self)@
            }),
    {
        self.hscroll.update(caret_x, self_width, content_width, self.config.padding);
    }

    /// Starts the blinking anew with the timer that the host scheduled:
    /// the caret is shown, and only `token`'s timer will hide it.
    pub fn reset_cursor_blink(&mut self, token: TimerToken)
        ensures
            final(self)@ == (TextBoxState {
                blinker: Blinker { visible: true, token },
                ..old(self)@
            }),
    {
        self.blinker.reset(token);
    }

    /// Goes on blinking with the timer that the host scheduled: the caret
    /// stays as it is, and `token`'s timer will toggle it.
    pub fn continue_cursor_blink(&mut self, token: TimerToken)
        ensures
            final(self)@ == (TextBoxState {
                blinker: Blinker { visible: old(self)@.blinker.visible, token },
                ..old(self)@
            }),
    {
        self.blinker.rearm(token);
    }

    /// Whether the caret is to be drawn.
    pub fn should_draw_cursor(&self) -> (draw: bool)
        ensures
            draw == self@.draws_cursor(),
    {
        self.blinker.is_visible() && (!self.config.caret_only_when_collapsed
            || self.editor.selection().is_caret())
    }

    /// Handles a key press.
    fn key_down(&mut self, key: &Key) -> (response: Response)
        ensures
            final(self)@ == old(self)@.after_key(*key),
            response@ == old(self)@.key_outcome(*key),
    {
        let mut requests: Requests = Requests::nothing();
        let mut clipboard: Option<String> = None;
        match key {
            Key::Tab => {
                requests.focus = FocusRequest::Next;
            },
            Key::BackTab => {
                requests.focus = FocusRequest::Previous;
            },
            Key::Edit(action) => {
                self.suppress_adjust_hscroll = matches!(action, EditAction::SelectAll);
                clipboard = self.editor.apply(action);
                requests.update = true;
            },
            _ => {},
        }
        self.blinker.reset(TimerToken::invalid());
        requests.timer = TimerRequest::Restart;
        requests.paint = true;
        Response { requests, clipboard, rejected_replacement: None }
    }

    /// Handles an event, and returns what the host is asked to do.
    pub fn event(&mut self, event: &Event, ctx: Context) -> (response: Response)
        ensures
            final(self)@ == old(self)@.after_event(*event, ctx),
            response@ == old(self)@.event_outcome(*event, ctx),
    {
        self.suppress_adjust_hscroll = false;
        let mut requests: Requests = Requests::nothing();
        match event {
            Event::MouseDown { offset, extend, focus } => {
                requests.focus = FocusRequest::Request;
                requests.active = Some(true);
                if !*focus {
                    self.was_focused_from_click = true;
                    self.blinker.reset(TimerToken::invalid());
                    requests.timer = TimerRequest::Restart;
                    self.editor.click(*offset, *extend);
                }
                requests.paint = true;
                Response::of(requests)
            },
            Event::MouseMove { offset } => {
                requests.text_cursor = true;
                if ctx.active {
                    self.editor.click(*offset, true);
                    requests.paint = true;
                }
                Response::of(requests)
            },
            Event::MouseUp => {
                if ctx.active {
                    requests.active = Some(false);
                    requests.paint = true;
                }
                Response::of(requests)
            },
            Event::Timer(token) => {
                if self.blinker.on_timer_fired(*token) {
                    requests.paint = true;
                    requests.timer = TimerRequest::Continue;
                }
                Response::of(requests)
            },
            Event::Copy => {
                if ctx.focused {
                    requests.handled = true;
                    let clipboard: Option<String> = self.editor.apply(&EditAction::Copy);
                    Response { requests, clipboard, rejected_replacement: None }
                } else {
                    Response::of(requests)
                }
            },
            Event::Cut => {
                if ctx.focused {
                    requests.handled = true;
                    let clipboard: Option<String> = self.editor.apply(&EditAction::Cut);
                    Response { requests, clipboard, rejected_replacement: None }
                } else {
                    Response::of(requests)
                }
            },
            Event::Edit(action) => {
                let clipboard: Option<String> = self.editor.apply(action);
                Response { requests, clipboard, rejected_replacement: None }
            },
            Event::Paste(text) => {
                self.editor.insert(text.as_str());
                Response::of(requests)
            },
            Event::KeyDown(key) => self.key_down(key),
            _ => Response::of(requests),
        }
    }

    /// Handles a change in the field's life with its host; `text` is the
    /// text that the field is to show when it is attached.
    pub fn lifecycle(&mut self, event: LifeCycle, text: &str) -> (requests: Requests)
        ensures
            final(self)@ == old(self)@.after_lifecycle(event, text@),
            requests == TextBoxState::lifecycle_requests(event),
    {
        let mut requests: Requests = Requests::nothing();
        match event {
            LifeCycle::WidgetAdded => {
                requests.register_for_focus = true;
                self.editor.set_text(String::from_str(text));
            },
            LifeCycle::FocusChanged(focused) => {
                if self.config.select_all_on_focus && focused && !self.was_focused_from_click {
                    self.editor.select_all();
                }
                self.was_focused_from_click = false;
                self.blinker.reset(TimerToken::invalid());
                requests.timer = TimerRequest::Restart;
                requests.paint = true;
            },
            LifeCycle::Other => {},
        }
        requests
    }

    /// Brings what is shown up to date with a layout, and returns what the
    /// host is asked to do: to lay the field out again when
    /// `placeholder_stale` says that the environment changed what the
    /// placeholder looks like.
    pub fn update(&mut self, metrics: Metrics, placeholder_stale: bool) -> (requests: Requests)
        ensures
            final(self)@ == old(self)@.after_update(metrics),
            requests == (Requests { layout: placeholder_stale, ..Requests::nothing() }),
    {
        if !self.suppress_adjust_hscroll && !self.multiline {
            self.update_hscroll(metrics.caret_x, metrics.content_width, metrics.viewport_width);
        }
        let mut requests: Requests = Requests::nothing();
        requests.layout = placeholder_stale;
        requests
    }
}

impl Clone for TextBox {
    fn clone(&self) -> (textbox: TextBox)
        ensures
            textbox@ == self@,
    {
        TextBox {
            placeholder: self.placeholder.clone(),
            editor: self.editor.clone(),
            hscroll: self.hscroll,
            suppress_adjust_hscroll: self.suppress_adjust_hscroll,
            blinker: self.blinker,
            multiline: self.multiline,
            was_focused_from_click: self.was_focused_from_click,
            config: self.config,
        }
    }
}

impl Default for TextBox {
    fn default() -> (textbox: TextBox)
        ensures
            textbox@ == TextBoxState::initial(Config::standard()),
    {
        TextBox::new()
    }
}

} // verus!
