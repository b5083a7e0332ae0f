//! What passes between a field and the runtime that hosts it: the events
//! that the host delivers, what it tells of the field's standing, and what
//! the field asks of it in return.
//!
//! A field never calls its host. Each handler returns what the host is asked
//! to do, and the host does it before it delivers the next event.

use crate::blink::TimerToken;
use crate::edit::EditAction;
use crate::format::text_of;
use vstd::prelude::*;

verus! {

/// The settings of a field, fixed when it is built.
#[derive(Clone, Copy, Debug, PartialEq, Eq, Structural)]
pub struct Config {
    /// The time, in milliseconds, for which the caret stays shown or hidden
    /// before it changes.
    pub blink_period_ms: u64,
    /// The room kept between the caret and the right edge of the viewport
    /// when the text is scrolled.
    pub padding: u32,
    /// Whether focus that arrives other than by a click selects the whole
    /// text.
    pub select_all_on_focus: bool,
    /// Whether the caret is drawn only while nothing is selected.
    pub caret_only_when_collapsed: bool,
}

impl Config {
    /// The usual settings: half a second, eight units, and selecting all.
    pub open spec fn spec_standard() -> Config {
        Config {
            blink_period_ms: 500,
            padding: 8,
            select_all_on_focus: true,
            caret_only_when_collapsed: false,
        }
    }

    /// The usual settings: half a second, eight units, and selecting all.
    #[verifier::when_used_as_spec(spec_standard)]
    pub fn standard() -> (config: Config)
        ensures
            config == Config::spec_standard(),
    {
        Config {
            blink_period_ms: 500,
            padding: 8,
            select_all_on_focus: true,
            caret_only_when_collapsed: false,
        }
    }
}

/// The field's standing with its host when an event arrives.
#[derive(Clone, Copy, Debug, PartialEq, Eq, Structural)]
pub struct Context {
    /// Whether the field holds the keyboard focus.
    pub focused: bool,
    /// Whether the field holds the pointer, as it does between a press and
    /// the release that follows it.
    pub active: bool,
}

/// What the layout measured, in the units that the scroll offset is in.
#[derive(Clone, Copy, Debug, PartialEq, Eq, Structural)]
pub struct Metrics {
    /// The caret's distance from the start of the text.
    pub caret_x: u32,
    /// The width of the whole text.
    pub content_width: u32,
    /// The width of the field.
    pub viewport_width: u32,
}

/// A key press, as far as a field tells keys apart.
#[derive(Clone, Debug)]
pub enum Key {
    /// The tab key: focus moves on.
    Tab,
    /// The tab key with shift: focus moves back.
    BackTab,
    /// The enter key.
    Enter,
    /// The escape key.
    Escape,
    /// A key that stands for an edit.
    Edit(EditAction),
    /// Any other key.
    Other,
}

/// An event that the host delivers to a field.
#[derive(Clone, Debug)]
pub enum Event {
    /// The pointer was pressed at the offset `offset` of the text. With
    /// `extend` the selection is extended to it. `focus` is set on a press
    /// that did no more than bring the window to the front.
    MouseDown { offset: usize, extend: bool, focus: bool },
    /// The pointer moved to the offset `offset` of the text.
    MouseMove { offset: usize },
    /// The pointer was released.
    MouseUp,
    /// A timer fired.
    Timer(TimerToken),
    /// The selected text is to be copied to the clipboard.
    Copy,
    /// The selected text is to be moved to the clipboard.
    Cut,
    /// An edit is to be performed.
    Edit(EditAction),
    /// Text arrived from the clipboard.
    Paste(String),
    /// A key was pressed.
    KeyDown(Key),
    /// Editing is to be completed now.
    Complete,
    /// Editing is to be cancelled now.
    Cancel,
    /// Anything else.
    Other,
}

/// A change in the field's life with its host.
#[derive(Clone, Copy, Debug, PartialEq, Eq, Structural)]
pub enum LifeCycle {
    /// The field was attached to its host.
    WidgetAdded,
    /// The field gained the focus, or lost it.
    FocusChanged(bool),
    /// Anything else.
    Other,
}

/// What a field asks of its host about the keyboard focus.
#[derive(Clone, Copy, Debug, PartialEq, Eq, Structural)]
pub enum FocusRequest {
    /// Nothing.
    Nothing,
    /// The field wants the focus.
    Request,
    /// The field gives the focus up.
    Resign,
    /// The focus is to move to the next field.
    Next,
    /// The focus is to move to the previous field.
    Previous,
}

/// What a field asks of its host about the blink timer.
#[derive(Clone, Copy, Debug, PartialEq, Eq, Structural)]
pub enum TimerRequest {
    /// Nothing.
    Nothing,
    /// A timer is to be scheduled for one blink period, and the blinking is
    /// to start anew with it.
    Restart,
    /// A timer is to be scheduled for one blink period, and the blinking
    /// goes on with it.
    Continue,
}

/// What a field asks of its host after it handled an event.
#[derive(Clone, Copy, Debug, PartialEq, Eq, Structural)]
pub struct Requests {
    /// The keyboard focus.
    pub focus: FocusRequest,
    /// The blink timer.
    pub timer: TimerRequest,
    /// Whether the field takes or gives up the pointer, if either.
    pub active: Option<bool>,
    /// The field is to be painted again.
    pub paint: bool,
    /// The field is to be laid out again.
    pub layout: bool,
    /// The field is to be brought up to date, though its data has not
    /// changed.
    pub update: bool,
    /// The event is dealt with, and no other field is to see it.
    pub handled: bool,
    /// The pointer is to be shown as a text cursor.
    pub text_cursor: bool,
    /// The field can take the focus, and is to be entered in the focus
    /// chain.
    pub register_for_focus: bool,
}

impl Requests {
    /// No request at all.
    pub open spec fn spec_nothing() -> Requests {
        Requests {
            focus: FocusRequest::Nothing,
            timer: TimerRequest::Nothing,
            active: None,
            paint: false,
            layout: false,
            update: false,
            handled: false,
            text_cursor: false,
            register_for_focus: false,
        }
    }

    /// No request at all.
    #[verifier::when_used_as_spec(spec_nothing)]
    pub fn nothing() -> (requests: Requests)
        ensures
            requests == Requests::spec_nothing(),
    {
        Requests {
            focus: FocusRequest::Nothing,
            timer: TimerRequest::Nothing,
            active: None,
            paint: false,
            layout: false,
            update: false,
            handled: false,
            text_cursor: false,
            register_for_focus: false,
        }
    }
}

/// What handling an event gave, as mathematics.
pub struct Outcome {
    /// What the host is asked to do.
    pub requests: Requests,
    /// The text for the clipboard, if any.
    pub clipboard: Option<Seq<char>>,
    /// A replacement text that the formatter offered and then rejected
    /// itself, if there was one.
    pub rejected_replacement: Option<Seq<char>>,
}

impl Outcome {
    /// The requests alone, with no text.
    pub open spec fn of(requests: Requests) -> Outcome {
        Outcome { requests, clipboard: None, rejected_replacement: None }
    }
}

/// What handling an event gave: the requests to the host, and the texts
/// that go with them.
#[derive(Debug)]
pub struct Response {
    /// What the host is asked to do.
    pub requests: Requests,
    /// The text for the clipboard, if any.
    pub clipboard: Option<String>,
    /// A replacement text that the formatter offered and then rejected
    /// itself, if there was one. It is worth a line in a log: such a
    /// formatter is at fault.
    pub rejected_replacement: Option<String>,
}

impl Response {
    /// The response as mathematics.
    pub open spec fn view(&self) -> Outcome {
        Outcome {
            requests: self.requests,
            clipboard: text_of(self.clipboard),
            rejected_replacement: text_of(self.rejected_replacement),
        }
    }

    /// The requests alone, with no text.
    pub fn of(requests: Requests) -> (response: Response)
        ensures
            response@ == Outcome::of(requests),
    {
        Response { requests, clipboard: None, rejected_replacement: None }
    }
}

} // verus!
