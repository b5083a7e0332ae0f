//! An editable text field that keeps a raw text buffer, a typed value and a
//! formatter's opinion of the text in step with each other.
//!
//! The field itself neither draws nor measures text, and it does not talk
//! to a window system: a host delivers events to it, and does what the
//! field asks for in return.
//!
//! There are two fields. A [`TextBox`] edits a text: it holds a
//! [`RawEditor`], which is the buffer and the selection, a [`ScrollPort`]
//! and a [`Blinker`]. A [`ValueTextBox`] edits a value of any type through
//! a [`Formatter`]: it puts every change of the buffer before the
//! formatter, takes back what the formatter rejects, and writes the value
//! when the editing is completed.
//!
//! A host calls `lifecycle` when the field is attached and when the focus
//! changes, `event` for what the user does and for timers, and `update`
//! after each layout. When a response asks for a timer, the host schedules
//! one for the blink period and hands its token to `reset_cursor_blink` or
//! `continue_cursor_blink`, as the response says.

pub mod blink;
pub mod edit;
pub mod format;
pub mod host;
pub mod scroll;
pub mod selection;
pub mod text;
pub mod textbox;
pub mod value_textbox;

pub use blink::{Blinker, TimerToken};
pub use edit::{EditAction, RawEditor};
pub use format::{Formatter, Validation, ValidationError};
pub use host::{
    Config, Context, Event, FocusRequest, Key, LifeCycle, Metrics, Requests, Response,
    TimerRequest,
};
pub use scroll::ScrollPort;
pub use selection::Selection;
pub use text::{Direction, Unit};
pub use textbox::TextBox;
pub use value_textbox::ValueTextBox;
