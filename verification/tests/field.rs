use textbox::{
    Config, Context, Direction, EditAction, Event, FocusRequest, Key, LifeCycle, Metrics,
    Requests, Selection, TextBox, TimerRequest, TimerToken, Unit,
};

const IDLE: Context = Context { focused: false, active: false };
const FOCUSED: Context = Context { focused: true, active: false };
const HELD: Context = Context { focused: true, active: true };

fn field(text: &str) -> TextBox {
    let mut field = TextBox::new();
    assert_eq!(
        field.lifecycle(LifeCycle::WidgetAdded, text),
        Requests { register_for_focus: true, ..Requests::nothing() }
    );
    field
}

fn state(field: &TextBox) -> (&str, usize, usize) {
    let selection = field.editor().selection();
    (field.editor().text(), selection.anchor, selection.active)
}

fn insert(text: &str) -> EditAction {
    EditAction::Insert(text.to_string())
}

#[test]
fn a_new_field_is_empty_and_hides_its_caret() {
    let field = TextBox::new();
    assert_eq!(state(&field), ("", 0, 0));
    assert_eq!(field.placeholder(), "");
    assert_eq!(field.hscroll_offset(), 0);
    assert!(!field.should_draw_cursor());
    assert_eq!(field.config(), Config::standard());
    assert_eq!(field.config().blink_period_ms, 500);
    assert_eq!(field.config().padding, 8);
    let field = TextBox::default();
    assert_eq!(state(&field), ("", 0, 0));
}

#[test]
fn the_placeholder_is_kept() {
    let field = TextBox::new().with_placeholder("type here".to_string());
    assert_eq!(field.placeholder(), "type here");
    assert_eq!(state(&field), ("", 0, 0));
}

#[test]
fn force_rebuild_replaces_the_text_and_constrains_the_selection() {
    let mut field = field("hello");
    field.editor_mut().set_selection(Selection::new(1, 5));
    field.force_rebuild("abc".to_string());
    assert_eq!(state(&field), ("abc", 1, 3));
}

#[test]
fn a_key_that_edits_changes_the_buffer_and_restarts_the_blinking() {
    let mut field = field("ab");
    let response = field.event(&Event::KeyDown(Key::Edit(insert("x"))), FOCUSED);
    assert_eq!(state(&field), ("xab", 1, 1));
    assert_eq!(
        response.requests,
        Requests { timer: TimerRequest::Restart, paint: true, update: true, ..Requests::nothing() }
    );
    assert_eq!(response.clipboard, None);
    assert_eq!(response.rejected_replacement, None);
    assert!(field.should_draw_cursor());
}

#[test]
fn a_key_that_does_not_edit_still_restarts_the_blinking() {
    let mut field = field("ab");
    let response = field.event(&Event::KeyDown(Key::Other), FOCUSED);
    assert_eq!(state(&field), ("ab", 0, 0));
    assert_eq!(
        response.requests,
        Requests { timer: TimerRequest::Restart, paint: true, ..Requests::nothing() }
    );
    assert!(field.should_draw_cursor());
    let response = field.event(&Event::KeyDown(Key::Enter), FOCUSED);
    assert_eq!(state(&field), ("ab", 0, 0));
    assert_eq!(
        response.requests,
        Requests { timer: TimerRequest::Restart, paint: true, ..Requests::nothing() }
    );
}

#[test]
fn the_tab_key_moves_the_focus() {
    let mut field = field("ab");
    let response = field.event(&Event::KeyDown(Key::Tab), FOCUSED);
    assert_eq!(
        response.requests,
        Requests {
            focus: FocusRequest::Next,
            timer: TimerRequest::Restart,
            paint: true,
            ..Requests::nothing()
        }
    );
    let response = field.event(&Event::KeyDown(Key::BackTab), FOCUSED);
    assert_eq!(response.requests.focus, FocusRequest::Previous);
    assert_eq!(state(&field), ("ab", 0, 0));
}

#[test]
fn a_press_takes_focus_and_pointer_and_puts_the_caret() {
    let mut field = field("hello");
    let response =
        field.event(&Event::MouseDown { offset: 3, extend: false, focus: false }, IDLE);
    assert_eq!(state(&field), ("hello", 3, 3));
    assert_eq!(
        response.requests,
        Requests {
            focus: FocusRequest::Request,
            active: Some(true),
            timer: TimerRequest::Restart,
            paint: true,
            ..Requests::nothing()
        }
    );
    assert!(field.should_draw_cursor());
    field.event(&Event::MouseDown { offset: 5, extend: true, focus: false }, FOCUSED);
    assert_eq!(state(&field), ("hello", 3, 5));
}

#[test]
fn a_press_that_only_raises_the_window_moves_nothing() {
    let mut field = field("hello");
    let response = field.event(&Event::MouseDown { offset: 3, extend: false, focus: true }, IDLE);
    assert_eq!(state(&field), ("hello", 0, 0));
    assert_eq!(
        response.requests,
        Requests {
            focus: FocusRequest::Request,
            active: Some(true),
            paint: true,
            ..Requests::nothing()
        }
    );
    assert!(!field.should_draw_cursor());
}

#[test]
fn a_drag_extends_the_selection_while_the_pointer_is_held() {
    let mut field = field("hello");
    field.event(&Event::MouseDown { offset: 1, extend: false, focus: false }, IDLE);
    let response = field.event(&Event::MouseMove { offset: 4 }, HELD);
    assert_eq!(state(&field), ("hello", 1, 4));
    assert_eq!(
        response.requests,
        Requests { text_cursor: true, paint: true, ..Requests::nothing() }
    );
    let response = field.event(&Event::MouseMove { offset: 2 }, FOCUSED);
    assert_eq!(state(&field), ("hello", 1, 4));
    assert_eq!(response.requests, Requests { text_cursor: true, ..Requests::nothing() });
    let response = field.event(&Event::MouseUp, HELD);
    assert_eq!(
        response.requests,
        Requests { active: Some(false), paint: true, ..Requests::nothing() }
    );
    let response = field.event(&Event::MouseUp, FOCUSED);
    assert_eq!(response.requests, Requests::nothing());
}

#[test]
fn the_caret_blinks_with_the_awaited_timer_only() {
    let mut field = field("hello");
    field.event(&Event::KeyDown(Key::Other), FOCUSED);
    field.reset_cursor_blink(TimerToken(5));
    assert!(field.should_draw_cursor());

    let response = field.event(&Event::Timer(TimerToken(4)), FOCUSED);
    assert_eq!(response.requests, Requests::nothing());
    assert!(field.should_draw_cursor());

    let response = field.event(&Event::Timer(TimerToken(5)), FOCUSED);
    assert_eq!(
        response.requests,
        Requests { timer: TimerRequest::Continue, paint: true, ..Requests::nothing() }
    );
    assert!(!field.should_draw_cursor());
    field.continue_cursor_blink(TimerToken(6));
    assert!(!field.should_draw_cursor());

    field.event(&Event::Timer(TimerToken(5)), FOCUSED);
    assert!(!field.should_draw_cursor());
    field.event(&Event::Timer(TimerToken(6)), FOCUSED);
    assert!(field.should_draw_cursor());
}

#[test]
fn after_activity_no_old_timer_hides_the_caret() {
    let mut field = field("hello");
    field.reset_cursor_blink(TimerToken(5));
    field.event(&Event::KeyDown(Key::Other), FOCUSED);
    // The host has not yet scheduled the new timer; the old one fires.
    let response = field.event(&Event::Timer(TimerToken(5)), FOCUSED);
    assert_eq!(response.requests, Requests::nothing());
    assert!(field.should_draw_cursor());
}

#[test]
fn copy_and_cut_are_for_the_field_that_holds_the_focus() {
    let mut field = field("hello");
    field.editor_mut().set_selection(Selection::new(1, 3));
    let response = field.event(&Event::Copy, IDLE);
    assert_eq!(response.requests, Requests::nothing());
    assert_eq!(response.clipboard, None);
    let response = field.event(&Event::Cut, IDLE);
    assert_eq!(response.clipboard, None);
    assert_eq!(state(&field), ("hello", 1, 3));

    let response = field.event(&Event::Copy, FOCUSED);
    assert_eq!(response.requests, Requests { handled: true, ..Requests::nothing() });
    assert_eq!(response.clipboard, Some("el".to_string()));
    assert_eq!(state(&field), ("hello", 1, 3));

    let response = field.event(&Event::Cut, FOCUSED);
    assert_eq!(response.requests, Requests { handled: true, ..Requests::nothing() });
    assert_eq!(response.clipboard, Some("el".to_string()));
    assert_eq!(state(&field), ("hlo", 1, 1));
}

#[test]
fn an_edit_that_is_sent_is_performed() {
    let mut field = field("hello");
    let response = field.event(&Event::Edit(EditAction::SelectAll), IDLE);
    assert_eq!(response.requests, Requests::nothing());
    assert_eq!(state(&field), ("hello", 0, 5));
    let response = field.event(&Event::Edit(EditAction::Cut), IDLE);
    assert_eq!(response.clipboard, Some("hello".to_string()));
    assert_eq!(state(&field), ("", 0, 0));
}

#[test]
fn a_paste_replaces_the_selection() {
    let mut field = field("hello");
    field.editor_mut().set_selection(Selection::new(5, 1));
    let response = field.event(&Event::Paste("ey".to_string()), FOCUSED);
    assert_eq!(response.requests, Requests::nothing());
    assert_eq!(state(&field), ("hey", 3, 3));
}

#[test]
fn other_events_change_nothing() {
    let mut field = field("hello");
    for event in [Event::Other, Event::Complete, Event::Cancel] {
        let response = field.event(&event, FOCUSED);
        assert_eq!(response.requests, Requests::nothing());
        assert_eq!(state(&field), ("hello", 0, 0));
    }
}

#[test]
fn focus_that_comes_without_a_click_selects_everything() {
    let mut field = field("hello");
    let requests = field.lifecycle(LifeCycle::FocusChanged(true), "ignored");
    assert_eq!(
        requests,
        Requests { timer: TimerRequest::Restart, paint: true, ..Requests::nothing() }
    );
    assert_eq!(state(&field), ("hello", 0, 5));
    assert!(field.should_draw_cursor());
}

#[test]
fn focus_that_comes_with_a_click_keeps_the_caret_of_the_click() {
    let mut field = field("hello");
    field.event(&Event::MouseDown { offset: 2, extend: false, focus: false }, IDLE);
    field.lifecycle(LifeCycle::FocusChanged(true), "");
    assert_eq!(state(&field), ("hello", 2, 2));
    // The click is spent: the next focus selects everything again.
    field.lifecycle(LifeCycle::FocusChanged(false), "");
    assert_eq!(state(&field), ("hello", 2, 2));
    field.lifecycle(LifeCycle::FocusChanged(true), "");
    assert_eq!(state(&field), ("hello", 0, 5));
}

#[test]
fn the_settings_decide_whether_focus_selects_everything() {
    let config = Config { select_all_on_focus: false, ..Config::standard() };
    let mut field = TextBox::with_config(config);
    field.lifecycle(LifeCycle::WidgetAdded, "hello");
    field.lifecycle(LifeCycle::FocusChanged(true), "");
    assert_eq!(state(&field), ("hello", 0, 0));
    assert_eq!(field.lifecycle(LifeCycle::Other, "x"), Requests::nothing());
    assert_eq!(state(&field), ("hello", 0, 0));
}

#[test]
fn the_settings_decide_whether_a_range_hides_the_caret() {
    let config = Config { caret_only_when_collapsed: true, ..Config::standard() };
    let mut field = TextBox::with_config(config);
    field.lifecycle(LifeCycle::WidgetAdded, "hello");
    field.reset_cursor_blink(TimerToken(1));
    assert!(field.should_draw_cursor());
    field.editor_mut().select_all();
    assert!(!field.should_draw_cursor());
}

#[test]
fn an_update_scrolls_to_the_caret() {
    let mut field = field("hello");
    let metrics = Metrics { caret_x: 150, content_width: 200, viewport_width: 100 };
    assert_eq!(field.update(metrics, false), Requests::nothing());
    assert_eq!(field.hscroll_offset(), 58);
    let metrics = Metrics { caret_x: 10, content_width: 200, viewport_width: 100 };
    assert_eq!(
        field.update(metrics, true),
        Requests { layout: true, ..Requests::nothing() }
    );
    assert_eq!(field.hscroll_offset(), 10);
    field.update_hscroll(10, 60, 100);
    assert_eq!(field.hscroll_offset(), 0);
}

#[test]
fn an_update_after_selecting_everything_does_not_scroll() {
    let mut field = field("hello");
    let metrics = Metrics { caret_x: 150, content_width: 200, viewport_width: 100 };
    field.event(&Event::KeyDown(Key::Edit(EditAction::SelectAll)), FOCUSED);
    field.update(metrics, false);
    assert_eq!(field.hscroll_offset(), 0);
    // Any other event lets the next update scroll again.
    let right = EditAction::MoveCaret {
        unit: Unit::Character,
        direction: Direction::Forward,
        extend: false,
    };
    field.event(&Event::KeyDown(Key::Edit(right)), FOCUSED);
    field.update(metrics, false);
    assert_eq!(field.hscroll_offset(), 58);
}

#[test]
fn a_field_of_several_lines_does_not_scroll() {
    let mut field = TextBox::multiline();
    field.lifecycle(LifeCycle::WidgetAdded, "hello\nworld");
    let metrics = Metrics { caret_x: 150, content_width: 200, viewport_width: 100 };
    field.update(metrics, false);
    assert_eq!(field.hscroll_offset(), 0);
}
