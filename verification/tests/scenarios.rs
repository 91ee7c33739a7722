use counter_bot::counter::Counter;
use counter_bot::dispatch::{dispatch, Action, CallbackOrigin, InboundUpdate};
use counter_bot::keyboard::{make_keyboard, KeyboardDescriptor};

fn text_update(text: &str) -> InboundUpdate {
    InboundUpdate::TextMessage { chat_id: 7, text: text.to_string() }
}

fn add_press() -> InboundUpdate {
    InboundUpdate::CallbackEvent {
        data: Some("Add".to_string()),
        origin: CallbackOrigin::Chat { chat_id: 7, message_id: 99 },
    }
}

fn assert_add_keyboard(k: &KeyboardDescriptor) {
    assert_eq!(k.rows.len(), 1);
    assert_eq!(k.rows[0].len(), 1);
    assert_eq!(k.rows[0][0].label.as_str(), "Add");
    assert_eq!(k.rows[0][0].payload.as_str(), "Add");
}

#[test]
fn keyboard_is_one_add_button() {
    assert_add_keyboard(&make_keyboard());
}

#[test]
fn start_sends_initial_render_with_keyboard() {
    let mut c = Counter::new();
    let a = dispatch(&mut c, &text_update("/start"));
    match a {
        Some(Action::SendMessage { chat_id, text, keyboard }) => {
            assert_eq!(chat_id, 7);
            assert_eq!(text.as_str(), "0000");
            assert_add_keyboard(&keyboard.expect("the start render carries the keyboard"));
        }
        other => panic!("expected a send, got {:?}", describe(&other)),
    }
    assert_eq!(c.get(), 0);
}

#[test]
fn add_after_start_edits_to_one() {
    let mut c = Counter::new();
    dispatch(&mut c, &text_update("/start"));
    let a = dispatch(&mut c, &add_press());
    match a {
        Some(Action::EditMessage { chat_id, message_id, text, keyboard }) => {
            assert_eq!(chat_id, 7);
            assert_eq!(message_id, 99);
            assert_eq!(text.as_str(), "0001");
            assert_add_keyboard(&keyboard);
        }
        other => panic!("expected an edit, got {:?}", describe(&other)),
    }
    assert_eq!(c.get(), 1);
}

#[test]
fn three_adds_store_three() {
    let mut c = Counter::new();
    let mut last_text = String::new();
    for _ in 0..3 {
        match dispatch(&mut c, &add_press()) {
            Some(Action::EditMessage { text, .. }) => last_text = text,
            other => panic!("expected an edit, got {:?}", describe(&other)),
        }
    }
    assert_eq!(c.get(), 3);
    assert_eq!(last_text.as_str(), "0003");
}

#[test]
fn help_lists_both_commands() {
    let mut c = Counter::new();
    let a = dispatch(&mut c, &text_update("/help"));
    match a {
        Some(Action::SendMessage { chat_id, text, keyboard }) => {
            assert_eq!(chat_id, 7);
            assert!(text.contains("help"));
            assert!(text.contains("start"));
            assert!(keyboard.is_none());
        }
        other => panic!("expected a send, got {:?}", describe(&other)),
    }
}

#[test]
fn unknown_command_reports_not_found() {
    let mut c = Counter::new();
    let a = dispatch(&mut c, &text_update("/unknown"));
    match a {
        Some(Action::SendMessage { text, keyboard, .. }) => {
            assert_eq!(text.as_str(), "Command not found!");
            assert!(keyboard.is_none());
        }
        other => panic!("expected a send, got {:?}", describe(&other)),
    }
    assert_eq!(c.get(), 0);
}

#[test]
fn callback_without_data_does_nothing() {
    let mut c = Counter::new();
    c.increment_and_get();
    let u = InboundUpdate::CallbackEvent {
        data: None,
        origin: CallbackOrigin::Chat { chat_id: 7, message_id: 99 },
    };
    let a = dispatch(&mut c, &u);
    assert!(a.is_none());
    assert_eq!(c.get(), 1);
}

#[test]
fn callback_with_other_payload_does_nothing() {
    let mut c = Counter::new();
    let u = InboundUpdate::CallbackEvent {
        data: Some("Remove".to_string()),
        origin: CallbackOrigin::Chat { chat_id: 7, message_id: 99 },
    };
    let a = dispatch(&mut c, &u);
    assert!(a.is_none());
    assert_eq!(c.get(), 0);
}

#[test]
fn add_without_origin_still_increments() {
    let mut c = Counter::new();
    let u = InboundUpdate::CallbackEvent {
        data: Some("Add".to_string()),
        origin: CallbackOrigin::Absent,
    };
    let a = dispatch(&mut c, &u);
    assert!(a.is_none());
    assert_eq!(c.get(), 1);
}

#[test]
fn add_from_inline_message_edits_inline() {
    let mut c = Counter::new();
    let u = InboundUpdate::CallbackEvent {
        data: Some("Add".to_string()),
        origin: CallbackOrigin::Inline { inline_message_id: "abc123".to_string() },
    };
    match dispatch(&mut c, &u) {
        Some(Action::EditInline { inline_message_id, text, keyboard }) => {
            assert_eq!(inline_message_id.as_str(), "abc123");
            assert_eq!(text.as_str(), "0001");
            assert_add_keyboard(&keyboard);
        }
        other => panic!("expected an inline edit, got {:?}", describe(&other)),
    }
    assert_eq!(c.get(), 1);
}

#[test]
fn unrecognized_update_is_dropped() {
    let mut c = Counter::new();
    c.increment_and_get();
    let a = dispatch(&mut c, &InboundUpdate::Unrecognized);
    assert!(a.is_none());
    assert_eq!(c.get(), 1);
}

#[test]
fn start_resets_after_adds() {
    let mut c = Counter::new();
    for _ in 0..4 {
        dispatch(&mut c, &add_press());
    }
    assert_eq!(c.get(), 4);
    let a = dispatch(&mut c, &text_update("/start"));
    match a {
        Some(Action::SendMessage { text, .. }) => assert_eq!(text.as_str(), "0000"),
        other => panic!("expected a send, got {:?}", describe(&other)),
    }
    assert_eq!(c.get(), 0);
}

fn describe(a: &Option<Action>) -> &'static str {
    match a {
        None => "no action",
        Some(Action::SendMessage { .. }) => "a send",
        Some(Action::EditMessage { .. }) => "a chat edit",
        Some(Action::EditInline { .. }) => "an inline edit",
    }
}
