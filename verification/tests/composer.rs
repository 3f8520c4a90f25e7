//! Tests of the view composer and its string rendering.

use tuirc::state::{App, AppMode, EventKind, FocusTarget, KeyCode, KeyEvent};
use tuirc::view::{
    u64_to_decimal, ChatContent, MessageEntry, CHANNELS_WIDTH_PERCENT, INPUT_HEIGHT_PERCENT,
    MAIN_WIDTH_PERCENT, MESSAGES_HEIGHT_PERCENT,
};

fn state(focus: FocusTarget, mode: AppMode) -> App {
    App {
        focus,
        mode,
        should_exit: false,
    }
}

fn message(timestamp: &str, author: &str, text: &str) -> MessageEntry {
    MessageEntry {
        timestamp: timestamp.to_string(),
        author: author.to_string(),
        text: text.to_string(),
    }
}

fn sample_content() -> ChatContent {
    ChatContent {
        channel_count: 1,
        channel_name: "Channel #1".to_string(),
        nickname: "makefolder".to_string(),
        messages: vec![message(
            "12:47:53",
            "author",
            "This text would be their long long message.",
        )],
    }
}

#[test]
fn layout_ratios_are_preserved() {
    assert_eq!(CHANNELS_WIDTH_PERCENT, 25);
    assert_eq!(MAIN_WIDTH_PERCENT, 75);
    assert_eq!(CHANNELS_WIDTH_PERCENT + MAIN_WIDTH_PERCENT, 100);
    assert_eq!(MESSAGES_HEIGHT_PERCENT, 95);
    assert_eq!(INPUT_HEIGHT_PERCENT, 5);
    assert_eq!(MESSAGES_HEIGHT_PERCENT + INPUT_HEIGHT_PERCENT, 100);
}

#[test]
fn decimal_rendering_exact_values() {
    assert_eq!(u64_to_decimal(0), "0");
    assert_eq!(u64_to_decimal(1), "1");
    assert_eq!(u64_to_decimal(9), "9");
    assert_eq!(u64_to_decimal(10), "10");
    assert_eq!(u64_to_decimal(205), "205");
    assert_eq!(u64_to_decimal(u64::MAX), "18446744073709551615");
}

#[test]
fn compose_is_deterministic() {
    let content = sample_content();
    for focus in [
        FocusTarget::Messages,
        FocusTarget::Input,
        FocusTarget::Channels,
    ] {
        for mode in [AppMode::Normal, AppMode::Insert] {
            let s = state(focus, mode);
            let first = s.compose(&content);
            let second = s.compose(&content);
            assert_eq!(first, second);
        }
    }
}

#[test]
fn channels_region_decoration() {
    let content = sample_content();
    let focused = state(FocusTarget::Channels, AppMode::Normal).compose(&content);
    assert!(focused.channels.border_emphasis);
    assert!(focused.channels.title_emphasis);
    assert_eq!(focused.channels.title, "[ Channels: 1 ]");
    assert_eq!(focused.channels.visible_text, "Channel #1");

    let unfocused = state(FocusTarget::Messages, AppMode::Normal).compose(&content);
    assert!(!unfocused.channels.border_emphasis);
    assert!(!unfocused.channels.title_emphasis);

    // Insert mode never emphasizes the channel list, focus notwithstanding.
    let inserting = state(FocusTarget::Channels, AppMode::Insert).compose(&content);
    assert!(!inserting.channels.border_emphasis);
}

#[test]
fn channels_title_shows_count() {
    let mut content = sample_content();
    content.channel_count = 42;
    let specs = App::default().compose(&content);
    assert_eq!(specs.channels.title, "[ Channels: 42 ]");
}

#[test]
fn messages_region_decoration() {
    let content = sample_content();
    let focused = state(FocusTarget::Messages, AppMode::Normal).compose(&content);
    assert!(focused.messages.border_emphasis);
    assert!(focused.messages.title_emphasis);
    assert_eq!(focused.messages.title, "[ makefolder ]");
    assert_eq!(
        focused.messages.visible_text,
        "12:47:53 author: This text would be their long long message."
    );

    let unfocused = state(FocusTarget::Input, AppMode::Normal).compose(&content);
    assert!(!unfocused.messages.border_emphasis);

    let inserting = state(FocusTarget::Messages, AppMode::Insert).compose(&content);
    assert!(!inserting.messages.border_emphasis);
}

#[test]
fn messages_body_joins_records_in_order() {
    let mut content = sample_content();
    content.messages = vec![
        message("10:00:00", "ada", "hello"),
        message("10:00:05", "bob", "hi there"),
        message("10:00:09", "ada", "how are you?"),
    ];
    let specs = App::default().compose(&content);
    assert_eq!(
        specs.messages.visible_text,
        "10:00:00 ada: hello\n10:00:05 bob: hi there\n10:00:09 ada: how are you?"
    );
}

#[test]
fn messages_body_placeholder_when_empty() {
    let mut content = sample_content();
    content.messages = vec![];
    let specs = App::default().compose(&content);
    assert_eq!(specs.messages.visible_text, "No messages yet.");
}

#[test]
fn input_region_decoration() {
    let content = sample_content();
    let normal_unfocused = state(FocusTarget::Messages, AppMode::Normal).compose(&content);
    assert!(!normal_unfocused.input.border_emphasis);
    assert_eq!(normal_unfocused.input.visible_text, "Enter your message...");
    assert_eq!(normal_unfocused.input.title, "");

    let normal_focused = state(FocusTarget::Input, AppMode::Normal).compose(&content);
    assert!(normal_focused.input.border_emphasis);
    assert_eq!(normal_focused.input.visible_text, "Enter your message...");

    let inserting = state(FocusTarget::Input, AppMode::Insert).compose(&content);
    assert!(inserting.input.border_emphasis);
    assert_eq!(inserting.input.visible_text, "");
}

#[test]
fn insert_emphasizes_input_whatever_the_focus() {
    let content = sample_content();
    for focus in [
        FocusTarget::Messages,
        FocusTarget::Input,
        FocusTarget::Channels,
    ] {
        let specs = state(focus, AppMode::Insert).compose(&content);
        assert!(specs.input.border_emphasis);
    }
}

#[test]
fn scenario_insert_after_tabbing_to_channels() {
    let content = sample_content();
    let mut s = App::default();
    let press = |code: KeyCode| KeyEvent {
        kind: EventKind::Press,
        code,
    };
    s.transition(press(KeyCode::Tab));
    s.transition(press(KeyCode::Tab));
    assert_eq!(s.focus, FocusTarget::Channels);
    s.transition(press(KeyCode::Char('i')));
    assert_eq!(s.mode, AppMode::Insert);
    let specs = s.compose(&content);
    assert!(specs.input.border_emphasis);
    assert!(!specs.channels.border_emphasis);
}
