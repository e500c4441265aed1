use tukai::app::ActiveScreenEnum;
use tukai::app::KeyCode;
use tukai::app::KeyEvent;
use tukai::app::Tukai;
use tukai::app::TukaiConfig;
use tukai::clock::Clock;
use tukai::stats::TypingDuration;

fn text_of(s: &str) -> Vec<char> {
    s.chars().collect()
}

fn plain(code: KeyCode) -> KeyEvent {
    KeyEvent { code, ctrl: false }
}

fn ctrl(c: char) -> KeyEvent {
    KeyEvent {
        code: KeyCode::Char(c),
        ctrl: true,
    }
}

fn new_app(text: &str) -> Tukai {
    let (app, seeded) = Tukai::try_new(TukaiConfig::default(), text_of(text), None);
    assert!(seeded);
    app
}

#[test]
fn remaining_time_is_never_negative() {
    let mut clock = Clock::new();
    assert_eq!(clock.remaining(30), 30);
    for _ in 0..100 {
        clock.tick(true);
    }
    assert_eq!(clock.remaining(30), 0);
    assert_eq!(clock.remaining(0), 0);
}

#[test]
fn ticks_are_dropped_unless_running() {
    let mut clock = Clock::new();
    clock.tick(false);
    clock.tick(false);
    assert_eq!(clock.time_secs, 0);
    clock.tick(true);
    assert_eq!(clock.time_secs, 1);
}

#[test]
fn characters_reach_the_typing_screen() {
    let mut app = new_app("hello");
    assert!(app.handle_events(plain(KeyCode::Char('h')), text_of("xy")).is_none());
    assert!(app.handle_events(plain(KeyCode::Backspace), text_of("xy")).is_none());
    assert!(app.handle_events(plain(KeyCode::Char('h')), text_of("xy")).is_none());
    assert_eq!(app.typing_screen_ref().get_cursor_index(), 1);
    assert!(app.typing_screen_ref().is_running());
}

#[test]
fn escape_exits_with_a_final_flush() {
    let mut app = new_app("hello");
    let flushed = app.handle_events(plain(KeyCode::Esc), text_of("xy"));
    assert!(app.is_exit());
    let bytes = flushed.unwrap();
    let storage = app.storage_ref();
    assert!(storage.load(&bytes).is_some());
}

#[test]
fn arrows_navigate_between_screens() {
    let mut app = new_app("hello");
    assert_eq!(app.get_active_screen(), ActiveScreenEnum::Typing);
    app.handle_events(plain(KeyCode::Right), text_of("xy"));
    assert_eq!(app.get_active_screen(), ActiveScreenEnum::Stats);
    app.handle_events(plain(KeyCode::Left), text_of("xy"));
    assert_eq!(app.get_active_screen(), ActiveScreenEnum::Typing);
}

#[test]
fn control_keys_switch_screens_and_exit() {
    let mut app = new_app("hello");
    app.handle_events(ctrl('l'), text_of("xy"));
    assert_eq!(app.get_active_screen(), ActiveScreenEnum::Stats);
    app.handle_events(ctrl('h'), text_of("xy"));
    assert_eq!(app.get_active_screen(), ActiveScreenEnum::Typing);
    let flushed = app.handle_events(ctrl('c'), text_of("xy"));
    assert!(app.is_exit());
    assert!(flushed.is_some());
}

#[test]
fn cycling_duration_resets_the_session() {
    let mut app = new_app("hello");
    app.handle_events(plain(KeyCode::Char('h')), text_of("xy"));
    assert_eq!(app.typing_screen_ref().get_cursor_index(), 1);

    app.handle_events(ctrl('d'), text_of("fresh"));
    assert_eq!(app.config.typing_duration, TypingDuration::ThreeMinutes);
    assert_eq!(
        app.typing_screen_ref().get_config().typing_duration,
        TypingDuration::ThreeMinutes
    );
    assert_eq!(app.typing_screen_ref().get_cursor_index(), 0);
    assert_eq!(app.typing_screen_ref().generated_text, text_of("fresh"));
}

#[test]
fn toggling_background_and_cycling_layout_touch_only_config() {
    let mut app = new_app("hello");
    app.handle_events(ctrl('t'), text_of("xy"));
    assert!(app.config.has_transparent_bg);
    app.handle_events(ctrl('s'), text_of("xy"));
    assert_eq!(app.config.layout_index, 1);
    app.handle_events(ctrl('p'), text_of("next"));
    assert_eq!(app.config.language_index, 1);
    assert_eq!(app.typing_screen_ref().generated_text, text_of("next"));
}

#[test]
fn timed_out_session_is_recorded_exactly_once() {
    let mut app = new_app("hello");
    app.handle_events(plain(KeyCode::Char('h')), text_of("xy"));
    assert!(app.typing_screen_ref().is_running());

    for _ in 0..60 {
        app.handle_tick();
    }
    assert_eq!(app.get_remaining_time(), 0);

    let flushed = app.draw();
    let bytes = flushed.expect("the finished session must be persisted");
    assert!(app.typing_screen_ref().is_finished());
    assert_eq!(app.storage_ref().get_data_stats().unwrap().len(), 1);

    let data = app.storage_ref().load(&bytes).unwrap();
    assert_eq!(data.stats.len(), 1);

    // a second render pass inserts nothing further
    let again = app.draw();
    assert!(again.is_none());
    assert_eq!(app.storage_ref().get_data_stats().unwrap().len(), 1);
}

#[test]
fn completed_session_is_recorded_with_its_errors() {
    let mut app = new_app("ab");
    app.handle_events(plain(KeyCode::Char('a')), text_of("xy"));
    app.handle_events(plain(KeyCode::Char('x')), text_of("xy"));
    assert!(app.typing_screen_ref().is_finished());

    let flushed = app.draw();
    assert!(flushed.is_some());
    let stats = app.storage_ref().get_data_stats().unwrap();
    assert_eq!(stats.len(), 1);
    assert_eq!(stats[0].get_error_count(), 1);
    assert!(app.typing_screen_ref().is_popup_visible());
}

#[test]
fn reset_clears_session_and_clock() {
    let mut app = new_app("hello");
    app.handle_events(plain(KeyCode::Char('h')), text_of("xy"));
    app.handle_tick();
    app.handle_tick();
    assert_eq!(app.get_remaining_time(), 58);

    app.handle_events(ctrl('r'), text_of("fresh"));
    assert_eq!(app.get_remaining_time(), 60);
    assert_eq!(app.typing_screen_ref().get_cursor_index(), 0);
}
