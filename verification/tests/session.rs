use tukai::session::CharClass;
use tukai::session::TypingWindow;
use tukai::session::TypingWindowConfig;
use tukai::stats::TypingDuration;

fn text_of(s: &str) -> Vec<char> {
    s.chars().collect()
}

fn config_with(duration: TypingDuration) -> TypingWindowConfig {
    TypingWindowConfig {
        typing_duration: duration,
    }
}

#[test]
fn hello_helly_classifies_one_error() {
    let mut window = TypingWindow::new(text_of("hello"), config_with(TypingDuration::Minute));
    for c in "helly".chars() {
        window.push_char(c);
    }

    let classes = window.classes();
    assert_eq!(classes[0], CharClass::Correct);
    assert_eq!(classes[1], CharClass::Correct);
    assert_eq!(classes[2], CharClass::Correct);
    assert_eq!(classes[3], CharClass::Correct);
    assert_eq!(classes[4], CharClass::Incorrect);
    assert_eq!(window.stats.errors_count, 1);

    // elapsed 60 s, 4 correct characters: (4/5) / (60/60) = 0.8 words
    // per minute, stored in hundredths
    assert!(window.is_finished());
    let stat = window.finalize(60).unwrap();
    assert_eq!(stat.get_average_wpm(), 80);
    assert_eq!(stat.get_error_count(), 1);
    assert_eq!(stat.get_elapsed_secs(), 60);
    assert_eq!(stat.get_accuracy(), 8000); // 4 of 5: 80.00 %
}

#[test]
fn rendering_twice_counts_no_new_errors() {
    let mut window = TypingWindow::new(text_of("abcd"), config_with(TypingDuration::Minute));
    window.push_char('a');
    window.push_char('x');

    let _ = window.classes();
    let errors_after_first_render = window.stats.errors_count;
    let _ = window.classes();
    let _ = window.classes();
    assert_eq!(window.stats.errors_count, errors_after_first_render);
    assert_eq!(window.stats.errors_count, 1);
}

#[test]
fn backspace_at_cursor_zero_changes_nothing() {
    let mut window = TypingWindow::new(text_of("abc"), config_with(TypingDuration::Minute));
    assert_eq!(window.get_cursor_index(), 0);
    window.pop_char();
    assert_eq!(window.get_cursor_index(), 0);
    assert!(!window.is_running());
    assert!(!window.is_finished());
    assert_eq!(window.stats.errors_count, 0);
    assert_eq!(window.input.len(), 0);
}

#[test]
fn backspace_discards_cached_classification() {
    let mut window = TypingWindow::new(text_of("ab"), config_with(TypingDuration::Minute));
    window.push_char('x');
    let _ = window.classes();
    assert_eq!(window.stats.errors_count, 1);

    window.pop_char();
    assert_eq!(window.stats.errors_count, 0);
    let classes = window.classes();
    assert_eq!(classes[0], CharClass::Pending);

    window.push_char('a');
    let classes = window.classes();
    assert_eq!(classes[0], CharClass::Correct);
    assert_eq!(window.stats.errors_count, 0);
}

#[test]
fn completion_is_terminal_and_absorbs_input() {
    let mut window = TypingWindow::new(text_of("ab"), config_with(TypingDuration::Minute));
    window.push_char('a');
    assert!(window.is_running());
    window.push_char('b');
    assert!(window.is_finished());

    // a completed session never times out and takes no further input
    window.tick(3600, 60);
    assert!(window.is_finished());
    window.push_char('z');
    assert_eq!(window.get_cursor_index(), 2);
    window.pop_char();
    assert_eq!(window.get_cursor_index(), 2);

    // and it finalizes exactly once
    assert!(window.finalize(10).is_some());
    assert!(window.finalize(10).is_none());
}

#[test]
fn running_session_times_out_when_no_time_remains() {
    let mut window = TypingWindow::new(text_of("abc"), config_with(TypingDuration::ThirtySec));
    window.push_char('a');
    assert!(window.is_running());

    window.tick(29, 30);
    assert!(window.is_running());
    window.tick(30, 30);
    assert!(window.is_finished());
}

#[test]
fn reset_starts_over_with_kept_duration() {
    let mut window = TypingWindow::new(text_of("ab"), config_with(TypingDuration::ThreeMinutes));
    window.push_char('x');
    window.push_char('b');
    assert!(window.is_finished());

    window.reset(text_of("cd"));
    assert_eq!(window.get_cursor_index(), 0);
    assert_eq!(window.stats.errors_count, 0);
    assert!(!window.is_running());
    assert!(!window.is_finished());
    assert_eq!(
        window.get_config().typing_duration,
        TypingDuration::ThreeMinutes
    );
    assert_eq!(window.generated_text, text_of("cd"));
}

#[test]
fn config_builder_swaps_duration() {
    let window = TypingWindow::new(text_of("ab"), config_with(TypingDuration::Minute));
    let window = window.config(config_with(TypingDuration::ThirtySec));
    assert_eq!(
        window.get_config().typing_duration,
        TypingDuration::ThirtySec
    );
}
