use tiddy::popup::{Key, Section};
use tiddy::session::{App, CharMark, PopupStep};

fn passage(text: &str) -> App {
    App::new(1, None, Some(vec![text.to_string()]), &vec![])
}

fn timed_passage(text: &str, seconds: usize) -> App {
    App::new(1, Some(seconds), Some(vec![text.to_string()]), &vec![])
}

fn type_str(app: &mut App, text: &str, now: u64) {
    for ch in text.chars() {
        app.handle_char(ch, now);
    }
}

#[test]
fn word_skip_fills_rest_of_word_then_space() {
    let mut app = passage("the cat sat");
    type_str(&mut app, "the ", 0);
    assert_eq!(app.input(), "the ");
    app.handle_char('c', 10);
    assert_eq!(app.input(), "the c");
    app.handle_char(' ', 20);
    assert_eq!(app.input(), "the c## ");
    assert_eq!(app.input().chars().count(), 8);
}

#[test]
fn word_skip_in_last_word_fills_to_end() {
    let mut app = passage("the cat sat");
    type_str(&mut app, "the cat s", 0);
    app.handle_char(' ', 500);
    assert_eq!(app.input(), "the cat s##");
    assert!(app.is_done(500));
    assert_eq!(app.elapsed_ms(9_000), Some(500));
}

#[test]
fn word_skip_at_start_skips_first_word() {
    let mut app = passage("ab cd");
    app.handle_char(' ', 0);
    assert_eq!(app.input(), "## ");
}

#[test]
fn space_when_input_is_full_changes_nothing() {
    let mut app = passage("ab");
    type_str(&mut app, "ab", 0);
    assert_eq!(app.input(), "ab");
    app.handle_char(' ', 10);
    app.handle_char(' ', 20);
    assert_eq!(app.input(), "ab");
}

#[test]
fn input_never_exceeds_target_length() {
    let mut app = passage("abc de");
    type_str(&mut app, "xxxxxxxxxxxx  yy zz", 0);
    assert!(app.input().chars().count() <= app.target().chars().count());
    assert_eq!(app.input().chars().count(), 6);
}

#[test]
fn time_limited_session_without_keystroke_never_completes() {
    let app = timed_passage("the cat sat", 5);
    assert!(!app.is_done(0));
    assert!(!app.is_done(5_000));
    assert!(!app.is_done(u64::MAX));
    assert_eq!(app.elapsed_ms(100_000), None);
}

#[test]
fn time_limit_counts_from_first_keystroke() {
    let mut app = timed_passage("the cat sat", 5);
    app.handle_char('t', 1_000);
    assert!(!app.is_done(5_999));
    assert!(app.is_done(6_000));
    app.tick(7_500);
    // the end is the instant the limit ran out, not the later poll
    assert_eq!(app.elapsed_ms(20_000), Some(5_000));
}

#[test]
fn keystroke_after_time_limit_is_dropped_and_records_end() {
    let mut app = timed_passage("the cat sat", 2);
    app.handle_char('t', 0);
    app.handle_char('h', 3_000);
    assert_eq!(app.input(), "t");
    assert_eq!(app.elapsed_ms(50_000), Some(2_000));
}

#[test]
fn end_time_is_set_once() {
    let mut app = passage("ab");
    app.handle_char('a', 100);
    assert_eq!(app.elapsed_ms(150), Some(50));
    app.handle_char('b', 400);
    assert_eq!(app.elapsed_ms(1_000), Some(300));
    app.handle_char('c', 900);
    app.tick(2_000);
    assert_eq!(app.elapsed_ms(5_000), Some(300));
}

#[test]
fn clock_starts_on_first_keystroke() {
    let mut app = passage("abc");
    assert_eq!(app.elapsed_ms(10_000), None);
    app.handle_char('a', 1_000);
    assert_eq!(app.elapsed_ms(1_500), Some(500));
    assert_eq!(app.elapsed_ms(900), Some(0));
}

#[test]
fn backspace_removes_one_character() {
    let mut app = passage("abc def");
    type_str(&mut app, "abx", 0);
    app.handle_backspace();
    assert_eq!(app.input(), "ab");
    app.handle_backspace();
    app.handle_backspace();
    app.handle_backspace();
    assert_eq!(app.input(), "");
}

#[test]
fn backspace_after_completion_keeps_end() {
    let mut app = passage("ab cd");
    app.handle_char('a', 100);
    type_str(&mut app, "b cd", 400);
    assert!(app.is_done(400));
    app.handle_backspace();
    assert_eq!(app.input(), "ab c");
    assert_eq!(app.elapsed_ms(1_000), Some(300));
    app.handle_ctrl_backspace();
    assert_eq!(app.input(), "ab ");
    assert_eq!(app.elapsed_ms(2_000), Some(300));
    app.handle_char('c', 900);
    assert_eq!(app.input(), "ab c");
    assert_eq!(app.elapsed_ms(3_000), Some(300));
}

#[test]
fn ctrl_backspace_deletes_word_and_trailing_spaces() {
    let mut app = passage("the cat sat on");
    type_str(&mut app, "the ca", 0);
    app.handle_ctrl_backspace();
    assert_eq!(app.input(), "the ");
    app.handle_ctrl_backspace();
    assert_eq!(app.input(), "");
    app.handle_ctrl_backspace();
    assert_eq!(app.input(), "");
}

#[test]
fn ctrl_backspace_after_space_deletes_previous_word() {
    let mut app = passage("the cat sat on");
    type_str(&mut app, "the cat ", 0);
    app.handle_ctrl_backspace();
    assert_eq!(app.input(), "the ");
}

#[test]
fn accuracy_excludes_filler() {
    let mut app = passage("the cat sat");
    type_str(&mut app, "the c ", 0);
    assert_eq!(app.input(), "the c## ");
    assert_eq!(app.accuracy_counts(), (6, 6));
}

#[test]
fn accuracy_of_empty_input() {
    let app = passage("the cat sat");
    assert_eq!(app.accuracy_counts(), (0, 0));
}

#[test]
fn accuracy_counts_wrong_characters() {
    let mut app = passage("the cat sat");
    type_str(&mut app, "tha", 0);
    assert_eq!(app.accuracy_counts(), (2, 3));
    assert_eq!(app.input_len(), 3);
}

#[test]
fn session_draws_requested_number_of_words() {
    let words: Vec<String> = ["a", "b", "c", "d"].iter().map(|s| s.to_string()).collect();
    let mut app = App::new(3, None, Some(words.clone()), &vec![]);
    let target = app.target();
    let drawn: Vec<&str> = target.split(' ').collect();
    assert_eq!(drawn.len(), 3);
    for w in &drawn {
        assert!(words.iter().any(|x| x == w));
    }
    type_str(&mut app, "a", 0);
    app.restart();
    assert_eq!(app.input(), "");
    assert_eq!(app.elapsed_ms(1_000), None);
    assert_eq!(app.target().split(' ').count(), 3);
}

#[test]
fn session_draws_no_more_words_than_available() {
    let words: Vec<String> = vec!["x".to_string(), "y".to_string()];
    let app = App::new(10, None, Some(words), &vec![]);
    let target = app.target();
    assert_eq!(target.len(), 3);
    assert!(target == "x y" || target == "y x");
}

#[test]
fn session_without_word_list_uses_builtin_words() {
    let builtin = ["the", "quick", "brown", "fox", "jumps", "over", "lazy", "dog"];
    let app = App::new(4, None, None, &vec![]);
    let target = app.target();
    assert_eq!(target.split(' ').count(), 4);
    for w in target.split(' ') {
        assert!(builtin.contains(&w));
    }
}

#[test]
fn marks_show_progress() {
    let mut app = passage("ab cd");
    type_str(&mut app, "ax", 0);
    assert_eq!(
        app.marks(),
        vec![
            ('a', CharMark::Correct),
            ('x', CharMark::Wrong),
            (' ', CharMark::Cursor),
            ('c', CharMark::Pending),
            ('d', CharMark::Pending),
        ]
    );
}

#[test]
fn marks_show_skipped_positions_with_passage_text() {
    let mut app = passage("ab cd");
    app.handle_char(' ', 0);
    assert_eq!(
        app.marks(),
        vec![
            ('a', CharMark::Skipped),
            ('b', CharMark::Skipped),
            (' ', CharMark::Correct),
            ('c', CharMark::Cursor),
            ('d', CharMark::Pending),
        ]
    );
}

#[test]
fn closed_selector_passes_keys_through() {
    let mut app = passage("abc");
    assert_eq!(app.handle_popup_key(Key::Enter), PopupStep::PassThrough);
    assert!(!app.popup_manager.is_open());
}

#[test]
fn selector_applies_theme_and_cursor_style() {
    let mut app = passage("abc");
    app.toggle_popup();
    assert!(app.popup_manager.is_open());
    assert_eq!(app.handle_popup_key(Key::Right), PopupStep::Consumed);
    assert_eq!(app.handle_popup_key(Key::Down), PopupStep::Consumed);
    assert_eq!(app.handle_popup_key(Key::Enter), PopupStep::Consumed);
    assert_eq!(app.scheme_index, 1);
    assert!(!app.popup_manager.is_open());
    app.toggle_popup();
    assert_eq!(app.popup_manager.current_section(), Section::WordList);
    app.handle_popup_key(Key::Left);
    assert_eq!(app.popup_manager.current_section(), Section::CursorStyle);
    app.handle_popup_key(Key::Char('b'));
    assert_eq!(app.handle_popup_key(Key::Enter), PopupStep::Consumed);
    assert_eq!(app.cursor_style_index, 1);
}

#[test]
fn selector_escape_is_consumed() {
    let mut app = passage("abc");
    app.toggle_popup();
    assert_eq!(app.handle_popup_key(Key::Esc), PopupStep::Consumed);
    assert!(!app.popup_manager.is_open());
}

#[test]
fn selector_word_list_is_handed_back_to_load() {
    let mut app = App::new(2, None, Some(vec!["one".to_string(), "two".to_string()]), &vec![]);
    app.toggle_popup();
    let step = app.handle_popup_key(Key::Enter);
    assert_eq!(step, PopupStep::LoadWordList("english.json".to_string()));
    type_str(&mut app, "o", 0);
    app.use_word_list(Some(vec!["zz yy".to_string()]));
    assert_eq!(app.target(), "zz yy");
    assert_eq!(app.input(), "");
    assert_eq!(app.elapsed_ms(100), None);
}
