use tiddy::filter::filter_choices;
use tiddy::popup::{Key, PopupAction, PopupManager, Section, WordListPopup};

fn strings(items: &[&str]) -> Vec<String> {
    items.iter().map(|s| s.to_string()).collect()
}

fn open_selector() -> PopupManager {
    let mut p = PopupManager::new(&vec![]);
    p.toggle();
    p
}

#[test]
fn empty_filter_keeps_every_item() {
    let items = strings(&["b", "A", "c", "A"]);
    assert_eq!(filter_choices(&items, ""), items);
}

#[test]
fn filter_is_case_insensitive_substring() {
    let items = strings(&["Spanish.json", "french.json", "SPANISH_1k.json", "espagnol"]);
    assert_eq!(filter_choices(&items, "span"), strings(&["Spanish.json", "SPANISH_1k.json"]));
    assert_eq!(filter_choices(&items, "SPAN"), strings(&["Spanish.json", "SPANISH_1k.json"]));
    assert_eq!(filter_choices(&items, "zzz"), Vec::<String>::new());
}

#[test]
fn filter_keeps_master_order() {
    let items = strings(&["cab", "abc", "xyz", "bca"]);
    assert_eq!(filter_choices(&items, "ab"), strings(&["cab", "abc"]));
}

#[test]
fn selector_filter_span_finds_spanish() {
    let mut p = open_selector();
    for c in "span".chars() {
        assert_eq!(p.handle_key(Key::Char(c)), PopupAction::Nothing);
    }
    let shown = p.current_filtered();
    assert!(shown.contains(&"spanish.json".to_string()));
    assert!(shown.contains(&"spanish_1k.json".to_string()));
    assert!(!shown.contains(&"french.json".to_string()));
    assert_eq!(p.handle_key(Key::Enter), PopupAction::SelectWordList("spanish.json".to_string()));
    assert!(!p.is_open());
}

#[test]
fn selector_filter_is_case_insensitive() {
    let mut p = open_selector();
    for c in "SPAN".chars() {
        p.handle_key(Key::Char(c));
    }
    assert!(p.current_filtered().contains(&"spanish.json".to_string()));
}

#[test]
fn selector_down_stops_at_last_item() {
    let mut p = open_selector();
    p.handle_key(Key::Right);
    assert_eq!(p.current_section(), Section::ColorScheme);
    for _ in 0..10 {
        p.handle_key(Key::Down);
    }
    assert_eq!(p.selected(Section::ColorScheme), 3);
    assert_eq!(p.handle_key(Key::Enter), PopupAction::SelectColorScheme(3));
}

#[test]
fn selector_down_stops_at_last_filtered_item() {
    let mut p = open_selector();
    p.handle_key(Key::Right);
    p.handle_key(Key::Right);
    p.handle_key(Key::Char('e'));
    // "underline" and "default" match
    for _ in 0..5 {
        p.handle_key(Key::Down);
    }
    assert_eq!(p.selected(Section::CursorStyle), 1);
    assert_eq!(p.handle_key(Key::Enter), PopupAction::SelectCursorStyle(2));
}

#[test]
fn selection_reports_master_index_not_filtered_position() {
    let mut p = open_selector();
    p.handle_key(Key::Right);
    for c in "sol".chars() {
        p.handle_key(Key::Char(c));
    }
    assert_eq!(p.selected(Section::ColorScheme), 0);
    assert_eq!(p.handle_key(Key::Enter), PopupAction::SelectColorScheme(3));
}

#[test]
fn selector_up_stops_at_top() {
    let mut p = open_selector();
    p.handle_key(Key::Up);
    assert_eq!(p.selected(Section::WordList), 0);
}

#[test]
fn changing_section_clears_filter() {
    let mut p = open_selector();
    p.handle_key(Key::Char('n'));
    assert_eq!(p.filter_text(), "n");
    p.handle_key(Key::Right);
    assert_eq!(p.filter_text(), "");
    p.handle_key(Key::Char('o'));
    p.handle_key(Key::Left);
    assert_eq!(p.filter_text(), "");
    assert_eq!(p.current_section(), Section::WordList);
}

#[test]
fn sections_wrap_both_ways() {
    let mut p = open_selector();
    p.handle_key(Key::Left);
    assert_eq!(p.current_section(), Section::CursorStyle);
    p.handle_key(Key::Right);
    assert_eq!(p.current_section(), Section::WordList);
    p.handle_key(Key::Right);
    p.handle_key(Key::Right);
    p.handle_key(Key::Right);
    assert_eq!(p.current_section(), Section::WordList);
}

#[test]
fn word_list_window_follows_selection() {
    let mut p = open_selector();
    for _ in 0..6 {
        p.handle_key(Key::Down);
    }
    assert_eq!(p.selected(Section::WordList), 6);
    assert_eq!(p.visible_start(), 2);
    for _ in 0..5 {
        p.handle_key(Key::Up);
    }
    assert_eq!(p.selected(Section::WordList), 1);
    assert_eq!(p.visible_start(), 1);
}

#[test]
fn filter_edit_resets_selection_and_window() {
    let mut p = open_selector();
    for _ in 0..7 {
        p.handle_key(Key::Down);
    }
    p.handle_key(Key::Char('e'));
    assert_eq!(p.selected(Section::WordList), 0);
    assert_eq!(p.visible_start(), 0);
    p.handle_key(Key::Down);
    p.handle_key(Key::Backspace);
    assert_eq!(p.filter_text(), "");
    assert_eq!(p.selected(Section::WordList), 0);
    p.handle_key(Key::Backspace);
    assert_eq!(p.filter_text(), "");
}

#[test]
fn escape_closes_selector() {
    let mut p = open_selector();
    p.handle_key(Key::Char('x'));
    assert_eq!(p.handle_key(Key::Esc), PopupAction::Close);
    assert!(!p.is_open());
    assert_eq!(p.filter_text(), "");
}

#[test]
fn enter_without_matches_does_nothing() {
    let mut p = open_selector();
    for c in "qqqq".chars() {
        p.handle_key(Key::Char(c));
    }
    assert!(p.current_filtered().is_empty());
    p.handle_key(Key::Down);
    assert_eq!(p.selected(Section::WordList), 0);
    assert_eq!(p.handle_key(Key::Enter), PopupAction::Nothing);
    assert!(p.is_open());
}

#[test]
fn other_keys_are_absorbed() {
    let mut p = open_selector();
    assert_eq!(p.handle_key(Key::Other), PopupAction::Nothing);
    assert!(p.is_open());
}

#[test]
fn closed_selector_ignores_keys() {
    let mut p = PopupManager::new(&vec![]);
    assert_eq!(p.handle_key(Key::Enter), PopupAction::Nothing);
    assert_eq!(p.handle_key(Key::Char('a')), PopupAction::Nothing);
    assert_eq!(p.filter_text(), "");
    assert!(!p.is_open());
}

#[test]
fn toggle_opens_on_word_lists() {
    let mut p = open_selector();
    p.handle_key(Key::Right);
    p.handle_key(Key::Char('d'));
    p.toggle();
    assert!(!p.is_open());
    assert_eq!(p.current_section(), Section::ColorScheme);
    p.toggle();
    assert!(p.is_open());
    assert_eq!(p.current_section(), Section::WordList);
    assert_eq!(p.filter_text(), "");
}

#[test]
fn toggle_and_close() {
    let mut p = PopupManager::new(&vec![]);
    p.toggle();
    assert!(p.is_open());
    p.toggle();
    assert!(!p.is_open());
    p.toggle();
    p.close();
    assert!(!p.is_open());
}

#[test]
fn word_lists_start_with_builtin_lists() {
    let p = PopupManager::new(&vec![]);
    let lists = p.choices(Section::WordList);
    assert_eq!(lists.len(), 2 + 410);
    assert_eq!(lists[0], "english.json");
    assert_eq!(lists[1], "english_10k.json");
    assert_eq!(lists[2], "afrikaans.json");
    assert_eq!(p.choices(Section::ColorScheme), &strings(&["gruvbox", "dracula", "nord", "solarized"]));
    assert_eq!(p.choices(Section::CursorStyle), &strings(&["underline", "block", "default"]));
}

#[test]
fn refresh_puts_downloaded_lists_after_builtin_ones() {
    let mut p = open_selector();
    p.handle_key(Key::Down);
    p.refresh_languages(&strings(&["german.json", "zulu.json"]));
    let lists = p.choices(Section::WordList);
    assert_eq!(lists.len(), 2 + 2 + 408);
    assert_eq!(lists[2], "german.json");
    assert_eq!(lists[3], "zulu.json");
    assert_eq!(lists[4], "afrikaans.json");
    assert_eq!(lists.iter().filter(|s| s.as_str() == "german.json").count(), 1);
    assert_eq!(lists.iter().filter(|s| s.as_str() == "english.json").count(), 1);
    assert_eq!(lists.iter().filter(|s| s.as_str() == "english_10k.json").count(), 1);
    assert_eq!(p.selected(Section::WordList), 0);
    assert_eq!(p.visible_start(), 0);
}

#[test]
fn word_list_popup_moves_within_bounds() {
    let mut w = WordListPopup::new(strings(&["a", "b"]));
    assert_eq!(w.selected, 0);
    w.previous();
    assert_eq!(w.selected, 0);
    w.next();
    w.next();
    assert_eq!(w.selected, 1);
    w.previous();
    assert_eq!(w.selected, 0);
    let mut empty = WordListPopup::new(vec![]);
    empty.next();
    assert_eq!(empty.selected, 0);
}
