use tiddy::cli::Commands;
use tiddy::restart::RestartTimer;
use tiddy::text::contains_chars;
use tiddy::theme::{ColorScheme, CursorStyle};
use tiddy::words::{default_words, generate_words, join_words, languages, order_word_lists};

fn strings(items: &[&str]) -> Vec<String> {
    items.iter().map(|s| s.to_string()).collect()
}

#[test]
fn catalog_lists_json_files() {
    let all = languages();
    assert_eq!(all.len(), 412);
    assert_eq!(all[0], "afrikaans.json");
    assert_eq!(all[411], "zulu.json");
    assert!(all.iter().all(|f| f.ends_with(".json")));
    assert!(all.contains(&"spanish.json".to_string()));
}

#[test]
fn builtin_words() {
    assert_eq!(
        default_words(),
        strings(&["the", "quick", "brown", "fox", "jumps", "over", "the", "lazy", "dog"])
    );
}

#[test]
fn generated_words_come_from_source() {
    let source = strings(&["a", "b", "c", "d", "e"]);
    let drawn = generate_words(3, Some(source.clone()));
    assert_eq!(drawn.len(), 3);
    for w in &drawn {
        assert!(source.contains(w));
    }
    let mut sorted = drawn.clone();
    sorted.sort();
    sorted.dedup();
    assert_eq!(sorted.len(), 3);
    assert_eq!(generate_words(9, Some(strings(&["x"]))), strings(&["x"]));
    assert_eq!(generate_words(0, Some(source)), Vec::<String>::new());
    assert_eq!(generate_words(20, None).len(), 9);
}

#[test]
fn join_uses_single_spaces() {
    let joined: String = join_words(&strings(&["ab", "c", "de"])).into_iter().collect();
    assert_eq!(joined, "ab c de");
    assert!(join_words(&vec![]).is_empty());
    let one: String = join_words(&strings(&["héllo"])).into_iter().collect();
    assert_eq!(one, "héllo");
}

#[test]
fn word_list_order() {
    let ordered = order_word_lists(
        &strings(&["b.json"]),
        &strings(&["a.json", "b.json", "c.json"]),
    );
    assert_eq!(
        ordered,
        strings(&["english.json", "english_10k.json", "b.json", "a.json", "c.json"])
    );
    let without_builtin = order_word_lists(
        &vec![],
        &strings(&["english.json", "a.json", "english_10k.json"]),
    );
    assert_eq!(without_builtin, strings(&["english.json", "english_10k.json", "a.json"]));
}

#[test]
fn substring_search() {
    let hay: Vec<char> = "spanish".chars().collect();
    assert!(contains_chars(&hay, &"pan".chars().collect()));
    assert!(contains_chars(&hay, &vec![]));
    assert!(contains_chars(&hay, &hay.clone()));
    assert!(!contains_chars(&hay, &"spanishx".chars().collect()));
    assert!(!contains_chars(&hay, &"nap".chars().collect()));
}

#[test]
fn command_word_count_and_time_limit() {
    let words = Commands::Words { count: 25 };
    assert_eq!(words.word_count(), 25);
    assert_eq!(words.time_limit(), None);
    let time = Commands::Time { seconds: 30 };
    assert_eq!(time.word_count(), 100);
    assert_eq!(time.time_limit(), Some(30));
}

#[test]
fn themes_and_cursor_styles_cycle() {
    assert_eq!(ColorScheme::get(0), ColorScheme::Gruvbox);
    assert_eq!(ColorScheme::get(3), ColorScheme::Solarized);
    assert_eq!(ColorScheme::get(5), ColorScheme::Dracula);
    assert_eq!(ColorScheme::get(2).name(), "nord");
    assert_eq!(CursorStyle::cycle(0), CursorStyle::Underline);
    assert_eq!(CursorStyle::cycle(4), CursorStyle::Block);
    assert_eq!(CursorStyle::cycle(2).name(), "default");
}

#[test]
fn restart_timer_counts_down_then_fires() {
    let mut t = RestartTimer::new();
    assert_eq!(t.countdown(0), None);
    assert!(!t.step(false, 0));
    assert_eq!(t.armed_at, None);
    assert!(!t.step(true, 1_000));
    assert_eq!(t.armed_at, Some(1_000));
    assert_eq!(t.countdown(1_500), Some(3));
    assert_eq!(t.countdown(3_999), Some(1));
    assert_eq!(t.countdown(4_000), None);
    assert!(!t.step(true, 3_999));
    assert!(t.step(true, 4_000));
    assert_eq!(t.armed_at, None);
}

#[test]
fn restart_timer_cancel() {
    let mut t = RestartTimer::new();
    t.step(true, 0);
    t.cancel();
    assert_eq!(t.countdown(100), None);
    assert!(!t.step(false, 10_000));
}
