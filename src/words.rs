use rand::seq::SliceRandom;
use vstd::prelude::*;
use vstd::string::*;

use crate::text::chars_of;

verus! {

/// Number of word lists in the catalog of known lists.
pub const LANGUAGE_COUNT: usize = 412;

/// The characters of each word, in order.
pub open spec fn word_views(words: Seq<String>) -> Seq<Seq<char>> {
    words.map_values(|w: String| w@)
}

/// The words joined into one passage with single spaces between them.
pub open spec fn joined(words: Seq<Seq<char>>) -> Seq<char>
    decreases words.len(),
{
    if words.len() == 0 {
        Seq::empty()
    } else if words.len() == 1 {
        words[0]
    } else {
        joined(words.drop_last()).push(' ') + words.last()
    }
}

/// The built-in words used when no word list can be loaded.
pub open spec fn builtin_word_views() -> Seq<Seq<char>> {
    seq!["the"@, "quick"@, "brown"@, "fox"@, "jumps"@, "over"@, "the"@, "lazy"@, "dog"@]
}

/// The built-in word set that stands in for a list that cannot be loaded.
pub fn default_words() -> (r: Vec<String>)
    ensures
        word_views(r@) == builtin_word_views(),
{
    let r = vec![
        String::from_str("the"),
        String::from_str("quick"),
        String::from_str("brown"),
        String::from_str("fox"),
        String::from_str("jumps"),
        String::from_str("over"),
        String::from_str("the"),
        String::from_str("lazy"),
        String::from_str("dog"),
    ];
    assert(word_views(r@) =~= builtin_word_views());
    r
}

/// The names of the known word lists, in catalog order.
pub open spec fn catalog_names() -> Seq<Seq<char>> {
    seq![
        "afrikaans"@, "afrikaans_10k"@, "afrikaans_1k"@, "albanian"@, "albanian_1k"@, "amharic"@,
        "amharic_1k"@, "amharic_5k"@, "arabic"@, "arabic_10k"@, "arabic_egypt"@,
        "arabic_egypt_1k"@, "armenian"@, "armenian_1k"@, "armenian_western"@,
        "armenian_western_1k"@, "azerbaijani"@, "azerbaijani_1k"@, "bangla"@, "bangla_10k"@,
        "bangla_letters"@, "bashkir"@, "belarusian"@, "belarusian_100k"@, "belarusian_10k"@,
        "belarusian_1k"@, "belarusian_25k"@, "belarusian_50k"@, "belarusian_5k"@,
        "belarusian_lacinka"@, "belarusian_lacinka_1k"@, "bosnian"@, "bosnian_4k"@, "bulgarian"@,
        "bulgarian_latin"@, "catalan"@, "catalan_1k"@, "chinese_simplified"@,
        "chinese_simplified_10k"@, "chinese_simplified_1k"@, "chinese_simplified_5k"@,
        "chinese_simplified_50k"@, "chinese_traditional"@, "code_arduino"@, "code_assembly"@,
        "code_bash"@, "code_brainfck"@, "code_c++"@, "code_c"@, "code_cobol"@,
        "code_common_lisp"@, "code_csharp"@, "code_css"@, "code_dart"@, "code_elixir"@,
        "code_fortran"@, "code_fsharp"@, "code_gdscript"@, "code_gdscript_2"@, "code_go"@,
        "code_haskell"@, "code_html"@, "code_java"@, "code_javascript"@, "code_javascript_1k"@,
        "code_javascript_react"@, "code_jule"@, "code_julia"@, "code_kotlin"@, "code_latex"@,
        "code_lua"@, "code_luau"@, "code_matlab"@, "code_nim"@, "code_nix"@, "code_odin"@,
        "code_ook"@, "code_opencl"@, "code_pascal"@, "code_perl"@, "code_php"@,
        "code_powershell"@, "code_python"@, "code_python_1k"@, "code_python_2k"@,
        "code_python_5k"@, "code_r"@, "code_r_2k"@, "code_rockstar"@, "code_ruby"@, "code_rust"@,
        "code_scala"@, "code_sql"@, "code_swift"@, "code_systemverilog"@, "code_typescript"@,
        "code_typst"@, "code_v"@, "code_vim"@, "code_vimscript"@, "code_visual_basic"@,
        "code_zig"@, "croatian"@, "croatian_1k"@, "czech"@, "czech_10k"@, "czech_1k"@, "danish"@,
        "danish_10k"@, "danish_1k"@, "docker_file"@, "dutch"@, "dutch_10k"@, "dutch_1k"@,
        "english"@, "english_10k"@, "english_1k"@, "english_25k"@, "english_450k"@,
        "english_5k"@, "english_commonly_misspelled"@, "english_contractions"@,
        "english_doubleletter"@, "english_medical"@, "english_old"@, "english_shakespearean"@,
        "esperanto"@, "esperanto_10k"@, "esperanto_1k"@, "esperanto_25k"@, "esperanto_36k"@,
        "esperanto_h_sistemo"@, "esperanto_h_sistemo_10k"@, "esperanto_h_sistemo_1k"@,
        "esperanto_h_sistemo_25k"@, "esperanto_h_sistemo_36k"@, "esperanto_x_sistemo"@,
        "esperanto_x_sistemo_10k"@, "esperanto_x_sistemo_1k"@, "esperanto_x_sistemo_25k"@,
        "esperanto_x_sistemo_36k"@, "estonian"@, "estonian_10k"@, "estonian_1k"@, "estonian_5k"@,
        "euskera"@, "filipino"@, "filipino_1k"@, "finnish"@, "finnish_10k"@, "finnish_1k"@,
        "french"@, "french_10k"@, "french_1k"@, "french_2k"@, "french_600k"@, "french_bitoduc"@,
        "frisian"@, "frisian_1k"@, "friulian"@, "galician"@, "georgian"@, "german"@,
        "german_10k"@, "german_1k"@, "german_250k"@, "git"@, "greek"@, "greek_10k"@, "greek_1k"@,
        "greek_25k"@, "greek_5k"@, "greeklish"@, "greeklish_10k"@, "greeklish_1k"@,
        "greeklish_25k"@, "greeklish_5k"@, "gujarati"@, "gujarati_1k"@, "hausa"@, "hausa_1k"@,
        "hebrew"@, "hebrew_10k"@, "hebrew_1k"@, "hebrew_5k"@, "hindi"@, "hindi_1k"@, "hinglish"@,
        "hungarian"@, "hungarian_2k"@, "icelandic_1k"@, "indonesian"@, "indonesian_10k"@,
        "indonesian_1k"@, "irish"@, "italian"@, "italian_1k"@, "italian_280k"@, "italian_60k"@,
        "italian_7k"@, "japanese_hiragana"@, "japanese_katakana"@, "japanese_romaji"@,
        "japanese_romaji_1k"@, "jyutping"@, "kabyle"@, "kabyle_10k"@, "kabyle_1k"@, "kabyle_2k"@,
        "kabyle_5k"@, "kannada"@, "kazakh"@, "kazakh_1k"@, "khmer"@, "klingon"@, "klingon_1k"@,
        "korean"@, "korean_1k"@, "korean_5k"@, "kurdish_central"@, "kurdish_central_2k"@,
        "kurdish_central_4k"@, "kyrgyz"@, "kyrgyz_1k"@, "latin"@, "latvian"@, "latvian_1k"@,
        "league_of_legends"@, "lithuanian"@, "lithuanian_1k"@, "lithuanian_3k"@, "lojban_cmavo"@,
        "lojban_gismu"@, "lorem_ipsum"@, "macedonian"@, "macedonian_10k"@, "macedonian_1k"@,
        "macedonian_75k"@, "malagasy"@, "malagasy_1k"@, "malay"@, "malay_1k"@, "malayalam"@,
        "maltese"@, "maltese_1k"@, "maori_1k"@, "marathi"@, "mongolian"@, "mongolian_10k"@,
        "myanmar_burmese"@, "nepali"@, "nepali_1k"@, "nepali_romanized"@, "norwegian_bokmal"@,
        "norwegian_bokmal_10k"@, "norwegian_bokmal_150k"@, "norwegian_bokmal_1k"@,
        "norwegian_bokmal_5k"@, "norwegian_bokmal_600k"@, "norwegian_nynorsk"@,
        "norwegian_nynorsk_100k"@, "norwegian_nynorsk_10k"@, "norwegian_nynorsk_1k"@,
        "norwegian_nynorsk_400k"@, "norwegian_nynorsk_5k"@, "occitan"@, "occitan_10k"@,
        "occitan_1k"@, "occitan_2k"@, "occitan_5k"@, "oromo"@, "oromo_1k"@, "oromo_5k"@,
        "pashto"@, "persian"@, "persian_1k"@, "persian_20k"@, "persian_5k"@,
        "persian_romanized"@, "pig_latin"@, "pinyin"@, "pinyin_10k"@, "pinyin_1k"@, "polish"@,
        "polish_10k"@, "polish_200k"@, "polish_20k"@, "polish_2k"@, "polish_40k"@, "polish_5k"@,
        "portuguese"@, "portuguese_1k"@, "portuguese_320k"@, "portuguese_3k"@,
        "portuguese_550k"@, "portuguese_5k"@, "portuguese_acentos_e_cedilha"@, "quenya"@,
        "romanian"@, "romanian_100k"@, "romanian_10k"@, "romanian_1k"@, "romanian_200k"@,
        "romanian_25k"@, "romanian_50k"@, "romanian_5k"@, "russian"@, "russian_10k"@,
        "russian_1k"@, "russian_25k"@, "russian_375k"@, "russian_50k"@, "russian_5k"@,
        "russian_abbreviations"@, "russian_contractions"@, "russian_contractions_1k"@,
        "sanskrit"@, "sanskrit_roman"@, "santali"@, "serbian"@, "serbian_10k"@, "serbian_latin"@,
        "serbian_latin_10k"@, "shona"@, "shona_1k"@, "sinhala"@, "slovak"@, "slovak_10k"@,
        "slovak_1k"@, "slovenian"@, "slovenian_1k"@, "slovenian_5k"@, "spanish"@, "spanish_10k"@,
        "spanish_1k"@, "spanish_650k"@, "swahili_1k"@, "swedish"@, "swedish_1k"@,
        "swedish_diacritics"@, "swiss_german"@, "swiss_german_1k"@, "swiss_german_2k"@, "tamil"@,
        "tamil_1k"@, "tamil_old"@, "tanglish"@, "tatar"@, "tatar_1k"@, "tatar_5k"@, "tatar_9k"@,
        "tatar_crimean"@, "tatar_crimean_10k"@, "tatar_crimean_15k"@, "tatar_crimean_1k"@,
        "tatar_crimean_5k"@, "tatar_crimean_cyrillic"@, "tatar_crimean_cyrillic_10k"@,
        "tatar_crimean_cyrillic_15k"@, "tatar_crimean_cyrillic_1k"@,
        "tatar_crimean_cyrillic_5k"@, "telugu"@, "telugu_1k"@, "thai"@, "thai_10k"@, "thai_1k"@,
        "thai_20k"@, "thai_50k"@, "thai_5k"@, "thai_60k"@, "tibetan"@, "tibetan_1k"@,
        "toki_pona"@, "toki_pona_ku_lili"@, "toki_pona_ku_suli"@, "turkish"@, "turkish_1k"@,
        "turkish_5k"@, "twitch_emotes"@, "typing_of_the_dead"@, "udmurt"@, "ukrainian"@,
        "ukrainian_10k"@, "ukrainian_1k"@, "ukrainian_50k"@, "ukrainian_endings"@,
        "ukrainian_latynka"@, "ukrainian_latynka_10k"@, "ukrainian_latynka_1k"@,
        "ukrainian_latynka_50k"@, "ukrainian_latynka_endings"@, "urdish"@, "urdu"@, "urdu_1k"@,
        "urdu_5k"@, "uzbek"@, "uzbek_1k"@, "uzbek_70k"@, "vietnamese"@, "vietnamese_1k"@,
        "vietnamese_5k"@, "viossa"@, "viossa_njutro"@, "welsh"@, "welsh_1k"@, "wordle"@,
        "wordle_1k"@, "xhosa"@, "xhosa_3k"@, "yiddish"@, "yoruba_1k"@, "zulu"@,
    ]
}

/// The catalog of known word-list files: each list name followed by `.json`.
pub open spec fn catalog() -> Seq<Seq<char>> {
    catalog_names().map_values(|name: Seq<char>| name + ".json"@)
}

fn language_names() -> (r: Vec<&'static str>)
    ensures
        r@.len() == LANGUAGE_COUNT,
        forall|i: int| 0 <= i < r@.len() ==> #[trigger] r@[i]@ == catalog_names()[i],
{
    let r = vec![
        "afrikaans", "afrikaans_10k", "afrikaans_1k", "albanian", "albanian_1k", "amharic",
        "amharic_1k", "amharic_5k", "arabic", "arabic_10k", "arabic_egypt", "arabic_egypt_1k",
        "armenian", "armenian_1k", "armenian_western", "armenian_western_1k", "azerbaijani",
        "azerbaijani_1k", "bangla", "bangla_10k", "bangla_letters", "bashkir", "belarusian",
        "belarusian_100k", "belarusian_10k", "belarusian_1k", "belarusian_25k", "belarusian_50k",
        "belarusian_5k", "belarusian_lacinka", "belarusian_lacinka_1k", "bosnian", "bosnian_4k",
        "bulgarian", "bulgarian_latin", "catalan", "catalan_1k", "chinese_simplified",
        "chinese_simplified_10k", "chinese_simplified_1k", "chinese_simplified_5k",
        "chinese_simplified_50k", "chinese_traditional", "code_arduino", "code_assembly",
        "code_bash", "code_brainfck", "code_c++", "code_c", "code_cobol", "code_common_lisp",
        "code_csharp", "code_css", "code_dart", "code_elixir", "code_fortran", "code_fsharp",
        "code_gdscript", "code_gdscript_2", "code_go", "code_haskell", "code_html", "code_java",
        "code_javascript", "code_javascript_1k", "code_javascript_react", "code_jule",
        "code_julia", "code_kotlin", "code_latex", "code_lua", "code_luau", "code_matlab",
        "code_nim", "code_nix", "code_odin", "code_ook", "code_opencl", "code_pascal",
        "code_perl", "code_php", "code_powershell", "code_python", "code_python_1k",
        "code_python_2k", "code_python_5k", "code_r", "code_r_2k", "code_rockstar", "code_ruby",
        "code_rust", "code_scala", "code_sql", "code_swift", "code_systemverilog",
        "code_typescript", "code_typst", "code_v", "code_vim", "code_vimscript",
        "code_visual_basic", "code_zig", "croatian", "croatian_1k", "czech", "czech_10k",
        "czech_1k", "danish", "danish_10k", "danish_1k", "docker_file", "dutch", "dutch_10k",
        "dutch_1k", "english", "english_10k", "english_1k", "english_25k", "english_450k",
        "english_5k", "english_commonly_misspelled", "english_contractions",
        "english_doubleletter", "english_medical", "english_old", "english_shakespearean",
        "esperanto", "esperanto_10k", "esperanto_1k", "esperanto_25k", "esperanto_36k",
        "esperanto_h_sistemo", "esperanto_h_sistemo_10k", "esperanto_h_sistemo_1k",
        "esperanto_h_sistemo_25k", "esperanto_h_sistemo_36k", "esperanto_x_sistemo",
        "esperanto_x_sistemo_10k", "esperanto_x_sistemo_1k", "esperanto_x_sistemo_25k",
        "esperanto_x_sistemo_36k", "estonian", "estonian_10k", "estonian_1k", "estonian_5k",
        "euskera", "filipino", "filipino_1k", "finnish", "finnish_10k", "finnish_1k", "french",
        "french_10k", "french_1k", "french_2k", "french_600k", "french_bitoduc", "frisian",
        "frisian_1k", "friulian", "galician", "georgian", "german", "german_10k", "german_1k",
        "german_250k", "git", "greek", "greek_10k", "greek_1k", "greek_25k", "greek_5k",
        "greeklish", "greeklish_10k", "greeklish_1k", "greeklish_25k", "greeklish_5k",
        "gujarati", "gujarati_1k", "hausa", "hausa_1k", "hebrew", "hebrew_10k", "hebrew_1k",
        "hebrew_5k", "hindi", "hindi_1k", "hinglish", "hungarian", "hungarian_2k",
        "icelandic_1k", "indonesian", "indonesian_10k", "indonesian_1k", "irish", "italian",
        "italian_1k", "italian_280k", "italian_60k", "italian_7k", "japanese_hiragana",
        "japanese_katakana", "japanese_romaji", "japanese_romaji_1k", "jyutping", "kabyle",
        "kabyle_10k", "kabyle_1k", "kabyle_2k", "kabyle_5k", "kannada", "kazakh", "kazakh_1k",
        "khmer", "klingon", "klingon_1k", "korean", "korean_1k", "korean_5k", "kurdish_central",
        "kurdish_central_2k", "kurdish_central_4k", "kyrgyz", "kyrgyz_1k", "latin", "latvian",
        "latvian_1k", "league_of_legends", "lithuanian", "lithuanian_1k", "lithuanian_3k",
        "lojban_cmavo", "lojban_gismu", "lorem_ipsum", "macedonian", "macedonian_10k",
        "macedonian_1k", "macedonian_75k", "malagasy", "malagasy_1k", "malay", "malay_1k",
        "malayalam", "maltese", "maltese_1k", "maori_1k", "marathi", "mongolian",
        "mongolian_10k", "myanmar_burmese", "nepali", "nepali_1k", "nepali_romanized",
        "norwegian_bokmal", "norwegian_bokmal_10k", "norwegian_bokmal_150k",
        "norwegian_bokmal_1k", "norwegian_bokmal_5k", "norwegian_bokmal_600k",
        "norwegian_nynorsk", "norwegian_nynorsk_100k", "norwegian_nynorsk_10k",
        "norwegian_nynorsk_1k", "norwegian_nynorsk_400k", "norwegian_nynorsk_5k", "occitan",
        "occitan_10k", "occitan_1k", "occitan_2k", "occitan_5k", "oromo", "oromo_1k", "oromo_5k",
        "pashto", "persian", "persian_1k", "persian_20k", "persian_5k", "persian_romanized",
        "pig_latin", "pinyin", "pinyin_10k", "pinyin_1k", "polish", "polish_10k", "polish_200k",
        "polish_20k", "polish_2k", "polish_40k", "polish_5k", "portuguese", "portuguese_1k",
        "portuguese_320k", "portuguese_3k", "portuguese_550k", "portuguese_5k",
        "portuguese_acentos_e_cedilha", "quenya", "romanian", "romanian_100k", "romanian_10k",
        "romanian_1k", "romanian_200k", "romanian_25k", "romanian_50k", "romanian_5k", "russian",
        "russian_10k", "russian_1k", "russian_25k", "russian_375k", "russian_50k", "russian_5k",
        "russian_abbreviations", "russian_contractions", "russian_contractions_1k", "sanskrit",
        "sanskrit_roman", "santali", "serbian", "serbian_10k", "serbian_latin",
        "serbian_latin_10k", "shona", "shona_1k", "sinhala", "slovak", "slovak_10k", "slovak_1k",
        "slovenian", "slovenian_1k", "slovenian_5k", "spanish", "spanish_10k", "spanish_1k",
        "spanish_650k", "swahili_1k", "swedish", "swedish_1k", "swedish_diacritics",
        "swiss_german", "swiss_german_1k", "swiss_german_2k", "tamil", "tamil_1k", "tamil_old",
        "tanglish", "tatar", "tatar_1k", "tatar_5k", "tatar_9k", "tatar_crimean",
        "tatar_crimean_10k", "tatar_crimean_15k", "tatar_crimean_1k", "tatar_crimean_5k",
        "tatar_crimean_cyrillic", "tatar_crimean_cyrillic_10k", "tatar_crimean_cyrillic_15k",
        "tatar_crimean_cyrillic_1k", "tatar_crimean_cyrillic_5k", "telugu", "telugu_1k", "thai",
        "thai_10k", "thai_1k", "thai_20k", "thai_50k", "thai_5k", "thai_60k", "tibetan",
        "tibetan_1k", "toki_pona", "toki_pona_ku_lili", "toki_pona_ku_suli", "turkish",
        "turkish_1k", "turkish_5k", "twitch_emotes", "typing_of_the_dead", "udmurt", "ukrainian",
        "ukrainian_10k", "ukrainian_1k", "ukrainian_50k", "ukrainian_endings",
        "ukrainian_latynka", "ukrainian_latynka_10k", "ukrainian_latynka_1k",
        "ukrainian_latynka_50k", "ukrainian_latynka_endings", "urdish", "urdu", "urdu_1k",
        "urdu_5k", "uzbek", "uzbek_1k", "uzbek_70k", "vietnamese", "vietnamese_1k",
        "vietnamese_5k", "viossa", "viossa_njutro", "welsh", "welsh_1k", "wordle", "wordle_1k",
        "xhosa", "xhosa_3k", "yiddish", "yoruba_1k", "zulu",
    ];
    assert(r@.len() == catalog_names().len());
    r
}

/// A word-list file name: some list name followed by `.json`.
pub open spec fn is_list_file(file: Seq<char>) -> bool {
    exists|name: Seq<char>| file == name + ".json"@
}

/// The catalog of known word-list files, each a list name followed by `.json`.
pub fn languages() -> (r: Vec<String>)
    ensures
        word_views(r@) == catalog(),
        r@.len() == LANGUAGE_COUNT,
        forall|i: int| 0 <= i < r@.len() ==> is_list_file(#[trigger] r@[i]@),
{
    let names = language_names();
    let mut r: Vec<String> = Vec::new();
    let mut i: usize = 0;
    while i < names.len()
        invariant
            i <= names@.len(),
            r@.len() == i,
            forall|k: int| 0 <= k < i ==> #[trigger] r@[k]@ == names@[k]@ + ".json"@,
        decreases names@.len() - i,
    {
        let mut file = String::from_str(names[i]);
        file.append(".json");
        r.push(file);
        i = i + 1;
    }
    assert(word_views(r@) =~= catalog());
    assert forall|k: int| 0 <= k < r@.len() implies is_list_file(#[trigger] r@[k]@) by {
        assert(r@[k]@ == names@[k]@ + ".json"@);
    }
    r
}

/// The characters of `words`, joined with single spaces.
pub fn join_words(words: &Vec<String>) -> (r: Vec<char>)
    ensures
        r@ == joined(word_views(words@)),
{
    let mut r: Vec<char> = Vec::new();
    let mut i: usize = 0;
    while i < words.len()
        invariant
            i <= words@.len(),
            r@ == joined(word_views(words@.subrange(0, i as int))),
        decreases words@.len() - i,
    {
        let ghost before = word_views(words@.subrange(0, i as int));
        let mut chars = chars_of(words[i].as_str());
        if i > 0 {
            r.push(' ');
        }
        r.append(&mut chars);
        proof {
            let after = word_views(words@.subrange(0, i + 1));
            assert(after.drop_last() =~= before);
            assert(after.last() == words@[i as int]@);
            if i == 0 {
                assert(r@ =~= after[0]);
            }
        }
        i = i + 1;
    }
    assert(words@.subrange(0, words@.len() as int) =~= words@);
    r
}

/// Relies on `SliceRandom::choose_multiple` of rand: it picks `min(count, len)` items
/// at distinct positions of `words`, in an order left to chance.
#[verifier::external_body]
fn sample_words(words: &Vec<String>, count: usize) -> (r: Vec<String>)
    ensures
        r@.len() == if count < words@.len() { count as int } else { words@.len() as int },
        word_views(r@).to_multiset().subset_of(word_views(words@).to_multiset()),
{
    words.choose_multiple(&mut rand::thread_rng(), count).cloned().collect()
}

/// The words a session is drawn from: the loaded list, or the built-in set when
/// no list could be loaded.
pub open spec fn source_views(loaded: Option<Vec<String>>) -> Seq<Seq<char>> {
    match loaded {
        Some(words) => word_views(words@),
        None => builtin_word_views(),
    }
}

/// The number of words a draw of `count` yields from a source of `available` words.
pub open spec fn draw_len(count: int, available: int) -> int {
    if count < available {
        count
    } else {
        available
    }
}

/// A random selection of `count` words (fewer if the source holds fewer), each
/// taken from a distinct position of the loaded list, or of the built-in set when
/// nothing could be loaded.
pub fn generate_words(count: usize, loaded: Option<Vec<String>>) -> (r: Vec<String>)
    ensures
        r@.len() == draw_len(count as int, source_views(loaded).len() as int),
        word_views(r@).to_multiset().subset_of(source_views(loaded).to_multiset()),
{
    let words = match loaded {
        Some(words) => words,
        None => default_words(),
    };
    sample_words(&words, count)
}

/// The two built-in word lists, always offered first.
pub open spec fn builtin_lists() -> Seq<Seq<char>> {
    seq!["english.json"@, "english_10k.json"@]
}

/// The list files in the order the selector offers them: the two built-in lists,
/// then the downloaded ones as reported, then every remaining known list.
pub open spec fn word_list_order(downloaded: Seq<Seq<char>>, available: Seq<Seq<char>>) -> Seq<
    Seq<char>,
> {
    builtin_lists() + downloaded + remaining(available, downloaded)
}

/// The lists of `available`, in order, that are neither downloaded nor built in.
pub open spec fn remaining(available: Seq<Seq<char>>, downloaded: Seq<Seq<char>>) -> Seq<Seq<char>>
    decreases available.len(),
{
    if available.len() == 0 {
        Seq::empty()
    } else {
        let rest = remaining(available.drop_last(), downloaded);
        if downloaded.contains(available.last()) || builtin_lists().contains(available.last()) {
            rest
        } else {
            rest.push(available.last())
        }
    }
}

/// Whether some item of `list` has the same text as `s`.
pub fn contains_word(list: &Vec<String>, s: &String) -> (r: bool)
    ensures
        r == word_views(list@).contains(s@),
{
    let mut i: usize = 0;
    while i < list.len()
        invariant
            i <= list@.len(),
            forall|k: int| 0 <= k < i ==> list@[k]@ != s@,
        decreases list@.len() - i,
    {
        if list[i] == *s {
            assert(word_views(list@)[i as int] == s@);
            return true;
        }
        i = i + 1;
    }
    false
}

/// The list files ordered for the selector: the two built-in lists, then
/// `downloaded` in its order, then the remaining lists of `available`.
pub fn order_word_lists(downloaded: &Vec<String>, available: &Vec<String>) -> (r: Vec<String>)
    ensures
        word_views(r@) == word_list_order(word_views(downloaded@), word_views(available@)),
{
    let builtin = vec![String::from_str("english.json"), String::from_str("english_10k.json")];
    assert(word_views(builtin@) =~= builtin_lists());
    let mut r: Vec<String> = builtin.clone();
    assert(word_views(r@) =~= builtin_lists());
    let mut i: usize = 0;
    while i < downloaded.len()
        invariant
            i <= downloaded@.len(),
            word_views(r@) == builtin_lists() + word_views(downloaded@.subrange(0, i as int)),
        decreases downloaded@.len() - i,
    {
        let ghost before = r@;
        r.push(downloaded[i].clone());
        assert(word_views(r@) =~= word_views(before).push(downloaded@[i as int]@));
        assert(word_views(downloaded@.subrange(0, i + 1)) =~= word_views(
            downloaded@.subrange(0, i as int),
        ).push(downloaded@[i as int]@));
        i = i + 1;
    }
    assert(downloaded@.subrange(0, i as int) =~= downloaded@);
    let ghost head = word_views(r@);
    let ghost dv = word_views(downloaded@);
    let mut j: usize = 0;
    while j < available.len()
        invariant
            j <= available@.len(),
            dv == word_views(downloaded@),
            word_views(builtin@) == builtin_lists(),
            word_views(r@) == head + remaining(word_views(available@.subrange(0, j as int)), dv),
        decreases available@.len() - j,
    {
        let ghost prev = word_views(available@.subrange(0, j as int));
        let ghost next = word_views(available@.subrange(0, j + 1));
        assert(next.drop_last() =~= prev);
        assert(next.last() == available@[j as int]@);
        let ghost before = r@;
        if !contains_word(downloaded, &available[j]) && !contains_word(&builtin, &available[j]) {
            r.push(available[j].clone());
            assert(word_views(r@) =~= word_views(before).push(available@[j as int]@));
            assert(remaining(next, dv) == remaining(prev, dv).push(available@[j as int]@));
        } else {
            assert(remaining(next, dv) == remaining(prev, dv));
        }
        j = j + 1;
        assert(word_views(r@) =~= head + remaining(next, dv));
    }
    assert(available@.subrange(0, j as int) =~= available@);
    r
}

} // verus!
