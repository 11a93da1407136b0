use moontui::lang::Language;
use moontui::poems::{
    default_poems, lang_dir, merge_libraries, parse_poem_text, split_lines, trim_str, is_blank,
    Poem, PoemLibrary,
};

#[test]
fn parse_full_poem_with_separator() {
    let text = "  Moon Song \nA. Poet\n---\nfirst line\nsecond line\n\n\n";
    let poem = parse_poem_text(text).expect("poem should parse");
    assert_eq!(poem.title, "Moon Song");
    assert_eq!(poem.author, "A. Poet");
    assert_eq!(poem.lines, vec!["first line".to_string(), "second line".to_string()]);
}

#[test]
fn parse_poem_without_separator_keeps_all_body_lines() {
    let text = "Title\nAuthor\nline one\n---\nline three";
    let poem = parse_poem_text(text).expect("poem should parse");
    // the separator is only honored directly after the author line
    assert_eq!(
        poem.lines,
        vec!["line one".to_string(), "---".to_string(), "line three".to_string()]
    );
}

#[test]
fn parse_rejects_empty_title_or_body() {
    assert!(parse_poem_text("   \nAuthor\nbody").is_none());
    assert!(parse_poem_text("Title\nAuthor\n\n  \n").is_none());
    assert!(parse_poem_text("").is_none());
    assert!(parse_poem_text("Title").is_none());
}

#[test]
fn parse_handles_crlf_endings() {
    let text = "Title\r\nAuthor\r\n---\r\nbody line\r\n";
    let poem = parse_poem_text(text).expect("poem should parse");
    assert_eq!(poem.title, "Title");
    assert_eq!(poem.author, "Author");
    assert_eq!(poem.lines, vec!["body line".to_string()]);
}

#[test]
fn split_and_trim_behave() {
    let v = split_lines("a\nb\r\n\nc");
    let got: Vec<&str> = v.iter().map(|s| s.as_str()).collect();
    assert_eq!(got, vec!["a", "b", "", "c"]);
    assert_eq!(trim_str("  hello \t"), "hello");
    assert_eq!(trim_str(" \t "), "");
    assert!(is_blank("  \t "));
    assert!(!is_blank(" . "));
}

#[test]
fn default_poems_cover_every_language() {
    let lib = default_poems();
    for lang in [
        Language::English,
        Language::Chinese,
        Language::French,
        Language::Japanese,
        Language::Spanish,
    ] {
        assert!(!lib.for_language(lang).is_empty(), "no poems for {:?}", lang);
    }
    let first = &lib.for_language(Language::English)[0];
    assert_eq!(first.title, "The Moon");
    assert_eq!(first.author, "Robert Louis Stevenson");
    assert_eq!(first.lines.len(), 4);
}

#[test]
fn merge_prefers_loaded_poems_per_language() {
    let defaults = default_poems();
    let mut loaded = PoemLibrary::new();
    loaded.push(
        Language::French,
        Poem {
            title: "Lune".to_string(),
            author: "Quelqu'un".to_string(),
            lines: vec!["une ligne".to_string()],
        },
    );
    let merged = merge_libraries(&loaded, &defaults);
    // French comes from the loaded library...
    let fr = merged.for_language(Language::French);
    assert_eq!(fr.len(), 1);
    assert_eq!(fr[0].title, "Lune");
    // ...while a language with nothing loaded falls back to the defaults.
    let en = merged.for_language(Language::English);
    assert_eq!(en.len(), defaults.for_language(Language::English).len());
    assert_eq!(en[0].title, "The Moon");
}

#[test]
fn random_poem_picks_from_the_language() {
    let lib = default_poems();
    for _ in 0..20 {
        let p = lib.random_poem(Language::Chinese).expect("nonempty language");
        let pool = lib.for_language(Language::Chinese);
        assert!(
            pool.iter().any(|q| q.title == p.title && q.lines == p.lines),
            "random poem not from the pool"
        );
    }
    let empty = PoemLibrary::new();
    assert!(empty.random_poem(Language::English).is_none());
}

#[test]
fn language_directories() {
    assert_eq!(lang_dir(Language::English), "en");
    assert_eq!(lang_dir(Language::Chinese), "zh");
    assert_eq!(lang_dir(Language::French), "fr");
    assert_eq!(lang_dir(Language::Japanese), "ja");
    assert_eq!(lang_dir(Language::Spanish), "es");
}
