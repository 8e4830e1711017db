use yt_mcp::text::{chars_of, contains, join, split_words, to_lower, trimmed};

#[test]
fn words_split_on_unicode_whitespace() {
    let w: Vec<String> = split_words(&chars_of("  a\u{3000}bc\td  "))
        .into_iter()
        .map(|w| w.into_iter().collect())
        .collect();
    assert_eq!(w, vec!["a", "bc", "d"]);
    assert!(split_words(&chars_of(" \n ")).is_empty());
}

#[test]
fn trimming_and_substrings() {
    assert_eq!(trimmed("\u{a0} x y \n"), "x y");
    assert!(contains(&chars_of("hello"), &chars_of("ell")));
    assert!(contains(&chars_of("hello"), &chars_of("")));
    assert!(!contains(&chars_of("hel"), &chars_of("hell")));
    assert_eq!(to_lower("ΣΑΣ"), "σας");
    assert_eq!(join(&vec!["a".to_owned(), "b".to_owned()], ", "), "a, b");
}
