use shavian::stats::{previewable, text_stats};

#[test]
fn stats_of_plain_words() {
    let text = "the quick brown fox jumps".to_string();
    assert!(previewable(&text));
    assert_eq!(
        text_stats(&text),
        "Contents: the quick brown fox...\nCharacters: 25\nWords: 5"
    );
}

#[test]
fn stats_with_line_break() {
    let text = "a b\nc d".to_string();
    assert_eq!(
        text_stats(&text),
        "Contents: a b \n c...\nCharacters: 6\nWords: 4"
    );
}

#[test]
fn stats_with_run_of_spaces() {
    let text = "a   b c d".to_string();
    assert_eq!(
        text_stats(&text),
        "Contents: a  b c...\nCharacters: 9\nWords: 4"
    );
}

#[test]
fn stats_count_codepoints_not_bytes() {
    let text = "\u{10463}\u{10467} b c d e f g h i j k".to_string();
    assert_eq!(
        text_stats(&text),
        "Contents: \u{10463}\u{10467} b c d...\nCharacters: 22\nWords: 11"
    );
}

#[test]
fn short_text_has_no_preview() {
    assert!(!previewable(&"one two".to_string()));
    assert!(!previewable(&String::new()));
    assert!(previewable(&"a b c d".to_string()));
}
