use exercises::text::counting_words;
use exercises::text::split_lines;
use exercises::text::split_words;
use exercises::text::str_contains;
use exercises::text::str_eq;

fn count_of(counts: &Vec<(String, usize)>, word: &str) -> Option<usize> {
    counts
        .iter()
        .find(|(w, _)| w == word)
        .map(|(_, c)| *c)
}

#[test]
fn counts_each_word_once() {
    let counts = counting_words("hello world wonderful world");
    assert_eq!(3, counts.len());
    assert_eq!(Some(1), count_of(&counts, "hello"));
    assert_eq!(Some(2), count_of(&counts, "world"));
    assert_eq!(Some(1), count_of(&counts, "wonderful"));
    assert_eq!(None, count_of(&counts, "unseen"));
}

#[test]
fn counts_nothing_in_blank_text() {
    assert!(counting_words("  \t \n ").is_empty());
}

#[test]
fn splits_lines_like_the_standard_library() {
    let texts = ["", "a", "a\nb", "a\nb\n", "a\n\nb", "one\r\ntwo\r\n", "\n"];
    for text in texts {
        let expected: Vec<&str> = text.lines().collect();
        assert_eq!(expected, split_lines(text));
    }
}

#[test]
fn splits_words_on_blanks() {
    let words = split_words(" pick\tany three\n");
    assert_eq!(vec!["pick", "any", "three"], words);
}

#[test]
fn contains_finds_inner_piece() {
    assert!(str_contains("Productive", "duct"));
    assert!(str_contains("anything", ""));
    assert!(!str_contains("short", "longer than the text"));
    assert!(!str_contains("Duct", "duct"));
}

#[test]
fn string_equality_by_characters() {
    assert!(str_eq("peaches", "peaches"));
    assert!(!str_eq("peaches", "peach"));
    assert!(!str_eq("peaches", "Peaches"));
}
