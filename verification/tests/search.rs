use ownership_borrowing::search::{first_a_index, LOWER_A, NOT_FOUND};

#[test]
fn finds_the_first_a() {
    assert_eq!(first_a_index("nina"), 3);
    assert_eq!(first_a_index("banana"), 1);
    assert_eq!(first_a_index("a"), 0);
    assert_eq!(first_a_index("apple pie a la mode"), 0);
}

#[test]
fn text_without_a_gives_the_sentinel() {
    assert_eq!(first_a_index("xyz"), 23);
    assert_eq!(first_a_index("xyz"), NOT_FOUND);
}

#[test]
fn empty_text_gives_the_sentinel() {
    assert_eq!(first_a_index(""), 23);
}

#[test]
fn capital_a_does_not_match() {
    assert_eq!(first_a_index("A"), 23);
    assert_eq!(first_a_index("ABBA"), 23);
    assert_eq!(first_a_index("ANa"), 2);
}

#[test]
fn other_vowels_do_not_match() {
    assert_eq!(first_a_index("eiou"), 23);
    assert_eq!(first_a_index("@b`c{"), 23);
}

#[test]
fn position_is_counted_in_bytes() {
    assert_eq!(first_a_index("\u{e9}a"), 2);
    assert_eq!(first_a_index("\u{65e5}\u{672c}a"), 6);
    assert_eq!(first_a_index("\u{1f600}\u{e1}\u{e0}"), 23);
}

#[test]
fn positions_at_and_past_the_sentinel() {
    let at = format!("{}a", "b".repeat(23));
    assert_eq!(first_a_index(&at), 23);
    let past = format!("{}a", "b".repeat(40));
    assert_eq!(first_a_index(&past), 40);
    let before = format!("{}a", "b".repeat(22));
    assert_eq!(first_a_index(&before), 22);
}

#[test]
fn later_occurrences_are_ignored() {
    assert_eq!(first_a_index("xxaxxaxxa"), 2);
    assert_eq!(first_a_index("aaaa"), 0);
}

#[test]
fn result_points_at_an_a_with_none_before_it() {
    for text in ["nina", "banana", "zzzzza", "llama", "b\u{e9}ta"] {
        let index = first_a_index(text);
        let bytes = text.as_bytes();
        assert_eq!(bytes[index], LOWER_A, "{text}");
        assert!(bytes[..index].iter().all(|b| *b != LOWER_A), "{text}");
    }
}

#[test]
fn in_ascii_text_the_byte_position_is_the_character_position() {
    for text in ["nina", "banana", "The cat", "llama"] {
        assert!(text.is_ascii());
        assert_eq!(Some(first_a_index(text)), text.chars().position(|c| c == 'a'), "{text}");
    }
}

#[test]
fn constants_have_their_values() {
    assert_eq!(LOWER_A, b'a');
    assert_eq!(NOT_FOUND, 23);
}
