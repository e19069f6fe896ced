use squalo::text::{chars_of, contains, contains_chars, nth_field};

#[test]
fn chars_of_keeps_every_character_in_order() {
    assert_eq!(chars_of("a\"b"), vec!['a', '"', 'b']);
    assert_eq!(chars_of(""), Vec::<char>::new());
    assert_eq!(chars_of("🦈é"), vec!['🦈', 'é']);
}

#[test]
fn contains_finds_a_needle_at_any_position() {
    assert!(contains("token", "token"));
    assert!(contains("a token", "token"));
    assert!(contains("token b", "token"));
    assert!(contains("{\"token\":1}", "token"));
}

#[test]
fn contains_rejects_what_is_not_there() {
    assert!(!contains("toke", "token"));
    assert!(!contains("tokentoke", "tokens"));
    assert!(!contains("", "token"));
    assert!(!contains("Token", "token"));
    assert!(!contains("tok en", "token"));
}

#[test]
fn contains_finds_the_empty_needle_everywhere() {
    assert!(contains("", ""));
    assert!(contains("abc", ""));
}

#[test]
fn contains_counts_characters_not_bytes() {
    assert!(contains("🦈token", "token"));
    assert!(contains("é🦈x", "🦈"));
    assert!(!contains("é", "e"));
}

#[test]
fn contains_chars_agrees_with_contains() {
    let hay = chars_of("subscribe to trade");
    assert!(contains_chars(&hay, &chars_of("trade")));
    assert!(!contains_chars(&hay, &chars_of("trades")));
    assert!(!contains_chars(&chars_of("ab"), &chars_of("abc")));
}

#[test]
fn fields_are_the_pieces_between_separators() {
    assert_eq!(nth_field("a,b,,c", ',', 0), Some("a".to_string()));
    assert_eq!(nth_field("a,b,,c", ',', 1), Some("b".to_string()));
    assert_eq!(nth_field("a,b,,c", ',', 2), Some("".to_string()));
    assert_eq!(nth_field("a,b,,c", ',', 3), Some("c".to_string()));
    assert_eq!(nth_field("a,b,,c", ',', 4), None);
}

#[test]
fn text_without_separator_is_one_field() {
    assert_eq!(nth_field("abc", ',', 0), Some("abc".to_string()));
    assert_eq!(nth_field("abc", ',', 1), None);
    assert_eq!(nth_field("", ',', 0), Some("".to_string()));
    assert_eq!(nth_field("", ',', 1), None);
}

#[test]
fn separators_at_the_ends_make_empty_fields() {
    assert_eq!(nth_field(",a,", ',', 0), Some("".to_string()));
    assert_eq!(nth_field(",a,", ',', 1), Some("a".to_string()));
    assert_eq!(nth_field(",a,", ',', 2), Some("".to_string()));
    assert_eq!(nth_field(",a,", ',', 3), None);
}

#[test]
fn fields_agree_with_split() {
    let text = "{\"error\":[],\"result\":{\"token\":\"ABC123\",\"expires\":900}}";
    let pieces: Vec<&str> = text.split('"').collect();
    for (k, piece) in pieces.iter().enumerate() {
        assert_eq!(nth_field(text, '"', k), Some(piece.to_string()));
    }
    assert_eq!(nth_field(text, '"', pieces.len()), None);
}

#[test]
fn fields_are_cut_at_characters_not_bytes() {
    assert_eq!(nth_field("é,🦈b,c", ',', 0), Some("é".to_string()));
    assert_eq!(nth_field("é,🦈b,c", ',', 1), Some("🦈b".to_string()));
    assert_eq!(nth_field("é,🦈b,c", ',', 2), Some("c".to_string()));
    assert_eq!(nth_field("é,🦈b,c", ',', 3), None);
    assert_eq!(nth_field("a🦈b🦈c", '🦈', 1), Some("b".to_string()));
}
