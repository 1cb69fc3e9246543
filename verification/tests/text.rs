use err_handler::render::{push_comma_separated, push_keyword, push_text};
use err_handler::text::{join, push_piece};

#[test]
fn join_skips_empty_pieces() {
    let pieces = vec!["pub".to_string(), String::new(), "fn".to_string()];
    assert_eq!(join(&pieces), "pub fn");
    assert_eq!(join(&vec![String::new(), "fn".to_string(), String::new()]), "fn");
}

#[test]
fn join_of_nothing_is_empty() {
    assert_eq!(join(&Vec::new()), "");
    assert_eq!(join(&vec![String::new(), String::new()]), "");
}

#[test]
fn join_puts_one_space_between_pieces() {
    let pieces = vec!["a".to_string(), "b c".to_string(), "d".to_string()];
    assert_eq!(join(&pieces), "a b c d");
}

#[test]
fn push_piece_adds_a_space_only_between_two_texts() {
    let mut text = String::new();
    push_piece(&mut text, "");
    assert_eq!(text, "");
    push_piece(&mut text, "fn");
    assert_eq!(text, "fn");
    push_piece(&mut text, "");
    assert_eq!(text, "fn");
    push_piece(&mut text, "f");
    assert_eq!(text, "fn f");
}

#[test]
fn commas_stand_between_items_only() {
    let mut pieces = vec!["(".to_string()];
    push_comma_separated(&mut pieces, &Vec::new());
    assert_eq!(pieces, vec!["("]);
    push_comma_separated(&mut pieces, &vec!["a".to_string()]);
    assert_eq!(pieces, vec!["(", "a"]);
    let mut pieces = Vec::new();
    push_comma_separated(&mut pieces, &vec!["a".to_string(), "b".to_string(), "c".to_string()]);
    assert_eq!(pieces, vec!["a", ",", "b", ",", "c"]);
}

#[test]
fn keyword_is_written_where_present() {
    let mut pieces = Vec::new();
    push_keyword(&mut pieces, true, "async");
    push_keyword(&mut pieces, false, "unsafe");
    push_text(&mut pieces, "fn");
    assert_eq!(pieces, vec!["async", "", "fn"]);
    assert_eq!(join(&pieces), "async fn");
}
