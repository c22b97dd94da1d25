use discord_bot::reply::{compose_fact_reply, fact_reply};
use discord_bot::shortcuts::{
    can_remove_block_brace, can_remove_quote, remove_block_brace, remove_quote,
};

#[test]
fn outer_quotes_are_removed() {
    assert_eq!(remove_quote("\"hello\""), "hello");
    assert_eq!(remove_quote("say \"hi\" now"), "say hi now");
    assert_eq!(remove_quote("\"\""), "");
}

#[test]
fn inner_quotes_stay() {
    assert_eq!(remove_quote("\"a \"b\" c\""), "a \"b\" c");
}

#[test]
fn quotes_around_wide_characters() {
    assert_eq!(remove_quote("\u{e9}\"\u{4e2d}\u{6587}\"\u{e9}"), "\u{e9}\u{4e2d}\u{6587}\u{e9}");
}

#[test]
fn single_quote_takes_its_neighbour_along() {
    assert!(can_remove_quote("a\"bc"));
    assert_eq!(remove_quote("a\"bc"), "ac");
}

#[test]
fn quote_removal_is_refused_where_it_cannot_be_done() {
    assert!(!can_remove_quote(""));
    assert!(!can_remove_quote("no quotes"));
    assert!(!can_remove_quote("ends with\""));
    assert!(!can_remove_quote("\"\u{e9}"));
    assert!(can_remove_quote("\"x"));
    assert!(can_remove_quote("\"\""));
    assert!(can_remove_quote("\"hello\""));
}

#[test]
fn outer_brackets_are_removed() {
    assert_eq!(remove_block_brace("[abc]"), "abc");
    assert_eq!(remove_block_brace("x[a[b]c]y"), "xa[b]cy");
    assert_eq!(remove_block_brace("[]"), "");
}

#[test]
fn brackets_in_reverse_order() {
    assert!(can_remove_block_brace("a]b[c"));
    assert_eq!(remove_block_brace("a]b[c"), "ab[");
}

#[test]
fn bracket_removal_is_refused_where_it_cannot_be_done() {
    assert!(!can_remove_block_brace(""));
    assert!(!can_remove_block_brace("[abc"));
    assert!(!can_remove_block_brace("abc]"));
    assert!(!can_remove_block_brace("]["));
    assert!(!can_remove_block_brace("][\u{e9}"));
    assert!(can_remove_block_brace("][x"));
    assert!(can_remove_block_brace("[]"));
}

#[test]
fn fact_reply_addresses_the_author() {
    assert_eq!(compose_fact_reply(42, "\"Cats purr.\""), "<@42>:\n \"Cats purr.\"");
}

#[test]
fn fact_reply_shows_the_fact_in_debug_rendering() {
    assert_eq!(fact_reply(42, "\"Cats purr.\""), "<@42>:\n \"Cats purr.\"");
    assert_eq!(fact_reply(7, "\"a \"b\"\nc\""), "<@7>:\n \"a \\\"b\\\"\\nc\"");
}
