use discord_bot::text::{
    chars_of, eq_ignore_ascii_case, fold, push_decimal, push_mention, split_command, whitespace,
};

fn decimal_of(n: u64) -> String {
    let mut out = String::new();
    push_decimal(&mut out, n);
    out
}

#[test]
fn chars_are_listed_in_order() {
    assert_eq!(chars_of("a\u{e9}z"), vec!['a', '\u{e9}', 'z']);
    assert_eq!(chars_of(""), Vec::<char>::new());
}

#[test]
fn folding_maps_upper_case_letters_only() {
    assert_eq!(fold('A'), 'a' as u32);
    assert_eq!(fold('Z'), 'z' as u32);
    assert_eq!(fold('a'), 'a' as u32);
    assert_eq!(fold('@'), '@' as u32);
    assert_eq!(fold('['), '[' as u32);
    assert_eq!(fold('\u{c9}'), 0xc9);
}

#[test]
fn comparison_ignores_ascii_case() {
    assert!(eq_ignore_ascii_case("!HeLp", "!help"));
    assert!(eq_ignore_ascii_case("", ""));
    assert!(!eq_ignore_ascii_case("!help", "!helps"));
    assert!(!eq_ignore_ascii_case("!help", "!quit"));
    assert!(!eq_ignore_ascii_case("\u{c9}", "\u{e9}"));
}

#[test]
fn comparison_agrees_with_std() {
    let samples = ["", "a", "A", "!dj", "!DJ", "stop", "STOP ", "Quit", "qui", "@", "`"];
    for a in samples.iter() {
        for b in samples.iter() {
            assert_eq!(eq_ignore_ascii_case(a, b), a.eq_ignore_ascii_case(b));
        }
    }
}

#[test]
fn whitespace_agrees_with_std() {
    let mut code: u32 = 0;
    while code < 0x3100 {
        if let Some(c) = char::from_u32(code) {
            assert_eq!(whitespace(c), c.is_whitespace());
        }
        code += 1;
    }
}

#[test]
fn message_splits_at_first_white_space() {
    let c = split_command("!dj http://example.com/a b");
    assert_eq!(c.word, "!dj");
    assert_eq!(c.rest, "http://example.com/a b");
}

#[test]
fn message_without_white_space_is_all_word() {
    let c = split_command("!help");
    assert_eq!(c.word, "!help");
    assert_eq!(c.rest, "");
}

#[test]
fn empty_message_splits_into_nothing() {
    let c = split_command("");
    assert_eq!(c.word, "");
    assert_eq!(c.rest, "");
}

#[test]
fn only_one_separator_is_consumed() {
    let c = split_command("!dj  stop");
    assert_eq!(c.word, "!dj");
    assert_eq!(c.rest, " stop");
    let c = split_command(" !dj");
    assert_eq!(c.word, "");
    assert_eq!(c.rest, "!dj");
    let c = split_command("!help\n");
    assert_eq!(c.word, "!help");
    assert_eq!(c.rest, "");
}

#[test]
fn tab_and_wide_space_separate_too() {
    let c = split_command("!help\tdj");
    assert_eq!(c.word, "!help");
    assert_eq!(c.rest, "dj");
    let c = split_command("h\u{e9}llo\u{3000}w\u{f6}rld");
    assert_eq!(c.word, "h\u{e9}llo");
    assert_eq!(c.rest, "w\u{f6}rld");
}

#[test]
fn decimal_of_small_and_large_numbers() {
    assert_eq!(decimal_of(0), "0");
    assert_eq!(decimal_of(7), "7");
    assert_eq!(decimal_of(10), "10");
    assert_eq!(decimal_of(1234567890), "1234567890");
    assert_eq!(decimal_of(77812253511913472), "77812253511913472");
    assert_eq!(decimal_of(u64::MAX), "18446744073709551615");
}

#[test]
fn decimal_agrees_with_std() {
    let mut n: u64 = 1;
    while n < u64::MAX / 7 {
        assert_eq!(decimal_of(n), n.to_string());
        assert_eq!(decimal_of(n - 1), (n - 1).to_string());
        n *= 7;
    }
}

#[test]
fn decimal_is_appended() {
    let mut out = String::from("n=");
    push_decimal(&mut out, 42);
    assert_eq!(out, "n=42");
}

#[test]
fn mention_wraps_the_identity() {
    let mut out = String::new();
    push_mention(&mut out, 42);
    assert_eq!(out, "<@42>");
    let mut out = String::from("hi ");
    push_mention(&mut out, 77812253511913472);
    assert_eq!(out, "hi <@77812253511913472>");
}
