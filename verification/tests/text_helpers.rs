use netdiag::color::colorize;
use netdiag::text::{decimal_text, pad_right, same_text};

#[test]
fn known_colors_wrap_the_text() {
    assert_eq!(colorize("hi", "red"), "\x1b[31mhi\x1b[0m");
    assert_eq!(colorize("hi", "green"), "\x1b[32mhi\x1b[0m");
    assert_eq!(colorize("hi", "yellow"), "\x1b[33mhi\x1b[0m");
    assert_eq!(colorize("hi", "blue"), "\x1b[34mhi\x1b[0m");
    assert_eq!(colorize("hi", "cyan"), "\x1b[36mhi\x1b[0m");
}

#[test]
fn unknown_color_gives_the_reset_sequence() {
    assert_eq!(colorize("hi", "magenta"), "\x1b[0mhi\x1b[0m");
    assert_eq!(colorize("hi", ""), "\x1b[0mhi\x1b[0m");
    assert_eq!(colorize("hi", "Red"), "\x1b[0mhi\x1b[0m");
    assert_eq!(colorize("hi", "red "), "\x1b[0mhi\x1b[0m");
    assert_eq!(colorize("hi", "re"), "\x1b[0mhi\x1b[0m");
}

#[test]
fn empty_text_is_colored_too() {
    assert_eq!(colorize("", "cyan"), "\x1b[36m\x1b[0m");
}

#[test]
fn colored_text_keeps_every_character() {
    assert_eq!(colorize("größe 日本", "blue"), "\x1b[34mgröße 日本\x1b[0m");
}

#[test]
fn decimal_notation_of_numbers() {
    assert_eq!(decimal_text(0), "0");
    assert_eq!(decimal_text(7), "7");
    assert_eq!(decimal_text(9), "9");
    assert_eq!(decimal_text(10), "10");
    assert_eq!(decimal_text(1203), "1203");
    assert_eq!(decimal_text(1_000_000), "1000000");
    assert_eq!(decimal_text(u64::MAX), "18446744073709551615");
}

#[test]
fn decimal_notation_agrees_with_std() {
    let mut n: u64 = 0;
    while n < 2500 {
        assert_eq!(decimal_text(n), n.to_string());
        n += 1;
    }
    let mut big: u64 = 1;
    while big < u64::MAX / 7 {
        assert_eq!(decimal_text(big), big.to_string());
        big = big * 7 + 3;
    }
}

#[test]
fn short_text_is_padded_on_the_right() {
    assert_eq!(pad_right("ab", 5), "ab   ");
    assert_eq!(pad_right("", 3), "   ");
    assert_eq!(pad_right("abc", 4), "abc ");
}

#[test]
fn long_text_is_kept_whole() {
    assert_eq!(pad_right("abcdef", 3), "abcdef");
    assert_eq!(pad_right("abc", 3), "abc");
    assert_eq!(pad_right("abc", 0), "abc");
    assert_eq!(pad_right("", 0), "");
}

#[test]
fn padding_counts_characters_not_bytes() {
    assert_eq!(pad_right("größe", 7), "größe  ");
    assert_eq!(pad_right("日本語", 4), "日本語 ");
    assert_eq!(pad_right("größe", 7), format!("{:<7}", "größe"));
    assert_eq!(pad_right("日本語", 2), format!("{:<2}", "日本語"));
}

#[test]
fn same_text_compares_characters() {
    assert!(same_text("", ""));
    assert!(same_text("red", "red"));
    assert!(!same_text("red", "re"));
    assert!(!same_text("re", "red"));
    assert!(!same_text("red", "reD"));
    assert!(!same_text("", "x"));
    assert!(!same_text("x", ""));
    assert!(same_text("größe", "größe"));
    assert!(!same_text("größe", "grösse"));
}
