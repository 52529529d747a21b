use current_song::text::{
    begins_with, chars_of, find_first, find_last, finishes_with, first_piece, has, replaced, string_of,
    trimmed, trimmed_end_matches, trimmed_start_matches,
};

fn c(s: &str) -> Vec<char> {
    s.chars().collect()
}

#[test]
fn trimming_whitespace() {
    assert_eq!(string_of(&trimmed(&c(" \t a b \u{3000}\n"))), "a b");
    assert_eq!(string_of(&trimmed(&c("   "))), "");
    assert_eq!(string_of(&trimmed(&c("x"))), "x");
}

#[test]
fn searching() {
    assert_eq!(find_first(&c("a - b - c"), &c(" - ")), Some(1));
    assert_eq!(find_last(&c("a - b - c"), &c(" - ")), Some(5));
    assert_eq!(find_last(&c("abc"), &c("")), Some(3));
    assert_eq!(find_first(&c("abc"), &c("d")), None);
    assert!(has(&c("https://soundcloud.com/x"), &c("soundcloud.com")));
    assert!(begins_with(&c("(12) x"), &c("(")));
    assert!(finishes_with(&c("x - YouTube Music"), &c("YouTube Music")));
}

#[test]
fn replacing_and_trimming_patterns() {
    assert_eq!(string_of(&replaced(&c("a - YouTube b - YouTube"), &c(" - YouTube"), &c(""))), "a b");
    assert_eq!(string_of(&replaced(&c("aaa"), &c("aa"), &c("b"))), "ba");
    assert_eq!(string_of(&trimmed_end_matches(&c("x - - -"), &c(" -"))), "x");
    assert_eq!(string_of(&trimmed_start_matches(&c("ab ab c"), &c("ab "))), "c");
    assert_eq!(string_of(&first_piece(&c("a | Stream | b"), &c(" | Stream"))), "a");
    assert_eq!(chars_of("héllo"), c("héllo"));
}

#[test]
fn trimming_twice_is_trimming_once() {
    for s in ["  a b  ", "\t\n", "x", " \u{a0}y\u{2003} "] {
        let once = trimmed(&c(s));
        assert_eq!(trimmed(&once), once);
    }
}
