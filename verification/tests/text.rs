use statuswatch::text::{eq_ignore_ascii_case, has_prefix, parse_i32, replace, text_le_exec, trim};

#[test]
fn replace_is_leftmost_and_non_overlapping() {
    assert_eq!(replace("aaa", "aa", "b"), "ba");
    assert_eq!(replace("x{a}y{a}", "{a}", ""), "xy");
    assert_eq!(replace("", "a", "b"), "");
    assert_eq!(replace("héllo wörld", "ö", "oe"), "héllo woerld");
}

#[test]
fn trim_removes_unicode_white_space() {
    assert_eq!(trim("  a b \t\n"), "a b");
    assert_eq!(trim("\u{3000}x\u{a0}"), "x");
    assert_eq!(trim("   "), "");
    assert_eq!(trim("\u{200b}y"), "\u{200b}y");
}

#[test]
fn parse_i32_matches_std() {
    for s in ["0", "42", "-42", "+7", "2147483647", "-2147483648", "2147483648", "-2147483649", "", "-", "+", "4a", " 1", "0001", "99999999999999999999"] {
        assert_eq!(parse_i32(s), s.parse::<i32>().ok(), "input {s:?}");
    }
}

#[test]
fn ascii_case_and_prefix_and_order() {
    assert!(eq_ignore_ascii_case("OnLine", "online"));
    assert!(!eq_ignore_ascii_case("onlin", "online"));
    assert!(!eq_ignore_ascii_case("\u{212a}", "k"));
    assert!(has_prefix("https://discord.com/api/webhooks/1", "https://discord.com/api/webhooks/"));
    assert!(!has_prefix("https://discord.com", "https://discord.com/api/webhooks/"));
    for (a, b) in [("a", "b"), ("ab", "a"), ("", ""), ("Z", "a"), ("é", "z"), ("abc", "abd")] {
        assert_eq!(text_le_exec(a, b), a <= b, "{a:?} <= {b:?}");
    }
}
