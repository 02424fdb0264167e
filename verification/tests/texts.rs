use admin_views::text::{
    count_char, decimal_text, not_after, parse_u32, same_optional_text, same_text, split_scopes,
    trim, zero_padded_text,
};

#[test]
fn trimming_removes_white_space_at_both_ends() {
    assert_eq!(trim("  a b \t\n"), "a b");
    assert_eq!(trim("\u{3000}x\u{a0}"), "x");
    assert_eq!(trim(" \r "), "");
    assert_eq!(trim(trim(" a ").as_str()), "a");
}

#[test]
fn trimming_agrees_with_std_on_every_character() {
    for n in 0u32..0x11_0000 {
        if let Some(c) = char::from_u32(n) {
            assert_eq!(admin_views::text::is_white_space(c), c.is_whitespace());
        }
    }
}

#[test]
fn counting_characters() {
    assert_eq!(count_char("12:30:00", ':'), 2);
    assert_eq!(count_char("", ':'), 0);
}

#[test]
fn decimal_numbers() {
    assert_eq!(decimal_text(0), "0");
    assert_eq!(decimal_text(u64::MAX), "18446744073709551615");
    assert_eq!(zero_padded_text(7, 2), "07");
    assert_eq!(zero_padded_text(123, 2), "123");
}

#[test]
fn reading_numbers_agrees_with_std() {
    for s in [
        "0", "42", "+42", "007", "4294967295", "4294967296", "99999999999999999999", "", "+", "-1",
        "1 ", "1a", "++1", "\u{661}",
    ] {
        assert_eq!(parse_u32(s), s.parse::<u32>().ok());
    }
    assert_eq!(parse_u32("4294967295"), Some(4294967295));
    assert_eq!(parse_u32("4294967296"), None);
}

#[test]
fn comparing_texts() {
    assert!(same_text("a", "a"));
    assert!(!same_text("a", "b"));
    assert!(same_optional_text(&None, &None));
    assert!(!same_optional_text(&None, &Some(String::new())));
    assert!(same_optional_text(&Some("x".to_string()), &Some("x".to_string())));
}

#[test]
fn dictionary_order_agrees_with_std() {
    let words = ["", "a", "ab", "b", "B", "\u{e9}", "\u{ffff}", "\u{10000}", "a\u{10000}"];
    for x in words {
        for y in words {
            assert_eq!(not_after(x, y), x <= y);
        }
    }
}

#[test]
fn scope_lists_are_split_at_spaces_and_commas() {
    assert_eq!(split_scopes("openid, profile  email,,\tgroups"), [
        "openid", "profile", "email", "groups"
    ]);
    assert!(split_scopes("").is_empty());
    assert!(split_scopes(" , ,").is_empty());
    assert_eq!(split_scopes("a\tb"), ["a\tb"]);
}
