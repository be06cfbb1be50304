use oghab_vpn::text::{
    chars_of, clone_or, decimal_text, is_whitespace, lines_of, list_entries, replace_plus,
    same_text, signed_decimal_text, split_text, starts_with, text_between, trim,
};

const SAMPLES: [&str; 16] = [
    "",
    " ",
    "a",
    "  a b  ",
    "\n",
    "\r\n",
    "a\nb",
    "a\nb\n",
    "a\r\nb\r\n",
    "a\r",
    "a\r\r\nb",
    "\n\n x \n",
    "\u{3000}wide\u{a0}",
    "tab\tin\tside\t",
    "vless://x",
    "\u{feff}bom ",
];

#[test]
fn white_space_is_that_of_unicode() {
    for code in 0..=0x10FFFFu32 {
        if let Some(c) = char::from_u32(code) {
            assert_eq!(is_whitespace(c), c.is_whitespace(), "{code:x}");
        }
    }
}

#[test]
fn trim_agrees_with_std() {
    for sample in SAMPLES {
        assert_eq!(trim(sample), sample.trim());
        assert_eq!(trim(&trim(sample)), sample.trim());
    }
}

#[test]
fn lines_agree_with_std() {
    for sample in SAMPLES {
        let expected: Vec<String> = sample.lines().map(str::to_owned).collect();
        assert_eq!(lines_of(sample), expected);
    }
}

#[test]
fn split_agrees_with_std_and_loses_nothing() {
    for sample in ["", ",", "a,b", ",a,", "a", "a,,b"] {
        let expected: Vec<String> = sample.split(',').map(str::to_owned).collect();
        let pieces = split_text(sample, ',');
        assert_eq!(pieces, expected);
        assert_eq!(pieces.join(","), sample);
    }
}

#[test]
fn list_entries_skip_blanks() {
    assert_eq!(list_entries(" h2 , ,http/1.1,"), vec!["h2", "http/1.1"]);
    assert!(list_entries(" , ,").is_empty());
    assert!(list_entries("").is_empty());
}

#[test]
fn plus_becomes_space() {
    assert_eq!(replace_plus("a+b++c"), "a b  c");
    assert_eq!(replace_plus(""), "");
}

#[test]
fn starts_with_agrees_with_std() {
    for (text, start) in [("vless://a", "vless://"), ("vless:", "vless://"), ("", ""), ("b", "a")] {
        assert_eq!(starts_with(text, start), text.starts_with(start));
    }
}

#[test]
fn decimal_numbers() {
    for n in [0u128, 7, 9, 10, 42, 99, 100, 16080, u64::MAX as u128, u128::MAX] {
        assert_eq!(decimal_text(n), n.to_string());
    }
}

#[test]
fn signed_decimal_numbers() {
    for n in [0i64, 5, -1, -10, i64::MAX, i64::MIN] {
        assert_eq!(signed_decimal_text(n), n.to_string());
    }
}

#[test]
fn small_text_helpers() {
    assert_eq!(chars_of("aé\n"), vec!['a', 'é', '\n']);
    assert_eq!(text_between(&vec!['a', 'b', 'c'], 1, 3), "bc");
    assert!(same_text("abc", "abc"));
    assert!(!same_text("abc", "abd"));
    assert_eq!(clone_or(&None, "x"), "x");
    assert_eq!(clone_or(&Some("y".to_string()), "x"), "y");
}
