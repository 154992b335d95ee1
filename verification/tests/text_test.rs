use my_echo::settings::is_valid_shortcut;
use my_echo::tag::normalize_tag_names;
use my_echo::text::{chars_of, is_white_space_char, split_chars, str_eq, string_of, trim};

#[test]
fn white_space_matches_std_for_every_char() {
    for n in 0u32..=0x10FFFF {
        if let Some(c) = char::from_u32(n) {
            assert_eq!(is_white_space_char(c), c.is_whitespace(), "char {:#x}", n);
        }
    }
}

#[test]
fn trim_matches_std_trim() {
    let cases = [
        "",
        "   ",
        "  hello  ",
        "\t\nword\r\n",
        "\u{3000}全角空格\u{3000}",
        "\u{a0}a b\u{2028}",
        "no-space",
        " 中 文 ",
    ];
    for s in cases {
        assert_eq!(trim(s), s.trim(), "input {:?}", s);
    }
}

#[test]
fn split_matches_std_split() {
    let cases = ["Cmd+N", "+", "", "a++b", "Cmd + Shift + Space", "+x+"];
    for s in cases {
        let ours = split_chars(s, '+');
        let std: Vec<String> = s.split('+').map(|p| p.to_string()).collect();
        assert_eq!(ours, std, "input {:?}", s);
    }
}

#[test]
fn str_eq_compares_characters() {
    assert!(str_eq("abc", "abc"));
    assert!(!str_eq("abc", "abd"));
    assert!(!str_eq("abc", "ab"));
    assert!(str_eq("", ""));
    assert!(str_eq("标签", "标签"));
}

#[test]
fn chars_and_string_of_round_trip() {
    let v = chars_of("a标b");
    assert_eq!(v, vec!['a', '标', 'b']);
    assert_eq!(string_of(&v, 0, 3), "a标b");
    assert_eq!(string_of(&v, 1, 2), "标");
}

#[test]
fn case_mapping_reaches_validation_and_dedup() {
    // Upper-casing makes lower-case modifier names count.
    assert!(is_valid_shortcut("cmd+n"));
    assert!(is_valid_shortcut("shıft+a"));
    // Lower-casing merges names that differ only in case, ASCII or not.
    let raw: Vec<String> = ["Work", "WORK", "ΣΑΣ", "σας"].iter().map(|s| s.to_string()).collect();
    assert_eq!(normalize_tag_names(&raw).unwrap(), vec!["Work".to_string(), "ΣΑΣ".to_string()]);
}

#[test]
fn trim_is_idempotent() {
    for s in ["  a b  ", "\u{3000}x\u{2028}", "", "   "] {
        let once = trim(s);
        assert_eq!(trim(&once), once);
    }
}
