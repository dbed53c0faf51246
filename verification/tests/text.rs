use batsignal::text::{chars_of, contains, is_whitespace, spells, split_names, string_of, trim};

fn chars(s: &str) -> Vec<char> {
    s.chars().collect()
}

#[test]
fn chars_and_strings_convert_both_ways() {
    assert_eq!(chars_of("héllo"), vec!['h', 'é', 'l', 'l', 'o']);
    assert_eq!(chars_of(""), Vec::<char>::new());
    assert_eq!(string_of(&vec!['a', 'ß', 'c']), "aßc");
    assert_eq!(string_of(&Vec::new()), "");
}

#[test]
fn whitespace_is_what_the_standard_library_says() {
    for n in 0..=0x10ffffu32 {
        if let Some(c) = char::from_u32(n) {
            assert_eq!(is_whitespace(c), c.is_whitespace(), "U+{:04X}", n);
        }
    }
}

#[test]
fn trim_removes_both_ends_only() {
    assert_eq!(trim(&chars("  a b \n")), chars("a b"));
    assert_eq!(trim(&chars("Discharging\n")), chars("Discharging"));
    assert_eq!(trim(&chars("\t\u{a0}x\u{3000}")), chars("x"));
    assert_eq!(trim(&chars("   ")), chars(""));
    assert_eq!(trim(&chars("")), chars(""));
    assert_eq!(trim(&chars("abc")), chars("abc"));
}

#[test]
fn trim_agrees_with_the_standard_library() {
    for s in ["", " ", " a", "a ", " a b  ", "\n\n", "\u{2003}x y\u{85}", "no space"] {
        assert_eq!(string_of(&trim(&chars(s))), s.trim());
    }
}

#[test]
fn spells_compares_the_whole_text() {
    assert!(spells(&chars("Full"), "Full"));
    assert!(!spells(&chars("Full"), "Fulls"));
    assert!(!spells(&chars("Fulls"), "Full"));
    assert!(!spells(&chars("full"), "Full"));
    assert!(spells(&chars(""), ""));
}

#[test]
fn contains_finds_a_word_anywhere() {
    let word = chars("Battery");
    assert!(contains(&chars("Battery\n"), &word));
    assert!(contains(&chars("USB Battery"), &word));
    assert!(contains(&chars("xxBatteryxx"), &word));
    assert!(!contains(&chars("Mains\n"), &word));
    assert!(!contains(&chars("battery"), &word));
    assert!(!contains(&chars("Batter"), &word));
    assert!(!contains(&chars(""), &word));
    assert!(contains(&chars("abc"), &chars("")));
    assert!(contains(&chars(""), &chars("")));
}

#[test]
fn contains_agrees_with_the_standard_library() {
    for text in ["", "a", "aa", "aab", "abab", "baab", "xyz"] {
        for word in ["", "a", "ab", "aab", "b", "ba", "abc"] {
            assert_eq!(contains(&chars(text), &chars(word)), text.contains(word));
        }
    }
}

#[test]
fn names_are_split_on_commas_without_blanks() {
    assert_eq!(split_names("BAT0"), vec!["BAT0"]);
    assert_eq!(split_names("BAT0,BAT1"), vec!["BAT0", "BAT1"]);
    assert_eq!(split_names(" BAT0 , BAT 1 "), vec!["BAT0", "BAT1"]);
    assert_eq!(split_names(""), vec![""]);
    assert_eq!(split_names(","), vec!["", ""]);
    assert_eq!(split_names("a,,b,"), vec!["a", "", "b", ""]);
    assert_eq!(split_names("a\tb"), vec!["a\tb"]);
}

#[test]
fn split_agrees_with_the_standard_library() {
    for list in ["", " ", "a", "a,b", ",a", "a, b ,c", " , ,", "BAT0,BAT1,BAT2"] {
        let expected: Vec<String> =
            list.replace(' ', "").split(',').map(|s| s.to_string()).collect();
        assert_eq!(split_names(list), expected);
    }
}
