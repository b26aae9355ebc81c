use kruidvat_notification::text::{
    chars_of, is_whitespace, join, string_between, string_of, trailing_segment, trim,
};

#[test]
fn characters_round_trip() {
    let chars = chars_of("a\u{20ac}b");
    assert_eq!(chars, vec!['a', '\u{20ac}', 'b']);
    assert_eq!(string_of(&chars), "a\u{20ac}b");
    assert_eq!(chars_of(""), Vec::<char>::new());
    assert_eq!(string_of(&Vec::new()), "");
}

#[test]
fn part_of_a_text_is_cut_out() {
    let chars = chars_of("hello");
    assert_eq!(string_between(&chars, 1, 4), "ell");
    assert_eq!(string_between(&chars, 0, 5), "hello");
    assert_eq!(string_between(&chars, 2, 2), "");
}

#[test]
fn trim_removes_whitespace_at_both_ends() {
    assert_eq!(trim("  Soap \n"), "Soap");
    assert_eq!(trim("\t\r\n Soap  Deluxe\u{a0}"), "Soap  Deluxe");
    assert_eq!(trim("Soap"), "Soap");
    assert_eq!(trim(" a b "), "a b");
    assert_eq!(trim("   "), "");
    assert_eq!(trim(""), "");
    for text in ["  Soap \n", " \u{2003}x\u{3000} ", "", " ", "a", " a", "a "] {
        assert_eq!(trim(text), text.trim());
    }
}

#[test]
fn join_puts_the_separator_between_neighbours() {
    let parts = vec![String::from("a"), String::from("b"), String::from("c")];
    assert_eq!(join(&parts, " "), "a b c");
    assert_eq!(join(&parts, ""), "abc");
    assert_eq!(join(&parts, ", "), "a, b, c");
    assert_eq!(join(&vec![String::from("only")], " "), "only");
    assert_eq!(join(&Vec::new(), " "), "");
    assert_eq!(join(&vec![String::new(), String::new()], "-"), "-");
}

#[test]
fn trailing_segment_follows_the_last_slash() {
    assert_eq!(trailing_segment("https://www.kruidvat.nl/soap/p/12345"), "12345");
    assert_eq!(trailing_segment("12345"), "12345");
    assert_eq!(trailing_segment("https://www.kruidvat.nl/soap/"), "");
    assert_eq!(trailing_segment(""), "");
    assert_eq!(trailing_segment("/"), "");
    assert_eq!(trailing_segment("a/b"), "b");
    for address in ["https://www.kruidvat.nl/soap/p/12345", "x", "x/", "", "//a//b"] {
        assert_eq!(trailing_segment(address), address.split('/').last().unwrap());
    }
}

#[test]
fn whitespace_is_what_the_standard_library_calls_so() {
    let mut count = 0;
    for code in 0..=0x10ffffu32 {
        if let Some(c) = char::from_u32(code) {
            assert_eq!(is_whitespace(c), c.is_whitespace());
            if is_whitespace(c) {
                count += 1;
            }
        }
    }
    assert_eq!(count, 25);
    for c in [' ', '\t', '\n', '\r', '\u{b}', '\u{c}', '\u{85}', '\u{a0}', '\u{3000}'] {
        assert!(is_whitespace(c));
    }
    for c in ['a', '0', '.', ',', '\u{8}', '\u{e}', '\u{200b}', '\u{feff}', '\u{180e}'] {
        assert!(!is_whitespace(c));
    }
}
