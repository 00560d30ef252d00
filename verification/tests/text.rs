use openhuman_meet::pcm::{bytes_to_samples, samples_to_bytes};
use openhuman_meet::text::{
    self, chars_of, decimal_of, first_word, is_whitespace, str_eq, str_is_blank, str_starts_with,
    str_trim, string_of,
};

#[test]
fn white_space_is_unicode_white_space() {
    let mut n: u32 = 0;
    while n <= 0x10ffff {
        if let Some(c) = char::from_u32(n) {
            assert_eq!(is_whitespace(c), c.is_whitespace(), "{n:x}");
        }
        n += 1;
    }
}

#[test]
fn trimming_agrees_with_std() {
    for s in ["", "  ", "a", " a b\t", "\u{3000}x\u{2003}", "\u{200b}x ", "\r\n line \n"] {
        assert_eq!(str_trim(s), s.trim());
        assert_eq!(str_is_blank(s), s.trim().is_empty());
    }
}

#[test]
fn first_words_agree_with_std() {
    for s in ["", "  ", "one", " one two", "one\u{a0}two", "\tws://h/x trailing"] {
        let chars = chars_of(s);
        let word = first_word(&chars).map(string_of);
        assert_eq!(word.as_deref(), s.split_whitespace().next());
    }
}

#[test]
fn prefixes_and_equality_agree_with_std() {
    for (a, b) in [("", ""), ("ab", ""), ("ab", "a"), ("ab", "ab"), ("ab", "abc"), ("é", "e")] {
        assert_eq!(str_starts_with(a, b), a.starts_with(b));
        assert_eq!(str_eq(a, b), a == b);
        assert_eq!(text::concat(a, b), format!("{a}{b}"));
    }
}

#[test]
fn numbers_are_written_in_decimal() {
    for n in [0, 9, 10, 1600, 1_000_000_007, u64::MAX] {
        assert_eq!(decimal_of(n), n.to_string());
    }
}

#[test]
fn bytes_and_samples_are_the_same_audio() {
    let bytes = vec![0, 0, 1, 0, 255, 127, 0, 128, 255, 255];
    let samples = bytes_to_samples(&bytes);
    assert_eq!(samples, vec![0, 1, 32767, -32768, -1]);
    assert_eq!(samples_to_bytes(&samples), bytes);
    // A last odd byte is left out.
    assert_eq!(bytes_to_samples(&[1, 0, 9]), vec![1]);
}
