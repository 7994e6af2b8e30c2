use acpx_rs::clock::{iso_now, timestamp};
use acpx_rs::text::{decimal_text, is_white_space, join, signed_decimal_text, trim};

#[test]
fn white_space_is_that_of_unicode() {
    for code in 0..=0x10ffff_u32 {
        if let Some(ch) = char::from_u32(code) {
            assert_eq!(is_white_space(ch), ch.is_whitespace(), "{code:x}");
        }
    }
}

#[test]
fn trims_both_ends() {
    for text in ["", " ", "\t\r\n", "a", " a", "a ", " a b ", "\u{a0}x\u{3000}", "\u{200b}x"] {
        assert_eq!(trim(text), text.trim());
    }
}

#[test]
fn decimal_numerals() {
    for n in [0, 1, 9, 10, 19, 100, 1_700_000_000, u64::MAX] {
        assert_eq!(decimal_text(n), n.to_string());
    }
    for n in [0, -1, 7, -10, i64::MIN, i64::MAX] {
        assert_eq!(signed_decimal_text(n), n.to_string());
    }
}

#[test]
fn joins_with_a_separator() {
    let words: Vec<String> = vec!["a".to_string(), "".to_string(), "c d".to_string()];
    assert_eq!(join(&words, " "), "a  c d");
    assert_eq!(join(&words, ""), "ac d");
    assert_eq!(join(&Vec::new(), ", "), "");
}

#[test]
fn time_stamps_are_seconds() {
    assert_eq!(timestamp(Some(0)), "0");
    assert_eq!(timestamp(Some(1_731_628_800)), "1731628800");
    assert_eq!(timestamp(None), "0");
    assert_ne!(timestamp(Some(1)), timestamp(Some(10)));
    let seconds = || {
        let now = std::time::SystemTime::now();
        now.duration_since(std::time::UNIX_EPOCH).unwrap().as_secs()
    };
    let before = seconds();
    let stamp: u64 = iso_now().parse().unwrap();
    assert!(before <= stamp && stamp <= seconds());
}
