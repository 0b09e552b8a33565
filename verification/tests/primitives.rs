use envoix_ffi::clock::{clock_millis, clock_seconds, now_ms, now_unix_seconds};
use envoix_ffi::hex::{hex_text, unhex};
use envoix_ffi::text::{
    ascii_lowercase_text, byte_len, contains_control, contains_text, contains_whitespace,
    decimal_text, has_prefix, non_blank, text_after, text_before, text_without_trailing,
    trimmed_text,
};
use envoix_ffi::text_map::TextMap;
use envoix_ffi::tokens::{drawn_token, random_token, token_text};

#[test]
fn numbers_are_written_in_decimal() {
    assert_eq!(decimal_text(0), "0");
    assert_eq!(decimal_text(1020), "1020");
    assert_eq!(decimal_text(u64::MAX), "18446744073709551615");
}

#[test]
fn texts_are_trimmed_and_cut() {
    assert_eq!(trimmed_text("\u{2003} a b \n"), "a b");
    assert_eq!(non_blank(" \t"), None);
    assert_eq!(text_before("a-b-c", '-'), "a");
    assert_eq!(text_before("abc", '-'), "abc");
    assert_eq!(text_after("k@a@b", '@').as_deref(), Some("a@b"));
    assert_eq!(text_after("k", '@'), None);
    assert_eq!(text_without_trailing("x//", '/'), "x");
    assert_eq!(ascii_lowercase_text("ÄBc"), "Äbc");
    assert!(has_prefix("envoix:x", "envoix:"));
    assert!(!has_prefix("env", "envoix:"));
    assert!(contains_text("aab", "ab"));
    assert!(!contains_text("aab", "ba"));
    assert!(contains_text("", ""));
    assert!(contains_whitespace("a\u{a0}b"));
    assert!(contains_control("a\u{85}"));
    assert!(!contains_control("é"));
    assert_eq!(byte_len("aé€😀"), 10);
}

#[test]
fn bytes_come_back_from_hexadecimal() {
    let bytes: Vec<u8> = (0..=255).collect();
    let text = hex_text(&bytes);
    assert_eq!(&text[..8], "00010203");
    assert_eq!(unhex(&text), Some(bytes));
    assert_eq!(unhex("0G"), None);
    assert_eq!(unhex("0"), None);
    assert_eq!(unhex("aF"), Some(vec![0xaf]));
}

#[test]
fn tokens_use_the_link_alphabet() {
    assert_eq!(token_text(&vec![0xfb, 0xff, 0xbf]), "-_-_");
    assert_eq!(token_text(&b"foob".to_vec()), "Zm9vYg");
    assert_eq!(token_text(&b"fooba".to_vec()), "Zm9vYmE");
    assert_eq!(token_text(&Vec::new()), "");
    assert_eq!(random_token().ok().unwrap().len(), 24);
}

#[test]
fn tokens_need_drawn_bytes() {
    assert_eq!(drawn_token(Ok(vec![0xfb, 0xff, 0xbf])), Ok("-_-_".to_string()));
    assert_eq!(drawn_token(Ok(vec![0; 18])), Ok("A".repeat(24)));
    assert_eq!(drawn_token(Err("no source".into())), Err("no source".to_string()));
}

#[test]
fn clocks_count_from_the_epoch() {
    assert_eq!(clock_millis(Some((2, 345_678_901))), 2345);
    assert_eq!(clock_seconds(Some((2, 999_999_999))), 2);
    assert_eq!(clock_millis(None), 0);
    assert_eq!(clock_seconds(None), 0);
    let before = now_ms();
    assert!(before > 1_600_000_000_000);
    assert!(now_ms() >= before);
    assert!(now_unix_seconds() >= before / 1000);
}

#[test]
fn maps_hold_one_value_for_a_key() {
    let mut map: TextMap<u32> = TextMap::new();
    map.insert("a".into(), 1);
    map.insert("b".into(), 2);
    map.insert("a".into(), 3);
    assert_eq!(map.len(), 2);
    assert_eq!(map.get("a"), Some(&3));
    assert_eq!(map.remove("a"), Some(3));
    assert_eq!(map.remove("a"), None);
    assert!(map.contains_key("b"));
}
