use conversation::digest::{lower_hex_text, sha256_hex};
use conversation::error::ErrorCode;
use conversation::text::{
    check_id, decimal_text, is_hex64, is_lower_hex64, is_valid_id, parse_decimal_u64,
    parse_lookup_counter, parse_version, text_has_control, text_has_unsafe_control, text_is_blank,
    trim_text,
};

#[test]
fn identifiers_are_short_ascii_words() {
    assert!(is_valid_id("run-1_A"));
    assert!(is_valid_id(&"a".repeat(64)));
    assert!(!is_valid_id(""));
    assert!(!is_valid_id(&"a".repeat(65)));
    assert!(!is_valid_id("has space"));
    assert!(!is_valid_id("dot.ted"));
    assert!(!is_valid_id("é"));
    assert_eq!(check_id("bad id").unwrap_err().code, ErrorCode::InvalidRequest);
    assert!(check_id("good-id").is_ok());
}

#[test]
fn decimals_are_canonical() {
    assert_eq!(parse_decimal_u64("0").unwrap(), 0);
    assert_eq!(parse_decimal_u64("42").unwrap(), 42);
    assert_eq!(parse_decimal_u64("18446744073709551615").unwrap(), u64::MAX);
    assert_eq!(parse_decimal_u64("18446744073709551616").unwrap_err().code, ErrorCode::InvalidRequest);
    assert_eq!(parse_decimal_u64("007").unwrap_err().code, ErrorCode::InvalidRequest);
    assert_eq!(parse_decimal_u64("").unwrap_err().code, ErrorCode::InvalidRequest);
    assert_eq!(parse_decimal_u64("+1").unwrap_err().code, ErrorCode::InvalidRequest);
    assert_eq!(parse_decimal_u64("1 ").unwrap_err().code, ErrorCode::InvalidRequest);
}

#[test]
fn versions_fit_a_signed_column() {
    assert_eq!(parse_version("9223372036854775807").unwrap(), 9223372036854775807);
    assert_eq!(parse_version("9223372036854775808").unwrap_err().code, ErrorCode::InvalidRequest);
    assert_eq!(parse_version("12").unwrap(), 12);
}

#[test]
fn lookup_counters_read_like_sqlite_integers() {
    assert_eq!(parse_lookup_counter("+5").unwrap(), 5);
    assert_eq!(parse_lookup_counter("007").unwrap(), 7);
    assert_eq!(parse_lookup_counter("-12").unwrap(), -12);
    assert_eq!(parse_lookup_counter("-9223372036854775808").unwrap(), i64::MIN);
    assert_eq!(parse_lookup_counter("9223372036854775807").unwrap(), i64::MAX);
    assert_eq!(
        parse_lookup_counter("9223372036854775808").unwrap_err().code,
        ErrorCode::InvalidLookupCounter
    );
    assert_eq!(parse_lookup_counter("-").unwrap_err().code, ErrorCode::InvalidLookupCounter);
    assert_eq!(parse_lookup_counter("1.5").unwrap_err().code, ErrorCode::InvalidLookupCounter);
}

#[test]
fn decimal_text_spells_the_number() {
    assert_eq!(decimal_text(0), "0");
    assert_eq!(decimal_text(1907), "1907");
    assert_eq!(decimal_text(u64::MAX), "18446744073709551615");
}

#[test]
fn hashes_are_sixty_four_hex_digits() {
    let lower = "ab".repeat(32);
    let upper = "AB".repeat(32);
    assert!(is_lower_hex64(&lower));
    assert!(!is_lower_hex64(&upper));
    assert!(is_hex64(&upper));
    assert!(!is_hex64(&"a".repeat(63)));
    assert!(!is_hex64(&"g".repeat(64)));
}

#[test]
fn trimming_drops_unicode_whitespace_at_both_ends() {
    assert_eq!(trim_text("  hi there \n"), "hi there");
    assert_eq!(trim_text("\u{3000}x\u{00a0}"), "x");
    assert_eq!(trim_text(" \t "), "");
    assert!(text_is_blank(" \u{2028}"));
    assert!(!text_is_blank(" a "));
}

#[test]
fn control_characters_are_found() {
    assert!(text_has_control("a\u{7}b"));
    assert!(text_has_control("line\nbreak"));
    assert!(!text_has_unsafe_control("line\nbreak\ttab"));
    assert!(text_has_unsafe_control("bell\u{7}"));
    assert!(!text_has_control("plain"));
}

#[test]
fn sha256_of_known_inputs() {
    assert_eq!(
        sha256_hex(b"abc"),
        "ba7816bf8f01cfea414140de5dae2223b00361a396177a9cb410ff61f20015ad"
    );
    assert_eq!(
        sha256_hex(b""),
        "e3b0c44298fc1c149afbf4c8996fb92427ae41e4649b934ca495991b7852b855"
    );
}

#[test]
fn lower_hex_spells_each_byte() {
    assert_eq!(lower_hex_text(&[0x00, 0x0f, 0xa0, 0xff]), "000fa0ff");
    assert_eq!(lower_hex_text(&[]), "");
}
