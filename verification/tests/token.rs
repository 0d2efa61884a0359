use astra_receiver::token::{
    generate_token, is_alphanumeric_char, is_valid_token, token_from_codes, TOKEN_LENGTH,
};

#[test]
fn token_length_is_32() {
    assert_eq!(TOKEN_LENGTH, 32);
}

#[test]
fn alphabet_is_ascii_letters_and_digits() {
    let mut count: u32 = 0;
    for code in 0u32..=0x10FFFF {
        if let Some(c) = char::from_u32(code) {
            assert_eq!(is_alphanumeric_char(c), c.is_ascii_alphanumeric(), "U+{:04X}", code);
            if is_alphanumeric_char(c) {
                count += 1;
            }
        }
    }
    assert_eq!(count, 62);
}

#[test]
fn generated_token_has_the_shape() {
    for _ in 0..200 {
        let token: String = generate_token();
        assert_eq!(token.len(), 32);
        assert_eq!(token.chars().count(), 32);
        assert!(token.chars().all(|c| c.is_ascii_alphanumeric()));
        assert!(is_valid_token(&token));
    }
}

#[test]
fn successive_tokens_differ() {
    let first: String = generate_token();
    let second: String = generate_token();
    assert_ne!(first, second);
}

#[test]
fn generated_characters_vary() {
    let token: String = generate_token();
    let first: char = token.chars().next().unwrap();
    assert!(token.chars().any(|c| c != first));
}

#[test]
fn valid_tokens() {
    assert!(is_valid_token("abc123DEF456ghi789JKL012mno345PQ"));
    assert!(is_valid_token("00000000000000000000000000000000"));
    assert!(is_valid_token("zzzzzzzzzzzzzzzzZZZZZZZZZZZZZZZZ"));
}

#[test]
fn wrong_length_is_no_token() {
    assert!(!is_valid_token(""));
    assert!(!is_valid_token("abc"));
    assert!(!is_valid_token("abc123DEF456ghi789JKL012mno345P"));
    assert!(!is_valid_token("abc123DEF456ghi789JKL012mno345PQR"));
}

#[test]
fn wrong_character_is_no_token() {
    assert!(!is_valid_token("abc123DEF456ghi789JKL012mno345P-"));
    assert!(!is_valid_token(" bc123DEF456ghi789JKL012mno345PQ"));
    assert!(!is_valid_token("abc123DEF456ghi7_9JKL012mno345PQ"));
    assert!(!is_valid_token("abc123DEF456ghi789JKL012mno345P\u{e9}"));
    assert!(!is_valid_token("abc123DEF456ghi789JKL012mno345P\u{663}"));
}

#[test]
fn codes_become_characters_one_for_one() {
    assert_eq!(token_from_codes(b""), "");
    assert_eq!(token_from_codes(b"abc123XYZ"), "abc123XYZ");
    assert_eq!(token_from_codes(&[0x41, 0x7a, 0x30]), "Az0");
}

#[test]
fn codes_above_ascii_are_characters_too() {
    assert_eq!(token_from_codes(&[0xe9]), "\u{e9}");
    assert_eq!(token_from_codes(&[0x00, 0x7f, 0x80, 0xff]), "\u{0}\u{7f}\u{80}\u{ff}");
}

#[test]
fn token_written_from_proper_codes_is_valid() {
    let codes: &[u8] = b"abc123DEF456ghi789JKL012mno345PQ";
    assert!(is_valid_token(&token_from_codes(codes)));
    assert!(!is_valid_token(&token_from_codes(&codes[1..])));
}
