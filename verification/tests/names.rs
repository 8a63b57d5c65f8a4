use sync_module::names::{safe_str_from_user_name, safe_str_to_user_name, MAX_NAME_BYTES};

#[test]
fn test_safe_string_conversion() {
    let test_str = "Alice_42";
    let name_array = safe_str_to_user_name(test_str);
    let recovered = safe_str_from_user_name(&name_array);
    assert_eq!(recovered, test_str);
}

#[test]
fn test_long_string_truncation() {
    let long_str = "ThisIsAVeryLongUserNameThatShouldBeTruncated";
    let name_array = safe_str_to_user_name(long_str);
    let recovered = safe_str_from_user_name(&name_array);
    assert!(recovered.len() <= 31); // Should be truncated
}

#[test]
fn name_of_45_characters_is_cut_to_31() {
    let long_str = "abcdefghijklmnopqrstuvwxyzABCDEFGHIJKLMNOPQRS";
    assert_eq!(long_str.len(), 45);
    let field = safe_str_to_user_name(long_str);
    assert_eq!(&field[..31], &long_str.as_bytes()[..31]);
    assert_eq!(field[31], 0);
    let recovered = safe_str_from_user_name(&field);
    assert_eq!(recovered, "abcdefghijklmnopqrstuvwxyzABCDE");
    assert_eq!(recovered.chars().count(), 31);
    assert!(std::str::from_utf8(recovered.as_bytes()).is_ok());
}

#[test]
fn name_field_is_zero_behind_the_name() {
    let field = safe_str_to_user_name("Bob");
    assert_eq!(&field[..3], b"Bob");
    for i in 3..32 {
        assert_eq!(field[i], 0);
    }
}

#[test]
fn empty_name_round_trips() {
    let field = safe_str_to_user_name("");
    assert_eq!(field, [0u8; 32]);
    assert_eq!(safe_str_from_user_name(&field), "");
}

#[test]
fn name_of_exactly_31_bytes_round_trips() {
    let text = "0123456789012345678901234567890";
    assert_eq!(text.len(), MAX_NAME_BYTES);
    let field = safe_str_to_user_name(text);
    assert_eq!(safe_str_from_user_name(&field), text);
}

#[test]
fn name_of_32_bytes_loses_its_last_byte() {
    let text = "01234567890123456789012345678901";
    let field = safe_str_to_user_name(text);
    assert_eq!(field[31], 0);
    assert_eq!(safe_str_from_user_name(&field), &text[..31]);
}

#[test]
fn name_ends_at_first_zero_byte() {
    let field = safe_str_to_user_name("ab\0cd");
    assert_eq!(&field[..5], b"ab\0cd");
    assert_eq!(safe_str_from_user_name(&field), "ab");
}

#[test]
fn field_without_terminator_is_read_whole() {
    let field = [b'x'; 32];
    let recovered = safe_str_from_user_name(&field);
    assert_eq!(recovered.len(), 32);
    assert!(recovered.bytes().all(|b| b == b'x'));
}

#[test]
fn multibyte_name_round_trips() {
    let text = "Zoë Müller 北京";
    assert!(text.len() <= 31);
    let field = safe_str_to_user_name(text);
    assert_eq!(safe_str_from_user_name(&field), text);
}

#[test]
fn character_cut_in_half_is_replaced() {
    // 30 one-byte characters and a two-byte one: the cut falls inside the last.
    let text = "012345678901234567890123456789é";
    assert_eq!(text.len(), 32);
    let field = safe_str_to_user_name(text);
    assert_eq!(field[30], 0xC3);
    assert_eq!(field[31], 0);
    let recovered = safe_str_from_user_name(&field);
    assert_eq!(recovered, "012345678901234567890123456789\u{FFFD}");
    assert_eq!(recovered.chars().count(), 31);
}

#[test]
fn invalid_bytes_are_decoded_lossily_not_handed_back() {
    let mut field = [0u8; 32];
    field[0] = b'a';
    field[1] = 0xFF;
    field[2] = b'b';
    let recovered = safe_str_from_user_name(&field);
    assert_eq!(recovered, "a\u{FFFD}b");
    assert_ne!(recovered.as_bytes(), &field[..3]);
}
