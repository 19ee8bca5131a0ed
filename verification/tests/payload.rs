use cartezcash::error::DecodeError;
use cartezcash::payload::decode_text;

#[test]
fn digits_spell_bytes() {
    assert_eq!(decode_text("0x00"), Ok(vec![0x00]));
    assert_eq!(decode_text("0xffff"), Ok(vec![0xff, 0xff]));
    assert_eq!(decode_text("0x0123456789abcdef"), Ok(vec![0x01, 0x23, 0x45, 0x67, 0x89, 0xab, 0xcd, 0xef]));
    assert_eq!(decode_text("0xABCDEF"), Ok(vec![0xab, 0xcd, 0xef]));
    assert_eq!(decode_text("0xaBcD"), Ok(vec![0xab, 0xcd]));
    assert_eq!(decode_text("0x10"), Ok(vec![0x10]));
    assert_eq!(decode_text("0x01"), Ok(vec![0x01]));
}

#[test]
fn no_digits_spell_no_bytes() {
    assert_eq!(decode_text(""), Ok(vec![]));
    assert_eq!(decode_text("0x"), Ok(vec![]));
}

#[test]
fn marker_is_taken_away_as_often_as_it_stands() {
    assert_eq!(decode_text("ff"), Ok(vec![0xff]));
    assert_eq!(decode_text("0xff"), Ok(vec![0xff]));
    assert_eq!(decode_text("0x0xff"), Ok(vec![0xff]));
    assert_eq!(decode_text("0x0x0x0x"), Ok(vec![]));
    assert_eq!(decode_text("0x00x0"), Err(DecodeError::InvalidPayloadEncoding));
    assert_eq!(decode_text("000x"), Err(DecodeError::InvalidPayloadEncoding));
}

#[test]
fn odd_number_of_digits_is_refused() {
    assert_eq!(decode_text("0x0"), Err(DecodeError::InvalidPayloadEncoding));
    assert_eq!(decode_text("f"), Err(DecodeError::InvalidPayloadEncoding));
    assert_eq!(decode_text("0x123"), Err(DecodeError::InvalidPayloadEncoding));
}

#[test]
fn other_characters_are_refused() {
    for text in ["0xgg", "0x0g", "0xg0", "0X00", "0x 0", " 0x00", "0x00 ", "0x-1", "0x0_", "zz", "0x00\n", "0xéé", "0x٠٠"] {
        assert_eq!(decode_text(text), Err(DecodeError::InvalidPayloadEncoding), "text {:?}", text);
    }
}
