use mos6502::hex::decode_hex;
use mos6502::hex::encode_hex;
use mos6502::hex::to_hex;

#[test]
fn decode_simple() {
    let v = decode_hex("a914").unwrap();
    assert_eq!(v, vec![0xA9, 0x14]);
}

#[test]
fn decode_mixed_case() {
    let v = decode_hex("DeAd").unwrap();
    assert_eq!(v, vec![0xDE, 0xAD]);
}

#[test]
fn decode_empty() {
    let v = decode_hex("").unwrap();
    assert_eq!(v, Vec::<u8>::new());
}

#[test]
fn decode_rejects_non_hex() {
    assert!(decode_hex("zz").is_err());
    assert!(decode_hex("a9z4").is_err());
}

#[test]
fn decode_accepts_leading_plus_in_a_pair() {
    // The standard integer parser accepts a leading plus sign, and the
    // decoder matches it pair by pair.
    let v = decode_hex("+f").unwrap();
    assert_eq!(v, vec![0x0F]);
    assert!(decode_hex("f+").is_err());
}

#[test]
fn encode_simple() {
    assert_eq!(encode_hex(&[0xDE, 0xAD, 0xBE, 0xEF]), "deadbeef");
    assert_eq!(encode_hex(&[]), "");
    assert_eq!(encode_hex(&[0x00, 0x0A]), "000a");
}

#[test]
fn encode_decode_round_trip() {
    let bytes: Vec<u8> = vec![0xA2, 0x0A, 0x8E, 0x00, 0x00, 0xFF, 0x01];
    let hexed = encode_hex(&bytes);
    assert_eq!(decode_hex(&hexed).unwrap(), bytes);
}

#[test]
fn to_hex_widths() {
    assert_eq!(to_hex(0xAB, 2), "ab");
    assert_eq!(to_hex(0x05, 2), "05");
    assert_eq!(to_hex(0x1234, 4), "1234");
    assert_eq!(to_hex(0x00FF, 4), "00ff");
    // Width two is a minimum, as the formatter's padding was.
    assert_eq!(to_hex(0x1234, 2), "1234");
    assert_eq!(to_hex(0x0123, 2), "123");
    // Any other width yields the empty string.
    assert_eq!(to_hex(0x12, 3), "");
}
