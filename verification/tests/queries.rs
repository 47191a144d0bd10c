use png_chunk_type::ascii::case_bit_of;
use png_chunk_type::ChunkType;
use std::convert::TryFrom;
use std::str::FromStr;

#[test]
fn valid_byte_is_ascii_letter() {
    for byte in 0..=255u8 {
        assert_eq!(ChunkType::is_valid_byte(byte), byte.is_ascii_alphabetic());
    }
}

#[test]
fn valid_byte_boundaries() {
    assert!(!ChunkType::is_valid_byte(64));
    assert!(ChunkType::is_valid_byte(65));
    assert!(ChunkType::is_valid_byte(90));
    assert!(!ChunkType::is_valid_byte(91));
    assert!(!ChunkType::is_valid_byte(96));
    assert!(ChunkType::is_valid_byte(97));
    assert!(ChunkType::is_valid_byte(122));
    assert!(!ChunkType::is_valid_byte(123));
    assert!(!ChunkType::is_valid_byte(0));
    assert!(!ChunkType::is_valid_byte(255));
}

#[test]
fn case_bit_is_bit_five() {
    for byte in 0..=255u8 {
        assert_eq!(case_bit_of(byte), byte & 0x20 != 0);
    }
    assert!(!case_bit_of(b'A'));
    assert!(case_bit_of(b'a'));
    assert!(!case_bit_of(0x1f));
    assert!(case_bit_of(0x20));
    assert!(!case_bit_of(0x40));
    assert!(!case_bit_of(0xdf));
    assert!(case_bit_of(0xff));
}

#[test]
fn case_bit_tells_the_case_of_a_letter() {
    for byte in 0..=255u8 {
        if byte.is_ascii_alphabetic() {
            assert_eq!(case_bit_of(byte), byte.is_ascii_lowercase());
            assert_eq!(!case_bit_of(byte), byte.is_ascii_uppercase());
        }
    }
}

#[test]
fn flags_of_rust() {
    let chunk = ChunkType::from_str("RuSt").unwrap();
    assert!(chunk.is_valid());
    assert!(chunk.is_critical());
    assert!(!chunk.is_public());
    assert!(chunk.is_reserved_bit_valid());
    assert!(chunk.is_safe_to_copy());
}

#[test]
fn each_flag_reads_its_own_byte() {
    let all_upper = ChunkType::from_str("AAAA").unwrap();
    assert!(all_upper.is_critical());
    assert!(all_upper.is_public());
    assert!(all_upper.is_reserved_bit_valid());
    assert!(!all_upper.is_safe_to_copy());

    let all_lower = ChunkType::from_str("aaaa").unwrap();
    assert!(!all_lower.is_critical());
    assert!(!all_lower.is_public());
    assert!(!all_lower.is_reserved_bit_valid());
    assert!(all_lower.is_safe_to_copy());

    let first = ChunkType::from_str("aAAA").unwrap();
    assert!(!first.is_critical());
    assert!(first.is_public());
    assert!(first.is_reserved_bit_valid());
    assert!(!first.is_safe_to_copy());

    let second = ChunkType::from_str("AaAA").unwrap();
    assert!(second.is_critical());
    assert!(!second.is_public());
    assert!(second.is_reserved_bit_valid());
    assert!(!second.is_safe_to_copy());

    let third = ChunkType::from_str("AAaA").unwrap();
    assert!(third.is_critical());
    assert!(third.is_public());
    assert!(!third.is_reserved_bit_valid());
    assert!(!third.is_safe_to_copy());

    let fourth = ChunkType::from_str("AAAa").unwrap();
    assert!(fourth.is_critical());
    assert!(fourth.is_public());
    assert!(fourth.is_reserved_bit_valid());
    assert!(fourth.is_safe_to_copy());
}

#[test]
fn flags_read_bit_five_of_any_byte() {
    let chunk = ChunkType::try_from([0x00, 0x20, 0xdf, 0xff]).unwrap();
    assert!(chunk.is_critical());
    assert!(!chunk.is_public());
    assert!(chunk.is_reserved_bit_valid());
    assert!(chunk.is_safe_to_copy());

    let chunk = ChunkType::try_from([0x20, 0x00, 0x20, 0x1f]).unwrap();
    assert!(!chunk.is_critical());
    assert!(chunk.is_public());
    assert!(!chunk.is_reserved_bit_valid());
    assert!(!chunk.is_safe_to_copy());
}

#[test]
fn valid_means_letters_and_reserved_bit() {
    assert!(ChunkType::from_str("RuSt").unwrap().is_valid());
    assert!(ChunkType::from_str("IHDR").unwrap().is_valid());
    assert!(ChunkType::from_str("tEXt").unwrap().is_valid());
    assert!(!ChunkType::from_str("Rust").unwrap().is_valid());
    assert!(!ChunkType::from_str("abcd").unwrap().is_valid());
}

#[test]
fn raw_bytes_that_are_no_letters_are_not_valid() {
    assert!(!ChunkType::try_from([49, 117, 83, 116]).unwrap().is_valid());
    assert!(!ChunkType::try_from([82, 49, 83, 116]).unwrap().is_valid());
    assert!(!ChunkType::try_from([82, 117, 49, 116]).unwrap().is_valid());
    assert!(!ChunkType::try_from([82, 117, 83, 49]).unwrap().is_valid());
    assert!(!ChunkType::try_from([0, 0, 0, 0]).unwrap().is_valid());
    assert!(!ChunkType::try_from([255, 255, 255, 255]).unwrap().is_valid());
    // The reserved bit is clear, but the third byte is no letter.
    assert!(ChunkType::try_from([82, 117, 64, 116]).unwrap().is_reserved_bit_valid());
    assert!(!ChunkType::try_from([82, 117, 64, 116]).unwrap().is_valid());
}

#[test]
fn valid_agrees_with_its_definition_on_raw_bytes() {
    for third in 0..=255u8 {
        for other in [0u8, 64, 65, 90, 91, 96, 97, 122, 123, 255] {
            let bytes = [other, 82, third, other];
            let chunk = ChunkType::try_from(bytes).unwrap();
            let expected = bytes.iter().all(|b| b.is_ascii_alphabetic()) && third & 0x20 == 0;
            assert_eq!(chunk.is_valid(), expected);
        }
    }
}
