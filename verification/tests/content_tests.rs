use pbo_tools::content::{
    appears_binary, classify, decode_bytes, starts_with_binary_signature, BinaryContent,
    ContentKind, EncodingFailure,
};
use pbo_tools::error::PboError;

#[test]
fn test_binary_detection() {
    let content = BinaryContent::new("test.bin".to_string(), vec![0x00, 0x00, 0xFF, 0xFF, 0x00]);
    assert!(matches!(content.decode_text(), Err(PboError::Encoding { .. })));
    assert_eq!(content.kind(), ContentKind::Binary);
    assert_eq!(classify(&[0x00, 0x00, 0xFF, 0xFF, 0x00]), ContentKind::Binary);
}

#[test]
fn plain_text_is_text() {
    assert_eq!(classify("Hello, world!".as_bytes()), ContentKind::Text);
    assert_eq!(decode_bytes("Hello, world!".as_bytes()), Ok("Hello, world!".to_string()));
}

#[test]
fn test_binary_content_from_file() {
    let content = BinaryContent::new("test.bin".to_string(), b"Hello, World!".to_vec());
    assert_eq!(content.as_bytes(), b"Hello, World!");
}

#[test]
fn test_utf8_content() {
    let content = BinaryContent::new("test_utf8.txt".to_string(), "Hello, 世界!".as_bytes().to_vec());
    assert_eq!(content.decode_text().unwrap(), "Hello, 世界!");
}

#[test]
fn test_windows1252_content() {
    let content = BinaryContent::new(
        "test_win1252.txt".to_string(),
        vec![0x48, 0x65, 0x6C, 0x6C, 0x6F, 0x2C, 0x20, 0xA3],
    );
    assert_eq!(content.decode_text().unwrap(), "Hello, £");
}

#[test]
fn test_empty_file() {
    let content = BinaryContent::new("empty.txt".to_string(), Vec::new());
    assert_eq!(content.decode_text().unwrap(), "");
    assert_eq!(content.kind(), ContentKind::Text);
}

#[test]
fn byte_order_mark_is_taken_off() {
    assert_eq!(decode_bytes(&[0xEF, 0xBB, 0xBF, b'h', b'i']), Ok("hi".to_string()));
    assert_eq!(decode_bytes(&[0xEF, 0xBB, 0xBF]), Ok(String::new()));
    assert_eq!(decode_bytes(&[0xEF, 0xBB, 0xBF, b'a', 0x00]), Ok("a\0".to_string()));
}

#[test]
fn invalid_bytes_after_byte_order_mark() {
    assert_eq!(decode_bytes(&[0xEF, 0xBB, 0xBF, 0xFF]), Err(EncodingFailure::InvalidUtf8));
    let content = BinaryContent::new("dir/file.txt".to_string(), vec![0xEF, 0xBB, 0xBF, 0xC3]);
    assert_eq!(
        content.decode_text(),
        Err(PboError::Encoding {
            context: "Invalid UTF-8 after byte-order mark".to_string(),
            path: "dir/file.txt".to_string(),
        })
    );
}

#[test]
fn signatures_are_binary() {
    let tail = [0x81u8, b'a', b'b', b'c', b'd', b'e', b'f', b'g', b'h', b'i', b'j', b'k'];
    for head in [[0xFFu8, 0xD8], [0x42, 0x4D], [0x89, 0x50], [0x50, 0x4B], [0xFF, 0xFE], [0xFE, 0xFF]] {
        let mut bytes = head.to_vec();
        bytes.extend_from_slice(&tail);
        assert!(starts_with_binary_signature(&bytes));
        assert_eq!(decode_bytes(&bytes), Err(EncodingFailure::Binary));
    }
    assert!(!starts_with_binary_signature(&[0x42]));
    assert!(!starts_with_binary_signature(&[0x4D, 0x42]));
    assert_eq!(decode_bytes(b"BMW is text"), Ok("BMW is text".to_string()));
    assert_eq!(decode_bytes(b"PK"), Ok("PK".to_string()));
}

#[test]
fn thresholds_of_the_heuristic() {
    // 1 NUL in 10 bytes is exactly 10%: not above the share.
    let mut ten = b"abcdefghi".to_vec();
    ten.push(0);
    assert!(!appears_binary(&ten));
    // 1 NUL in 9 bytes is above it.
    let mut nine = b"abcdefgh".to_vec();
    nine.push(0);
    assert!(appears_binary(&nine));
    // 3 control bytes in 10 are exactly 30%; 4 are above.
    assert!(!appears_binary(&[1, 2, 3, b'a', b'b', b'c', b'd', b'e', b'f', b'g']));
    assert!(appears_binary(&[1, 2, 3, 4, b'a', b'b', b'c', b'd', b'e', b'f']));
    // Tab, line feed and carriage return are no control bytes.
    assert!(!appears_binary(&[9, 10, 13, 9, 10, 13, b'a', b'b', b'c', b'd']));
    // 9 equal bytes in 10 are exactly 90%; 10 in 10 are above.
    assert!(!appears_binary(b"aaaaaaaaab"));
    assert!(appears_binary(b"aaaaaaaaaa"));
    assert!(!appears_binary(&[]));
}

#[test]
fn only_the_first_kilobyte_is_sampled() {
    let mut bytes: Vec<u8> = Vec::new();
    for i in 0..1024u32 {
        bytes.push(b'a' + (i % 26) as u8);
    }
    for _ in 0..5000 {
        bytes.push(0);
    }
    assert!(!appears_binary(&bytes));
    assert_eq!(decode_bytes(&bytes), Err(EncodingFailure::EmbeddedNul));
}

#[test]
fn windows_1252_failures() {
    assert_eq!(
        decode_bytes(&[b'a', b'b', b'c', b'd', b'e', b'f', b'g', b'h', b'i', b'j', b'k', 0x81]),
        Err(EncodingFailure::UnmappedByte)
    );
    let mut with_nul = b"abcdefghijklmnopqrstuvwxyz".to_vec();
    with_nul.push(0);
    assert_eq!(decode_bytes(&with_nul), Err(EncodingFailure::EmbeddedNul));
    with_nul.push(0x9D);
    assert_eq!(decode_bytes(&with_nul), Err(EncodingFailure::UnmappedByte));
}

#[test]
fn windows_1252_table() {
    let bytes = [b'a', b'b', b'c', b'd', b'e', b'f', b'g', b'h', b'i', b'j', 0x80, 0x85, 0x99, 0x9F, 0xE9, 0xFF];
    assert_eq!(decode_bytes(&bytes), Ok("abcdefghij€…™Ÿéÿ".to_string()));
}

#[test]
fn reasons_of_failures() {
    assert_eq!(EncodingFailure::InvalidUtf8.reason(), "Invalid UTF-8 after byte-order mark");
    assert_eq!(EncodingFailure::Binary.reason(), "Content appears to be binary");
    assert_eq!(EncodingFailure::UnmappedByte.reason(), "Content is not valid Windows-1252");
    assert_eq!(EncodingFailure::EmbeddedNul.reason(), "Content contains NUL characters");
}

#[test]
fn classification_is_reproducible() {
    let bytes = [0x48, 0x65, 0x6C, 0x6C, 0x6F, 0x2C, 0x20, 0xA3];
    assert_eq!(decode_bytes(&bytes), decode_bytes(&bytes));
    assert_eq!(classify(&bytes), classify(&bytes));
}
