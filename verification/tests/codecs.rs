use himawari::codec::{decode_hex_prefix, encode_hex, encode_u64, scan_number};
use himawari::token::{decode_claims, encode_claims, Claims};

#[test]
fn numbers_get_their_decimal_spelling() {
    assert_eq!(encode_u64(0), "0");
    assert_eq!(encode_u64(7), "7");
    assert_eq!(encode_u64(12345), "12345");
    assert_eq!(encode_u64(u64::MAX), "18446744073709551615");
}

#[test]
fn scan_reads_numbers_back() {
    assert_eq!(scan_number("12345", 0), Some((12345, 5)));
    assert_eq!(scan_number("42;rest", 0), Some((42, 2)));
    assert_eq!(scan_number("0", 0), Some((0, 1)));
}

#[test]
fn scan_rejects_non_canonical_spellings() {
    // a leading zero is not the canonical spelling this format signs
    assert_eq!(scan_number("007", 0), None);
    assert_eq!(scan_number("abc", 0), None);
    assert_eq!(scan_number("", 0), None);
    // one past the largest representable value
    assert_eq!(scan_number("18446744073709551616", 0), None);
}

#[test]
fn hex_round_trips() {
    let bytes: Vec<u8> = vec![0x00, 0x01, 0x7f, 0x80, 0xde, 0xad, 0xbe, 0xef, 0xff];
    let hex = encode_hex(&bytes);
    assert_eq!(hex, "00017f80deadbeefff");
    let back = decode_hex_prefix(&hex, bytes.len()).unwrap();
    assert_eq!(back, bytes);
}

#[test]
fn hex_decode_rejects_non_hex() {
    assert_eq!(decode_hex_prefix("zz", 1), None);
    // upper case is not the canonical spelling
    assert_eq!(decode_hex_prefix("AB", 1), None);
}

fn claims() -> Claims {
    Claims {
        username: String::from("alice"),
        display_name: String::from("Alice A."),
        email: String::from("alice@example.com"),
        created: 1_600_000_000,
        expiry: 1_700_000_000,
    }
}

#[test]
fn claims_round_trip() {
    let c = claims();
    let text = encode_claims(&c);
    let back = decode_claims(&text).unwrap();
    assert_eq!(back.username, c.username);
    assert_eq!(back.display_name, c.display_name);
    assert_eq!(back.email, c.email);
    assert_eq!(back.created, c.created);
    assert_eq!(back.expiry, c.expiry);
}

#[test]
fn claims_encoding_is_the_expected_text() {
    let c = Claims {
        username: String::from("bob"),
        display_name: String::from("Bob"),
        email: String::from("b@x.io"),
        created: 5,
        expiry: 9,
    };
    assert_eq!(encode_claims(&c), "3:bob3:Bob6:b@x.io5;9;");
}

#[test]
fn claims_with_tricky_field_content_round_trip() {
    // fields may contain digits, colons and semicolons; the length prefix
    // keeps the reading unambiguous
    let c = Claims {
        username: String::from("3:bob"),
        display_name: String::from("7;9;"),
        email: String::from("x:y;z@example.com"),
        created: 0,
        expiry: u64::MAX,
    };
    let back = decode_claims(&encode_claims(&c)).unwrap();
    assert_eq!(back.username, "3:bob");
    assert_eq!(back.display_name, "7;9;");
    assert_eq!(back.email, "x:y;z@example.com");
    assert_eq!(back.expiry, u64::MAX);
}

#[test]
fn truncated_or_padded_claims_are_rejected() {
    let text = encode_claims(&claims());
    let mut truncated = text.clone();
    truncated.pop();
    assert!(decode_claims(&truncated).is_none());
    let padded = format!("{};", text);
    assert!(decode_claims(&padded).is_none());
    assert!(decode_claims("").is_none());
}
