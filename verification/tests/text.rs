use sos_client::sos_constants::{default_rendezvous_server, FALLBACK_RENDEZVOUS_SERVER};
use sos_client::text::{copy_bytes, join, to_decimal, to_wide};
use sos_client::wire::{get_i32, get_le, put_i32, put_le};

#[test]
fn decimal_numerals() {
    assert_eq!(to_decimal(0), "0");
    assert_eq!(to_decimal(1_999_999_999), "1999999999");
    assert_eq!(to_decimal(u64::MAX), "18446744073709551615");
}

#[test]
fn wide_text_matches_std() {
    for s in ["", "sos", "密码: 1", "a😀b", "\u{FFFF}\u{10000}\u{10FFFF}"] {
        let mut expected: Vec<u16> = s.encode_utf16().collect();
        expected.push(0);
        assert_eq!(to_wide(s), expected);
    }
}

#[test]
fn joined_text() {
    assert_eq!(join("ab", "密"), "ab密");
    assert_eq!(copy_bytes(&[1, 2, 3]), vec![1, 2, 3]);
}

#[test]
fn little_endian_matches_std() {
    for v in [0u32, 1, 255, 256, 0x0102_0304, u32::MAX] {
        assert_eq!(put_le(v as u64, 4), v.to_le_bytes().to_vec());
        assert_eq!(get_le(&v.to_le_bytes()), v as u64);
    }
    for v in [0u64, 0x0102_0304_0506_0708, u64::MAX] {
        assert_eq!(put_le(v, 8), v.to_le_bytes().to_vec());
        assert_eq!(get_le(&v.to_le_bytes()), v);
    }
    for v in [0i32, 1, -1, i32::MAX, i32::MIN] {
        assert_eq!(put_i32(v), v.to_le_bytes().to_vec());
        assert_eq!(get_i32(&v.to_le_bytes()), v);
    }
}

#[test]
fn rendezvous_server_of_last_resort() {
    assert_eq!(FALLBACK_RENDEZVOUS_SERVER, "rs-ny.rustdesk.com");
    assert_eq!(default_rendezvous_server(&vec![]), "rs-ny.rustdesk.com");
    let known = vec!["a.example".to_string(), "b.example".to_string()];
    assert_eq!(default_rendezvous_server(&known), "a.example");
}
