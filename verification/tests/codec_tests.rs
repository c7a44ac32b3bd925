use eagerepo::codec::{encode_record, extract_body, extract_p1_p2, extract_rename};
use eagerepo::debug_fmt::{debug_hgid_list, debug_join, debug_list, debug_string_list, dec_string};
use eagerepo::types::{HgId, ID_LEN};

fn hgid(b: u8) -> HgId {
    HgId::from_slice(&[b; ID_LEN]).unwrap()
}

fn hex40(b: &str) -> Vec<u8> {
    b.repeat(20).into_bytes()
}

#[test]
fn record_round_trip() {
    let p1 = hgid(0x11);
    let p2 = hgid(0x22);
    let body = b"hello record body".to_vec();
    let record = encode_record(&p1, &p2, &body);
    assert_eq!(record.len(), 2 * ID_LEN + body.len());
    let (q1, q2) = extract_p1_p2(&record);
    assert_eq!(q1, p1);
    assert_eq!(q2, p2);
    assert_eq!(extract_body(&record), body);
}

#[test]
fn record_layout_is_p1_p2_body() {
    let p1 = hgid(1);
    let p2 = hgid(2);
    let record = encode_record(&p1, &p2, b"xyz");
    assert_eq!(&record[..ID_LEN], &[1u8; ID_LEN]);
    assert_eq!(&record[ID_LEN..2 * ID_LEN], &[2u8; ID_LEN]);
    assert_eq!(&record[2 * ID_LEN..], b"xyz");
}

#[test]
fn record_round_trip_empty_body() {
    let p1 = hgid(0);
    let p2 = hgid(0xFF);
    let record = encode_record(&p1, &p2, b"");
    let (q1, q2) = extract_p1_p2(&record);
    assert_eq!(q1, p1);
    assert_eq!(q2, p2);
    assert!(extract_body(&record).is_empty());
}

#[test]
fn rename_with_both_fields() {
    let mut body = b"\x01\ncopy: dir/old.txt\ncopyrev: ".to_vec();
    body.extend_from_slice(&hex40("ab"));
    body.extend_from_slice(b"\n\x01\nreal content");
    let key = extract_rename(&body).expect("rename expected");
    assert_eq!(key.path, b"dir/old.txt".to_vec());
    assert_eq!(key.hgid, hgid(0xAB));
}

#[test]
fn rename_without_trailing_newline() {
    let mut body = b"\x01\ncopy: a\ncopyrev: ".to_vec();
    body.extend_from_slice(&hex40("01"));
    body.extend_from_slice(b"\x01\ncontent");
    let key = extract_rename(&body).expect("rename expected");
    assert_eq!(key.path, b"a".to_vec());
    assert_eq!(key.hgid, hgid(0x01));
}

#[test]
fn rename_missing_copy_is_none() {
    let mut body = b"\x01\ncopyrev: ".to_vec();
    body.extend_from_slice(&hex40("ab"));
    body.extend_from_slice(b"\n\x01\ncontent");
    assert!(extract_rename(&body).is_none());
}

#[test]
fn rename_missing_copyrev_is_none() {
    let body = b"\x01\ncopy: dir/old.txt\n\x01\ncontent".to_vec();
    assert!(extract_rename(&body).is_none());
}

#[test]
fn rename_no_sentinel_is_none() {
    let body = b"copy: a\ncopyrev: b\nplain content".to_vec();
    assert!(extract_rename(&body).is_none());
}

#[test]
fn rename_unclosed_header_is_none() {
    let mut body = b"\x01\ncopy: a\ncopyrev: ".to_vec();
    body.extend_from_slice(&hex40("ab"));
    assert!(extract_rename(&body).is_none());
}

#[test]
fn rename_bad_hex_is_none() {
    let body = b"\x01\ncopy: a\ncopyrev: zz\n\x01\ncontent".to_vec();
    assert!(extract_rename(&body).is_none());
}

#[test]
fn rename_short_hex_is_none() {
    let body = b"\x01\ncopy: a\ncopyrev: abcd\n\x01\ncontent".to_vec();
    assert!(extract_rename(&body).is_none());
}

#[test]
fn rename_later_line_wins() {
    let mut body = b"\x01\ncopy: first\ncopy: second\ncopyrev: ".to_vec();
    body.extend_from_slice(&hex40("0c"));
    body.extend_from_slice(b"\n\x01\n");
    let key = extract_rename(&body).expect("rename expected");
    assert_eq!(key.path, b"second".to_vec());
}

#[test]
fn rename_later_bad_copyrev_overwrites_good_one() {
    let mut body = b"\x01\ncopy: a\ncopyrev: ".to_vec();
    body.extend_from_slice(&hex40("0c"));
    body.extend_from_slice(b"\ncopyrev: bogus\n\x01\n");
    assert!(extract_rename(&body).is_none());
}

#[test]
fn rename_line_with_two_separators_is_ignored() {
    let mut body = b"\x01\ncopy: a: b\ncopyrev: ".to_vec();
    body.extend_from_slice(&hex40("0c"));
    body.extend_from_slice(b"\n\x01\n");
    // The copy line splits into three parts, so it is ignored and no
    // rename is reported.
    assert!(extract_rename(&body).is_none());
}

#[test]
fn rename_nested_path_accepted() {
    let mut body = b"\x01\ncopy: dir/sub/old.txt\ncopyrev: ".to_vec();
    body.extend_from_slice(&hex40("11"));
    body.extend_from_slice(b"\n\x01\n");
    let key = extract_rename(&body).expect("rename expected");
    assert_eq!(key.path, b"dir/sub/old.txt".to_vec());
}

#[test]
fn rename_malformed_path_is_none() {
    for bad in [
        &b""[..],
        b"a//b",
        b"./a",
        b"a/..",
        b"/a",
        b"a/",
        b"..",
        b".",
        b"a\0b",
    ] {
        let mut body = b"\x01\ncopy: ".to_vec();
        body.extend_from_slice(bad);
        body.extend_from_slice(b"\ncopyrev: ");
        body.extend_from_slice(&hex40("11"));
        body.extend_from_slice(b"\n\x01\n");
        assert!(
            extract_rename(&body).is_none(),
            "path {:?} should be malformed",
            bad
        );
    }
}

#[test]
fn rename_later_bad_path_overwrites_good_one() {
    let mut body = b"\x01\ncopy: good\ncopy: bad//path\ncopyrev: ".to_vec();
    body.extend_from_slice(&hex40("11"));
    body.extend_from_slice(b"\n\x01\n");
    assert!(extract_rename(&body).is_none());
}

#[test]
fn rename_carriage_returns_are_stripped() {
    let mut body = b"\x01\ncopy: a\r\ncopyrev: ".to_vec();
    body.extend_from_slice(&hex40("0d"));
    body.extend_from_slice(b"\r\n\x01\n");
    let key = extract_rename(&body).expect("rename expected");
    assert_eq!(key.path, b"a".to_vec());
    assert_eq!(key.hgid, hgid(0x0D));
}

#[test]
fn rename_unrelated_keys_are_ignored() {
    let mut body = b"\x01\nflags: 1\ncopy: p\ncopyrev: ".to_vec();
    body.extend_from_slice(&hex40("ee"));
    body.extend_from_slice(b"\n\x01\nbody");
    let key = extract_rename(&body).expect("rename expected");
    assert_eq!(key.path, b"p".to_vec());
}

#[test]
fn hex_round_trip() {
    let id = hgid(0x5A);
    let hex = id.to_hex();
    assert_eq!(hex, "5a".repeat(20));
    let back = HgId::from_hex(hex.as_bytes()).unwrap();
    assert_eq!(back, id);
}

#[test]
fn hex_uppercase_accepted() {
    let id = HgId::from_hex(&hex40("AB")).unwrap();
    assert_eq!(id, hgid(0xAB));
}

#[test]
fn hex_wrong_length_rejected() {
    assert!(HgId::from_hex(b"abcd").is_none());
    assert!(HgId::from_hex(&"ab".repeat(21).into_bytes()).is_none());
}

#[test]
fn hex_bad_digit_rejected() {
    let mut h = hex40("ab");
    h[7] = b'g';
    assert!(HgId::from_hex(&h).is_none());
}

#[test]
fn id_width_is_enforced() {
    assert!(HgId::from_slice(&[0u8; 19]).is_none());
    assert!(HgId::from_slice(&[0u8; 21]).is_none());
    assert!(HgId::from_slice(&[0u8; 20]).is_some());
}

#[test]
fn null_id_is_null() {
    assert!(HgId::null().is_null());
    assert!(!hgid(1).is_null());
    let mut almost = [0u8; ID_LEN];
    almost[ID_LEN - 1] = 1;
    assert!(!HgId::from_slice(&almost).unwrap().is_null());
}

#[test]
fn dec_string_spells_counts() {
    assert_eq!(dec_string(0), "0");
    assert_eq!(dec_string(7), "7");
    assert_eq!(dec_string(12345), "12345");
}

#[test]
fn debug_string_list_short() {
    let names = vec!["a".to_string(), "b".to_string(), "c".to_string()];
    assert_eq!(debug_string_list(&names), "a, b, c");
}

#[test]
fn debug_string_list_long() {
    let names: Vec<String> = (1..=7).map(|n| format!("n{}", n)).collect();
    assert_eq!(debug_string_list(&names), "n1, n2, n3, n4, n5 and 2 more");
}

#[test]
fn debug_string_list_empty() {
    let names: Vec<String> = Vec::new();
    assert_eq!(debug_string_list(&names), "");
}

#[test]
fn debug_list_uses_formatter() {
    let nums = vec![1u32, 2, 3];
    let s = debug_list(&nums, |n: &u32| format!("#{}", n));
    assert_eq!(s, "#1, #2, #3");
}

#[test]
fn debug_join_counts_rest() {
    let parts = vec!["x".to_string()];
    assert_eq!(debug_join(&parts, 1), "x");
}

#[test]
fn debug_hgid_list_hex() {
    let ids = vec![hgid(0x01), hgid(0xFF)];
    assert_eq!(
        debug_hgid_list(&ids),
        format!("{}, {}", "01".repeat(20), "ff".repeat(20))
    );
}
