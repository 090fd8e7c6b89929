use hegel_session::cbor::{
    as_bool, as_text, as_u64, cbor_decode, cbor_encode, get_bool, get_text, get_u64, map_get,
    CborValue,
};

fn text(s: &str) -> CborValue {
    CborValue::Text(s.to_string())
}

fn sample() -> CborValue {
    CborValue::Mapping(vec![
        (text("a"), CborValue::Integer(1)),
        (CborValue::Integer(7), text("seven")),
        (text("list"), CborValue::Array(vec![CborValue::Null, CborValue::Bool(true), text("x")])),
        (text("bytes"), CborValue::Bytes(vec![0, 255, 3])),
        (text("a"), CborValue::Integer(2)),
        (text("low"), CborValue::Integer(-18446744073709551616)),
        (text("high"), CborValue::Integer(18446744073709551615)),
    ])
}

#[test]
fn what_is_written_is_cbor() {
    assert_eq!(cbor_encode(&CborValue::Null), vec![0xf6]);
    assert_eq!(cbor_encode(&CborValue::Integer(24)), vec![0x18, 24]);
    assert_eq!(
        cbor_encode(&CborValue::Mapping(vec![(text("result"), CborValue::Bool(true))])),
        vec![0xa1, 0x66, b'r', b'e', b's', b'u', b'l', b't', 0xf5]
    );
    assert_eq!(cbor_encode(&CborValue::Bytes(vec![1, 2])), vec![0x42, 1, 2]);
    assert_eq!(cbor_encode(&CborValue::Array(vec![CborValue::Null])), vec![0x81, 0xf6]);
}

#[test]
fn what_is_written_reads_back() {
    assert_eq!(cbor_decode(&cbor_encode(&sample())), Some(sample()));
    let long = text(&"\u{00e9}x".repeat(5000));
    assert_eq!(cbor_decode(&cbor_encode(&long)), Some(long));
    let mut deep = CborValue::Null;
    for _ in 0..256 {
        deep = CborValue::Array(vec![deep]);
    }
    assert_eq!(cbor_decode(&cbor_encode(&deep)), Some(deep));
}

#[test]
fn bytes_behind_a_value_are_not_looked_at() {
    assert_eq!(cbor_decode(&[0xf6, 0xff, 0xff]), Some(CborValue::Null));
}

#[test]
fn bytes_that_are_no_value_are_refused() {
    assert_eq!(cbor_decode(&[]), None);
    assert_eq!(cbor_decode(&[0xff]), None);
    assert_eq!(cbor_decode(&[0x62, b'a']), None);
    assert_eq!(cbor_decode(&[0x61, 0xff]), None);
}

#[test]
fn floats_and_tags_are_other() {
    assert_eq!(cbor_decode(&[0xf9, 0x3c, 0x00]), Some(CborValue::Other));
    assert_eq!(cbor_decode(&[0xc1, 0x00]), Some(CborValue::Other));
}

#[test]
fn negative_integers_are_read() {
    assert_eq!(cbor_decode(&[0x20]), Some(CborValue::Integer(-1)));
}

#[test]
fn the_first_entry_under_a_key_counts() {
    assert_eq!(map_get(&sample(), "a"), Some(&CborValue::Integer(1)));
    assert_eq!(map_get(&sample(), "seven"), None);
    assert_eq!(map_get(&sample(), ""), None);
    assert_eq!(map_get(&CborValue::Null, "a"), None);
    assert_eq!(map_get(&CborValue::Array(vec![text("a")]), "a"), None);
}

#[test]
fn values_are_taken_for_what_they_are() {
    assert_eq!(as_text(&text("t")), Some(&"t".to_string()));
    assert_eq!(as_text(&CborValue::Null), None);
    assert_eq!(as_u64(&CborValue::Integer(18446744073709551615)), Some(u64::MAX));
    assert_eq!(as_u64(&CborValue::Integer(18446744073709551616)), None);
    assert_eq!(as_u64(&CborValue::Integer(-1)), None);
    assert_eq!(as_u64(&text("1")), None);
    assert_eq!(as_bool(&CborValue::Bool(false)), Some(false));
    assert_eq!(as_bool(&CborValue::Integer(1)), None);
}

#[test]
fn values_under_keys_are_taken_for_what_they_are() {
    assert_eq!(get_u64(&sample(), "a"), Some(1));
    assert_eq!(get_u64(&sample(), "low"), None);
    assert_eq!(get_u64(&sample(), "high"), Some(u64::MAX));
    assert_eq!(get_text(&sample(), "a"), None);
    assert_eq!(get_bool(&sample(), "list"), None);
    assert_eq!(get_bool(&sample(), "none"), None);
}

#[test]
fn a_copy_is_the_same() {
    assert_eq!(sample().clone(), sample());
    assert_eq!(CborValue::Other.clone(), CborValue::Other);
}
