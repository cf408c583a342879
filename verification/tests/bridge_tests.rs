use msgpack_value::bridge::string_from_bytes;
use msgpack_value::bridge::write_bool;
use msgpack_value::bridge::write_bytes;
use msgpack_value::bridge::write_char;
use msgpack_value::bridge::write_f32_bits;
use msgpack_value::bridge::write_f64_bits;
use msgpack_value::bridge::write_i16;
use msgpack_value::bridge::write_i32;
use msgpack_value::bridge::write_i64;
use msgpack_value::bridge::write_i8;
use msgpack_value::bridge::write_none;
use msgpack_value::bridge::write_newtype_struct;
use msgpack_value::bridge::write_newtype_variant;
use msgpack_value::bridge::write_some;
use msgpack_value::bridge::write_str;
use msgpack_value::bridge::write_u16;
use msgpack_value::bridge::write_u32;
use msgpack_value::bridge::write_u64;
use msgpack_value::bridge::write_u8;
use msgpack_value::bridge::write_unit;
use msgpack_value::bridge::write_unit_struct;
use msgpack_value::bridge::write_unit_variant;
use msgpack_value::eq::value_eq;
use msgpack_value::Integer;
use msgpack_value::Utf8String;
use msgpack_value::Value;

#[test]
fn signed_integers_are_tagged_by_sign() {
    assert!(value_eq(&write_i8(-5), &Value::Integer(Integer::Neg(-5))));
    assert!(value_eq(&write_i16(-300), &Value::Integer(Integer::Neg(-300))));
    assert!(value_eq(&write_i32(-70000), &Value::Integer(Integer::Neg(-70000))));
    assert!(value_eq(&write_i64(i64::MIN), &Value::Integer(Integer::Neg(i64::MIN))));
    assert!(value_eq(&write_i8(5), &Value::Integer(Integer::Pos(5))));
    assert!(value_eq(&write_i64(0), &Value::Integer(Integer::Pos(0))));
    assert!(value_eq(&write_i64(i64::MAX), &Value::Integer(Integer::Pos(i64::MAX as u64))));
}

#[test]
fn unsigned_integers_are_always_positive() {
    assert!(value_eq(&write_u8(0), &Value::Integer(Integer::Pos(0))));
    assert!(value_eq(&write_u8(255), &Value::Integer(Integer::Pos(255))));
    assert!(value_eq(&write_u16(65535), &Value::Integer(Integer::Pos(65535))));
    assert!(value_eq(&write_u32(4000000000), &Value::Integer(Integer::Pos(4000000000))));
    assert!(value_eq(&write_u64(u64::MAX), &Value::Integer(Integer::Pos(u64::MAX))));
}

#[test]
fn unit_is_nil_but_unit_struct_is_empty_array() {
    assert!(value_eq(&write_unit(), &Value::Nil));
    assert!(value_eq(&write_unit_struct(), &Value::Array(Vec::new())));
    assert!(!value_eq(&write_unit(), &write_unit_struct()));
}

#[test]
fn option_is_transparent() {
    assert!(value_eq(&write_none(), &Value::Nil));
    let inner = write_bool(true);
    let expected = write_bool(true);
    assert!(value_eq(&write_some(inner), &expected));
    // A some whose inner value converts to nil is indistinguishable from none.
    assert!(value_eq(&write_some(write_none()), &write_none()));
}

#[test]
fn floats_keep_their_bit_patterns() {
    let f = 1.5f32;
    let d = -2.25f64;
    assert!(value_eq(&write_f32_bits(f.to_bits()), &Value::F32(f.to_bits())));
    assert!(value_eq(&write_f64_bits(d.to_bits()), &Value::F64(d.to_bits())));
    assert!(!value_eq(&write_f32_bits(f.to_bits()), &Value::F64(f.to_bits() as u64)));
}

#[test]
fn char_becomes_one_character_string() {
    let expected = Value::String(Utf8String::Text(String::from("A")));
    assert!(value_eq(&write_char('A'), &expected));
}

#[test]
fn wide_char_becomes_one_character_string() {
    let expected = Value::String(Utf8String::Text(String::from("\u{20ac}")));
    assert!(value_eq(&write_char('\u{20ac}'), &expected));
}

#[test]
fn john_smith_converts_to_string() {
    let expected = Value::String(Utf8String::Text(String::from("John Smith")));
    assert!(value_eq(&write_str("John Smith"), &expected));
}

#[test]
fn bytes_become_binary() {
    let expected = Value::Binary(vec![1u8, 2, 3]);
    assert!(value_eq(&write_bytes(&[1u8, 2, 3]), &expected));
}

#[test]
fn valid_utf8_bytes_become_text() {
    let v = string_from_bytes(vec![104u8, 105u8]);
    let expected = Value::String(Utf8String::Text(String::from("hi")));
    assert!(value_eq(&v, &expected));
}

#[test]
fn invalid_utf8_bytes_are_kept_verbatim() {
    let bad = vec![0xffu8, 0xfe, 0x68];
    let v = string_from_bytes(bad.clone());
    let expected = Value::String(Utf8String::Raw(bad.clone()));
    assert!(value_eq(&v, &expected));
    // The same bytes through the raw-bytes path carry the same payload,
    // under the binary tag.
    let binary = write_bytes(&bad);
    assert!(value_eq(&binary, &Value::Binary(bad)));
    assert!(!value_eq(&v, &binary));
}

#[test]
fn newtype_struct_wraps_one_field() {
    let v = write_newtype_struct(write_bool(true));
    let expected = Value::Array(vec![Value::Boolean(true)]);
    assert!(value_eq(&v, &expected));
}

#[test]
fn unit_variant_encodes_index_and_empty_array() {
    let v = write_unit_variant(3);
    let expected = Value::Array(vec![
        Value::Integer(Integer::Pos(3)),
        Value::Array(Vec::new()),
    ]);
    assert!(value_eq(&v, &expected));
}

#[test]
fn newtype_variant_encodes_index_and_one_field() {
    let v = write_newtype_variant(7, write_str("x"));
    let expected = Value::Array(vec![
        Value::Integer(Integer::Pos(7)),
        Value::Array(vec![Value::String(Utf8String::Text(String::from("x")))]),
    ]);
    assert!(value_eq(&v, &expected));
}
