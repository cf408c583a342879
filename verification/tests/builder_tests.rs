use msgpack_value::bridge::write_bool;
use msgpack_value::bridge::write_bytes;
use msgpack_value::bridge::write_i64;
use msgpack_value::bridge::write_str;
use msgpack_value::bridge::write_u64;
use msgpack_value::builders::DefaultSerializeMap;
use msgpack_value::builders::SerializeStructVariant;
use msgpack_value::builders::SerializeTupleVariant;
use msgpack_value::builders::SerializeVec;
use msgpack_value::eq::value_eq;
use msgpack_value::Integer;
use msgpack_value::Utf8String;
use msgpack_value::Value;

fn text(s: &str) -> Value {
    Value::String(Utf8String::Text(String::from(s)))
}

#[test]
fn struct_fields_become_positional_array() {
    let mut seq = SerializeVec::new(Some(3));
    seq.serialize_element(write_bool(true));
    seq.serialize_element(write_i64(-1));
    seq.serialize_element(write_str("c"));
    let v = seq.end();
    let expected = Value::Array(vec![
        Value::Boolean(true),
        Value::Integer(Integer::Neg(-1)),
        text("c"),
    ]);
    assert!(value_eq(&v, &expected));
}

#[test]
fn empty_sequence_becomes_empty_array() {
    let seq = SerializeVec::new(None);
    let v = seq.end();
    assert!(value_eq(&v, &Value::Array(Vec::new())));
}

#[test]
fn tuple_variant_encodes_index_and_fields() {
    let mut tv = SerializeTupleVariant::new(2, 2);
    tv.serialize_field(write_u64(10));
    tv.serialize_field(write_u64(20));
    let v = tv.end();
    let expected = Value::Array(vec![
        Value::Integer(Integer::Pos(2)),
        Value::Array(vec![
            Value::Integer(Integer::Pos(10)),
            Value::Integer(Integer::Pos(20)),
        ]),
    ]);
    assert!(value_eq(&v, &expected));
}

#[test]
fn struct_variant_drops_field_names() {
    let mut sv = SerializeStructVariant::new(1, 2);
    sv.serialize_field(write_bool(false));
    sv.serialize_field(write_str("v"));
    let v = sv.end();
    let expected = Value::Array(vec![
        Value::Integer(Integer::Pos(1)),
        Value::Array(vec![Value::Boolean(false), text("v")]),
    ]);
    assert!(value_eq(&v, &expected));
}

#[test]
fn map_keeps_order_and_duplicate_keys() {
    let mut m = DefaultSerializeMap::new(Some(3));
    m.serialize_key(text("k1"));
    m.serialize_value(write_i64(1));
    m.serialize_key(text("k2"));
    m.serialize_value(write_i64(2));
    m.serialize_key(text("k1"));
    m.serialize_value(write_i64(3));
    let v = m.end();
    let expected = Value::Mapping(vec![
        (text("k1"), Value::Integer(Integer::Pos(1))),
        (text("k2"), Value::Integer(Integer::Pos(2))),
        (text("k1"), Value::Integer(Integer::Pos(3))),
    ]);
    assert!(value_eq(&v, &expected));
}

#[test]
fn map_reports_pending_key() {
    let mut m = DefaultSerializeMap::new(None);
    assert!(!m.has_pending_key());
    m.serialize_key(write_bool(true));
    assert!(m.has_pending_key());
    m.serialize_value(write_bool(false));
    assert!(!m.has_pending_key());
}

#[test]
fn extension_encodes_as_index_and_binary() {
    let mut seq = SerializeVec::new(Some(2));
    seq.serialize_element(write_i64(5));
    seq.serialize_element(write_bytes(&[1u8, 2, 3]));
    let v = seq.end();
    let expected = Value::Array(vec![
        Value::Integer(Integer::Pos(5)),
        Value::Binary(vec![1u8, 2, 3]),
    ]);
    assert!(value_eq(&v, &expected));
}

#[test]
fn structural_equality_is_order_sensitive() {
    let a = Value::Mapping(vec![
        (text("a"), write_i64(1)),
        (text("b"), write_i64(2)),
    ]);
    let b = Value::Mapping(vec![
        (text("b"), write_i64(2)),
        (text("a"), write_i64(1)),
    ]);
    assert!(!value_eq(&a, &b));
    let c = Value::Array(vec![write_i64(1), write_i64(2)]);
    let d = Value::Array(vec![write_i64(2), write_i64(1)]);
    assert!(!value_eq(&c, &d));
    assert!(value_eq(&a, &a));
    assert!(value_eq(&c, &c));
}

#[test]
fn nested_trees_compare_structurally() {
    let mut inner = SerializeVec::new(None);
    inner.serialize_element(write_i64(1));
    inner.serialize_element(Value::Nil);
    let inner_v = inner.end();

    let mut m = DefaultSerializeMap::new(None);
    m.serialize_key(text("list"));
    m.serialize_value(inner_v);
    let tree = m.end();

    let expected = Value::Mapping(vec![(
        text("list"),
        Value::Array(vec![Value::Integer(Integer::Pos(1)), Value::Nil]),
    )]);
    assert!(value_eq(&tree, &expected));

    let different = Value::Mapping(vec![(
        text("list"),
        Value::Array(vec![Value::Integer(Integer::Pos(2)), Value::Nil]),
    )]);
    assert!(!value_eq(&tree, &different));
}

#[test]
fn error_carries_its_message() {
    let e = msgpack_value::error::Error::syntax(String::from("driver refused"));
    assert_eq!(e.message(), "driver refused");
}
