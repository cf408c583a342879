//! The primitive side of the serialization bridge: one function per
//! primitive callback of the generic serialization protocol, each returning
//! the finished `Value` for that callback.

use vstd::prelude::*;

use crate::value::Integer;
use crate::value::Utf8String;
use crate::value::Value;
use crate::value::ValueModel;

verus! {

/// The integer a signed 64-bit primitive normalizes to: the tag follows the
/// sign, the magnitude is kept.
pub open spec fn integer_from_i64(n: i64) -> Integer {
    if n >= 0 {
        Integer::Pos(n as u64)
    } else {
        Integer::Neg(n)
    }
}

/// The shape every enum variant encodes to: the variant's declared index,
/// then the array of its converted fields. Names play no part.
pub open spec fn variant_model(idx: u32, fields: Seq<ValueModel>) -> ValueModel {
    ValueModel::Array(
        seq![
            ValueModel::Integer(Integer::Pos(idx as u64)),
            ValueModel::Array(fields),
        ],
    )
}

/// What decoding a byte sequence as UTF-8 yields: the text when the bytes
/// are valid UTF-8, nothing otherwise. The outcome depends on the bytes
/// alone; `bytes_as_utf8` below ties it to the decoder relied upon.
pub uninterp spec fn utf8_decode(bytes: Seq<u8>) -> Option<Seq<char>>;

/// Relies on core's `str::from_utf8`: it returns `Ok` exactly when the bytes
/// are valid UTF-8, and the returned text is the decoding of those bytes.
#[verifier::external_body]
fn bytes_as_utf8(bytes: &[u8]) -> (r: Option<&str>)
    ensures
        r is Some <==> utf8_decode(bytes@) is Some,
        r matches Some(s) ==> Some(s@) == utf8_decode(bytes@),
{
    match core::str::from_utf8(bytes) {
        Ok(s) => Some(s),
        Err(_) => None,
    }
}

/// Relies on alloc's `String::push`: it appends the one character at the end.
#[verifier::external_body]
fn push_char(s: &mut String, c: char)
    ensures
        final(s)@ == old(s)@.push(c),
{
    s.push(c);
}

/// The value the "string" path produces from raw bytes: text when the bytes
/// are valid UTF-8, otherwise the bytes kept verbatim as a string payload.
pub open spec fn string_model_from_bytes(bytes: Seq<u8>) -> ValueModel {
    match utf8_decode(bytes) {
        Option::Some(text) => ValueModel::Text(text),
        Option::None => ValueModel::Raw(bytes),
    }
}

/// The "string" path for an arbitrary byte sequence: decodes it as UTF-8
/// when possible and otherwise keeps the bytes verbatim, never failing.
pub fn string_from_bytes(bytes: Vec<u8>) -> (r: Value)
    ensures
        r@ == string_model_from_bytes(bytes@),
{
    let decoded = bytes_as_utf8(bytes.as_slice());
    match decoded {
        Some(text) => {
            let owned: String = text.to_owned();
            Value::String(Utf8String::Text(owned))
        },
        None => Value::String(Utf8String::Raw(bytes)),
    }
}

/// The boolean callback.
pub fn write_bool(val: bool) -> (r: Value)
    ensures
        r@ == ValueModel::Boolean(val),
{
    Value::Boolean(val)
}

/// The signed 64-bit callback: the integer is tagged by its sign and keeps
/// its value exactly.
pub fn write_i64(val: i64) -> (r: Value)
    ensures
        r@ == ValueModel::Integer(integer_from_i64(val)),
        r@ matches ValueModel::Integer(i) && i.wf() && i.value() == val as int && (i.is_pos()
            <==> val >= 0),
{
    Value::Integer(Integer::from_i64(val))
}

/// The signed 8-bit callback, widened to 64 bits.
pub fn write_i8(val: i8) -> (r: Value)
    ensures
        r@ == ValueModel::Integer(integer_from_i64(val as i64)),
        r@ matches ValueModel::Integer(i) && i.wf() && i.value() == val as int && (i.is_pos()
            <==> val >= 0),
{
    write_i64(val as i64)
}

/// The signed 16-bit callback, widened to 64 bits.
pub fn write_i16(val: i16) -> (r: Value)
    ensures
        r@ == ValueModel::Integer(integer_from_i64(val as i64)),
        r@ matches ValueModel::Integer(i) && i.wf() && i.value() == val as int && (i.is_pos()
            <==> val >= 0),
{
    write_i64(val as i64)
}

/// The signed 32-bit callback, widened to 64 bits.
pub fn write_i32(val: i32) -> (r: Value)
    ensures
        r@ == ValueModel::Integer(integer_from_i64(val as i64)),
        r@ matches ValueModel::Integer(i) && i.wf() && i.value() == val as int && (i.is_pos()
            <==> val >= 0),
{
    write_i64(val as i64)
}

/// The unsigned 64-bit callback: always tagged non-negative.
pub fn write_u64(val: u64) -> (r: Value)
    ensures
        r@ == ValueModel::Integer(Integer::Pos(val)),
        r@ matches ValueModel::Integer(i) && i.wf() && i.value() == val as int && i.is_pos(),
{
    Value::Integer(Integer::from_u64(val))
}

/// The unsigned 8-bit callback, widened to 64 bits.
pub fn write_u8(val: u8) -> (r: Value)
    ensures
        r@ == ValueModel::Integer(Integer::Pos(val as u64)),
        r@ matches ValueModel::Integer(i) && i.wf() && i.value() == val as int && i.is_pos(),
{
    write_u64(val as u64)
}

/// The unsigned 16-bit callback, widened to 64 bits.
pub fn write_u16(val: u16) -> (r: Value)
    ensures
        r@ == ValueModel::Integer(Integer::Pos(val as u64)),
        r@ matches ValueModel::Integer(i) && i.wf() && i.value() == val as int && i.is_pos(),
{
    write_u64(val as u64)
}

/// The unsigned 32-bit callback, widened to 64 bits.
pub fn write_u32(val: u32) -> (r: Value)
    ensures
        r@ == ValueModel::Integer(Integer::Pos(val as u64)),
        r@ matches ValueModel::Integer(i) && i.wf() && i.value() == val as int && i.is_pos(),
{
    write_u64(val as u64)
}

/// The 32-bit float callback; the IEEE-754 bit pattern passes through
/// untouched, with no widening to the other float width.
pub fn write_f32_bits(bits: u32) -> (r: Value)
    ensures
        r@ == ValueModel::F32(bits),
{
    Value::F32(bits)
}

/// The 64-bit float callback; the IEEE-754 bit pattern passes through
/// untouched.
pub fn write_f64_bits(bits: u64) -> (r: Value)
    ensures
        r@ == ValueModel::F64(bits),
{
    Value::F64(bits)
}

/// The character callback: encoded as a one-character string.
pub fn write_char(val: char) -> (r: Value)
    ensures
        r@ == ValueModel::Text(seq![val]),
{
    let mut buf = String::new();
    push_char(&mut buf, val);
    proof {
        assert(buf@ =~= seq![val]);
    }
    Value::String(Utf8String::Text(buf))
}

/// The string callback: the text is kept as it stands.
pub fn write_str(val: &str) -> (r: Value)
    ensures
        r@ == ValueModel::Text(val@),
{
    let owned: String = val.to_owned();
    Value::String(Utf8String::Text(owned))
}

/// The byte-slice callback: an opaque binary blob.
pub fn write_bytes(val: &[u8]) -> (r: Value)
    ensures
        r@ == ValueModel::Binary(val@),
{
    let owned: Vec<u8> = vstd::slice::slice_to_vec(val);
    Value::Binary(owned)
}

/// The unit callback: the zero-information value is nil.
pub fn write_unit() -> (r: Value)
    ensures
        r@ == ValueModel::Nil,
{
    Value::Nil
}

/// The unit-struct callback: an empty array, distinct from nil — a
/// zero-field struct is not the same as true absence.
pub fn write_unit_struct() -> (r: Value)
    ensures
        r@ == ValueModel::Array(Seq::empty()),
{
    let fields: Vec<Value> = Vec::new();
    let r = Value::Array(fields);
    proof {
        assert(r@ matches ValueModel::Array(s) && s =~~= Seq::<ValueModel>::empty());
        assert(r@ == ValueModel::Array(Seq::<ValueModel>::empty()));
    }
    r
}

/// The none callback: absence is nil.
pub fn write_none() -> (r: Value)
    ensures
        r@ == ValueModel::Nil,
{
    Value::Nil
}

/// The some callback: transparent, the inner conversion passes through
/// unchanged. A none and a some whose inner value converts to nil are
/// therefore indistinguishable in the resulting tree; that ambiguity is a
/// documented limitation of the encoding, kept for wire compatibility.
pub fn write_some(value: Value) -> (r: Value)
    ensures
        r == value,
{
    value
}

/// The newtype-struct callback: an array holding the one converted field.
pub fn write_newtype_struct(value: Value) -> (r: Value)
    ensures
        r@ == ValueModel::Array(seq![value@]),
{
    let mut fields: Vec<Value> = Vec::with_capacity(1);
    fields.push(value);
    let r = Value::Array(fields);
    proof {
        assert(r@ matches ValueModel::Array(s) && s =~~= seq![value@]);
        assert(r@ == ValueModel::Array(seq![value@]));
    }
    r
}

/// The unit-variant callback: the variant's index beside an empty field
/// array.
pub fn write_unit_variant(idx: u32) -> (r: Value)
    ensures
        r@ == variant_model(idx, Seq::empty()),
{
    let mut outer: Vec<Value> = Vec::with_capacity(2);
    let index_value = Value::Integer(Integer::from_u64(idx as u64));
    let fields: Vec<Value> = Vec::new();
    let fields_value = Value::Array(fields);
    proof {
        assert(fields_value@ matches ValueModel::Array(f) && f =~= Seq::<ValueModel>::empty());
        assert(fields_value@ == ValueModel::Array(Seq::<ValueModel>::empty()));
        assert(index_value@ == ValueModel::Integer(Integer::Pos(idx as u64)));
    }
    outer.push(index_value);
    outer.push(fields_value);
    let r = Value::Array(outer);
    proof {
        let s = r@->Array_0;
        assert(r@ is Array);
        assert(s.len() == 2);
        assert(s[0] == ValueModel::Integer(Integer::Pos(idx as u64)));
        assert(s[1] == ValueModel::Array(Seq::<ValueModel>::empty()));
        assert(s =~= seq![
            ValueModel::Integer(Integer::Pos(idx as u64)),
            ValueModel::Array(Seq::empty()),
        ]);
        assert(r@ == variant_model(idx, Seq::empty()));
    }
    r
}

/// The newtype-variant callback: the variant's index beside an array holding
/// the one converted field.
pub fn write_newtype_variant(idx: u32, value: Value) -> (r: Value)
    ensures
        r@ == variant_model(idx, seq![value@]),
{
    let ghost value_model = value@;
    let mut fields: Vec<Value> = Vec::with_capacity(1);
    fields.push(value);
    let fields_value = Value::Array(fields);
    let index_value = Value::Integer(Integer::from_u64(idx as u64));
    proof {
        assert(fields_value@ matches ValueModel::Array(f) && f =~= seq![value_model]);
        assert(fields_value@ == ValueModel::Array(seq![value_model]));
        assert(index_value@ == ValueModel::Integer(Integer::Pos(idx as u64)));
    }
    let mut outer: Vec<Value> = Vec::with_capacity(2);
    outer.push(index_value);
    outer.push(fields_value);
    let r = Value::Array(outer);
    proof {
        let s = r@->Array_0;
        assert(r@ is Array);
        assert(s =~= seq![
            ValueModel::Integer(Integer::Pos(idx as u64)),
            ValueModel::Array(seq![value_model]),
        ]);
        assert(r@ == variant_model(idx, seq![value_model]));
    }
    r
}

} // verus!
