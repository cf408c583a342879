//! The general laws of the conversion, stated over the mathematical model
//! and proved once for all inputs.

use vstd::prelude::*;

use crate::bridge::string_model_from_bytes;
use crate::bridge::utf8_decode;
use crate::bridge::variant_model;
use crate::builders::map_after_key;
use crate::builders::map_after_value;
use crate::value::Integer;
use crate::value::ValueModel;

verus! {

/// Law: the unit value converts to nil, while a unit struct converts to an
/// empty array, and the two results never coincide — a zero-field struct is
/// distinguishable from true absence.
pub proof fn lemma_unit_distinct_from_unit_struct()
    ensures
        ValueModel::Nil != ValueModel::Array(Seq::<ValueModel>::empty()),
{
}

/// Law: a struct with three fields converts to exactly the array of the
/// three converted fields in declaration order — the sequence builder,
/// started empty and fed the fields one by one, accumulates nothing else,
/// and field names play no part.
pub proof fn lemma_struct_shape(a: ValueModel, b: ValueModel, c: ValueModel)
    ensures
        ValueModel::Array(
            Seq::<ValueModel>::empty().push(a).push(b).push(c),
        ) == ValueModel::Array(seq![a, b, c]),
{
    assert(Seq::<ValueModel>::empty().push(a).push(b).push(c) =~= seq![a, b, c]);
}

/// Law: a unit variant at a given index converts to the array of the
/// non-negative index integer beside an empty array.
pub proof fn lemma_unit_variant_shape(idx: u32)
    ensures
        variant_model(idx, Seq::empty()) == ValueModel::Array(
            seq![
                ValueModel::Integer(Integer::Pos(idx as u64)),
                ValueModel::Array(Seq::empty()),
            ],
        ),
        Integer::Pos(idx as u64).is_pos(),
        Integer::Pos(idx as u64).value() == idx as int,
{
}

/// Law: a tuple variant at a given index with two fields converts to the
/// array of the index integer beside the array of the two converted fields,
/// in submission order.
pub proof fn lemma_tuple_variant_shape(idx: u32, a: ValueModel, b: ValueModel)
    ensures
        variant_model(idx, Seq::<ValueModel>::empty().push(a).push(b)) == ValueModel::Array(
            seq![
                ValueModel::Integer(Integer::Pos(idx as u64)),
                ValueModel::Array(seq![a, b]),
            ],
        ),
{
    assert(Seq::<ValueModel>::empty().push(a).push(b) =~= seq![a, b]);
}

/// Law: submitting the keys `k1, k2, k1` with the values `v1, v2, v3` in
/// the two-phase map protocol yields exactly the entry sequence
/// `(k1, v1), (k2, v2), (k1, v3)` — insertion order is kept and a repeated
/// key is not deduplicated.
pub proof fn lemma_map_order_and_duplicates(
    k1: ValueModel,
    v1: ValueModel,
    k2: ValueModel,
    v2: ValueModel,
    v3: ValueModel,
)
    ensures
        ({
            let s1 = map_after_key(Seq::<(ValueModel, ValueModel)>::empty(), k1);
            let s2 = map_after_value(s1.0, s1.1, v1);
            let s3 = map_after_key(s2.0, k2);
            let s4 = map_after_value(s3.0, s3.1, v2);
            let s5 = map_after_key(s4.0, k1);
            let s6 = map_after_value(s5.0, s5.1, v3);
            s6.0 == seq![(k1, v1), (k2, v2), (k1, v3)] && s6.1 is None
        }),
{
    let s1 = map_after_key(Seq::<(ValueModel, ValueModel)>::empty(), k1);
    let s2 = map_after_value(s1.0, s1.1, v1);
    let s3 = map_after_key(s2.0, k2);
    let s4 = map_after_value(s3.0, s3.1, v2);
    let s5 = map_after_key(s4.0, k1);
    let s6 = map_after_value(s5.0, s5.1, v3);
    assert(s6.0 =~= seq![(k1, v1), (k2, v2), (k1, v3)]);
}

/// The byte payload a model value carries verbatim, for the two shapes that
/// keep raw bytes: the invalid-UTF-8 string payload and the binary blob.
pub open spec fn payload_bytes(v: ValueModel) -> Option<Seq<u8>> {
    match v {
        ValueModel::Raw(b) => Option::Some(b),
        ValueModel::Binary(b) => Option::Some(b),
        _ => Option::None,
    }
}

/// Law: a byte sequence that is not valid UTF-8, submitted through the
/// string path, keeps its bytes verbatim — the payload is exactly the one
/// the raw-bytes path stores in a binary blob. The two shapes differ only
/// in their tag: string payload against binary blob.
pub proof fn lemma_utf8_fallback(bytes: Seq<u8>)
    ensures
        utf8_decode(bytes) is None ==> string_model_from_bytes(bytes) == ValueModel::Raw(bytes),
        utf8_decode(bytes) is None ==> payload_bytes(string_model_from_bytes(bytes))
            == payload_bytes(ValueModel::Binary(bytes)),
{
}

} // verus!
