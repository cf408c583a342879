//! The composite builders: short-lived accumulators that assemble one
//! compound value — an array, a tagged variant, or a map — from a stream of
//! already-converted elements.

use vstd::prelude::*;

use crate::bridge::variant_model;
use crate::value::Integer;
use crate::value::Value;
use crate::value::ValueModel;

verus! {

/// Accumulates the elements of a sequence, tuple, tuple-struct or plain
/// struct (field names dropped) and finalizes into an array.
pub struct SerializeVec {
    vec: Vec<Value>,
}

impl SerializeVec {
    /// The elements accumulated so far, in submission order.
    pub closed spec fn elems(&self) -> Seq<ValueModel> {
        Seq::new(self.vec.len() as nat, |i: int| self.vec[i]@)
    }

    /// Opens an empty accumulator; the optional expected length is only a
    /// capacity hint and plays no part in the result.
    pub fn new(len: Option<usize>) -> (r: SerializeVec)
        ensures
            r.elems() == Seq::<ValueModel>::empty(),
    {
        let vec: Vec<Value> = Vec::with_capacity(len.unwrap_or(0));
        let r = SerializeVec { vec };
        proof {
            assert(r.elems() =~= Seq::<ValueModel>::empty());
        }
        r
    }

    /// Appends one converted element at the end.
    pub fn serialize_element(&mut self, value: Value)
        ensures
            final(self).elems() == old(self).elems().push(value@),
    {
        let ghost value_model = value@;
        self.vec.push(value);
        proof {
            assert(self.elems() =~= old(self).elems().push(value_model));
        }
    }

    /// Finalizes into the array of the accumulated elements.
    pub fn end(self) -> (r: Value)
        ensures
            r@ == ValueModel::Array(self.elems()),
    {
        let r = Value::Array(self.vec);
        proof {
            assert(r@ matches ValueModel::Array(s) && s =~= self.elems());
        }
        r
    }
}

/// Accumulates the positional fields of a tuple variant together with the
/// variant's declared index, and finalizes into the tagged variant shape.
pub struct SerializeTupleVariant {
    idx: u32,
    vec: Vec<Value>,
}

impl SerializeTupleVariant {
    /// The variant index the builder was opened with.
    pub closed spec fn index(&self) -> u32 {
        self.idx
    }

    /// The converted fields accumulated so far, in submission order.
    pub closed spec fn fields(&self) -> Seq<ValueModel> {
        Seq::new(self.vec.len() as nat, |i: int| self.vec[i]@)
    }

    /// Opens an empty accumulator for the variant at the given index; the
    /// expected length is only a capacity hint.
    pub fn new(idx: u32, len: usize) -> (r: SerializeTupleVariant)
        ensures
            r.index() == idx,
            r.fields() == Seq::<ValueModel>::empty(),
    {
        let r = SerializeTupleVariant { idx, vec: Vec::with_capacity(len) };
        proof {
            assert(r.fields() =~= Seq::<ValueModel>::empty());
        }
        r
    }

    /// Appends one converted field at the end.
    pub fn serialize_field(&mut self, value: Value)
        ensures
            final(self).index() == old(self).index(),
            final(self).fields() == old(self).fields().push(value@),
    {
        let ghost value_model = value@;
        self.vec.push(value);
        proof {
            assert(self.fields() =~= old(self).fields().push(value_model));
        }
    }

    /// Finalizes into the variant shape: the index beside the field array.
    pub fn end(self) -> (r: Value)
        ensures
            r@ == variant_model(self.index(), self.fields()),
    {
        let ghost fields_model = self.fields();
        let index_value = Value::Integer(Integer::from_u64(self.idx as u64));
        let fields_value = Value::Array(self.vec);
        proof {
            assert(fields_value@ matches ValueModel::Array(f) && f =~= fields_model);
            assert(fields_value@ == ValueModel::Array(fields_model));
            assert(index_value@ == ValueModel::Integer(Integer::Pos(self.idx as u64)));
        }
        let mut outer: Vec<Value> = Vec::with_capacity(2);
        outer.push(index_value);
        outer.push(fields_value);
        let r = Value::Array(outer);
        proof {
            let s = r@->Array_0;
            assert(r@ is Array);
            assert(s =~= seq![
                ValueModel::Integer(Integer::Pos(self.idx as u64)),
                ValueModel::Array(fields_model),
            ]);
            assert(r@ == variant_model(self.index(), fields_model));
        }
        r
    }
}

/// Accumulates the named fields of a struct variant; the names are accepted
/// and discarded, exactly as for ordinary structs, so only the converted
/// values and the variant's index reach the result.
pub struct SerializeStructVariant {
    idx: u32,
    vec: Vec<Value>,
}

impl SerializeStructVariant {
    /// The variant index the builder was opened with.
    pub closed spec fn index(&self) -> u32 {
        self.idx
    }

    /// The converted field values accumulated so far, in submission order.
    pub closed spec fn fields(&self) -> Seq<ValueModel> {
        Seq::new(self.vec.len() as nat, |i: int| self.vec[i]@)
    }

    /// Opens an empty accumulator for the variant at the given index; the
    /// expected length is only a capacity hint.
    pub fn new(idx: u32, len: usize) -> (r: SerializeStructVariant)
        ensures
            r.index() == idx,
            r.fields() == Seq::<ValueModel>::empty(),
    {
        let r = SerializeStructVariant { idx, vec: Vec::with_capacity(len) };
        proof {
            assert(r.fields() =~= Seq::<ValueModel>::empty());
        }
        r
    }

    /// Appends one converted field value at the end; the field's name is
    /// dropped by the caller before this point.
    pub fn serialize_field(&mut self, value: Value)
        ensures
            final(self).index() == old(self).index(),
            final(self).fields() == old(self).fields().push(value@),
    {
        let ghost value_model = value@;
        self.vec.push(value);
        proof {
            assert(self.fields() =~= old(self).fields().push(value_model));
        }
    }

    /// Finalizes into the variant shape: the index beside the field array.
    pub fn end(self) -> (r: Value)
        ensures
            r@ == variant_model(self.index(), self.fields()),
    {
        let ghost fields_model = self.fields();
        let index_value = Value::Integer(Integer::from_u64(self.idx as u64));
        let fields_value = Value::Array(self.vec);
        proof {
            assert(fields_value@ matches ValueModel::Array(f) && f =~= fields_model);
            assert(fields_value@ == ValueModel::Array(fields_model));
            assert(index_value@ == ValueModel::Integer(Integer::Pos(self.idx as u64)));
        }
        let mut outer: Vec<Value> = Vec::with_capacity(2);
        outer.push(index_value);
        outer.push(fields_value);
        let r = Value::Array(outer);
        proof {
            let s = r@->Array_0;
            assert(r@ is Array);
            assert(s =~= seq![
                ValueModel::Integer(Integer::Pos(self.idx as u64)),
                ValueModel::Array(fields_model),
            ]);
            assert(r@ == variant_model(self.index(), fields_model));
        }
        r
    }
}

/// What a key submission does to a map builder's state: the pending key is
/// set, the finished entries stand unchanged.
pub open spec fn map_after_key(
    entries: Seq<(ValueModel, ValueModel)>,
    key: ValueModel,
) -> (Seq<(ValueModel, ValueModel)>, Option<ValueModel>) {
    (entries, Option::Some(key))
}

/// What a value submission does to a map builder's state when a key is
/// pending: the pair is appended after every earlier entry, duplicates and
/// all, and no key is pending any more.
pub open spec fn map_after_value(
    entries: Seq<(ValueModel, ValueModel)>,
    pending: Option<ValueModel>,
    value: ValueModel,
) -> (Seq<(ValueModel, ValueModel)>, Option<ValueModel>) {
    (entries.push((pending.unwrap(), value)), Option::None)
}

/// Accumulates map entries under a strict two-phase protocol: every value
/// submission must follow a key submission. Entries keep exact call order,
/// including duplicate keys — nothing is deduplicated or sorted.
pub struct DefaultSerializeMap {
    map: Vec<(Value, Value)>,
    next_key: Option<Value>,
}

impl DefaultSerializeMap {
    /// The finished entries so far, in submission order.
    pub closed spec fn entries(&self) -> Seq<(ValueModel, ValueModel)> {
        Seq::new(self.map.len() as nat, |i: int| (self.map[i].0@, self.map[i].1@))
    }

    /// The key submitted last, while its value is still awaited.
    pub closed spec fn pending_key(&self) -> Option<ValueModel> {
        match self.next_key {
            Option::Some(k) => Option::Some(k@),
            Option::None => Option::None,
        }
    }

    /// Opens an empty accumulator awaiting a first key; the optional
    /// expected length is only a capacity hint.
    pub fn new(len: Option<usize>) -> (r: DefaultSerializeMap)
        ensures
            r.entries() == Seq::<(ValueModel, ValueModel)>::empty(),
            r.pending_key() is None,
    {
        let r = DefaultSerializeMap { map: Vec::with_capacity(len.unwrap_or(0)), next_key: None };
        proof {
            assert(r.entries() =~= Seq::<(ValueModel, ValueModel)>::empty());
        }
        r
    }

    /// Whether a key has been submitted whose value is still awaited.
    pub fn has_pending_key(&self) -> (r: bool)
        ensures
            r == (self.pending_key() is Some),
    {
        self.next_key.is_some()
    }

    /// Submits the key of the next entry; a key submitted while another was
    /// already pending replaces it.
    pub fn serialize_key(&mut self, key: Value)
        ensures
            (final(self).entries(), final(self).pending_key()) == map_after_key(
                old(self).entries(),
                key@,
            ),
    {
        self.next_key = Some(key);
        proof {
            assert(self.entries() =~= old(self).entries());
        }
    }

    /// Submits the value of the pending entry. A value submission with no
    /// pending key is a contract violation by the driving serialization
    /// logic, not a data error: no verified caller can reach it, and an
    /// unverified caller is stopped by an abort, never by an error value.
    pub fn serialize_value(&mut self, value: Value)
        requires
            old(self).pending_key() is Some,
        ensures
            (final(self).entries(), final(self).pending_key()) == map_after_value(
                old(self).entries(),
                old(self).pending_key(),
                value@,
            ),
    {
        let ghost value_model = value@;
        let key = self.next_key.take().expect("`serialize_value` called before `serialize_key`");
        self.map.push((key, value));
        proof {
            assert(self.entries() =~= old(self).entries().push(
                (old(self).pending_key().unwrap(), value_model),
            ));
        }
    }

    /// Finalizes into the map of the accumulated entries, order and
    /// duplicates preserved exactly.
    pub fn end(self) -> (r: Value)
        ensures
            r@ == ValueModel::Mapping(self.entries()),
    {
        let r = Value::Mapping(self.map);
        proof {
            assert(r@ matches ValueModel::Mapping(s) && s =~= self.entries());
        }
        r
    }
}

} // verus!
