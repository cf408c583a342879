//! The value tree: a tagged union able to represent any MessagePack value,
//! and its mathematical model.

use vstd::prelude::*;

verus! {

/// A 64-bit integer tagged by sign.
///
/// The tag is a normalization invariant, not a caller choice: a value that is
/// not negative is always stored under the `Pos` tag, a negative one always
/// under the `Neg` tag. `wf` states the invariant; every constructor in this
/// crate establishes it.
#[derive(Clone, Copy, Debug, PartialEq, Eq, Structural)]
pub enum Integer {
    Pos(u64),
    Neg(i64),
}

impl Integer {
    /// The mathematical value the integer stands for.
    pub open spec fn value(self) -> int {
        match self {
            Integer::Pos(n) => n as int,
            Integer::Neg(n) => n as int,
        }
    }

    /// Whether the integer carries the non-negative tag.
    pub open spec fn is_pos(self) -> bool {
        self is Pos
    }

    /// The normalization invariant: the `Neg` tag is only for values below zero.
    pub open spec fn wf(self) -> bool {
        match self {
            Integer::Pos(_) => true,
            Integer::Neg(n) => n < 0,
        }
    }

    /// Normalizes an unsigned 64-bit value.
    pub fn from_u64(n: u64) -> (r: Integer)
        ensures
            r == Integer::Pos(n),
            r.wf(),
            r.value() == n as int,
    {
        Integer::Pos(n)
    }

    /// Normalizes a signed 64-bit value: the tag follows the sign.
    pub fn from_i64(n: i64) -> (r: Integer)
        ensures
            r.wf(),
            r.value() == n as int,
            r.is_pos() <==> n >= 0,
    {
        if n >= 0 {
            Integer::Pos(n as u64)
        } else {
            Integer::Neg(n)
        }
    }
}

/// A string payload: either valid UTF-8 text, or, when the submitted bytes
/// were not valid UTF-8, those bytes kept verbatim.
pub enum Utf8String {
    Text(String),
    Raw(Vec<u8>),
}

/// A dynamically-typed value covering the whole MessagePack data model.
///
/// Floats are carried as their IEEE-754 bit patterns (`F32` a 32-bit pattern,
/// `F64` a 64-bit one); the bits pass through this crate untouched.
/// `Map` is an ordered sequence of pairs: insertion order and duplicate keys
/// are preserved exactly. `Ext` pairs an application-defined type tag with an
/// opaque byte payload.
pub enum Value {
    Nil,
    Boolean(bool),
    Integer(Integer),
    F32(u32),
    F64(u64),
    String(Utf8String),
    Binary(Vec<u8>),
    Array(Vec<Value>),
    Mapping(Vec<(Value, Value)>),
    Ext(i8, Vec<u8>),
}

/// The mathematical model of a `Value`: the same tree with every heap-owned
/// sequence abstracted to a `Seq`. Equality on the model is structural and
/// order-sensitive for both arrays and maps.
#[verifier::ext_equal]
pub enum ValueModel {
    Nil,
    Boolean(bool),
    Integer(Integer),
    F32(u32),
    F64(u64),
    Text(Seq<char>),
    Raw(Seq<u8>),
    Binary(Seq<u8>),
    Array(Seq<ValueModel>),
    Mapping(Seq<(ValueModel, ValueModel)>),
    Ext(i8, Seq<u8>),
}

impl Value {
    /// The mathematical value the tree stands for.
    pub open spec fn model(self) -> ValueModel
        decreases self,
    {
        match self {
            Value::Nil => ValueModel::Nil,
            Value::Boolean(b) => ValueModel::Boolean(b),
            Value::Integer(i) => ValueModel::Integer(i),
            Value::F32(bits) => ValueModel::F32(bits),
            Value::F64(bits) => ValueModel::F64(bits),
            Value::String(s) => match s {
                Utf8String::Text(t) => ValueModel::Text(t@),
                Utf8String::Raw(b) => ValueModel::Raw(b@),
            },
            Value::Binary(b) => ValueModel::Binary(b@),
            Value::Array(elems) => ValueModel::Array(
                Seq::new(
                    elems.len() as nat,
                    |i: int|
                        if 0 <= i < elems.len() {
                            elems[i].model()
                        } else {
                            ValueModel::Nil
                        },
                ),
            ),
            Value::Mapping(entries) => ValueModel::Mapping(
                Seq::new(
                    entries.len() as nat,
                    |i: int|
                        if 0 <= i < entries.len() {
                            (entries[i].0.model(), entries[i].1.model())
                        } else {
                            (ValueModel::Nil, ValueModel::Nil)
                        },
                ),
            ),
            Value::Ext(tag, payload) => ValueModel::Ext(tag, payload@),
        }
    }
}

impl View for Value {
    type V = ValueModel;

    open spec fn view(&self) -> ValueModel {
        (*self).model()
    }
}

} // verus!
