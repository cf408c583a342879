//! Structural equality on value trees: order-sensitive for arrays and maps,
//! exact on every payload. Floats compare by their bit patterns.

use vstd::prelude::*;

use crate::value::Utf8String;
use crate::value::Value;
use crate::value::ValueModel;

verus! {

/// Each constructor of a value maps to its own constructor of the model, so
/// two values whose constructors differ have different models.
pub proof fn lemma_model_variant(v: Value)
    ensures
        v is Nil <==> v.model() is Nil,
        v is Boolean <==> v.model() is Boolean,
        v is Integer <==> v.model() is Integer,
        v is F32 <==> v.model() is F32,
        v is F64 <==> v.model() is F64,
        v is String <==> (v.model() is Text || v.model() is Raw),
        v is Binary <==> v.model() is Binary,
        v is Array <==> v.model() is Array,
        v is Mapping <==> v.model() is Mapping,
        v is Ext <==> v.model() is Ext,
{
}

/// Compares two byte payloads for exact equality.
pub fn bytes_eq(a: &Vec<u8>, b: &Vec<u8>) -> (r: bool)
    ensures
        r == (a@ == b@),
{
    if a.len() != b.len() {
        return false;
    }
    let mut i: usize = 0;
    while i < a.len()
        invariant
            i <= a.len(),
            a@.len() == b@.len(),
            forall|j: int| 0 <= j < i ==> a@[j] == b@[j],
        decreases a.len() - i,
    {
        if a[i] != b[i] {
            return false;
        }
        i = i + 1;
    }
    proof {
        assert(a@ =~= b@);
    }
    true
}

/// Compares two value trees structurally: both are walked together and every
/// leaf must match exactly, arrays and maps element by element in order.
#[verifier::loop_isolation(false)]
pub fn value_eq(a: &Value, b: &Value) -> (r: bool)
    ensures
        r == (a@ == b@),
    decreases *a,
{
    match (a, b) {
        (Value::Nil, Value::Nil) => {
            proof {
                assert(a@ == ValueModel::Nil);
                assert(b@ == ValueModel::Nil);
            }
            return true;
        },
        (Value::Boolean(x), Value::Boolean(y)) => {
            proof {
                assert(a@ == ValueModel::Boolean(*x));
                assert(b@ == ValueModel::Boolean(*y));
            }
            return *x == *y;
        },
        (Value::Integer(x), Value::Integer(y)) => {
            proof {
                assert(a@ == ValueModel::Integer(*x));
                assert(b@ == ValueModel::Integer(*y));
            }
            return *x == *y;
        },
        (Value::F32(x), Value::F32(y)) => {
            proof {
                assert(a@ == ValueModel::F32(*x));
                assert(b@ == ValueModel::F32(*y));
            }
            return *x == *y;
        },
        (Value::F64(x), Value::F64(y)) => {
            proof {
                assert(a@ == ValueModel::F64(*x));
                assert(b@ == ValueModel::F64(*y));
            }
            return *x == *y;
        },
        (Value::String(x), Value::String(y)) => match (x, y) {
            (Utf8String::Text(s), Utf8String::Text(t)) => {
                proof {
                    assert(a@ == ValueModel::Text(s@));
                    assert(b@ == ValueModel::Text(t@));
                }
                return *s == *t;
            },
            (Utf8String::Raw(s), Utf8String::Raw(t)) => {
                proof {
                    assert(a@ == ValueModel::Raw(s@));
                    assert(b@ == ValueModel::Raw(t@));
                }
                return bytes_eq(s, t);
            },
            _ => {
                proof {
                    assert(a@ is Text || a@ is Raw);
                    assert(b@ is Text || b@ is Raw);
                    assert(a@ != b@);
                }
                return false;
            },
        },
        (Value::Binary(x), Value::Binary(y)) => {
            proof {
                assert(a@ == ValueModel::Binary(x@));
                assert(b@ == ValueModel::Binary(y@));
            }
            return bytes_eq(x, y);
        },
        (Value::Ext(tx, px), Value::Ext(ty, py)) => {
            proof {
                assert(a@ == ValueModel::Ext(*tx, px@));
                assert(b@ == ValueModel::Ext(*ty, py@));
            }
            return *tx == *ty && bytes_eq(px, py);
        },
        (Value::Array(x), Value::Array(y)) => {
            if x.len() != y.len() {
                proof {
                    assert(a@ matches ValueModel::Array(sa) && sa.len() == x@.len());
                    assert(b@ matches ValueModel::Array(sb) && sb.len() == y@.len());
                }
                return false;
            }
            let mut i: usize = 0;
            while i < x.len()
                invariant
                    i <= x.len(),
                    x@.len() == y@.len(),
                    a@ == Value::Array(*x)@,
                    b@ == Value::Array(*y)@,
                    forall|j: int| 0 <= j < i ==> x@[j].model() == y@[j].model(),
                decreases x.len() - i,
            {
                proof {
                    assert(decreases_to!(*a => *x));
                    assert(decreases_to!(*x => x@[i as int]));
                }
                if !value_eq(&x[i], &y[i]) {
                    proof {
                        let sa = a@->Array_0;
                        let sb = b@->Array_0;
                        assert(sa[i as int] == x@[i as int].model());
                        assert(sb[i as int] == y@[i as int].model());
                    }
                    return false;
                }
                i = i + 1;
            }
            proof {
                assert(a@ is Array && b@ is Array);
                let sa = a@->Array_0;
                let sb = b@->Array_0;
                assert(sa =~= sb);
                assert(a@ == b@);
            }
            return true;
        },
        (Value::Mapping(x), Value::Mapping(y)) => {
            if x.len() != y.len() {
                proof {
                    assert(a@ matches ValueModel::Mapping(sa) && sa.len() == x@.len());
                    assert(b@ matches ValueModel::Mapping(sb) && sb.len() == y@.len());
                }
                return false;
            }
            let mut i: usize = 0;
            while i < x.len()
                invariant
                    i <= x.len(),
                    x@.len() == y@.len(),
                    a@ == Value::Mapping(*x)@,
                    b@ == Value::Mapping(*y)@,
                    forall|j: int| 0 <= j < i ==> x@[j].0.model() == y@[j].0.model()
                        && x@[j].1.model() == y@[j].1.model(),
                decreases x.len() - i,
            {
                proof {
                    assert(decreases_to!(*a => *x));
                    assert(decreases_to!(*x => x@[i as int]));
                    assert(decreases_to!(x@[i as int] => x@[i as int].0));
                    assert(decreases_to!(x@[i as int] => x@[i as int].1));
                }
                let key_matches = value_eq(&x[i].0, &y[i].0);
                let val_matches = value_eq(&x[i].1, &y[i].1);
                if !(key_matches && val_matches) {
                    proof {
                        let sa = a@->Mapping_0;
                        let sb = b@->Mapping_0;
                        assert(sa[i as int] == (x@[i as int].0.model(), x@[i as int].1.model()));
                        assert(sb[i as int] == (y@[i as int].0.model(), y@[i as int].1.model()));
                    }
                    return false;
                }
                i = i + 1;
            }
            proof {
                assert(a@ is Mapping && b@ is Mapping);
                let sa = a@->Mapping_0;
                let sb = b@->Mapping_0;
                assert(sa =~= sb);
                assert(a@ == b@);
            }
            return true;
        },
        _ => {
            proof {
                lemma_model_variant(*a);
                lemma_model_variant(*b);
                assert(a@ != b@);
            }
            return false;
        },
    }
}

} // verus!
