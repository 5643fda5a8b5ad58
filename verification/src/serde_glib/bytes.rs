use vstd::prelude::*;
use vstd::slice::slice_to_vec;
use vstd::utf8::encode_utf8;
use crate::value::{DeError, Value};

verus! {

/// `v` is a sequence holding each byte of `b` as a `u8`, in order.
pub open spec fn is_byte_list(v: Value, b: Seq<u8>) -> bool {
    match v {
        Value::List(items) => items@.len() == b.len()
            && forall|i: int| 0 <= i < b.len() ==> items@[i] == Value::U8(#[trigger] b[i]),
        _ => false,
    }
}

/// A byte buffer is written as a sequence of its bytes, each a `u8`.
pub fn serialize(b: &[u8]) -> (v: Value)
    ensures
        is_byte_list(v, b@),
{
    let mut items: Vec<Value> = Vec::new();
    let mut i: usize = 0;
    while i < b.len()
        invariant
            i <= b@.len(),
            items@.len() == i,
            forall|k: int| 0 <= k < i ==> items@[k] == Value::U8(#[trigger] b@[k]),
        decreases b.len() - i,
    {
        items.push(Value::U8(b[i]));
        i = i + 1;
    }
    Value::List(items)
}

/// Reads a byte buffer back, from bytes or from a string (its UTF-8 encoding).
pub fn deserialize(v: &Value) -> (r: Result<Vec<u8>, DeError>)
    ensures
        match *v {
            Value::Bytes(w) => r matches Ok(b) && b@ == w@,
            Value::Str(s) => r matches Ok(b) && b@ == encode_utf8(s@),
            _ => r matches Err(DeError::InvalidType),
        },
{
    match v {
        Value::Bytes(w) => Ok(w.clone()),
        Value::Str(s) => Ok(slice_to_vec(s.as_str().as_bytes())),
        _ => Err(DeError::InvalidType),
    }
}

} // verus!
