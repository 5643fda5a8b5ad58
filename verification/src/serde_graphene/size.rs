use vstd::prelude::*;
use crate::value::{f32_of, fields_of, read_f32, read_fields, tuple_struct, DeError, F32Bits, Value};

verus! {

/// A size.
#[derive(Debug, Clone, PartialEq)]
pub struct Size {
    pub width: F32Bits,
    pub height: F32Bits,
}

/// `v` is how `serialize` writes `x`: the tuple struct `graphene::Size`.
pub open spec fn encodes(v: Value, x: Size) -> bool {
    match v {
        Value::TupleStruct { name, fields } => {
            &&& name@ == "graphene::Size"@
            &&& fields@.len() == 2
            &&& fields@[0] == Value::F32(x.width)
            &&& fields@[1] == Value::F32(x.height)
        },
        _ => false,
    }
}

/// What `deserialize` reads from `v`: a sequence of 2 fields of the right kinds.
pub open spec fn decode(v: Value) -> Option<Size> {
    match fields_of(v, 2) {
        Some(f) => {
            let g0 = f32_of(f[0]);
            let g1 = f32_of(f[1]);
            if g0 is Some && g1 is Some {
                Some(Size {
                    width: g0->Some_0,
                    height: g1->Some_0,
                })
            } else {
                None
            }
        },
        None => None,
    }
}

/// A size is written as the tuple struct `graphene::Size` of its width and height.
pub fn serialize(x: &Size) -> (v: Value)
    ensures
        encodes(v, *x),
{
    let mut fields: Vec<Value> = Vec::new();
    fields.push(Value::F32(x.width));
    fields.push(Value::F32(x.height));
    tuple_struct("graphene::Size", fields)
}

/// Reads the value back from the fields of a tuple struct (or of a sequence).
pub fn deserialize(v: &Value) -> (r: Result<Size, DeError>)
    ensures
        match decode(*v) {
            Some(x) => r == Ok::<Size, DeError>(x),
            None => r matches Err(DeError::InvalidType),
        },
{
    let f = match read_fields(v, 2) {
        Ok(f) => f,
        Err(e) => return Err(e),
    };
    let g0 = match read_f32(&f[0]) {
        Ok(x) => x,
        Err(e) => return Err(e),
    };
    let g1 = match read_f32(&f[1]) {
        Ok(x) => x,
        Err(e) => return Err(e),
    };
    Ok(Size {
        width: g0,
        height: g1,
    })
}

/// What `serialize` writes, `deserialize` reads back unchanged.
pub proof fn round_trip(x: Size, v: Value)
    requires
        encodes(v, x),
    ensures
        decode(v) == Some(x),
{
}

} // verus!
