use vstd::prelude::*;
use crate::value::{f32_of, fields_of, read_f32, read_fields, tuple_struct, DeError, F32Bits, Value};

verus! {

/// A quaternion.
#[derive(Debug, Clone, PartialEq)]
pub struct Quaternion {
    pub x: F32Bits,
    pub y: F32Bits,
    pub z: F32Bits,
    pub w: F32Bits,
}

/// `v` is how `serialize` writes `x`: the tuple struct `graphene::Quaternion`.
pub open spec fn encodes(v: Value, x: Quaternion) -> bool {
    match v {
        Value::TupleStruct { name, fields } => {
            &&& name@ == "graphene::Quaternion"@
            &&& fields@.len() == 4
            &&& fields@[0] == Value::F32(x.x)
            &&& fields@[1] == Value::F32(x.y)
            &&& fields@[2] == Value::F32(x.z)
            &&& fields@[3] == Value::F32(x.w)
        },
        _ => false,
    }
}

/// What `deserialize` reads from `v`: a sequence of 4 fields of the right kinds.
pub open spec fn decode(v: Value) -> Option<Quaternion> {
    match fields_of(v, 4) {
        Some(f) => {
            let g0 = f32_of(f[0]);
            let g1 = f32_of(f[1]);
            let g2 = f32_of(f[2]);
            let g3 = f32_of(f[3]);
            if g0 is Some && g1 is Some && g2 is Some && g3 is Some {
                Some(Quaternion {
                    x: g0->Some_0,
                    y: g1->Some_0,
                    z: g2->Some_0,
                    w: g3->Some_0,
                })
            } else {
                None
            }
        },
        None => None,
    }
}

/// A quaternion is written as the tuple struct `graphene::Quaternion` of its four components.
pub fn serialize(x: &Quaternion) -> (v: Value)
    ensures
        encodes(v, *x),
{
    let mut fields: Vec<Value> = Vec::new();
    fields.push(Value::F32(x.x));
    fields.push(Value::F32(x.y));
    fields.push(Value::F32(x.z));
    fields.push(Value::F32(x.w));
    tuple_struct("graphene::Quaternion", fields)
}

/// Reads the value back from the fields of a tuple struct (or of a sequence).
pub fn deserialize(v: &Value) -> (r: Result<Quaternion, DeError>)
    ensures
        match decode(*v) {
            Some(x) => r == Ok::<Quaternion, DeError>(x),
            None => r matches Err(DeError::InvalidType),
        },
{
    let f = match read_fields(v, 4) {
        Ok(f) => f,
        Err(e) => return Err(e),
    };
    let g0 = match read_f32(&f[0]) {
        Ok(x) => x,
        Err(e) => return Err(e),
    };
    let g1 = match read_f32(&f[1]) {
        Ok(x) => x,
        Err(e) => return Err(e),
    };
    let g2 = match read_f32(&f[2]) {
        Ok(x) => x,
        Err(e) => return Err(e),
    };
    let g3 = match read_f32(&f[3]) {
        Ok(x) => x,
        Err(e) => return Err(e),
    };
    Ok(Quaternion {
        x: g0,
        y: g1,
        z: g2,
        w: g3,
    })
}

/// What `serialize` writes, `deserialize` reads back unchanged.
pub proof fn round_trip(x: Quaternion, v: Value)
    requires
        encodes(v, x),
    ensures
        decode(v) == Some(x),
{
}

} // verus!
