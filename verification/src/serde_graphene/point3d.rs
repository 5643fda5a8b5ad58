use vstd::prelude::*;
use crate::value::{f32_of, fields_of, read_f32, read_fields, tuple_struct, DeError, F32Bits, Value};

verus! {

/// A point in three dimensions.
#[derive(Debug, Clone, PartialEq)]
pub struct Point3D {
    pub x: F32Bits,
    pub y: F32Bits,
    pub z: F32Bits,
}

/// `v` is how `serialize` writes `x`: the tuple struct `graphene::Point3D`.
pub open spec fn encodes(v: Value, x: Point3D) -> bool {
    match v {
        Value::TupleStruct { name, fields } => {
            &&& name@ == "graphene::Point3D"@
            &&& fields@.len() == 3
            &&& fields@[0] == Value::F32(x.x)
            &&& fields@[1] == Value::F32(x.y)
            &&& fields@[2] == Value::F32(x.z)
        },
        _ => false,
    }
}

/// What `deserialize` reads from `v`: a sequence of 3 fields of the right kinds.
pub open spec fn decode(v: Value) -> Option<Point3D> {
    match fields_of(v, 3) {
        Some(f) => {
            let g0 = f32_of(f[0]);
            let g1 = f32_of(f[1]);
            let g2 = f32_of(f[2]);
            if g0 is Some && g1 is Some && g2 is Some {
                Some(Point3D {
                    x: g0->Some_0,
                    y: g1->Some_0,
                    z: g2->Some_0,
                })
            } else {
                None
            }
        },
        None => None,
    }
}

/// A point is written as the tuple struct `graphene::Point3D` of its coordinates.
pub fn serialize(x: &Point3D) -> (v: Value)
    ensures
        encodes(v, *x),
{
    let mut fields: Vec<Value> = Vec::new();
    fields.push(Value::F32(x.x));
    fields.push(Value::F32(x.y));
    fields.push(Value::F32(x.z));
    tuple_struct("graphene::Point3D", fields)
}

/// Reads the value back from the fields of a tuple struct (or of a sequence).
pub fn deserialize(v: &Value) -> (r: Result<Point3D, DeError>)
    ensures
        match decode(*v) {
            Some(x) => r == Ok::<Point3D, DeError>(x),
            None => r matches Err(DeError::InvalidType),
        },
{
    let f = match read_fields(v, 3) {
        Ok(f) => f,
        Err(e) => return Err(e),
    };
    let g0 = match read_f32(&f[0]) {
        Ok(x) => x,
        Err(e) => return Err(e),
    };
    let g1 = match read_f32(&f[1]) {
        Ok(x) => x,
        Err(e) => return Err(e),
    };
    let g2 = match read_f32(&f[2]) {
        Ok(x) => x,
        Err(e) => return Err(e),
    };
    Ok(Point3D {
        x: g0,
        y: g1,
        z: g2,
    })
}

/// What `serialize` writes, `deserialize` reads back unchanged.
pub proof fn round_trip(x: Point3D, v: Value)
    requires
        encodes(v, x),
    ensures
        decode(v) == Some(x),
{
}

} // verus!
