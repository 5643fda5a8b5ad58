use vstd::prelude::*;
use crate::value::{f32_of, f32_tuple, f32s_of, fields_of, is_f32_tuple, read_f32, read_f32s, read_fields, tuple_struct, DeError, F32Bits, Value};

verus! {

/// A ray, by its origin and its direction.
#[derive(Debug, Clone, PartialEq)]
pub struct Ray {
    pub origin_x: F32Bits,
    pub origin_y: F32Bits,
    pub origin_z: F32Bits,
    pub direction_x: F32Bits,
    pub direction_y: F32Bits,
    pub direction_z: F32Bits,
}

/// `v` is how `serialize` writes `x`: the tuple struct `graphene::Ray`.
pub open spec fn encodes(v: Value, x: Ray) -> bool {
    match v {
        Value::TupleStruct { name, fields } => {
            &&& name@ == "graphene::Ray"@
            &&& fields@.len() == 2
            &&& is_f32_tuple(fields@[0], seq![x.origin_x, x.origin_y, x.origin_z])
            &&& is_f32_tuple(fields@[1], seq![x.direction_x, x.direction_y, x.direction_z])
        },
        _ => false,
    }
}

/// What `deserialize` reads from `v`: a sequence of 2 fields of the right kinds.
pub open spec fn decode(v: Value) -> Option<Ray> {
    match fields_of(v, 2) {
        Some(f) => {
            let g0 = f32s_of(f[0], 3);
            let g1 = f32s_of(f[1], 3);
            if g0 is Some && g1 is Some {
                Some(Ray {
                    origin_x: g0->Some_0[0],
                    origin_y: g0->Some_0[1],
                    origin_z: g0->Some_0[2],
                    direction_x: g1->Some_0[0],
                    direction_y: g1->Some_0[1],
                    direction_z: g1->Some_0[2],
                })
            } else {
                None
            }
        },
        None => None,
    }
}

/// A ray is written as the tuple struct `graphene::Ray` of its origin and its direction.
pub fn serialize(x: &Ray) -> (v: Value)
    ensures
        encodes(v, *x),
{
    let mut fields: Vec<Value> = Vec::new();
    fields.push(f32_tuple([x.origin_x, x.origin_y, x.origin_z].as_slice()));
    fields.push(f32_tuple([x.direction_x, x.direction_y, x.direction_z].as_slice()));
    tuple_struct("graphene::Ray", fields)
}

/// Reads the value back from the fields of a tuple struct (or of a sequence).
pub fn deserialize(v: &Value) -> (r: Result<Ray, DeError>)
    ensures
        match decode(*v) {
            Some(x) => r == Ok::<Ray, DeError>(x),
            None => r matches Err(DeError::InvalidType),
        },
{
    let f = match read_fields(v, 2) {
        Ok(f) => f,
        Err(e) => return Err(e),
    };
    let g0 = match read_f32s(&f[0], 3) {
        Ok(x) => x,
        Err(e) => return Err(e),
    };
    let g1 = match read_f32s(&f[1], 3) {
        Ok(x) => x,
        Err(e) => return Err(e),
    };
    Ok(Ray {
        origin_x: g0[0],
        origin_y: g0[1],
        origin_z: g0[2],
        direction_x: g1[0],
        direction_y: g1[1],
        direction_z: g1[2],
    })
}

/// What `serialize` writes, `deserialize` reads back unchanged.
pub proof fn round_trip(x: Ray, v: Value)
    requires
        encodes(v, x),
    ensures
        decode(v) == Some(x),
{
    assert(f32s_of(v->TupleStruct_fields@[0], 3) == Some(seq![x.origin_x, x.origin_y, x.origin_z]));
    assert(f32s_of(v->TupleStruct_fields@[1], 3) == Some(seq![x.direction_x, x.direction_y, x.direction_z]));
}

} // verus!
