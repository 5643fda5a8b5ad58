use vstd::prelude::*;
use crate::value::{f32_of, f32_tuple, f32s_of, fields_of, is_f32_tuple, read_f32, read_f32s, read_fields, tuple_struct, DeError, F32Bits, Value};

verus! {

/// A box, by its minimum and maximum corners.
#[derive(Debug, Clone, PartialEq)]
pub struct Box3D {
    pub min_x: F32Bits,
    pub min_y: F32Bits,
    pub min_z: F32Bits,
    pub max_x: F32Bits,
    pub max_y: F32Bits,
    pub max_z: F32Bits,
}

/// `v` is how `serialize` writes `x`: the tuple struct `graphene::Box`.
pub open spec fn encodes(v: Value, x: Box3D) -> bool {
    match v {
        Value::TupleStruct { name, fields } => {
            &&& name@ == "graphene::Box"@
            &&& fields@.len() == 2
            &&& is_f32_tuple(fields@[0], seq![x.min_x, x.min_y, x.min_z])
            &&& is_f32_tuple(fields@[1], seq![x.max_x, x.max_y, x.max_z])
        },
        _ => false,
    }
}

/// What `deserialize` reads from `v`: a sequence of 2 fields of the right kinds.
pub open spec fn decode(v: Value) -> Option<Box3D> {
    match fields_of(v, 2) {
        Some(f) => {
            let g0 = f32s_of(f[0], 3);
            let g1 = f32s_of(f[1], 3);
            if g0 is Some && g1 is Some {
                Some(Box3D {
                    min_x: g0->Some_0[0],
                    min_y: g0->Some_0[1],
                    min_z: g0->Some_0[2],
                    max_x: g1->Some_0[0],
                    max_y: g1->Some_0[1],
                    max_z: g1->Some_0[2],
                })
            } else {
                None
            }
        },
        None => None,
    }
}

/// A box is written as the tuple struct `graphene::Box` of its two corners.
pub fn serialize(x: &Box3D) -> (v: Value)
    ensures
        encodes(v, *x),
{
    let mut fields: Vec<Value> = Vec::new();
    fields.push(f32_tuple([x.min_x, x.min_y, x.min_z].as_slice()));
    fields.push(f32_tuple([x.max_x, x.max_y, x.max_z].as_slice()));
    tuple_struct("graphene::Box", fields)
}

/// Reads the value back from the fields of a tuple struct (or of a sequence).
pub fn deserialize(v: &Value) -> (r: Result<Box3D, DeError>)
    ensures
        match decode(*v) {
            Some(x) => r == Ok::<Box3D, DeError>(x),
            None => r matches Err(DeError::InvalidType),
        },
{
    let f = match read_fields(v, 2) {
        Ok(f) => f,
        Err(e) => return Err(e),
    };
    let g0 = match read_f32s(&f[0], 3) {
        Ok(x) => x,
        Err(e) => return Err(e),
    };
    let g1 = match read_f32s(&f[1], 3) {
        Ok(x) => x,
        Err(e) => return Err(e),
    };
    Ok(Box3D {
        min_x: g0[0],
        min_y: g0[1],
        min_z: g0[2],
        max_x: g1[0],
        max_y: g1[1],
        max_z: g1[2],
    })
}

/// What `serialize` writes, `deserialize` reads back unchanged.
pub proof fn round_trip(x: Box3D, v: Value)
    requires
        encodes(v, x),
    ensures
        decode(v) == Some(x),
{
    assert(f32s_of(v->TupleStruct_fields@[0], 3) == Some(seq![x.min_x, x.min_y, x.min_z]));
    assert(f32s_of(v->TupleStruct_fields@[1], 3) == Some(seq![x.max_x, x.max_y, x.max_z]));
}

} // verus!
