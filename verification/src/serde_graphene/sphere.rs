use vstd::prelude::*;
use crate::value::{f32_of, f32_tuple, f32s_of, fields_of, is_f32_tuple, read_f32, read_f32s, read_fields, tuple_struct, DeError, F32Bits, Value};

verus! {

/// A sphere, by its center and radius.
#[derive(Debug, Clone, PartialEq)]
pub struct Sphere {
    pub center_x: F32Bits,
    pub center_y: F32Bits,
    pub center_z: F32Bits,
    pub radius: F32Bits,
}

/// `v` is how `serialize` writes `x`: the tuple struct `graphene::Sphere`.
pub open spec fn encodes(v: Value, x: Sphere) -> bool {
    match v {
        Value::TupleStruct { name, fields } => {
            &&& name@ == "graphene::Sphere"@
            &&& fields@.len() == 2
            &&& is_f32_tuple(fields@[0], seq![x.center_x, x.center_y, x.center_z])
            &&& fields@[1] == Value::F32(x.radius)
        },
        _ => false,
    }
}

/// What `deserialize` reads from `v`: a sequence of 2 fields of the right kinds.
pub open spec fn decode(v: Value) -> Option<Sphere> {
    match fields_of(v, 2) {
        Some(f) => {
            let g0 = f32s_of(f[0], 3);
            let g1 = f32_of(f[1]);
            if g0 is Some && g1 is Some {
                Some(Sphere {
                    center_x: g0->Some_0[0],
                    center_y: g0->Some_0[1],
                    center_z: g0->Some_0[2],
                    radius: g1->Some_0,
                })
            } else {
                None
            }
        },
        None => None,
    }
}

/// A sphere is written as the tuple struct `graphene::Sphere` of its center and radius.
pub fn serialize(x: &Sphere) -> (v: Value)
    ensures
        encodes(v, *x),
{
    let mut fields: Vec<Value> = Vec::new();
    fields.push(f32_tuple([x.center_x, x.center_y, x.center_z].as_slice()));
    fields.push(Value::F32(x.radius));
    tuple_struct("graphene::Sphere", fields)
}

/// Reads the value back from the fields of a tuple struct (or of a sequence).
pub fn deserialize(v: &Value) -> (r: Result<Sphere, DeError>)
    ensures
        match decode(*v) {
            Some(x) => r == Ok::<Sphere, DeError>(x),
            None => r matches Err(DeError::InvalidType),
        },
{
    let f = match read_fields(v, 2) {
        Ok(f) => f,
        Err(e) => return Err(e),
    };
    let g0 = match read_f32s(&f[0], 3) {
        Ok(x) => x,
        Err(e) => return Err(e),
    };
    let g1 = match read_f32(&f[1]) {
        Ok(x) => x,
        Err(e) => return Err(e),
    };
    Ok(Sphere {
        center_x: g0[0],
        center_y: g0[1],
        center_z: g0[2],
        radius: g1,
    })
}

/// What `serialize` writes, `deserialize` reads back unchanged.
pub proof fn round_trip(x: Sphere, v: Value)
    requires
        encodes(v, x),
    ensures
        decode(v) == Some(x),
{
    assert(f32s_of(v->TupleStruct_fields@[0], 3) == Some(seq![x.center_x, x.center_y, x.center_z]));
}

} // verus!
