use vstd::prelude::*;
use crate::value::{f32_of, f32_tuple, f32s_of, fields_of, is_f32_tuple, read_f32, read_f32s, read_fields, tuple_struct, DeError, F32Bits, Value};

verus! {

/// A plane, by its normal and its constant.
#[derive(Debug, Clone, PartialEq)]
pub struct Plane {
    pub normal_x: F32Bits,
    pub normal_y: F32Bits,
    pub normal_z: F32Bits,
    pub constant: F32Bits,
}

/// `v` is how `serialize` writes `x`: the tuple struct `graphene::Plane`.
pub open spec fn encodes(v: Value, x: Plane) -> bool {
    match v {
        Value::TupleStruct { name, fields } => {
            &&& name@ == "graphene::Plane"@
            &&& fields@.len() == 2
            &&& is_f32_tuple(fields@[0], seq![x.normal_x, x.normal_y, x.normal_z])
            &&& fields@[1] == Value::F32(x.constant)
        },
        _ => false,
    }
}

/// What `deserialize` reads from `v`: a sequence of 2 fields of the right kinds.
pub open spec fn decode(v: Value) -> Option<Plane> {
    match fields_of(v, 2) {
        Some(f) => {
            let g0 = f32s_of(f[0], 3);
            let g1 = f32_of(f[1]);
            if g0 is Some && g1 is Some {
                Some(Plane {
                    normal_x: g0->Some_0[0],
                    normal_y: g0->Some_0[1],
                    normal_z: g0->Some_0[2],
                    constant: g1->Some_0,
                })
            } else {
                None
            }
        },
        None => None,
    }
}

/// A plane is written as the tuple struct `graphene::Plane` of its normal and its constant.
pub fn serialize(x: &Plane) -> (v: Value)
    ensures
        encodes(v, *x),
{
    let mut fields: Vec<Value> = Vec::new();
    fields.push(f32_tuple([x.normal_x, x.normal_y, x.normal_z].as_slice()));
    fields.push(Value::F32(x.constant));
    tuple_struct("graphene::Plane", fields)
}

/// Reads the value back from the fields of a tuple struct (or of a sequence).
pub fn deserialize(v: &Value) -> (r: Result<Plane, DeError>)
    ensures
        match decode(*v) {
            Some(x) => r == Ok::<Plane, DeError>(x),
            None => r matches Err(DeError::InvalidType),
        },
{
    let f = match read_fields(v, 2) {
        Ok(f) => f,
        Err(e) => return Err(e),
    };
    let g0 = match read_f32s(&f[0], 3) {
        Ok(x) => x,
        Err(e) => return Err(e),
    };
    let g1 = match read_f32(&f[1]) {
        Ok(x) => x,
        Err(e) => return Err(e),
    };
    Ok(Plane {
        normal_x: g0[0],
        normal_y: g0[1],
        normal_z: g0[2],
        constant: g1,
    })
}

/// What `serialize` writes, `deserialize` reads back unchanged.
pub proof fn round_trip(x: Plane, v: Value)
    requires
        encodes(v, x),
    ensures
        decode(v) == Some(x),
{
    assert(f32s_of(v->TupleStruct_fields@[0], 3) == Some(seq![x.normal_x, x.normal_y, x.normal_z]));
}

} // verus!
