use vstd::prelude::*;
use crate::value::{f32_of, f32_tuple, f32s_of, fields_of, is_f32_tuple, read_f32, read_f32s, read_fields, tuple_struct, DeError, F32Bits, Value};

verus! {

/// A triangle, by its three vertices.
#[derive(Debug, Clone, PartialEq)]
pub struct Triangle {
    pub a_x: F32Bits,
    pub a_y: F32Bits,
    pub a_z: F32Bits,
    pub b_x: F32Bits,
    pub b_y: F32Bits,
    pub b_z: F32Bits,
    pub c_x: F32Bits,
    pub c_y: F32Bits,
    pub c_z: F32Bits,
}

/// `v` is how `serialize` writes `x`: the tuple struct `graphene::Triangle`.
pub open spec fn encodes(v: Value, x: Triangle) -> bool {
    match v {
        Value::TupleStruct { name, fields } => {
            &&& name@ == "graphene::Triangle"@
            &&& fields@.len() == 3
            &&& is_f32_tuple(fields@[0], seq![x.a_x, x.a_y, x.a_z])
            &&& is_f32_tuple(fields@[1], seq![x.b_x, x.b_y, x.b_z])
            &&& is_f32_tuple(fields@[2], seq![x.c_x, x.c_y, x.c_z])
        },
        _ => false,
    }
}

/// What `deserialize` reads from `v`: a sequence of 3 fields of the right kinds.
pub open spec fn decode(v: Value) -> Option<Triangle> {
    match fields_of(v, 3) {
        Some(f) => {
            let g0 = f32s_of(f[0], 3);
            let g1 = f32s_of(f[1], 3);
            let g2 = f32s_of(f[2], 3);
            if g0 is Some && g1 is Some && g2 is Some {
                Some(Triangle {
                    a_x: g0->Some_0[0],
                    a_y: g0->Some_0[1],
                    a_z: g0->Some_0[2],
                    b_x: g1->Some_0[0],
                    b_y: g1->Some_0[1],
                    b_z: g1->Some_0[2],
                    c_x: g2->Some_0[0],
                    c_y: g2->Some_0[1],
                    c_z: g2->Some_0[2],
                })
            } else {
                None
            }
        },
        None => None,
    }
}

/// A triangle is written as the tuple struct `graphene::Triangle` of its vertices.
pub fn serialize(x: &Triangle) -> (v: Value)
    ensures
        encodes(v, *x),
{
    let mut fields: Vec<Value> = Vec::new();
    fields.push(f32_tuple([x.a_x, x.a_y, x.a_z].as_slice()));
    fields.push(f32_tuple([x.b_x, x.b_y, x.b_z].as_slice()));
    fields.push(f32_tuple([x.c_x, x.c_y, x.c_z].as_slice()));
    tuple_struct("graphene::Triangle", fields)
}

/// Reads the value back from the fields of a tuple struct (or of a sequence).
pub fn deserialize(v: &Value) -> (r: Result<Triangle, DeError>)
    ensures
        match decode(*v) {
            Some(x) => r == Ok::<Triangle, DeError>(x),
            None => r matches Err(DeError::InvalidType),
        },
{
    let f = match read_fields(v, 3) {
        Ok(f) => f,
        Err(e) => return Err(e),
    };
    let g0 = match read_f32s(&f[0], 3) {
        Ok(x) => x,
        Err(e) => return Err(e),
    };
    let g1 = match read_f32s(&f[1], 3) {
        Ok(x) => x,
        Err(e) => return Err(e),
    };
    let g2 = match read_f32s(&f[2], 3) {
        Ok(x) => x,
        Err(e) => return Err(e),
    };
    Ok(Triangle {
        a_x: g0[0],
        a_y: g0[1],
        a_z: g0[2],
        b_x: g1[0],
        b_y: g1[1],
        b_z: g1[2],
        c_x: g2[0],
        c_y: g2[1],
        c_z: g2[2],
    })
}

/// What `serialize` writes, `deserialize` reads back unchanged.
pub proof fn round_trip(x: Triangle, v: Value)
    requires
        encodes(v, x),
    ensures
        decode(v) == Some(x),
{
    assert(f32s_of(v->TupleStruct_fields@[0], 3) == Some(seq![x.a_x, x.a_y, x.a_z]));
    assert(f32s_of(v->TupleStruct_fields@[1], 3) == Some(seq![x.b_x, x.b_y, x.b_z]));
    assert(f32s_of(v->TupleStruct_fields@[2], 3) == Some(seq![x.c_x, x.c_y, x.c_z]));
}

} // verus!
