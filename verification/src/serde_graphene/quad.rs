use vstd::prelude::*;
use crate::value::{f32_of, f32_tuple, f32s_of, fields_of, is_f32_tuple, read_f32, read_f32s, read_fields, tuple_struct, DeError, F32Bits, Value};

verus! {

/// A quadrilateral, by its four corners.
#[derive(Debug, Clone, PartialEq)]
pub struct Quad {
    pub p1_x: F32Bits,
    pub p1_y: F32Bits,
    pub p2_x: F32Bits,
    pub p2_y: F32Bits,
    pub p3_x: F32Bits,
    pub p3_y: F32Bits,
    pub p4_x: F32Bits,
    pub p4_y: F32Bits,
}

/// `v` is how `serialize` writes `x`: the tuple struct `graphene::Quad`.
pub open spec fn encodes(v: Value, x: Quad) -> bool {
    match v {
        Value::TupleStruct { name, fields } => {
            &&& name@ == "graphene::Quad"@
            &&& fields@.len() == 4
            &&& is_f32_tuple(fields@[0], seq![x.p1_x, x.p1_y])
            &&& is_f32_tuple(fields@[1], seq![x.p2_x, x.p2_y])
            &&& is_f32_tuple(fields@[2], seq![x.p3_x, x.p3_y])
            &&& is_f32_tuple(fields@[3], seq![x.p4_x, x.p4_y])
        },
        _ => false,
    }
}

/// What `deserialize` reads from `v`: a sequence of 4 fields of the right kinds.
pub open spec fn decode(v: Value) -> Option<Quad> {
    match fields_of(v, 4) {
        Some(f) => {
            let g0 = f32s_of(f[0], 2);
            let g1 = f32s_of(f[1], 2);
            let g2 = f32s_of(f[2], 2);
            let g3 = f32s_of(f[3], 2);
            if g0 is Some && g1 is Some && g2 is Some && g3 is Some {
                Some(Quad {
                    p1_x: g0->Some_0[0],
                    p1_y: g0->Some_0[1],
                    p2_x: g1->Some_0[0],
                    p2_y: g1->Some_0[1],
                    p3_x: g2->Some_0[0],
                    p3_y: g2->Some_0[1],
                    p4_x: g3->Some_0[0],
                    p4_y: g3->Some_0[1],
                })
            } else {
                None
            }
        },
        None => None,
    }
}

/// A quad is written as the tuple struct `graphene::Quad` of its four corners.
pub fn serialize(x: &Quad) -> (v: Value)
    ensures
        encodes(v, *x),
{
    let mut fields: Vec<Value> = Vec::new();
    fields.push(f32_tuple([x.p1_x, x.p1_y].as_slice()));
    fields.push(f32_tuple([x.p2_x, x.p2_y].as_slice()));
    fields.push(f32_tuple([x.p3_x, x.p3_y].as_slice()));
    fields.push(f32_tuple([x.p4_x, x.p4_y].as_slice()));
    tuple_struct("graphene::Quad", fields)
}

/// Reads the value back from the fields of a tuple struct (or of a sequence).
pub fn deserialize(v: &Value) -> (r: Result<Quad, DeError>)
    ensures
        match decode(*v) {
            Some(x) => r == Ok::<Quad, DeError>(x),
            None => r matches Err(DeError::InvalidType),
        },
{
    let f = match read_fields(v, 4) {
        Ok(f) => f,
        Err(e) => return Err(e),
    };
    let g0 = match read_f32s(&f[0], 2) {
        Ok(x) => x,
        Err(e) => return Err(e),
    };
    let g1 = match read_f32s(&f[1], 2) {
        Ok(x) => x,
        Err(e) => return Err(e),
    };
    let g2 = match read_f32s(&f[2], 2) {
        Ok(x) => x,
        Err(e) => return Err(e),
    };
    let g3 = match read_f32s(&f[3], 2) {
        Ok(x) => x,
        Err(e) => return Err(e),
    };
    Ok(Quad {
        p1_x: g0[0],
        p1_y: g0[1],
        p2_x: g1[0],
        p2_y: g1[1],
        p3_x: g2[0],
        p3_y: g2[1],
        p4_x: g3[0],
        p4_y: g3[1],
    })
}

/// What `serialize` writes, `deserialize` reads back unchanged.
pub proof fn round_trip(x: Quad, v: Value)
    requires
        encodes(v, x),
    ensures
        decode(v) == Some(x),
{
    assert(f32s_of(v->TupleStruct_fields@[0], 2) == Some(seq![x.p1_x, x.p1_y]));
    assert(f32s_of(v->TupleStruct_fields@[1], 2) == Some(seq![x.p2_x, x.p2_y]));
    assert(f32s_of(v->TupleStruct_fields@[2], 2) == Some(seq![x.p3_x, x.p3_y]));
    assert(f32s_of(v->TupleStruct_fields@[3], 2) == Some(seq![x.p4_x, x.p4_y]));
}

} // verus!
