use vstd::prelude::*;
use crate::value::{f32_of, f32_tuple, f32s_of, fields_of, is_f32_tuple, read_f32, read_f32s, read_fields, tuple_struct, DeError, F32Bits, Value};

verus! {

/// A 4x4 matrix, row by row.
#[derive(Debug, Clone, PartialEq)]
pub struct Matrix {
    pub xx: F32Bits,
    pub xy: F32Bits,
    pub xz: F32Bits,
    pub xw: F32Bits,
    pub yx: F32Bits,
    pub yy: F32Bits,
    pub yz: F32Bits,
    pub yw: F32Bits,
    pub zx: F32Bits,
    pub zy: F32Bits,
    pub zz: F32Bits,
    pub zw: F32Bits,
    pub wx: F32Bits,
    pub wy: F32Bits,
    pub wz: F32Bits,
    pub ww: F32Bits,
}

/// `v` is how `serialize` writes `x`: the tuple struct `graphene::Matrix`.
pub open spec fn encodes(v: Value, x: Matrix) -> bool {
    match v {
        Value::TupleStruct { name, fields } => {
            &&& name@ == "graphene::Matrix"@
            &&& fields@.len() == 4
            &&& is_f32_tuple(fields@[0], seq![x.xx, x.xy, x.xz, x.xw])
            &&& is_f32_tuple(fields@[1], seq![x.yx, x.yy, x.yz, x.yw])
            &&& is_f32_tuple(fields@[2], seq![x.zx, x.zy, x.zz, x.zw])
            &&& is_f32_tuple(fields@[3], seq![x.wx, x.wy, x.wz, x.ww])
        },
        _ => false,
    }
}

/// What `deserialize` reads from `v`: a sequence of 4 fields of the right kinds.
pub open spec fn decode(v: Value) -> Option<Matrix> {
    match fields_of(v, 4) {
        Some(f) => {
            let g0 = f32s_of(f[0], 4);
            let g1 = f32s_of(f[1], 4);
            let g2 = f32s_of(f[2], 4);
            let g3 = f32s_of(f[3], 4);
            if g0 is Some && g1 is Some && g2 is Some && g3 is Some {
                Some(Matrix {
                    xx: g0->Some_0[0],
                    xy: g0->Some_0[1],
                    xz: g0->Some_0[2],
                    xw: g0->Some_0[3],
                    yx: g1->Some_0[0],
                    yy: g1->Some_0[1],
                    yz: g1->Some_0[2],
                    yw: g1->Some_0[3],
                    zx: g2->Some_0[0],
                    zy: g2->Some_0[1],
                    zz: g2->Some_0[2],
                    zw: g2->Some_0[3],
                    wx: g3->Some_0[0],
                    wy: g3->Some_0[1],
                    wz: g3->Some_0[2],
                    ww: g3->Some_0[3],
                })
            } else {
                None
            }
        },
        None => None,
    }
}

/// A matrix is written as the tuple struct `graphene::Matrix` of its four rows.
pub fn serialize(x: &Matrix) -> (v: Value)
    ensures
        encodes(v, *x),
{
    let mut fields: Vec<Value> = Vec::new();
    fields.push(f32_tuple([x.xx, x.xy, x.xz, x.xw].as_slice()));
    fields.push(f32_tuple([x.yx, x.yy, x.yz, x.yw].as_slice()));
    fields.push(f32_tuple([x.zx, x.zy, x.zz, x.zw].as_slice()));
    fields.push(f32_tuple([x.wx, x.wy, x.wz, x.ww].as_slice()));
    tuple_struct("graphene::Matrix", fields)
}

/// Reads the value back from the fields of a tuple struct (or of a sequence).
pub fn deserialize(v: &Value) -> (r: Result<Matrix, DeError>)
    ensures
        match decode(*v) {
            Some(x) => r == Ok::<Matrix, DeError>(x),
            None => r matches Err(DeError::InvalidType),
        },
{
    let f = match read_fields(v, 4) {
        Ok(f) => f,
        Err(e) => return Err(e),
    };
    let g0 = match read_f32s(&f[0], 4) {
        Ok(x) => x,
        Err(e) => return Err(e),
    };
    let g1 = match read_f32s(&f[1], 4) {
        Ok(x) => x,
        Err(e) => return Err(e),
    };
    let g2 = match read_f32s(&f[2], 4) {
        Ok(x) => x,
        Err(e) => return Err(e),
    };
    let g3 = match read_f32s(&f[3], 4) {
        Ok(x) => x,
        Err(e) => return Err(e),
    };
    Ok(Matrix {
        xx: g0[0],
        xy: g0[1],
        xz: g0[2],
        xw: g0[3],
        yx: g1[0],
        yy: g1[1],
        yz: g1[2],
        yw: g1[3],
        zx: g2[0],
        zy: g2[1],
        zz: g2[2],
        zw: g2[3],
        wx: g3[0],
        wy: g3[1],
        wz: g3[2],
        ww: g3[3],
    })
}

/// What `serialize` writes, `deserialize` reads back unchanged.
pub proof fn round_trip(x: Matrix, v: Value)
    requires
        encodes(v, x),
    ensures
        decode(v) == Some(x),
{
    assert(f32s_of(v->TupleStruct_fields@[0], 4) == Some(seq![x.xx, x.xy, x.xz, x.xw]));
    assert(f32s_of(v->TupleStruct_fields@[1], 4) == Some(seq![x.yx, x.yy, x.yz, x.yw]));
    assert(f32s_of(v->TupleStruct_fields@[2], 4) == Some(seq![x.zx, x.zy, x.zz, x.zw]));
    assert(f32s_of(v->TupleStruct_fields@[3], 4) == Some(seq![x.wx, x.wy, x.wz, x.ww]));
}

} // verus!
