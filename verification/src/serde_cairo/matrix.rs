use vstd::prelude::*;
use crate::value::{f64_of, fields_of, read_f64, read_fields, tuple_struct, DeError, F64Bits, Value};

verus! {

/// An affine transformation.
#[derive(Debug, Clone, PartialEq)]
pub struct Matrix {
    pub xx: F64Bits,
    pub yx: F64Bits,
    pub xy: F64Bits,
    pub yy: F64Bits,
    pub x0: F64Bits,
    pub y0: F64Bits,
}

/// `v` is how `serialize` writes `x`: the tuple struct `cairo::Matrix`.
pub open spec fn encodes(v: Value, x: Matrix) -> bool {
    match v {
        Value::TupleStruct { name, fields } => {
            &&& name@ == "cairo::Matrix"@
            &&& fields@.len() == 6
            &&& fields@[0] == Value::F64(x.xx)
            &&& fields@[1] == Value::F64(x.yx)
            &&& fields@[2] == Value::F64(x.xy)
            &&& fields@[3] == Value::F64(x.yy)
            &&& fields@[4] == Value::F64(x.x0)
            &&& fields@[5] == Value::F64(x.y0)
        },
        _ => false,
    }
}

/// What `deserialize` reads from `v`: a sequence of 6 fields of the right kinds.
pub open spec fn decode(v: Value) -> Option<Matrix> {
    match fields_of(v, 6) {
        Some(f) => {
            let g0 = f64_of(f[0]);
            let g1 = f64_of(f[1]);
            let g2 = f64_of(f[2]);
            let g3 = f64_of(f[3]);
            let g4 = f64_of(f[4]);
            let g5 = f64_of(f[5]);
            if g0 is Some && g1 is Some && g2 is Some && g3 is Some && g4 is Some && g5 is Some {
                Some(Matrix {
                    xx: g0->Some_0,
                    yx: g1->Some_0,
                    xy: g2->Some_0,
                    yy: g3->Some_0,
                    x0: g4->Some_0,
                    y0: g5->Some_0,
                })
            } else {
                None
            }
        },
        None => None,
    }
}

/// A matrix is written as the tuple struct `cairo::Matrix` of its six components, in the order xx, yx, xy, yy, x0, y0.
pub fn serialize(x: &Matrix) -> (v: Value)
    ensures
        encodes(v, *x),
{
    let mut fields: Vec<Value> = Vec::new();
    fields.push(Value::F64(x.xx));
    fields.push(Value::F64(x.yx));
    fields.push(Value::F64(x.xy));
    fields.push(Value::F64(x.yy));
    fields.push(Value::F64(x.x0));
    fields.push(Value::F64(x.y0));
    tuple_struct("cairo::Matrix", fields)
}

/// Reads the value back from the fields of a tuple struct (or of a sequence).
pub fn deserialize(v: &Value) -> (r: Result<Matrix, DeError>)
    ensures
        match decode(*v) {
            Some(x) => r == Ok::<Matrix, DeError>(x),
            None => r matches Err(DeError::InvalidType),
        },
{
    let f = match read_fields(v, 6) {
        Ok(f) => f,
        Err(e) => return Err(e),
    };
    let g0 = match read_f64(&f[0]) {
        Ok(x) => x,
        Err(e) => return Err(e),
    };
    let g1 = match read_f64(&f[1]) {
        Ok(x) => x,
        Err(e) => return Err(e),
    };
    let g2 = match read_f64(&f[2]) {
        Ok(x) => x,
        Err(e) => return Err(e),
    };
    let g3 = match read_f64(&f[3]) {
        Ok(x) => x,
        Err(e) => return Err(e),
    };
    let g4 = match read_f64(&f[4]) {
        Ok(x) => x,
        Err(e) => return Err(e),
    };
    let g5 = match read_f64(&f[5]) {
        Ok(x) => x,
        Err(e) => return Err(e),
    };
    Ok(Matrix {
        xx: g0,
        yx: g1,
        xy: g2,
        yy: g3,
        x0: g4,
        y0: g5,
    })
}

/// What `serialize` writes, `deserialize` reads back unchanged.
pub proof fn round_trip(x: Matrix, v: Value)
    requires
        encodes(v, x),
    ensures
        decode(v) == Some(x),
{
}

} // verus!
