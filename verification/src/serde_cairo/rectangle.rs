use vstd::prelude::*;
use crate::value::{f64_of, fields_of, read_f64, read_fields, tuple_struct, DeError, F64Bits, Value};

verus! {

/// A rectangle with floating-point coordinates.
#[derive(Debug, Clone, PartialEq)]
pub struct Rectangle {
    pub x: F64Bits,
    pub y: F64Bits,
    pub width: F64Bits,
    pub height: F64Bits,
}

/// `v` is how `serialize` writes `x`: the tuple struct `cairo::Rectangle`.
pub open spec fn encodes(v: Value, x: Rectangle) -> bool {
    match v {
        Value::TupleStruct { name, fields } => {
            &&& name@ == "cairo::Rectangle"@
            &&& fields@.len() == 4
            &&& fields@[0] == Value::F64(x.x)
            &&& fields@[1] == Value::F64(x.y)
            &&& fields@[2] == Value::F64(x.width)
            &&& fields@[3] == Value::F64(x.height)
        },
        _ => false,
    }
}

/// What `deserialize` reads from `v`: a sequence of 4 fields of the right kinds.
pub open spec fn decode(v: Value) -> Option<Rectangle> {
    match fields_of(v, 4) {
        Some(f) => {
            let g0 = f64_of(f[0]);
            let g1 = f64_of(f[1]);
            let g2 = f64_of(f[2]);
            let g3 = f64_of(f[3]);
            if g0 is Some && g1 is Some && g2 is Some && g3 is Some {
                Some(Rectangle {
                    x: g0->Some_0,
                    y: g1->Some_0,
                    width: g2->Some_0,
                    height: g3->Some_0,
                })
            } else {
                None
            }
        },
        None => None,
    }
}

/// A rectangle is written as the tuple struct `cairo::Rectangle` of its origin and size.
pub fn serialize(x: &Rectangle) -> (v: Value)
    ensures
        encodes(v, *x),
{
    let mut fields: Vec<Value> = Vec::new();
    fields.push(Value::F64(x.x));
    fields.push(Value::F64(x.y));
    fields.push(Value::F64(x.width));
    fields.push(Value::F64(x.height));
    tuple_struct("cairo::Rectangle", fields)
}

/// Reads the value back from the fields of a tuple struct (or of a sequence).
pub fn deserialize(v: &Value) -> (r: Result<Rectangle, DeError>)
    ensures
        match decode(*v) {
            Some(x) => r == Ok::<Rectangle, DeError>(x),
            None => r matches Err(DeError::InvalidType),
        },
{
    let f = match read_fields(v, 4) {
        Ok(f) => f,
        Err(e) => return Err(e),
    };
    let g0 = match read_f64(&f[0]) {
        Ok(x) => x,
        Err(e) => return Err(e),
    };
    let g1 = match read_f64(&f[1]) {
        Ok(x) => x,
        Err(e) => return Err(e),
    };
    let g2 = match read_f64(&f[2]) {
        Ok(x) => x,
        Err(e) => return Err(e),
    };
    let g3 = match read_f64(&f[3]) {
        Ok(x) => x,
        Err(e) => return Err(e),
    };
    Ok(Rectangle {
        x: g0,
        y: g1,
        width: g2,
        height: g3,
    })
}

/// What `serialize` writes, `deserialize` reads back unchanged.
pub proof fn round_trip(x: Rectangle, v: Value)
    requires
        encodes(v, x),
    ensures
        decode(v) == Some(x),
{
}

} // verus!
