use vstd::prelude::*;
use crate::value::{fields_of, i32_of, int_error, read_fields, read_i32, tuple_struct, DeError, Value};

verus! {

/// A rectangle with integer coordinates.
#[derive(Debug, Clone, PartialEq)]
pub struct RectangleInt {
    pub x: i32,
    pub y: i32,
    pub width: i32,
    pub height: i32,
}

/// `v` is how `serialize` writes `x`: the tuple struct `cairo::RectangleInt`.
pub open spec fn encodes(v: Value, x: RectangleInt) -> bool {
    match v {
        Value::TupleStruct { name, fields } => {
            &&& name@ == "cairo::RectangleInt"@
            &&& fields@.len() == 4
            &&& fields@[0] == Value::I32(x.x)
            &&& fields@[1] == Value::I32(x.y)
            &&& fields@[2] == Value::I32(x.width)
            &&& fields@[3] == Value::I32(x.height)
        },
        _ => false,
    }
}

/// What `deserialize` reads from `v`: a sequence of 4 integers that fit.
pub open spec fn decode(v: Value) -> Option<RectangleInt> {
    match fields_of(v, 4) {
        Some(f) => {
            let g0 = i32_of(f[0]);
            let g1 = i32_of(f[1]);
            let g2 = i32_of(f[2]);
            let g3 = i32_of(f[3]);
            if g0 is Some && g1 is Some && g2 is Some && g3 is Some {
                Some(RectangleInt {
                    x: g0->Some_0,
                    y: g1->Some_0,
                    width: g2->Some_0,
                    height: g3->Some_0,
                })
            } else {
                None
            }
        },
        None => None,
    }
}

/// How reading fails: a value that is no sequence of 4 fields is refused by its type,
/// else the first field that is no `i32` gives the error.
pub open spec fn decode_error(v: Value) -> DeError {
    match fields_of(v, 4) {
        Some(f) => if i32_of(f[0]) is None {
            int_error(f[0])
        } else if i32_of(f[1]) is None {
            int_error(f[1])
        } else if i32_of(f[2]) is None {
            int_error(f[2])
        } else {
            int_error(f[3])
        },
        None => DeError::InvalidType,
    }
}

/// A rectangle is written as the tuple struct `cairo::RectangleInt` of its origin and size.
pub fn serialize(x: &RectangleInt) -> (v: Value)
    ensures
        encodes(v, *x),
{
    let mut fields: Vec<Value> = Vec::new();
    fields.push(Value::I32(x.x));
    fields.push(Value::I32(x.y));
    fields.push(Value::I32(x.width));
    fields.push(Value::I32(x.height));
    tuple_struct("cairo::RectangleInt", fields)
}

/// Reads the value back from the fields of a tuple struct (or of a sequence).
pub fn deserialize(v: &Value) -> (r: Result<RectangleInt, DeError>)
    ensures
        match decode(*v) {
            Some(x) => r == Ok::<RectangleInt, DeError>(x),
            None => r == Err::<RectangleInt, DeError>(decode_error(*v)),
        },
{
    let f = match read_fields(v, 4) {
        Ok(f) => f,
        Err(e) => return Err(e),
    };
    let g0 = match read_i32(&f[0]) {
        Ok(x) => x,
        Err(e) => return Err(e),
    };
    let g1 = match read_i32(&f[1]) {
        Ok(x) => x,
        Err(e) => return Err(e),
    };
    let g2 = match read_i32(&f[2]) {
        Ok(x) => x,
        Err(e) => return Err(e),
    };
    let g3 = match read_i32(&f[3]) {
        Ok(x) => x,
        Err(e) => return Err(e),
    };
    Ok(RectangleInt {
        x: g0,
        y: g1,
        width: g2,
        height: g3,
    })
}

/// What `serialize` writes, `deserialize` reads back unchanged.
pub proof fn round_trip(x: RectangleInt, v: Value)
    requires
        encodes(v, x),
    ensures
        decode(v) == Some(x),
{
}

} // verus!
