use vstd::prelude::*;
use crate::value::{fields_of, i16_of, int_error, read_fields, read_i16, tuple_struct, DeError, Value};

verus! {

/// The widths of the four sides of a border.
#[derive(Debug, Clone, PartialEq)]
pub struct Border {
    pub left: i16,
    pub right: i16,
    pub top: i16,
    pub bottom: i16,
}

/// `v` is how `serialize` writes `x`: the tuple struct `gtk4::Border`.
pub open spec fn encodes(v: Value, x: Border) -> bool {
    match v {
        Value::TupleStruct { name, fields } => {
            &&& name@ == "gtk4::Border"@
            &&& fields@.len() == 4
            &&& fields@[0] == Value::I16(x.left)
            &&& fields@[1] == Value::I16(x.right)
            &&& fields@[2] == Value::I16(x.top)
            &&& fields@[3] == Value::I16(x.bottom)
        },
        _ => false,
    }
}

/// What `deserialize` reads from `v`: a sequence of 4 integers that fit.
pub open spec fn decode(v: Value) -> Option<Border> {
    match fields_of(v, 4) {
        Some(f) => {
            let g0 = i16_of(f[0]);
            let g1 = i16_of(f[1]);
            let g2 = i16_of(f[2]);
            let g3 = i16_of(f[3]);
            if g0 is Some && g1 is Some && g2 is Some && g3 is Some {
                Some(Border {
                    left: g0->Some_0,
                    right: g1->Some_0,
                    top: g2->Some_0,
                    bottom: g3->Some_0,
                })
            } else {
                None
            }
        },
        None => None,
    }
}

/// How reading fails: a value that is no sequence of 4 fields is refused by its type,
/// else the first field that is no `i16` gives the error.
pub open spec fn decode_error(v: Value) -> DeError {
    match fields_of(v, 4) {
        Some(f) => if i16_of(f[0]) is None {
            int_error(f[0])
        } else if i16_of(f[1]) is None {
            int_error(f[1])
        } else if i16_of(f[2]) is None {
            int_error(f[2])
        } else {
            int_error(f[3])
        },
        None => DeError::InvalidType,
    }
}

/// A border is written as the tuple struct `gtk4::Border` of its left, right, top and bottom widths.
pub fn serialize(x: &Border) -> (v: Value)
    ensures
        encodes(v, *x),
{
    let mut fields: Vec<Value> = Vec::new();
    fields.push(Value::I16(x.left));
    fields.push(Value::I16(x.right));
    fields.push(Value::I16(x.top));
    fields.push(Value::I16(x.bottom));
    tuple_struct("gtk4::Border", fields)
}

/// Reads the value back from the fields of a tuple struct (or of a sequence).
pub fn deserialize(v: &Value) -> (r: Result<Border, DeError>)
    ensures
        match decode(*v) {
            Some(x) => r == Ok::<Border, DeError>(x),
            None => r == Err::<Border, DeError>(decode_error(*v)),
        },
{
    let f = match read_fields(v, 4) {
        Ok(f) => f,
        Err(e) => return Err(e),
    };
    let g0 = match read_i16(&f[0]) {
        Ok(x) => x,
        Err(e) => return Err(e),
    };
    let g1 = match read_i16(&f[1]) {
        Ok(x) => x,
        Err(e) => return Err(e),
    };
    let g2 = match read_i16(&f[2]) {
        Ok(x) => x,
        Err(e) => return Err(e),
    };
    let g3 = match read_i16(&f[3]) {
        Ok(x) => x,
        Err(e) => return Err(e),
    };
    Ok(Border {
        left: g0,
        right: g1,
        top: g2,
        bottom: g3,
    })
}

/// What `serialize` writes, `deserialize` reads back unchanged.
pub proof fn round_trip(x: Border, v: Value)
    requires
        encodes(v, x),
    ensures
        decode(v) == Some(x),
{
}

} // verus!
