use vstd::prelude::*;
use crate::value::{f32_of, fields_of, read_f32, read_fields, tuple_struct, DeError, F32Bits, Value};

verus! {

/// A colour with an alpha channel.
#[derive(Debug, Clone, PartialEq)]
pub struct Rgba {
    pub red: F32Bits,
    pub green: F32Bits,
    pub blue: F32Bits,
    pub alpha: F32Bits,
}

/// `v` is how `serialize` writes `x`: the tuple struct `gdk4::RGBA`.
pub open spec fn encodes(v: Value, x: Rgba) -> bool {
    match v {
        Value::TupleStruct { name, fields } => {
            &&& name@ == "gdk4::RGBA"@
            &&& fields@.len() == 4
            &&& fields@[0] == Value::F32(x.red)
            &&& fields@[1] == Value::F32(x.green)
            &&& fields@[2] == Value::F32(x.blue)
            &&& fields@[3] == Value::F32(x.alpha)
        },
        _ => false,
    }
}

/// What `deserialize` reads from `v`: a sequence of 4 fields of the right kinds.
pub open spec fn decode(v: Value) -> Option<Rgba> {
    match fields_of(v, 4) {
        Some(f) => {
            let g0 = f32_of(f[0]);
            let g1 = f32_of(f[1]);
            let g2 = f32_of(f[2]);
            let g3 = f32_of(f[3]);
            if g0 is Some && g1 is Some && g2 is Some && g3 is Some {
                Some(Rgba {
                    red: g0->Some_0,
                    green: g1->Some_0,
                    blue: g2->Some_0,
                    alpha: g3->Some_0,
                })
            } else {
                None
            }
        },
        None => None,
    }
}

/// A colour is written as the tuple struct `gdk4::RGBA` of its red, green, blue and alpha channels.
pub fn serialize(x: &Rgba) -> (v: Value)
    ensures
        encodes(v, *x),
{
    let mut fields: Vec<Value> = Vec::new();
    fields.push(Value::F32(x.red));
    fields.push(Value::F32(x.green));
    fields.push(Value::F32(x.blue));
    fields.push(Value::F32(x.alpha));
    tuple_struct("gdk4::RGBA", fields)
}

/// Reads the value back from the fields of a tuple struct (or of a sequence).
pub fn deserialize(v: &Value) -> (r: Result<Rgba, DeError>)
    ensures
        match decode(*v) {
            Some(x) => r == Ok::<Rgba, DeError>(x),
            None => r matches Err(DeError::InvalidType),
        },
{
    let f = match read_fields(v, 4) {
        Ok(f) => f,
        Err(e) => return Err(e),
    };
    let g0 = match read_f32(&f[0]) {
        Ok(x) => x,
        Err(e) => return Err(e),
    };
    let g1 = match read_f32(&f[1]) {
        Ok(x) => x,
        Err(e) => return Err(e),
    };
    let g2 = match read_f32(&f[2]) {
        Ok(x) => x,
        Err(e) => return Err(e),
    };
    let g3 = match read_f32(&f[3]) {
        Ok(x) => x,
        Err(e) => return Err(e),
    };
    Ok(Rgba {
        red: g0,
        green: g1,
        blue: g2,
        alpha: g3,
    })
}

/// What `serialize` writes, `deserialize` reads back unchanged.
pub proof fn round_trip(x: Rgba, v: Value)
    requires
        encodes(v, x),
    ensures
        decode(v) == Some(x),
{
}

} // verus!
