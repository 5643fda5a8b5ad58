use vstd::prelude::*;
use crate::value::{f64_of, fields_of, read_f64, read_fields, tuple_struct, DeError, F64Bits, Value};

verus! {

/// The numbers that an adjustment holds.
#[derive(Debug, Clone, PartialEq)]
pub struct Adjustment {
    pub value: F64Bits,
    pub lower: F64Bits,
    pub upper: F64Bits,
    pub step_increment: F64Bits,
    pub page_increment: F64Bits,
    pub page_size: F64Bits,
}

/// `v` is how `serialize` writes `x`: the tuple struct `gtk4::Adjustment`.
pub open spec fn encodes(v: Value, x: Adjustment) -> bool {
    match v {
        Value::TupleStruct { name, fields } => {
            &&& name@ == "gtk4::Adjustment"@
            &&& fields@.len() == 6
            &&& fields@[0] == Value::F64(x.value)
            &&& fields@[1] == Value::F64(x.lower)
            &&& fields@[2] == Value::F64(x.upper)
            &&& fields@[3] == Value::F64(x.step_increment)
            &&& fields@[4] == Value::F64(x.page_increment)
            &&& fields@[5] == Value::F64(x.page_size)
        },
        _ => false,
    }
}

/// What `deserialize` reads from `v`: a sequence of 6 fields of the right kinds.
pub open spec fn decode(v: Value) -> Option<Adjustment> {
    match fields_of(v, 6) {
        Some(f) => {
            let g0 = f64_of(f[0]);
            let g1 = f64_of(f[1]);
            let g2 = f64_of(f[2]);
            let g3 = f64_of(f[3]);
            let g4 = f64_of(f[4]);
            let g5 = f64_of(f[5]);
            if g0 is Some && g1 is Some && g2 is Some && g3 is Some && g4 is Some && g5 is Some {
                Some(Adjustment {
                    value: g0->Some_0,
                    lower: g1->Some_0,
                    upper: g2->Some_0,
                    step_increment: g3->Some_0,
                    page_increment: g4->Some_0,
                    page_size: g5->Some_0,
                })
            } else {
                None
            }
        },
        None => None,
    }
}

/// An adjustment is written as the tuple struct `gtk4::Adjustment` of its value, bounds, increments and page size.
pub fn serialize(x: &Adjustment) -> (v: Value)
    ensures
        encodes(v, *x),
{
    let mut fields: Vec<Value> = Vec::new();
    fields.push(Value::F64(x.value));
    fields.push(Value::F64(x.lower));
    fields.push(Value::F64(x.upper));
    fields.push(Value::F64(x.step_increment));
    fields.push(Value::F64(x.page_increment));
    fields.push(Value::F64(x.page_size));
    tuple_struct("gtk4::Adjustment", fields)
}

/// Reads the value back from the fields of a tuple struct (or of a sequence).
pub fn deserialize(v: &Value) -> (r: Result<Adjustment, DeError>)
    ensures
        match decode(*v) {
            Some(x) => r == Ok::<Adjustment, DeError>(x),
            None => r matches Err(DeError::InvalidType),
        },
{
    let f = match read_fields(v, 6) {
        Ok(f) => f,
        Err(e) => return Err(e),
    };
    let g0 = match read_f64(&f[0]) {
        Ok(x) => x,
        Err(e) => return Err(e),
    };
    let g1 = match read_f64(&f[1]) {
        Ok(x) => x,
        Err(e) => return Err(e),
    };
    let g2 = match read_f64(&f[2]) {
        Ok(x) => x,
        Err(e) => return Err(e),
    };
    let g3 = match read_f64(&f[3]) {
        Ok(x) => x,
        Err(e) => return Err(e),
    };
    let g4 = match read_f64(&f[4]) {
        Ok(x) => x,
        Err(e) => return Err(e),
    };
    let g5 = match read_f64(&f[5]) {
        Ok(x) => x,
        Err(e) => return Err(e),
    };
    Ok(Adjustment {
        value: g0,
        lower: g1,
        upper: g2,
        step_increment: g3,
        page_increment: g4,
        page_size: g5,
    })
}

/// What `serialize` writes, `deserialize` reads back unchanged.
pub proof fn round_trip(x: Adjustment, v: Value)
    requires
        encodes(v, x),
    ensures
        decode(v) == Some(x),
{
}

} // verus!
