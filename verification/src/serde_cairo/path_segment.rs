use vstd::prelude::*;
use crate::value::{f64_tuple, f64s_of, is_f64_tuple, name_is, read_f64s, DeError, F64Bits, Value};

verus! {

/// One segment of a Cairo path.
#[derive(Debug, Clone, PartialEq)]
pub enum PathSegment {
    MoveTo { x: F64Bits, y: F64Bits },
    LineTo { x: F64Bits, y: F64Bits },
    CurveTo { x1: F64Bits, y1: F64Bits, x2: F64Bits, y2: F64Bits, x3: F64Bits, y3: F64Bits },
    ClosePath,
}

/// `v` is how `serialize` writes `seg`: a variant of the enum `cairo::PathSegment`,
/// `M` and `L` around a point, `C` with three points, `Z` alone.
pub open spec fn encodes(v: Value, seg: PathSegment) -> bool {
    match seg {
        PathSegment::MoveTo { x, y } => v matches Value::NewtypeVariant { name, index, variant, value }
            && name@ == "cairo::PathSegment"@ && index == 0 && variant@ == "M"@ && is_f64_tuple(*value, seq![x, y]),
        PathSegment::LineTo { x, y } => v matches Value::NewtypeVariant { name, index, variant, value }
            && name@ == "cairo::PathSegment"@ && index == 1 && variant@ == "L"@ && is_f64_tuple(*value, seq![x, y]),
        PathSegment::CurveTo { x1, y1, x2, y2, x3, y3 } => v matches Value::TupleVariant { name, index, variant, fields }
            && name@ == "cairo::PathSegment"@ && index == 2 && variant@ == "C"@ && fields@.len() == 3
            && is_f64_tuple(fields@[0], seq![x1, y1]) && is_f64_tuple(fields@[1], seq![x2, y2])
            && is_f64_tuple(fields@[2], seq![x3, y3]),
        PathSegment::ClosePath => v matches Value::UnitVariant { name, index, variant }
            && name@ == "cairo::PathSegment"@ && index == 3 && variant@ == "Z"@,
    }
}

/// Whether `name` is one of the variant names `M`, `L`, `C`, `Z`.
pub open spec fn known_variant(name: Seq<char>) -> bool {
    name == "M"@ || name == "L"@ || name == "C"@ || name == "Z"@
}

/// The segment that `deserialize` reads from `v`: the variant is told by its name.
pub open spec fn decode(v: Value) -> Option<PathSegment> {
    match v {
        Value::NewtypeVariant { variant, value, .. } => match f64s_of(*value, 2) {
            Some(p) => if variant@ == "M"@ {
                Some(PathSegment::MoveTo { x: p[0], y: p[1] })
            } else if variant@ == "L"@ {
                Some(PathSegment::LineTo { x: p[0], y: p[1] })
            } else {
                None
            },
            None => None,
        },
        Value::TupleVariant { variant, fields, .. } => if variant@ == "C"@ && fields@.len() == 3 {
            match (f64s_of(fields@[0], 2), f64s_of(fields@[1], 2), f64s_of(fields@[2], 2)) {
                (Some(a), Some(b), Some(c)) => Some(PathSegment::CurveTo {
                    x1: a[0], y1: a[1], x2: b[0], y2: b[1], x3: c[0], y3: c[1],
                }),
                _ => None,
            }
        } else {
            None
        },
        Value::UnitVariant { variant, .. } => if variant@ == "Z"@ {
            Some(PathSegment::ClosePath)
        } else {
            None
        },
        _ => None,
    }
}

/// How reading fails where `decode` gives nothing: an unknown variant name is reported
/// as such, anything else as the wrong type.
pub open spec fn decode_error(v: Value, e: DeError) -> bool {
    match v {
        Value::NewtypeVariant { variant, .. } => if known_variant(variant@) { e is InvalidType } else {
            e matches DeError::UnknownVariant { variant: u } && u@ == variant@ },
        Value::TupleVariant { variant, .. } => if known_variant(variant@) { e is InvalidType } else {
            e matches DeError::UnknownVariant { variant: u } && u@ == variant@ },
        Value::UnitVariant { variant, .. } => if known_variant(variant@) { e is InvalidType } else {
            e matches DeError::UnknownVariant { variant: u } && u@ == variant@ },
        _ => e is InvalidType,
    }
}

fn variant_error(variant: &String) -> (e: DeError)
    ensures
        if known_variant(variant@) { e is InvalidType } else {
            e matches DeError::UnknownVariant { variant: u } && u@ == variant@ },
{
    if name_is(variant, "M") || name_is(variant, "L") || name_is(variant, "C") || name_is(variant, "Z") {
        DeError::InvalidType
    } else {
        DeError::UnknownVariant { variant: variant.clone() }
    }
}

pub fn serialize(seg: &PathSegment) -> (v: Value)
    ensures
        encodes(v, *seg),
{
    match seg {
        PathSegment::MoveTo { x, y } => Value::NewtypeVariant {
            name: "cairo::PathSegment".to_owned(),
            index: 0,
            variant: "M".to_owned(),
            value: Box::new(f64_tuple([*x, *y].as_slice())),
        },
        PathSegment::LineTo { x, y } => Value::NewtypeVariant {
            name: "cairo::PathSegment".to_owned(),
            index: 1,
            variant: "L".to_owned(),
            value: Box::new(f64_tuple([*x, *y].as_slice())),
        },
        PathSegment::CurveTo { x1, y1, x2, y2, x3, y3 } => {
            let mut fields: Vec<Value> = Vec::new();
            fields.push(f64_tuple([*x1, *y1].as_slice()));
            fields.push(f64_tuple([*x2, *y2].as_slice()));
            fields.push(f64_tuple([*x3, *y3].as_slice()));
            Value::TupleVariant {
                name: "cairo::PathSegment".to_owned(),
                index: 2,
                variant: "C".to_owned(),
                fields,
            }
        },
        PathSegment::ClosePath => Value::UnitVariant {
            name: "cairo::PathSegment".to_owned(),
            index: 3,
            variant: "Z".to_owned(),
        },
    }
}

pub fn deserialize(v: &Value) -> (r: Result<PathSegment, DeError>)
    ensures
        match decode(*v) {
            Some(seg) => r == Ok::<PathSegment, DeError>(seg),
            None => r matches Err(e) && decode_error(*v, e),
        },
{
    match v {
        Value::NewtypeVariant { variant, value, .. } => {
            let is_m = name_is(variant, "M");
            let is_l = name_is(variant, "L");
            if !is_m && !is_l {
                return Err(variant_error(variant));
            }
            match read_f64s(&**value, 2) {
                Ok(p) => if is_m {
                    Ok(PathSegment::MoveTo { x: p[0], y: p[1] })
                } else {
                    Ok(PathSegment::LineTo { x: p[0], y: p[1] })
                },
                Err(e) => Err(e),
            }
        },
        Value::TupleVariant { variant, fields, .. } => {
            if !name_is(variant, "C") {
                return Err(variant_error(variant));
            }
            if fields.len() != 3 {
                return Err(DeError::InvalidType);
            }
            let a = match read_f64s(&fields[0], 2) { Ok(a) => a, Err(e) => return Err(e) };
            let b = match read_f64s(&fields[1], 2) { Ok(b) => b, Err(e) => return Err(e) };
            let c = match read_f64s(&fields[2], 2) { Ok(c) => c, Err(e) => return Err(e) };
            Ok(PathSegment::CurveTo { x1: a[0], y1: a[1], x2: b[0], y2: b[1], x3: c[0], y3: c[1] })
        },
        Value::UnitVariant { variant, .. } => {
            if name_is(variant, "Z") {
                Ok(PathSegment::ClosePath)
            } else {
                Err(variant_error(variant))
            }
        },
        _ => Err(DeError::InvalidType),
    }
}

/// What `serialize` writes, `deserialize` reads back unchanged.
pub proof fn round_trip(seg: PathSegment, v: Value)
    requires
        encodes(v, seg),
    ensures
        decode(v) == Some(seg),
{
    reveal_strlit("M");
    reveal_strlit("L");
    reveal_strlit("C");
    reveal_strlit("Z");
    match seg {
        PathSegment::MoveTo { x, y } => {
            assert(f64s_of(*v->NewtypeVariant_value, 2) == Some(seq![x, y]));
        },
        PathSegment::LineTo { x, y } => {
            assert(f64s_of(*v->NewtypeVariant_value, 2) == Some(seq![x, y]));
            assert("L"@ != "M"@) by {
                assert("L"@[0] != "M"@[0]);
            }
        },
        PathSegment::CurveTo { x1, y1, x2, y2, x3, y3 } => {
            assert(f64s_of(v->TupleVariant_fields@[0], 2) == Some(seq![x1, y1]));
            assert(f64s_of(v->TupleVariant_fields@[1], 2) == Some(seq![x2, y2]));
            assert(f64s_of(v->TupleVariant_fields@[2], 2) == Some(seq![x3, y3]));
        },
        PathSegment::ClosePath => {},
    }
}

} // verus!
