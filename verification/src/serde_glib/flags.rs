use vstd::prelude::*;
use crate::value::{int_error, is_newtype_struct, newtype_field, newtype_struct, read_newtype_field, read_u32, u32_of, DeError, Value};

verus! {

/// A flags value is written as a newtype struct named after its GType, around its bits.
pub fn serialize(gtype_name: &str, bits: u32) -> (v: Value)
    ensures
        is_newtype_struct(v, gtype_name@, Value::U32(bits)),
{
    newtype_struct(gtype_name, Value::U32(bits))
}

/// Reads the bits of a flags value back, from any integer that fits in a `u32`.
pub fn deserialize(v: &Value) -> (r: Result<u32, DeError>)
    ensures
        match newtype_field(*v) {
            Ok(c) => match u32_of(c) {
                Some(bits) => r == Ok::<u32, DeError>(bits),
                None => r == Err::<u32, DeError>(int_error(c)),
            },
            Err(e) => r == Err::<u32, DeError>(e),
        },
{
    match read_newtype_field(v) {
        Ok(c) => read_u32(c),
        Err(e) => Err(e),
    }
}

/// What `serialize` writes, `deserialize` reads back unchanged.
pub proof fn round_trip(gtype_name: Seq<char>, bits: u32, v: Value)
    requires
        is_newtype_struct(v, gtype_name, Value::U32(bits)),
    ensures
        newtype_field(v) matches Ok(c) && u32_of(c) == Some(bits),
{
}

} // verus!
