use vstd::prelude::*;
use crate::value::{i64_of, int_error, is_newtype_struct, newtype_field, newtype_struct, read_i64, read_newtype_field, DeError, Value};

verus! {

/// A time span is written as the newtype struct `glib::TimeSpan` around its microseconds.
pub fn serialize(ts: i64) -> (v: Value)
    ensures
        is_newtype_struct(v, "glib::TimeSpan"@, Value::I64(ts)),
{
    newtype_struct("glib::TimeSpan", Value::I64(ts))
}

/// Reads a time span back, from any integer that fits in an `i64`.
pub fn deserialize(v: &Value) -> (r: Result<i64, DeError>)
    ensures
        match newtype_field(*v) {
            Ok(c) => match i64_of(c) {
                Some(ts) => r == Ok::<i64, DeError>(ts),
                None => r == Err::<i64, DeError>(int_error(c)),
            },
            Err(e) => r == Err::<i64, DeError>(e),
        },
{
    match read_newtype_field(v) {
        Ok(c) => read_i64(c),
        Err(e) => Err(e),
    }
}

/// What `serialize` writes, `deserialize` reads back unchanged.
pub proof fn round_trip(ts: i64, v: Value)
    requires
        is_newtype_struct(v, "glib::TimeSpan"@, Value::I64(ts)),
    ensures
        newtype_field(v) matches Ok(c) && i64_of(c) == Some(ts),
{
}

} // verus!
