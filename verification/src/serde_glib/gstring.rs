use vstd::prelude::*;
use crate::value::{is_str, read_str, str_of, str_value, DeError, Value};

verus! {

/// A `GString` is written as a plain string.
pub fn serialize(st: &str) -> (v: Value)
    ensures
        is_str(v, st@),
{
    str_value(st)
}

/// A `GString` is read from a plain string.
pub fn deserialize(v: &Value) -> (r: Result<String, DeError>)
    ensures
        match str_of(*v) {
            Some(s) => r matches Ok(t) && t@ == s,
            None => r matches Err(DeError::InvalidType),
        },
{
    match read_str(v) {
        Ok(s) => Ok(s.clone()),
        Err(e) => Err(e),
    }
}

/// What `serialize` writes, `deserialize` reads back unchanged.
pub proof fn round_trip(st: Seq<char>, v: Value)
    requires
        is_str(v, st),
    ensures
        str_of(v) == Some(st),
{
}

} // verus!
