use vstd::prelude::*;
use crate::value::{is_str, read_str, str_of, str_value, DeError, Value};

verus! {

/// A string object is written as its string.
pub fn serialize(s: &str) -> (v: Value)
    ensures
        is_str(v, s@),
{
    str_value(s)
}

/// Reads the string of a string object.
pub fn deserialize(v: &Value) -> (r: Result<String, DeError>)
    ensures
        match str_of(*v) {
            Some(s) => r matches Ok(t) && t@ == s,
            None => r matches Err(DeError::InvalidType),
        },
{
    match read_str(v) {
        Ok(s) => Ok(s.clone()),
        Err(e) => Err(e),
    }
}

} // verus!
