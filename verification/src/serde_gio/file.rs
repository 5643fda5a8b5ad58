use vstd::prelude::*;
use crate::value::{is_newtype_str, newtype_field, newtype_struct, read_newtype_field, str_value, DeError, Value};

verus! {

/// A file is written as the newtype struct `gio::File` around its URI.
pub fn serialize(uri: &str) -> (v: Value)
    ensures
        is_newtype_str(v, "gio::File"@, uri@),
{
    newtype_struct("gio::File", str_value(uri))
}

/// Reads the URI of a file.
pub fn deserialize(v: &Value) -> (r: Result<String, DeError>)
    ensures
        match newtype_field(*v) {
            Ok(Value::Str(s)) => r matches Ok(t) && t@ == s@,
            Ok(_) => r matches Err(DeError::InvalidType),
            Err(e) => r matches Err(e2) && e2 == e,
        },
{
    match read_newtype_field(v) {
        Ok(Value::Str(s)) => Ok(s.clone()),
        Ok(_) => Err(DeError::InvalidType),
        Err(e) => Err(e),
    }
}

/// What `serialize` writes, `deserialize` reads back unchanged.
pub proof fn round_trip(text: Seq<char>, v: Value)
    requires
        is_newtype_str(v, "gio::File"@, text),
    ensures
        newtype_field(v) matches Ok(Value::Str(s)) && s@ == text,
{
}

} // verus!
