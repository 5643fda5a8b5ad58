use vstd::prelude::*;
use crate::value::{is_newtype_str, newtype_field, newtype_struct, read_newtype_field, str_value, DeError, Value};

verus! {

/// A time zone is written as the newtype struct `glib::TimeZone` around its identifier.
pub fn serialize(tz: &str) -> (v: Value)
    ensures
        is_newtype_str(v, "glib::TimeZone"@, tz@),
{
    newtype_struct("glib::TimeZone", str_value(tz))
}

/// Reads the identifier of a time zone; turning it into a time zone (which may fail) is left to GLib.
pub fn deserialize(v: &Value) -> (r: Result<String, DeError>)
    ensures
        match newtype_field(*v) {
            Ok(Value::Str(s)) => r matches Ok(t) && t@ == s@,
            Ok(_) => r matches Err(DeError::InvalidType),
            Err(e) => r matches Err(e2) && e2 == e,
        },
{
    match read_newtype_field(v) {
        Ok(Value::Str(s)) => Ok(s.clone()),
        Ok(_) => Err(DeError::InvalidType),
        Err(e) => Err(e),
    }
}

/// What `serialize` writes, `deserialize` reads back unchanged.
pub proof fn round_trip(text: Seq<char>, v: Value)
    requires
        is_newtype_str(v, "glib::TimeZone"@, text),
    ensures
        newtype_field(v) matches Ok(Value::Str(s)) && s@ == text,
{
}

} // verus!
