use vstd::prelude::*;
use crate::value::{is_newtype_str, newtype_field, newtype_struct, read_newtype_field, str_value, DeError, SerError, Value};

verus! {

/// An icon is written as the newtype struct `gio::Icon` around its string form; `text`
/// is that form, or `None` for an icon that GIO cannot write as a string.
pub fn serialize(text: Option<&str>) -> (r: Result<Value, SerError>)
    ensures
        match text {
            Some(t) => r matches Ok(v) && is_newtype_str(v, "gio::Icon"@, t@),
            None => r matches Err(SerError::Custom { message }) && message@ == "GIcon cannot be serialized"@,
        },
{
    match text {
        Some(t) => Ok(newtype_struct("gio::Icon", str_value(t))),
        None => Err(SerError::Custom { message: "GIcon cannot be serialized".to_owned() }),
    }
}

/// Reads the string form of an icon; making an icon of it (which may fail) is left to GIO.
pub fn deserialize(v: &Value) -> (r: Result<String, DeError>)
    ensures
        match newtype_field(*v) {
            Ok(Value::Str(s)) => r matches Ok(t) && t@ == s@,
            Ok(_) => r matches Err(DeError::InvalidType),
            Err(e) => r matches Err(e2) && e2 == e,
        },
{
    match read_newtype_field(v) {
        Ok(Value::Str(s)) => Ok(s.clone()),
        Ok(_) => Err(DeError::InvalidType),
        Err(e) => Err(e),
    }
}

/// What `serialize` writes, `deserialize` reads back unchanged.
pub proof fn round_trip(text: Seq<char>, v: Value)
    requires
        is_newtype_str(v, "gio::Icon"@, text),
    ensures
        newtype_field(v) matches Ok(Value::Str(s)) && s@ == text,
{
}

} // verus!
