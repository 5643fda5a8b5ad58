use vstd::prelude::*;
use crate::value::{int_error, is_newtype_struct, newtype_field, newtype_struct, read_newtype_field, read_u32, u32_of, DeError, Value};

verus! {

/// Whether a Julian day number names a date: GLib accepts every day after day zero.
pub open spec fn valid_julian(julian: u32) -> bool {
    julian > 0
}

/// A date is written as the newtype struct `glib::Date` around its Julian day.
pub fn serialize(julian: u32) -> (v: Value)
    ensures
        is_newtype_struct(v, "glib::Date"@, Value::U32(julian)),
{
    newtype_struct("glib::Date", Value::U32(julian))
}

/// Reads a date back as its Julian day, from any integer that fits in a `u32`; day zero
/// is refused with "Invalid date".
pub fn deserialize(v: &Value) -> (r: Result<u32, DeError>)
    ensures
        match newtype_field(*v) {
            Ok(c) => match u32_of(c) {
                Some(j) => if valid_julian(j) {
                    r == Ok::<u32, DeError>(j)
                } else {
                    r matches Err(DeError::Custom { message }) && message@ == "Invalid date"@
                },
                None => r == Err::<u32, DeError>(int_error(c)),
            },
            Err(e) => r == Err::<u32, DeError>(e),
        },
{
    let c = match read_newtype_field(v) {
        Ok(c) => c,
        Err(e) => return Err(e),
    };
    match read_u32(c) {
        Ok(j) => {
            if j > 0 {
                Ok(j)
            } else {
                Err(DeError::Custom { message: "Invalid date".to_owned() })
            }
        },
        Err(e) => Err(e),
    }
}

/// What `serialize` writes for a valid date, `deserialize` reads back unchanged.
pub proof fn round_trip(julian: u32, v: Value)
    requires
        valid_julian(julian),
        is_newtype_struct(v, "glib::Date"@, Value::U32(julian)),
    ensures
        newtype_field(v) matches Ok(c) && u32_of(c) == Some(julian),
{
}

} // verus!
