use vstd::prelude::*;
use crate::value::{is_str, str_value, Value};

verus! {

/// A `GStr` is written as a plain string.
pub fn serialize(st: &str) -> (v: Value)
    ensures
        is_str(v, st@),
{
    str_value(st)
}

} // verus!
