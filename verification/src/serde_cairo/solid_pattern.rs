use vstd::prelude::*;
use vstd::string::StringExecFns;
use crate::serde_cairo::pattern::{self, SolidPattern, Pattern, PatternView};
use crate::value::{DeError, Value};

verus! {

/// A solid pattern is written as the `Solid` variant of `cairo::Pattern`.
pub fn serialize(p: &SolidPattern) -> (v: Value)
    ensures
        pattern::encodes(v, Pattern::Solid(*p)),
{
    pattern::write_solid(p)
}

/// Reads a pattern, which must be a solid one.
pub fn deserialize(v: &Value) -> (r: Result<SolidPattern, DeError>)
    ensures
        match pattern::pattern_of(*v) {
            Some(PatternView::Solid(p)) => r == Ok::<SolidPattern, DeError>(p),
            Some(_) => r matches Err(DeError::Custom { message }) && message@ == pattern::wrong_type_message(),
            None => r matches Err(e) && pattern::read_error(*v, e),
        },
{
    match pattern::deserialize(v) {
        Ok(Pattern::Solid(p)) => Ok(p),
        Ok(_) => Err(DeError::Custom { message: "wrong pattern type".to_owned() }),
        Err(e) => Err(e),
    }
}

} // verus!
