use vstd::prelude::*;
use vstd::string::StringExecFns;
use crate::serde_cairo::pattern::{self, RadialGradient, Pattern, PatternView};
use crate::value::{DeError, SerError, Value};

verus! {

/// A radial gradient is written as the `RadialGradient` variant of `cairo::Pattern`.
pub fn serialize(g: &RadialGradient) -> (r: Result<Value, SerError>)
    ensures
        pattern::serialized(Pattern::Radial(*g), r),
{
    pattern::write_radial(g)
}

/// Reads a pattern, which must be a radial gradient.
pub fn deserialize(v: &Value) -> (r: Result<RadialGradient, DeError>)
    ensures
        match pattern::pattern_of(*v) {
            Some(PatternView::Radial(x)) => r matches Ok(g) && pattern::radial_view(g) == x,
            Some(_) => r matches Err(DeError::Custom { message }) && message@ == pattern::wrong_type_message(),
            None => r matches Err(e) && pattern::read_error(*v, e),
        },
{
    match pattern::deserialize(v) {
        Ok(Pattern::Radial(g)) => Ok(g),
        Ok(_) => Err(DeError::Custom { message: "wrong pattern type".to_owned() }),
        Err(e) => Err(e),
    }
}

} // verus!
