use vstd::prelude::*;
use vstd::string::StringExecFns;
use crate::serde_cairo::pattern::{self, LinearGradient, Pattern, PatternView};
use crate::value::{DeError, SerError, Value};

verus! {

/// A linear gradient is written as the `LinearGradient` variant of `cairo::Pattern`.
pub fn serialize(l: &LinearGradient) -> (r: Result<Value, SerError>)
    ensures
        pattern::serialized(Pattern::Linear(*l), r),
{
    pattern::write_linear(l)
}

/// Reads a pattern, which must be a linear gradient.
pub fn deserialize(v: &Value) -> (r: Result<LinearGradient, DeError>)
    ensures
        match pattern::pattern_of(*v) {
            Some(PatternView::Linear(x)) => r matches Ok(l) && pattern::linear_view(l) == x,
            Some(_) => r matches Err(DeError::Custom { message }) && message@ == pattern::wrong_type_message(),
            None => r matches Err(e) && pattern::read_error(*v, e),
        },
{
    match pattern::deserialize(v) {
        Ok(Pattern::Linear(l)) => Ok(l),
        Ok(_) => Err(DeError::Custom { message: "wrong pattern type".to_owned() }),
        Err(e) => Err(e),
    }
}

} // verus!
