use vstd::prelude::*;
use crate::serde_cairo::pattern::{self, Gradient, Pattern, PatternView};
use crate::value::{DeError, SerError, Value};

verus! {

/// A gradient is written as the variant of `cairo::Pattern` for its kind.
pub fn serialize(g: &Gradient) -> (r: Result<Value, SerError>)
    ensures
        match *g {
            Gradient::Linear(l) => pattern::serialized(Pattern::Linear(l), r),
            Gradient::Radial(x) => pattern::serialized(Pattern::Radial(x), r),
        },
{
    match g {
        Gradient::Linear(l) => pattern::write_linear(l),
        Gradient::Radial(x) => pattern::write_radial(x),
    }
}

/// Reads a pattern that is a gradient (reading a solid pattern or a mesh here is a
/// programming error, which the caller rules out).
pub fn deserialize(v: &Value) -> (r: Result<Gradient, DeError>)
    requires
        !(pattern::pattern_of(*v) matches Some(PatternView::Solid(_))),
        !(pattern::pattern_of(*v) matches Some(PatternView::Mesh(_))),
    ensures
        match pattern::pattern_of(*v) {
            Some(PatternView::Linear(x)) => r matches Ok(Gradient::Linear(l)) && pattern::linear_view(l) == x,
            Some(PatternView::Radial(x)) => r matches Ok(Gradient::Radial(g)) && pattern::radial_view(g) == x,
            Some(_) => false,
            None => r matches Err(e) && pattern::read_error(*v, e),
        },
{
    match pattern::deserialize(v) {
        Ok(Pattern::Linear(l)) => Ok(Gradient::Linear(l)),
        Ok(Pattern::Radial(x)) => Ok(Gradient::Radial(x)),
        Ok(_) => {
            assert(false);
            Err(DeError::InvalidType)
        },
        Err(e) => Err(e),
    }
}

} // verus!
