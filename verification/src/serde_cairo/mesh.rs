use vstd::prelude::*;
use vstd::string::StringExecFns;
use crate::serde_cairo::pattern::{self, Mesh, Pattern, PatternView};
use crate::value::{DeError, SerError, Value};

verus! {

/// A mesh is written as the `Mesh` variant of `cairo::Pattern`.
pub fn serialize(m: &Mesh) -> (r: Result<Value, SerError>)
    requires
        pattern::mesh_well_formed(*m),
    ensures
        pattern::serialized(Pattern::Mesh(*m), r),
{
    pattern::write_mesh(m)
}

/// Reads a pattern, which must be a mesh.
pub fn deserialize(v: &Value) -> (r: Result<Mesh, DeError>)
    ensures
        match pattern::pattern_of(*v) {
            Some(PatternView::Mesh(x)) => r matches Ok(m) && pattern::mesh_view(m) == x,
            Some(_) => r matches Err(DeError::Custom { message }) && message@ == pattern::wrong_type_message(),
            None => r matches Err(e) && pattern::read_error(*v, e),
        },
{
    match pattern::deserialize(v) {
        Ok(Pattern::Mesh(m)) => Ok(m),
        Ok(_) => Err(DeError::Custom { message: "wrong pattern type".to_owned() }),
        Err(e) => Err(e),
    }
}

} // verus!
