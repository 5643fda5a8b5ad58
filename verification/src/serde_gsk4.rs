//! How GSK render nodes are laid out in the serde data model.
pub mod render_node;

use vstd::prelude::*;
use vstd::string::StringExecFns;
use crate::value::{optional_content, read_optional, DeError, Value};

verus! {

/// The message given when a render node is not of the expected node type.
pub open spec fn wrong_type_message(expected: Seq<char>, actual: Seq<char>) -> Seq<char> {
    "Wrong type for RenderNode: Expected "@ + expected + ", got "@ + actual
}

/// Writes and reads render nodes of one node type.
pub struct RenderNode;

impl RenderNode {
    pub fn serialize(data: &[u8]) -> (v: Value)
        ensures
            render_node::encodes(v, data@),
    {
        render_node::serialize(data)
    }

    pub fn deserialize(v: &Value) -> (r: Result<Vec<u8>, DeError>)
        ensures
            match render_node::decode(*v) {
                Some(d) => r matches Ok(b) && b@ == d,
                None => r matches Err(DeError::InvalidType),
            },
    {
        render_node::deserialize(v)
    }

    /// The error for a node that GSK rebuilt with another node type than the expected one.
    pub fn wrong_type(expected: &str, actual: &str) -> (e: DeError)
        ensures
            e matches DeError::Custom { message } && message@ == wrong_type_message(expected@, actual@),
    {
        let mut message = "Wrong type for RenderNode: Expected ".to_owned();
        message.append(expected);
        message.append(", got ");
        message.append(actual);
        DeError::Custom { message }
    }
}

/// Writes and reads optional render nodes.
pub struct RenderNodeOptional;

impl RenderNodeOptional {
    pub fn serialize(data: Option<&[u8]>) -> (v: Value)
        ensures
            match data {
                None => v is Null,
                Some(d) => v matches Value::Present(b) && render_node::encodes(*b, d@),
            },
    {
        match data {
            None => Value::Null,
            Some(d) => Value::Present(Box::new(render_node::serialize(d))),
        }
    }

    pub fn deserialize(v: &Value) -> (r: Result<Option<Vec<u8>>, DeError>)
        ensures
            match optional_content(*v) {
                None => r matches Ok(None),
                Some(c) => match render_node::decode(c) {
                    Some(d) => r matches Ok(Some(x)) && x@ == d,
                    None => r matches Err(DeError::InvalidType),
                },
            },
    {
        match read_optional(v) {
            None => Ok(None),
            Some(inner) => match render_node::deserialize(inner) {
                Ok(b) => Ok(Some(b)),
                Err(e) => Err(e),
            },
        }
    }
}

} // verus!
