use vstd::prelude::*;
use vstd::utf8::encode_utf8;
use crate::serde_glib::bytes;
use crate::value::{newtype_content, read_newtype, DeError, Value};

verus! {

/// `v` is how a render node is written: the newtype struct `gsk4::RenderNode` around
/// the bytes that GSK serialises the node to, written as a sequence of `u8`.
pub open spec fn encodes(v: Value, data: Seq<u8>) -> bool {
    match v {
        Value::NewtypeStruct { name, value } => name@ == "gsk4::RenderNode"@
            && bytes::is_byte_list(*value, data),
        _ => false,
    }
}

/// The bytes that `deserialize` reads from `v`.
pub open spec fn decode(v: Value) -> Option<Seq<u8>> {
    match newtype_content(v) {
        Value::Bytes(b) => Some(b@),
        Value::Str(s) => Some(encode_utf8(s@)),
        _ => None,
    }
}

pub fn serialize(data: &[u8]) -> (v: Value)
    ensures
        encodes(v, data@),
{
    Value::NewtypeStruct {
        name: "gsk4::RenderNode".to_owned(),
        value: Box::new(bytes::serialize(data)),
    }
}

/// Reads the serialised bytes of a render node; rebuilding the node (which may fail) is
/// left to GSK.
pub fn deserialize(v: &Value) -> (r: Result<Vec<u8>, DeError>)
    ensures
        match decode(*v) {
            Some(d) => r matches Ok(b) && b@ == d,
            None => r matches Err(DeError::InvalidType),
        },
{
    bytes::deserialize(read_newtype(v))
}

} // verus!
