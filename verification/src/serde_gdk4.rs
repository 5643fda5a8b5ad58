//! How GDK rectangles, colours and clipboard contents are laid out in the serde data model.
pub mod rectangle;
pub mod rgba;

use vstd::prelude::*;
use vstd::utf8::encode_utf8;
use crate::serde_glib::bytes;
use crate::value::{optional_content, read_optional, DeError, Value};

verus! {

/// Names the MIME type that a content value is serialised to.
pub trait MimeType {
    fn mime_type() -> String;
}

/// The bytes that a content value is read from: serde bytes, or a string's UTF-8 encoding.
pub open spec fn content_bytes(v: Value) -> Option<Seq<u8>> {
    match v {
        Value::Bytes(b) => Some(b@),
        Value::Str(s) => Some(encode_utf8(s@)),
        _ => None,
    }
}

/// Writes and reads a value through the bytes that GDK serialises it to (in the MIME type
/// that `MimeType` names); the conversion between value and bytes is GDK's.
pub struct Content;

impl Content {
    pub fn serialize(data: &[u8]) -> (v: Value)
        ensures
            bytes::is_byte_list(v, data@),
    {
        bytes::serialize(data)
    }

    pub fn deserialize(v: &Value) -> (r: Result<Vec<u8>, DeError>)
        ensures
            match content_bytes(*v) {
                Some(d) => r matches Ok(b) && b@ == d,
                None => r matches Err(DeError::InvalidType),
            },
    {
        bytes::deserialize(v)
    }
}

/// Writes and reads an optional content value.
pub struct ContentOptional;

impl ContentOptional {
    pub fn serialize(data: Option<&[u8]>) -> (v: Value)
        ensures
            match data {
                None => v is Null,
                Some(d) => v matches Value::Present(b) && bytes::is_byte_list(*b, d@),
            },
    {
        match data {
            None => Value::Null,
            Some(d) => Value::Present(Box::new(Content::serialize(d))),
        }
    }

    pub fn deserialize(v: &Value) -> (r: Result<Option<Vec<u8>>, DeError>)
        ensures
            match optional_content(*v) {
                None => r matches Ok(None),
                Some(c) => match content_bytes(c) {
                    Some(d) => r matches Ok(Some(x)) && x@ == d,
                    None => r matches Err(DeError::InvalidType),
                },
            },
    {
        match read_optional(v) {
            None => Ok(None),
            Some(inner) => match Content::deserialize(inner) {
                Ok(b) => Ok(Some(b)),
                Err(e) => Err(e),
            },
        }
    }
}

} // verus!
