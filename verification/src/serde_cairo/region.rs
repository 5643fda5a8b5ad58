use vstd::prelude::*;
use crate::serde_cairo::rectangle_int::RectangleInt;
use crate::value::{i32s_error, i32s_of, newtype_content, read_i32s, read_newtype, DeError, Value};

verus! {

/// `v` is the tuple `(x, y, width, height)` of `r`.
pub open spec fn is_rect_tuple(v: Value, r: RectangleInt) -> bool {
    match v {
        Value::Tuple(items) => items@ == seq![Value::I32(r.x), Value::I32(r.y), Value::I32(r.width), Value::I32(r.height)],
        _ => false,
    }
}

/// `v` is how `serialize` writes the rectangles of a region: the newtype struct
/// `cairo::Region` around the sequence of their tuples.
pub open spec fn encodes(v: Value, rects: Seq<RectangleInt>) -> bool {
    match v {
        Value::NewtypeStruct { name, value } => name@ == "cairo::Region"@ && match *value {
            Value::List(items) => items@.len() == rects.len() && forall|i: int| 0 <= i < rects.len() ==>
                is_rect_tuple(#[trigger] items@[i], rects[i]),
            _ => false,
        },
        _ => false,
    }
}

/// The rectangle that a four-element sequence of `i32` values gives.
pub open spec fn rect_of(v: Value) -> Option<RectangleInt> {
    match i32s_of(v, 4) {
        Some(s) => Some(RectangleInt { x: s[0], y: s[1], width: s[2], height: s[3] }),
        None => None,
    }
}

/// What `deserialize` reads from `v`: a newtype around a sequence of rectangle tuples.
pub open spec fn decoded(v: Value, rects: Seq<RectangleInt>) -> bool {
    match newtype_content(v) {
        Value::List(items) => items@.len() == rects.len() && forall|i: int| 0 <= i < rects.len() ==>
            rect_of(#[trigger] items@[i]) == Some(rects[i]),
        _ => false,
    }
}

/// Whether `v` can be read at all.
pub open spec fn decodable(v: Value) -> bool {
    match newtype_content(v) {
        Value::List(items) => forall|i: int| 0 <= i < items@.len() ==> (#[trigger] rect_of(items@[i])) is Some,
        _ => false,
    }
}

/// How reading fails: a value that is no sequence is refused by its type, else the first
/// element that is no rectangle gives the error.
pub open spec fn decode_error(v: Value, e: DeError) -> bool {
    match newtype_content(v) {
        Value::List(items) => exists|k: int| 0 <= k < items@.len() && rect_of(#[trigger] items@[k]) is None
            && (forall|j: int| 0 <= j < k ==> (#[trigger] rect_of(items@[j])) is Some)
            && e == i32s_error(items@[k], 4),
        _ => e is InvalidType,
    }
}

/// `rects` are the rectangles that Cairo lists for the region, in order.
pub fn serialize(rects: &Vec<RectangleInt>) -> (v: Value)
    ensures
        encodes(v, rects@),
{
    let mut items: Vec<Value> = Vec::new();
    let mut i: usize = 0;
    while i < rects.len()
        invariant
            i <= rects@.len(),
            items@.len() == i,
            forall|k: int| 0 <= k < i ==> is_rect_tuple(#[trigger] items@[k], rects@[k]),
        decreases rects.len() - i,
    {
        let r = &rects[i];
        let mut t: Vec<Value> = Vec::new();
        t.push(Value::I32(r.x));
        t.push(Value::I32(r.y));
        t.push(Value::I32(r.width));
        t.push(Value::I32(r.height));
        assert(t@ =~= seq![Value::I32(r.x), Value::I32(r.y), Value::I32(r.width), Value::I32(r.height)]);
        items.push(Value::Tuple(t));
        i = i + 1;
    }
    Value::NewtypeStruct { name: "cairo::Region".to_owned(), value: Box::new(Value::List(items)) }
}

/// Reads the rectangles back; making the region of them is left to Cairo.
pub fn deserialize(v: &Value) -> (r: Result<Vec<RectangleInt>, DeError>)
    ensures
        match r {
            Ok(rects) => decoded(*v, rects@),
            Err(e) => !decodable(*v) && decode_error(*v, e),
        },
{
    let inner = read_newtype(v);
    let items = match inner {
        Value::List(items) => items,
        _ => return Err(DeError::InvalidType),
    };
    let mut rects: Vec<RectangleInt> = Vec::new();
    let mut i: usize = 0;
    while i < items.len()
        invariant
            newtype_content(*v) == Value::List(*items),
            i <= items@.len(),
            rects@.len() == i,
            forall|k: int| 0 <= k < i ==> rect_of(#[trigger] items@[k]) == Some(rects@[k]),
        decreases items.len() - i,
    {
        match read_i32s(&items[i], 4) {
            Ok(s) => rects.push(RectangleInt { x: s[0], y: s[1], width: s[2], height: s[3] }),
            Err(e) => {
                assert(rect_of(items@[i as int]) is None);
                assert(decode_error(*v, e)) by {
                    assert(rect_of(items@[i as int]) is None);
                }
                return Err(e);
            },
        }
        i = i + 1;
    }
    Ok(rects)
}

/// What `serialize` writes, `deserialize` reads back: the same rectangles in the same order.
pub proof fn round_trip(rects: Seq<RectangleInt>, v: Value)
    requires
        encodes(v, rects),
    ensures
        decoded(v, rects),
{
    let items = v->NewtypeStruct_value->List_0@;
    assert forall|i: int| 0 <= i < rects.len() implies rect_of(#[trigger] items[i]) == Some(rects[i]) by {
        assert(is_rect_tuple(items[i], rects[i]));
        assert(i32s_of(items[i], 4) == Some(seq![rects[i].x, rects[i].y, rects[i].width, rects[i].height]));
    }
}

} // verus!
