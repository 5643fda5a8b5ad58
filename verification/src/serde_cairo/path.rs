use vstd::prelude::*;
use crate::serde_cairo::path_segment::{self, PathSegment};
use crate::value::{DeError, Value};

verus! {

/// `v` is how `serialize` writes a path: the newtype struct `cairo::Path` around the
/// sequence of its segments.
pub open spec fn encodes(v: Value, segs: Seq<PathSegment>) -> bool {
    match v {
        Value::NewtypeStruct { name, value } => name@ == "cairo::Path"@ && lists(*value, segs),
        _ => false,
    }
}

/// `v` is the sequence of the written segments `segs`.
pub open spec fn lists(v: Value, segs: Seq<PathSegment>) -> bool {
    match v {
        Value::List(items) => items@.len() == segs.len() && forall|i: int| 0 <= i < segs.len() ==>
            path_segment::encodes(#[trigger] items@[i], segs[i]),
        _ => false,
    }
}

/// The segments that `deserialize` reads: the reader takes a bare sequence of segments
/// (its visitor has no case for a newtype struct), and stops at the first bad one.
pub open spec fn decoded(v: Value, segs: Seq<PathSegment>) -> bool {
    match v {
        Value::List(items) => items@.len() == segs.len() && forall|i: int| 0 <= i < segs.len() ==>
            path_segment::decode(#[trigger] items@[i]) == Some(segs[i]),
        _ => false,
    }
}

/// The first segment that cannot be read.
pub open spec fn first_bad(items: Seq<Value>, i: int) -> bool {
    &&& 0 <= i < items.len()
    &&& path_segment::decode(items[i]) is None
    &&& forall|j: int| 0 <= j < i ==> (#[trigger] path_segment::decode(items[j])) is Some
}

/// How reading `v` fails: at its first bad segment, or because it is no sequence.
pub open spec fn read_error(v: Value, e: DeError) -> bool {
    match v {
        Value::List(items) => exists|i: int| #[trigger] first_bad(items@, i)
            && path_segment::decode_error(items@[i], e),
        _ => e is InvalidType,
    }
}

/// `segs` are the segments that Cairo lists for the path, in order.
pub fn serialize(segs: &Vec<PathSegment>) -> (v: Value)
    ensures
        encodes(v, segs@),
{
    let mut items: Vec<Value> = Vec::new();
    let mut i: usize = 0;
    while i < segs.len()
        invariant
            i <= segs@.len(),
            items@.len() == i,
            forall|k: int| 0 <= k < i ==> path_segment::encodes(#[trigger] items@[k], segs@[k]),
        decreases segs.len() - i,
    {
        items.push(path_segment::serialize(&segs[i]));
        i = i + 1;
    }
    Value::NewtypeStruct { name: "cairo::Path".to_owned(), value: Box::new(Value::List(items)) }
}

/// Reads the segments back; drawing them into a new path is left to Cairo.
pub fn deserialize(v: &Value) -> (r: Result<Vec<PathSegment>, DeError>)
    ensures
        match r {
            Ok(segs) => decoded(*v, segs@),
            Err(e) => read_error(*v, e),
        },
{
    let items = match v {
        Value::List(items) => items,
        _ => return Err(DeError::InvalidType),
    };
    assert(*v == Value::List(*items));
    let mut segs: Vec<PathSegment> = Vec::new();
    let mut i: usize = 0;
    while i < items.len()
        invariant
            *v == Value::List(*items),
            i <= items@.len(),
            segs@.len() == i,
            forall|k: int| 0 <= k < i ==> path_segment::decode(#[trigger] items@[k]) == Some(segs@[k]),
        decreases items.len() - i,
    {
        match path_segment::deserialize(&items[i]) {
            Ok(seg) => segs.push(seg),
            Err(e) => {
                assert(first_bad(items@, i as int));
                assert(path_segment::decode_error(items@[i as int], e));
                assert((*v)->List_0@ == items@);
                assert(first_bad((*v)->List_0@, i as int));
                assert(read_error(*v, e));
                return Err(e);
            },
        }
        i = i + 1;
    }
    Ok(segs)
}

/// The sequence inside what `serialize` writes is read back as the same segments.
pub proof fn round_trip(segs: Seq<PathSegment>, v: Value)
    requires
        lists(v, segs),
    ensures
        decoded(v, segs),
{
    let items = v->List_0@;
    assert forall|i: int| 0 <= i < segs.len() implies path_segment::decode(#[trigger] items[i]) == Some(segs[i]) by {
        path_segment::round_trip(segs[i], items[i]);
    }
}

} // verus!
