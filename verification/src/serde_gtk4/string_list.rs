use vstd::prelude::*;
use vstd::string::StringExecFns;
use crate::text::{append_decimal, decimal_spec};
use crate::value::{DeError, SerError, Value};

verus! {

/// The message given when a string list ends before its announced length.
pub open spec fn unexpected_end_message(i: nat) -> Seq<char> {
    "Unexpected end of StringList at index "@ + decimal_spec(i)
}

/// The index of the first entry that the list could not give.
pub open spec fn first_missing(items: Seq<Option<String>>, i: int) -> bool {
    &&& 0 <= i < items.len()
    &&& items[i] is None
    &&& forall|j: int| 0 <= j < i ==> (#[trigger] items[j]) is Some
}

/// `v` lists the strings of `items`, in order.
pub open spec fn lists_strings(v: Value, items: Seq<Option<String>>) -> bool {
    match v {
        Value::List(elems) => elems@.len() == items.len() && forall|i: int| 0 <= i < items.len() ==>
            (#[trigger] elems@[i] matches Value::Str(s) && items[i] matches Some(t) && s@ == t@),
        _ => false,
    }
}

/// A string list is written as the sequence of its strings. `items[i]` is what the list
/// gives for index `i` (`None` where it gives nothing), for each index below its length.
pub fn serialize(items: &Vec<Option<String>>) -> (r: Result<Value, SerError>)
    ensures
        match r {
            Ok(v) => (forall|i: int| 0 <= i < items@.len() ==> (#[trigger] items@[i]) is Some) && lists_strings(v, items@),
            Err(SerError::Custom { message }) => exists|i: int| #[trigger] first_missing(items@, i)
                && message@ == unexpected_end_message(i as nat),
            Err(_) => false,
        },
{
    let mut elems: Vec<Value> = Vec::new();
    let mut i: usize = 0;
    while i < items.len()
        invariant
            i <= items@.len(),
            elems@.len() == i,
            forall|j: int| 0 <= j < i ==> (#[trigger] items@[j]) is Some,
            forall|j: int| 0 <= j < i ==> (#[trigger] elems@[j] matches Value::Str(s) && items@[j] matches Some(t) && s@ == t@),
        decreases items.len() - i,
    {
        match &items[i] {
            Some(s) => elems.push(Value::Str(s.clone())),
            None => {
                let mut message = "Unexpected end of StringList at index ".to_owned();
                append_decimal(&mut message, i as u64);
                assert(first_missing(items@, i as int));
                return Err(SerError::Custom { message });
            },
        }
        i = i + 1;
    }
    Ok(Value::List(elems))
}

/// The strings of a sequence of strings, if every element is one.
pub open spec fn strings_of(v: Value) -> Option<Seq<Value>> {
    match v {
        Value::List(elems) => if forall|i: int| 0 <= i < elems@.len() ==> (#[trigger] elems@[i]) is Str {
            Some(elems@)
        } else {
            None
        },
        _ => None,
    }
}

/// Reads the strings of a string list back, in order.
pub fn deserialize(v: &Value) -> (r: Result<Vec<String>, DeError>)
    ensures
        match strings_of(*v) {
            Some(elems) => r matches Ok(out) && out@.len() == elems.len() && forall|i: int|
                0 <= i < elems.len() ==> (#[trigger] elems[i] matches Value::Str(s) && out@[i]@ == s@),
            None => r matches Err(DeError::InvalidType),
        },
{
    let elems = match v {
        Value::List(elems) => elems,
        _ => return Err(DeError::InvalidType),
    };
    let mut out: Vec<String> = Vec::new();
    let mut i: usize = 0;
    while i < elems.len()
        invariant
            *v == Value::List(*elems),
            i <= elems@.len(),
            out@.len() == i,
            forall|j: int| 0 <= j < i ==> (#[trigger] elems@[j] matches Value::Str(s) && out@[j]@ == s@),
        decreases elems.len() - i,
    {
        match &elems[i] {
            Value::Str(s) => out.push(s.clone()),
            _ => {
                assert(!(elems@[i as int] is Str));
                return Err(DeError::InvalidType);
            },
        }
        i = i + 1;
    }
    Ok(out)
}

/// What `serialize` writes, `deserialize` reads back: the same strings in the same order.
pub proof fn round_trip(items: Seq<Option<String>>, v: Value)
    requires
        lists_strings(v, items),
    ensures
        strings_of(v) is Some,
        strings_of(v)->Some_0.len() == items.len(),
        forall|i: int| 0 <= i < items.len() ==> (#[trigger] strings_of(v)->Some_0[i] matches Value::Str(s)
            && items[i] matches Some(t) && s@ == t@),
{
    let elems = v->List_0@;
    assert forall|i: int| 0 <= i < elems.len() implies (#[trigger] elems[i]) is Str by {
        assert(elems[i] matches Value::Str(s) && items[i] matches Some(t) && s@ == t@);
    }
}

} // verus!
