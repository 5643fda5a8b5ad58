//! How GIO files, icons and list models are laid out in the serde data model.
pub mod file;
pub mod icon;

use vstd::prelude::*;
use vstd::string::StringExecFns;
use crate::text::{append_decimal, decimal_spec};
use crate::value::{optional_content, read_optional, DeError, SerError, Value};

verus! {

/// What a list model gives at one index.
#[derive(Debug, PartialEq)]
pub enum ModelItem {
    /// The model gave no item.
    Missing,
    /// The item is not of the expected type; its type is named.
    WrongType { actual: String },
    /// The item, already written by its own serialiser.
    Item(Value),
}

/// The message given when a list model ends before its announced length.
pub open spec fn unexpected_end_message(i: nat) -> Seq<char> {
    "Unexpected end of ListModel at index "@ + decimal_spec(i)
}

/// The message given when a list model holds an item of another type.
pub open spec fn wrong_type_message(i: nat, expected: Seq<char>, actual: Seq<char>) -> Seq<char> {
    "Wrong type for ListModel index "@ + decimal_spec(i) + ": Expected `"@ + expected + "` got `"@ + actual + "`"@
}

/// The first index whose item is not one.
pub open spec fn first_bad(items: Seq<ModelItem>, i: int) -> bool {
    &&& 0 <= i < items.len()
    &&& !(items[i] is Item)
    &&& forall|j: int| 0 <= j < i ==> (#[trigger] items[j]) is Item
}

/// The error that the bad item at index `i` gives.
pub open spec fn item_error(items: Seq<ModelItem>, expected: Seq<char>, i: int, err: SerError) -> bool {
    err matches SerError::Custom { message } && match items[i] {
        ModelItem::Missing => message@ == unexpected_end_message(i as nat),
        ModelItem::WrongType { actual } => message@ == wrong_type_message(i as nat, expected, actual@),
        ModelItem::Item(_) => false,
    }
}

/// `v` lists the values of `items`, in order.
pub open spec fn lists_items(v: Value, items: Seq<ModelItem>) -> bool {
    match v {
        Value::List(elems) => elems@.len() == items.len() && forall|i: int| 0 <= i < items.len() ==>
            (#[trigger] items[i]) == ModelItem::Item(elems@[i]),
        _ => false,
    }
}

/// The outcome of writing a list model.
pub open spec fn serialized(items: Seq<ModelItem>, expected: Seq<char>, r: Result<Value, SerError>) -> bool {
    match r {
        Ok(v) => (forall|i: int| 0 <= i < items.len() ==> (#[trigger] items[i]) is Item) && lists_items(v, items),
        Err(e) => exists|i: int| #[trigger] first_bad(items, i) && item_error(items, expected, i, e),
    }
}

/// Writes the items of a list model as a sequence.
pub struct ListModel;

impl ListModel {
    /// `expected` names the item type; `items[i]` is what the model gives for index `i`.
    pub fn serialize(expected: &str, items: Vec<ModelItem>) -> (r: Result<Value, SerError>)
        ensures
            serialized(items@, expected@, r),
    {
        let ghost all = items@;
        let n = items.len();
        let mut rest = items;
        let mut elems: Vec<Value> = Vec::new();
        let mut i: usize = 0;
        while rest.len() > 0
            invariant
                all == items@,
                n == all.len(),
                i <= all.len(),
                rest@ == all.subrange(i as int, all.len() as int),
                elems@.len() == i,
                forall|j: int| 0 <= j < i ==> (#[trigger] all[j]) == ModelItem::Item(elems@[j]),
            decreases rest.len(),
        {
            let item = rest.remove(0);
            assert(item == all[i as int]);
            match item {
                ModelItem::Item(v) => elems.push(v),
                ModelItem::Missing => {
                    let mut message = "Unexpected end of ListModel at index ".to_owned();
                    append_decimal(&mut message, i as u64);
                    assert(first_bad(all, i as int));
                    return Err(SerError::Custom { message });
                },
                ModelItem::WrongType { actual } => {
                    let mut message = "Wrong type for ListModel index ".to_owned();
                    append_decimal(&mut message, i as u64);
                    message.append(": Expected `");
                    message.append(expected);
                    message.append("` got `");
                    message.append(actual.as_str());
                    message.append("`");
                    assert(first_bad(all, i as int));
                    return Err(SerError::Custom { message });
                },
            }
            i = i + 1;
        }
        assert(i == all.len());
        Ok(Value::List(elems))
    }
}

/// Writes an optional list model: serde's `None`, or `Some` around its items.
pub struct ListModelOptional;

impl ListModelOptional {
    pub fn serialize(expected: &str, model: Option<Vec<ModelItem>>) -> (r: Result<Value, SerError>)
        ensures
            match model {
                None => r matches Ok(Value::Null),
                Some(items) => match r {
                    Ok(Value::Present(b)) => serialized(items@, expected@, Ok(*b)),
                    Ok(_) => false,
                    Err(e) => serialized(items@, expected@, Err(e)),
                },
            },
    {
        match model {
            None => Ok(Value::Null),
            Some(items) => match ListModel::serialize(expected, items) {
                Ok(v) => Ok(Value::Present(Box::new(v))),
                Err(e) => Err(e),
            },
        }
    }
}

/// Reads the elements of a sequence, each to be read by the item type's own deserialiser.
pub fn read_elements(v: &Value) -> (r: Result<&Vec<Value>, DeError>)
    ensures
        match *v {
            Value::List(elems) => r matches Ok(e) && *e == elems,
            _ => r matches Err(DeError::InvalidType),
        },
{
    match v {
        Value::List(elems) => Ok(elems),
        _ => Err(DeError::InvalidType),
    }
}

/// Writes and reads a list store through its items.
pub struct ListStore;

impl ListStore {
    pub fn serialize(expected: &str, items: Vec<ModelItem>) -> (r: Result<Value, SerError>)
        ensures
            serialized(items@, expected@, r),
    {
        ListModel::serialize(expected, items)
    }

    /// The elements that become the store's items, in order.
    pub fn deserialize(v: &Value) -> (r: Result<&Vec<Value>, DeError>)
        ensures
            match *v {
                Value::List(elems) => r matches Ok(e) && *e == elems,
                _ => r matches Err(DeError::InvalidType),
            },
    {
        read_elements(v)
    }
}

/// Writes and reads an optional list store.
pub struct ListStoreOptional;

impl ListStoreOptional {
    pub fn serialize(expected: &str, store: Option<Vec<ModelItem>>) -> (r: Result<Value, SerError>)
        ensures
            match store {
                None => r matches Ok(Value::Null),
                Some(items) => match r {
                    Ok(Value::Present(b)) => serialized(items@, expected@, Ok(*b)),
                    Ok(_) => false,
                    Err(e) => serialized(items@, expected@, Err(e)),
                },
            },
    {
        ListModelOptional::serialize(expected, store)
    }

    /// No store for serde's `None` or the unit value; else the elements of the store that
    /// the optional value holds (see `optional_content`).
    pub fn deserialize(v: &Value) -> (r: Result<Option<&Vec<Value>>, DeError>)
        ensures
            match optional_content(*v) {
                None => r matches Ok(None),
                Some(c) => match c {
                    Value::List(elems) => r matches Ok(Some(e)) && *e == elems,
                    _ => r matches Err(DeError::InvalidType),
                },
            },
    {
        match read_optional(v) {
            None => Ok(None),
            Some(inner) => match read_elements(inner) {
                Ok(e) => Ok(Some(e)),
                Err(e) => Err(e),
            },
        }
    }
}

} // verus!
