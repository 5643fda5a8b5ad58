use vstd::prelude::*;
use vstd::string::StringExecFns;
use crate::text::{append_decimal, decimal_spec, str_eq, utf8_decode, utf8_decode_lossy, utf8_lossy};
use crate::value::{DeError, SerError, Value};

verus! {

/// One member of a registered GLib enumeration.
#[derive(Debug, Clone, PartialEq)]
pub struct EnumValue {
    pub value: i32,
    pub name: String,
    pub nick: String,
}

/// The members of a registered GLib enumeration, in registration order.
#[derive(Debug, Clone, PartialEq)]
pub struct EnumClass {
    pub values: Vec<EnumValue>,
}

/// `i` is the first member whose value is `e`.
pub open spec fn first_with_value(vals: Seq<EnumValue>, e: i32, i: int) -> bool {
    &&& 0 <= i < vals.len()
    &&& vals[i].value == e
    &&& forall|j: int| 0 <= j < i ==> (#[trigger] vals[j]).value != e
}

pub open spec fn has_value(vals: Seq<EnumValue>, e: i32) -> bool {
    exists|i: int| 0 <= i < vals.len() && (#[trigger] vals[i]).value == e
}

/// `i` is the first member whose nick is `nick`.
pub open spec fn first_with_nick(vals: Seq<EnumValue>, nick: Seq<char>, i: int) -> bool {
    &&& 0 <= i < vals.len()
    &&& vals[i].nick@ == nick
    &&& forall|j: int| 0 <= j < i ==> (#[trigger] vals[j]).nick@ != nick
}

pub open spec fn has_nick(vals: Seq<EnumValue>, nick: Seq<char>) -> bool {
    exists|i: int| 0 <= i < vals.len() && (#[trigger] vals[i]).nick@ == nick
}

impl EnumClass {
    /// Looks a member up by value (`g_enum_get_value`: the first that matches).
    pub fn value(&self, e: i32) -> (r: Option<usize>)
        ensures
            match r {
                Some(i) => first_with_value(self.values@, e, i as int),
                None => !has_value(self.values@, e),
            },
    {
        let mut i: usize = 0;
        while i < self.values.len()
            invariant
                i <= self.values@.len(),
                forall|j: int| 0 <= j < i ==> (#[trigger] self.values@[j]).value != e,
            decreases self.values.len() - i,
        {
            if self.values[i].value == e {
                return Some(i);
            }
            i = i + 1;
        }
        None
    }

    /// Looks a member up by nick (`g_enum_get_value_by_nick`: the first that matches).
    pub fn value_by_nick(&self, nick: &str) -> (r: Option<usize>)
        ensures
            match r {
                Some(i) => first_with_nick(self.values@, nick@, i as int),
                None => !has_nick(self.values@, nick@),
            },
    {
        let mut i: usize = 0;
        while i < self.values.len()
            invariant
                i <= self.values@.len(),
                forall|j: int| 0 <= j < i ==> (#[trigger] self.values@[j]).nick@ != nick@,
            decreases self.values.len() - i,
        {
            if str_eq(self.values[i].nick.as_str(), nick) {
                return Some(i);
            }
            i = i + 1;
        }
        None
    }
}

/// The message given when a GType is not an enumeration.
pub open spec fn not_an_enum_message(gtype_name: Seq<char>) -> Seq<char> {
    "GType `"@ + gtype_name + "` is not an enum"@
}

fn not_an_enum(gtype_name: &str) -> (m: String)
    ensures
        m@ == not_an_enum_message(gtype_name@),
{
    let mut m = "GType `".to_owned();
    m.append(gtype_name);
    m.append("` is not an enum");
    m
}

/// A number in decimal, with a minus sign when it is negative.
pub open spec fn signed_decimal(n: int) -> Seq<char> {
    if n < 0 { "-"@ + decimal_spec((-n) as nat) } else { decimal_spec(n as nat) }
}

pub open spec fn invalid_value_message(e: i32, gtype_name: Seq<char>) -> Seq<char> {
    "Invalid value `"@ + signed_decimal(e as int) + "` for enum `"@ + gtype_name + "`"@
}

fn invalid_value(e: i32, gtype_name: &str) -> (m: String)
    ensures
        m@ == invalid_value_message(e, gtype_name@),
{
    let mut m = "Invalid value `".to_owned();
    if e < 0 {
        m.append("-");
        let magnitude: i64 = -(e as i64);
        append_decimal(&mut m, magnitude as u64);
    } else {
        append_decimal(&mut m, e as u64);
    }
    m.append("` for enum `");
    m.append(gtype_name);
    m.append("`");
    m
}

/// An enumeration value is written as a unit variant of the enumeration's GType,
/// whose index is the value and whose name is the member's nick.
pub fn serialize(class: Option<&EnumClass>, gtype_name: &str, e: i32) -> (r: Result<Value, SerError>)
    ensures
        match class {
            None => r matches Err(SerError::Custom { message }) && message@ == not_an_enum_message(gtype_name@),
            Some(c) => if has_value(c.values@, e) {
                exists|i: int| #[trigger] first_with_value(c.values@, e, i) && (r matches Ok(Value::UnitVariant { name, index, variant })
                    && name@ == gtype_name@ && index == e as u32 && variant@ == c.values@[i].nick@)
            } else {
                r matches Err(SerError::Custom { message }) && message@ == invalid_value_message(e, gtype_name@)
            },
        },
{
    match class {
        None => Err(SerError::Custom { message: not_an_enum(gtype_name) }),
        Some(c) => match c.value(e) {
            Some(i) => Ok(Value::UnitVariant {
                name: gtype_name.to_owned(),
                index: e as u32,
                variant: c.values[i].nick.clone(),
            }),
            None => Err(SerError::Custom { message: invalid_value(e, gtype_name) }),
        },
    }
}

/// The value of the member that an identifier names: a nick when it is text, the value
/// itself when it is a number.
pub open spec fn identifies(vals: Seq<EnumValue>, id: Value, e: i32) -> bool {
    match id {
        Value::UnitVariant { variant, .. } => exists|i: int| #[trigger] first_with_nick(vals, variant@, i) && vals[i].value == e,
        Value::Str(s) => exists|i: int| #[trigger] first_with_nick(vals, s@, i) && vals[i].value == e,
        Value::Bytes(b) => vstd::utf8::valid_utf8(b@) && exists|i: int|
            #[trigger] first_with_nick(vals, vstd::utf8::decode_utf8(b@), i) && vals[i].value == e,
        Value::U64(n) => n <= i32::MAX && exists|i: int| #[trigger] first_with_value(vals, n as i32, i) && e == n as i32,
        _ => false,
    }
}

/// How reading an identifier fails when no member matches it.
pub open spec fn identifier_error(vals: Seq<EnumValue>, id: Value, err: DeError) -> bool {
    match id {
        Value::UnitVariant { variant, .. } => err matches DeError::UnknownVariant { variant: u } && u@ == variant@,
        Value::Str(s) => err matches DeError::UnknownVariant { variant: u } && u@ == s@,
        Value::Bytes(b) => err matches DeError::UnknownVariant { variant: u } && u@ == utf8_lossy(b@),
        Value::U64(_) => err is InvalidValue,
        _ => err is InvalidType,
    }
}

/// Reads an enumeration value from the identifier of one of its members.
pub fn deserialize(class: Option<&EnumClass>, gtype_name: &str, v: &Value) -> (r: Result<i32, DeError>)
    ensures
        match class {
            None => r matches Err(DeError::Custom { message }) && message@ == not_an_enum_message(gtype_name@),
            Some(c) => match r {
                Ok(e) => identifies(c.values@, *v, e),
                Err(err) => (forall|e: i32| !#[trigger] identifies(c.values@, *v, e)) && identifier_error(c.values@, *v, err),
            },
        },
{
    let c = match class {
        None => return Err(DeError::Custom { message: not_an_enum(gtype_name) }),
        Some(c) => c,
    };
    match v {
        Value::UnitVariant { variant, .. } => match c.value_by_nick(variant.as_str()) {
            Some(i) => Ok(c.values[i].value),
            None => Err(DeError::UnknownVariant { variant: variant.clone() }),
        },
        Value::Str(s) => match c.value_by_nick(s.as_str()) {
            Some(i) => Ok(c.values[i].value),
            None => Err(DeError::UnknownVariant { variant: s.clone() }),
        },
        Value::Bytes(b) => {
            let found = match utf8_decode(b.as_slice()) {
                Some(s) => c.value_by_nick(s.as_str()),
                None => None,
            };
            match found {
                Some(i) => Ok(c.values[i].value),
                None => Err(DeError::UnknownVariant { variant: utf8_decode_lossy(b.as_slice()) }),
            }
        },
        Value::U64(n) => {
            if *n <= i32::MAX as u64 {
                match c.value(*n as i32) {
                    Some(i) => Ok(c.values[i].value),
                    None => Err(DeError::InvalidValue),
                }
            } else {
                Err(DeError::InvalidValue)
            }
        },
        _ => Err(DeError::InvalidType),
    }
}

/// A member's value, written by `serialize`, is read back by `deserialize` when the
/// member's nick is the first one spelled that way.
pub proof fn round_trip(c: EnumClass, gtype_name: Seq<char>, e: i32, i: int, v: Value)
    requires
        first_with_value(c.values@, e, i),
        first_with_nick(c.values@, c.values@[i].nick@, i),
        v matches Value::UnitVariant { name, index, variant } && variant@ == c.values@[i].nick@,
    ensures
        identifies(c.values@, v, e),
{
}

} // verus!
