//! The serde data model, as a tree of plain values.
//!
//! A `Value` records what a serialisation function hands to a serde `Serializer`
//! (one node per `serialize_*` call), and what a deserialisation function expects
//! a self-describing `Deserializer` to hand back. Floating-point numbers are
//! carried as their IEEE-754 bit patterns: nothing in this crate computes with them.
use vstd::prelude::*;
use crate::text::str_eq;

verus! {

/// The IEEE-754 bit pattern of an `f32`.
pub type F32Bits = u32;

/// The IEEE-754 bit pattern of an `f64`.
pub type F64Bits = u64;

#[derive(Debug, PartialEq)]
pub enum Value {
    Bool(bool),
    I16(i16),
    I32(i32),
    I64(i64),
    U8(u8),
    U16(u16),
    U32(u32),
    U64(u64),
    F32(F32Bits),
    F64(F64Bits),
    Str(String),
    Bytes(Vec<u8>),
    Unit,
    Null,
    Present(Box<Value>),
    UnitVariant { name: String, index: u32, variant: String },
    NewtypeVariant { name: String, index: u32, variant: String, value: Box<Value> },
    TupleVariant { name: String, index: u32, variant: String, fields: Vec<Value> },
    NewtypeStruct { name: String, value: Box<Value> },
    List(Vec<Value>),
    Tuple(Vec<Value>),
    TupleStruct { name: String, fields: Vec<Value> },
    Dict(Vec<(Value, Value)>),
}

/// Why a value could not be read back.
#[derive(Debug, Clone, PartialEq)]
pub enum DeError {
    /// The value does not have the shape that was expected.
    InvalidType,
    /// A sequence had the wrong number of elements.
    InvalidLength { len: usize },
    /// A variant name that the enumeration does not have.
    UnknownVariant { variant: String },
    /// A value of the right shape that is out of the accepted range.
    InvalidValue,
    /// Any other failure, with its message.
    Custom { message: String },
}

/// Why a value could not be written.
#[derive(Debug, Clone, PartialEq)]
pub enum SerError {
    /// Any other failure, with its message.
    Custom { message: String },
}

/// `v` is a tuple struct named `name` whose fields are `fields`.
pub open spec fn is_tuple_struct(v: Value, name: Seq<char>, fields: Seq<Value>) -> bool {
    match v {
        Value::TupleStruct { name: n, fields: f } => n@ == name && f@ == fields,
        _ => false,
    }
}

/// `v` is a newtype struct named `name` wrapping `inner`.
pub open spec fn is_newtype_struct(v: Value, name: Seq<char>, inner: Value) -> bool {
    match v {
        Value::NewtypeStruct { name: n, value } => n@ == name && *value == inner,
        _ => false,
    }
}

/// `v` is a newtype struct named `name` around a string whose characters are `text`.
pub open spec fn is_newtype_str(v: Value, name: Seq<char>, text: Seq<char>) -> bool {
    match v {
        Value::NewtypeStruct { name: n, value } => n@ == name && is_str(*value, text),
        _ => false,
    }
}

/// `v` is a string whose characters are `s`.
pub open spec fn is_str(v: Value, s: Seq<char>) -> bool {
    match v {
        Value::Str(t) => t@ == s,
        _ => false,
    }
}

/// `v` is a tuple of `f32` values whose bit patterns are `s`.
pub open spec fn is_f32_tuple(v: Value, s: Seq<F32Bits>) -> bool {
    match v {
        Value::Tuple(items) => items@.len() == s.len() && forall|i: int|
            0 <= i < s.len() ==> items@[i] == Value::F32(#[trigger] s[i]),
        _ => false,
    }
}

/// `v` is a tuple of `f64` values whose bit patterns are `s`.
pub open spec fn is_f64_tuple(v: Value, s: Seq<F64Bits>) -> bool {
    match v {
        Value::Tuple(items) => items@.len() == s.len() && forall|i: int|
            0 <= i < s.len() ==> items@[i] == Value::F64(#[trigger] s[i]),
        _ => false,
    }
}

/// The fields of a tuple struct, tuple or list with exactly `n` elements.
pub open spec fn fields_of(v: Value, n: nat) -> Option<Seq<Value>> {
    match v {
        Value::TupleStruct { fields, .. } => if fields@.len() == n { Some(fields@) } else { None },
        Value::Tuple(fields) => if fields@.len() == n { Some(fields@) } else { None },
        Value::List(fields) => if fields@.len() == n { Some(fields@) } else { None },
        _ => None,
    }
}

/// What a newtype struct is read from: the content of a newtype struct, or, as a
/// self-describing reader hands a newtype struct over, any other value itself.
pub open spec fn newtype_content(v: Value) -> Value {
    match v {
        Value::NewtypeStruct { value, .. } => *value,
        _ => v,
    }
}

/// The bit patterns of a sequence of `n` `f32` values.
pub open spec fn f32s_of(v: Value, n: nat) -> Option<Seq<F32Bits>> {
    match fields_of(v, n) {
        Some(f) => if forall|i: int| 0 <= i < n ==> (#[trigger] f[i]) is F32 {
            Some(Seq::new(n, |i: int| f[i]->F32_0))
        } else {
            None
        },
        None => None,
    }
}

/// The bit patterns of a sequence of `n` `f64` values.
pub open spec fn f64s_of(v: Value, n: nat) -> Option<Seq<F64Bits>> {
    match fields_of(v, n) {
        Some(f) => if forall|i: int| 0 <= i < n ==> (#[trigger] f[i]) is F64 {
            Some(Seq::new(n, |i: int| f[i]->F64_0))
        } else {
            None
        },
        None => None,
    }
}

/// The values of a sequence of `n` integers that each fit in an `i32`.
pub open spec fn i32s_of(v: Value, n: nat) -> Option<Seq<i32>> {
    match fields_of(v, n) {
        Some(f) => if forall|i: int| 0 <= i < n ==> (#[trigger] i32_of(f[i])) is Some {
            Some(Seq::new(n, |i: int| i32_of(f[i])->Some_0))
        } else {
            None
        },
        None => None,
    }
}

/// The error of the first of the first `k` elements that is no `i32`, if any.
pub open spec fn first_i32_error(f: Seq<Value>, k: int) -> Option<DeError>
    decreases k,
{
    if k <= 0 || k > f.len() {
        None
    } else {
        match first_i32_error(f, k - 1) {
            Some(e) => Some(e),
            None => if i32_of(f[k - 1]) is None { Some(int_error(f[k - 1])) } else { None },
        }
    }
}

/// How reading a sequence of `n` `i32` values fails: a value that is no such sequence is
/// refused by its type, else the first element that is no `i32` gives the error.
pub open spec fn i32s_error(v: Value, n: nat) -> DeError {
    match fields_of(v, n) {
        Some(f) => match first_i32_error(f, n as int) {
            Some(e) => e,
            None => DeError::InvalidType,
        },
        None => DeError::InvalidType,
    }
}

proof fn lemma_first_i32_error_stays(f: Seq<Value>, i: int, n: int)
    requires
        0 <= i <= n <= f.len(),
        first_i32_error(f, i) is Some,
    ensures
        first_i32_error(f, n) == first_i32_error(f, i),
    decreases n - i,
{
    if n > i {
        lemma_first_i32_error_stays(f, i, n - 1);
    }
}

/// The characters of a string value.
pub open spec fn str_of(v: Value) -> Option<Seq<char>> {
    match v {
        Value::Str(s) => Some(s@),
        _ => None,
    }
}

pub fn str_value(s: &str) -> (v: Value)
    ensures
        is_str(v, s@),
{
    Value::Str(s.to_owned())
}

pub fn tuple_struct(name: &str, fields: Vec<Value>) -> (v: Value)
    ensures
        is_tuple_struct(v, name@, fields@),
{
    Value::TupleStruct { name: name.to_owned(), fields }
}

pub fn newtype_struct(name: &str, inner: Value) -> (v: Value)
    ensures
        is_newtype_struct(v, name@, inner),
{
    Value::NewtypeStruct { name: name.to_owned(), value: Box::new(inner) }
}

pub fn f32_tuple(s: &[F32Bits]) -> (v: Value)
    ensures
        is_f32_tuple(v, s@),
        f32s_of(v, s@.len()) == Some(s@),
{
    let mut items: Vec<Value> = Vec::new();
    let mut i: usize = 0;
    while i < s.len()
        invariant
            i <= s@.len(),
            items@.len() == i,
            forall|k: int| 0 <= k < i ==> items@[k] == Value::F32(#[trigger] s@[k]),
        decreases s.len() - i,
    {
        items.push(Value::F32(s[i]));
        i = i + 1;
    }
    assert(forall|k: int| 0 <= k < s@.len() ==> (#[trigger] items@[k]) is F32) by {
        assert forall|k: int| 0 <= k < s@.len() implies (#[trigger] items@[k]) is F32 by {
            assert(items@[k] == Value::F32(s@[k]));
        }
    }
    let v = Value::Tuple(items);
    assert(Seq::new(s@.len(), |k: int| items@[k]->F32_0) =~= s@);
    v
}

pub fn f64_tuple(s: &[F64Bits]) -> (v: Value)
    ensures
        is_f64_tuple(v, s@),
        f64s_of(v, s@.len()) == Some(s@),
{
    let mut items: Vec<Value> = Vec::new();
    let mut i: usize = 0;
    while i < s.len()
        invariant
            i <= s@.len(),
            items@.len() == i,
            forall|k: int| 0 <= k < i ==> items@[k] == Value::F64(#[trigger] s@[k]),
        decreases s.len() - i,
    {
        items.push(Value::F64(s[i]));
        i = i + 1;
    }
    assert(forall|k: int| 0 <= k < s@.len() ==> (#[trigger] items@[k]) is F64) by {
        assert forall|k: int| 0 <= k < s@.len() implies (#[trigger] items@[k]) is F64 by {
            assert(items@[k] == Value::F64(s@[k]));
        }
    }
    let v = Value::Tuple(items);
    assert(Seq::new(s@.len(), |k: int| items@[k]->F64_0) =~= s@);
    v
}

/// Reads the fields of a tuple struct, tuple or list of exactly `n` elements.
pub fn read_fields(v: &Value, n: usize) -> (r: Result<&Vec<Value>, DeError>)
    ensures
        match r {
            Ok(f) => fields_of(*v, n as nat) == Some(f@),
            Err(e) => fields_of(*v, n as nat) is None && e is InvalidType,
        },
{
    match v {
        Value::TupleStruct { fields, .. } => if fields.len() == n { Ok(fields) } else { Err(DeError::InvalidType) },
        Value::Tuple(fields) => if fields.len() == n { Ok(fields) } else { Err(DeError::InvalidType) },
        Value::List(fields) => if fields.len() == n { Ok(fields) } else { Err(DeError::InvalidType) },
        _ => Err(DeError::InvalidType),
    }
}

/// What the field of a newtype struct that holds a number or a string is read from: the
/// content of a newtype struct; the first element of a sequence (a tuple struct, tuple or
/// list), as serde's visitor of a newtype struct reads one, where an empty sequence has
/// no field; or, as a self-describing reader hands a newtype struct over, any other value
/// itself.
pub open spec fn newtype_field(v: Value) -> Result<Value, DeError> {
    match v {
        Value::NewtypeStruct { value, .. } => Ok(*value),
        Value::TupleStruct { fields, .. } => seq_first(fields@),
        Value::Tuple(fields) => seq_first(fields@),
        Value::List(fields) => seq_first(fields@),
        _ => Ok(v),
    }
}

/// The first element of a sequence, or the error for an empty one.
pub open spec fn seq_first(f: Seq<Value>) -> Result<Value, DeError> {
    if f.len() == 0 { Err(DeError::InvalidLength { len: 0 }) } else { Ok(f[0]) }
}

fn first_of(f: &Vec<Value>) -> (r: Result<&Value, DeError>)
    ensures
        match seq_first(f@) {
            Ok(x) => r matches Ok(y) && *y == x,
            Err(e) => r matches Err(e2) && e2 == e,
        },
{
    if f.len() == 0 {
        Err(DeError::InvalidLength { len: 0 })
    } else {
        Ok(&f[0])
    }
}

/// Reads the field of a newtype struct that holds a number or a string: see
/// `newtype_field`.
pub fn read_newtype_field(v: &Value) -> (r: Result<&Value, DeError>)
    ensures
        match newtype_field(*v) {
            Ok(x) => r matches Ok(y) && *y == x,
            Err(e) => r matches Err(e2) && e2 == e,
        },
{
    match v {
        Value::NewtypeStruct { value, .. } => Ok(&**value),
        Value::TupleStruct { fields, .. } => first_of(fields),
        Value::Tuple(fields) => first_of(fields),
        Value::List(fields) => first_of(fields),
        _ => Ok(v),
    }
}

/// What a newtype struct is read from: see `newtype_content`.
pub fn read_newtype(v: &Value) -> (r: &Value)
    ensures
        *r == newtype_content(*v),
{
    match v {
        Value::NewtypeStruct { value, .. } => &**value,
        _ => v,
    }
}

pub fn read_f32s(v: &Value, n: usize) -> (r: Result<Vec<F32Bits>, DeError>)
    ensures
        match r {
            Ok(s) => f32s_of(*v, n as nat) == Some(s@),
            Err(e) => f32s_of(*v, n as nat) is None && e is InvalidType,
        },
{
    let f = match read_fields(v, n) {
        Ok(f) => f,
        Err(e) => return Err(e),
    };
    let mut out: Vec<F32Bits> = Vec::new();
    let mut i: usize = 0;
    while i < n
        invariant
            fields_of(*v, n as nat) == Some(f@),
            f@.len() == n,
            i <= n,
            out@.len() == i,
            forall|k: int| 0 <= k < i ==> (#[trigger] f@[k]) is F32 && out@[k] == f@[k]->F32_0,
        decreases n - i,
    {
        match &f[i] {
            Value::F32(x) => out.push(*x),
            _ => {
                assert(!(f@[i as int] is F32));
                assert(!(forall|k: int| 0 <= k < n ==> (#[trigger] f@[k]) is F32));
                return Err(DeError::InvalidType);
            },
        }
        i = i + 1;
    }
    assert(Seq::new(n as nat, |k: int| f@[k]->F32_0) =~= out@);
    Ok(out)
}

pub fn read_f64s(v: &Value, n: usize) -> (r: Result<Vec<F64Bits>, DeError>)
    ensures
        match r {
            Ok(s) => f64s_of(*v, n as nat) == Some(s@),
            Err(e) => f64s_of(*v, n as nat) is None && e is InvalidType,
        },
{
    let f = match read_fields(v, n) {
        Ok(f) => f,
        Err(e) => return Err(e),
    };
    let mut out: Vec<F64Bits> = Vec::new();
    let mut i: usize = 0;
    while i < n
        invariant
            fields_of(*v, n as nat) == Some(f@),
            f@.len() == n,
            i <= n,
            out@.len() == i,
            forall|k: int| 0 <= k < i ==> (#[trigger] f@[k]) is F64 && out@[k] == f@[k]->F64_0,
        decreases n - i,
    {
        match &f[i] {
            Value::F64(x) => out.push(*x),
            _ => {
                assert(!(f@[i as int] is F64));
                assert(!(forall|k: int| 0 <= k < n ==> (#[trigger] f@[k]) is F64));
                return Err(DeError::InvalidType);
            },
        }
        i = i + 1;
    }
    assert(Seq::new(n as nat, |k: int| f@[k]->F64_0) =~= out@);
    Ok(out)
}

pub fn read_i32s(v: &Value, n: usize) -> (r: Result<Vec<i32>, DeError>)
    ensures
        match i32s_of(*v, n as nat) {
            Some(s) => r matches Ok(o) && o@ == s,
            None => r == Err::<Vec<i32>, DeError>(i32s_error(*v, n as nat)),
        },
{
    let f = match read_fields(v, n) {
        Ok(f) => f,
        Err(e) => return Err(e),
    };
    let mut out: Vec<i32> = Vec::new();
    let mut i: usize = 0;
    while i < n
        invariant
            fields_of(*v, n as nat) == Some(f@),
            f@.len() == n,
            i <= n,
            out@.len() == i,
            first_i32_error(f@, i as int) is None,
            forall|k: int| 0 <= k < i ==> (#[trigger] i32_of(f@[k])) is Some && out@[k] == i32_of(f@[k])->Some_0,
        decreases n - i,
    {
        match read_i32(&f[i]) {
            Ok(x) => out.push(x),
            Err(e) => {
                assert(!(forall|k: int| 0 <= k < n ==> (#[trigger] i32_of(f@[k])) is Some));
                assert(first_i32_error(f@, i as int + 1) == Some(int_error(f@[i as int])));
                proof {
                    lemma_first_i32_error_stays(f@, i as int + 1, n as int);
                }
                return Err(e);
            },
        }
        i = i + 1;
    }
    assert(Seq::new(n as nat, |k: int| i32_of(f@[k])->Some_0) =~= out@);
    Ok(out)
}

pub fn read_str(v: &Value) -> (r: Result<&String, DeError>)
    ensures
        match r {
            Ok(s) => str_of(*v) == Some(s@),
            Err(e) => str_of(*v) is None && e is InvalidType,
        },
{
    match v {
        Value::Str(s) => Ok(s),
        _ => Err(DeError::InvalidType),
    }
}

/// Whether a string-valued name equals a literal.
pub fn name_is(s: &String, lit: &str) -> (r: bool)
    ensures
        r == (s@ == lit@),
{
    str_eq(s.as_str(), lit)
}

/// The bit pattern of an `f32` value.
pub open spec fn f32_of(v: Value) -> Option<F32Bits> {
    match v {
        Value::F32(x) => Some(x),
        _ => None,
    }
}

/// The bit pattern of an `f64` value.
pub open spec fn f64_of(v: Value) -> Option<F64Bits> {
    match v {
        Value::F64(x) => Some(x),
        _ => None,
    }
}

/// The number that a value of any integer type holds.
pub open spec fn int_of(v: Value) -> Option<int> {
    match v {
        Value::I16(x) => Some(x as int),
        Value::I32(x) => Some(x as int),
        Value::I64(x) => Some(x as int),
        Value::U8(x) => Some(x as int),
        Value::U16(x) => Some(x as int),
        Value::U32(x) => Some(x as int),
        Value::U64(x) => Some(x as int),
        _ => None,
    }
}

/// How reading an integer fails on a value that the target type cannot hold: an integer
/// out of its range is refused by its value, anything else by its type.
pub open spec fn int_error(v: Value) -> DeError {
    if int_of(v) is Some { DeError::InvalidValue } else { DeError::InvalidType }
}

/// The `i32` that a value holds: an integer of any type in the range of `i32`.
pub open spec fn i32_of(v: Value) -> Option<i32> {
    match int_of(v) {
        Some(n) => if i32::MIN <= n <= i32::MAX { Some(n as i32) } else { None },
        None => None,
    }
}

/// The `i16` that a value holds: an integer of any type in the range of `i16`.
pub open spec fn i16_of(v: Value) -> Option<i16> {
    match int_of(v) {
        Some(n) => if i16::MIN <= n <= i16::MAX { Some(n as i16) } else { None },
        None => None,
    }
}

/// The `i64` that a value holds: an integer of any type in the range of `i64`.
pub open spec fn i64_of(v: Value) -> Option<i64> {
    match int_of(v) {
        Some(n) => if i64::MIN <= n <= i64::MAX { Some(n as i64) } else { None },
        None => None,
    }
}

/// The `u32` that a value holds: an integer of any type in the range of `u32`.
pub open spec fn u32_of(v: Value) -> Option<u32> {
    match int_of(v) {
        Some(n) => if 0 <= n <= u32::MAX { Some(n as u32) } else { None },
        None => None,
    }
}

/// The number that a value of any integer type holds.
fn read_int(v: &Value) -> (r: Option<i128>)
    ensures
        match r {
            Some(n) => int_of(*v) == Some(n as int),
            None => int_of(*v) is None,
        },
{
    match v {
        Value::I16(x) => Some(*x as i128),
        Value::I32(x) => Some(*x as i128),
        Value::I64(x) => Some(*x as i128),
        Value::U8(x) => Some(*x as i128),
        Value::U16(x) => Some(*x as i128),
        Value::U32(x) => Some(*x as i128),
        Value::U64(x) => Some(*x as i128),
        _ => None,
    }
}

pub fn read_f32(v: &Value) -> (r: Result<F32Bits, DeError>)
    ensures
        match f32_of(*v) {
            Some(x) => r == Ok::<F32Bits, DeError>(x),
            None => r matches Err(DeError::InvalidType),
        },
{
    match v {
        Value::F32(x) => Ok(*x),
        _ => Err(DeError::InvalidType),
    }
}

pub fn read_f64(v: &Value) -> (r: Result<F64Bits, DeError>)
    ensures
        match f64_of(*v) {
            Some(x) => r == Ok::<F64Bits, DeError>(x),
            None => r matches Err(DeError::InvalidType),
        },
{
    match v {
        Value::F64(x) => Ok(*x),
        _ => Err(DeError::InvalidType),
    }
}

/// Reads an `i32` from an integer of any type that fits.
pub fn read_i32(v: &Value) -> (r: Result<i32, DeError>)
    ensures
        match i32_of(*v) {
            Some(x) => r == Ok::<i32, DeError>(x),
            None => r == Err::<i32, DeError>(int_error(*v)),
        },
{
    match read_int(v) {
        Some(n) => if -2147483648i128 <= n && n <= 2147483647i128 { Ok(n as i32) } else { Err(DeError::InvalidValue) },
        None => Err(DeError::InvalidType),
    }
}

/// Reads an `i16` from an integer of any type that fits.
pub fn read_i16(v: &Value) -> (r: Result<i16, DeError>)
    ensures
        match i16_of(*v) {
            Some(x) => r == Ok::<i16, DeError>(x),
            None => r == Err::<i16, DeError>(int_error(*v)),
        },
{
    match read_int(v) {
        Some(n) => if -32768i128 <= n && n <= 32767i128 { Ok(n as i16) } else { Err(DeError::InvalidValue) },
        None => Err(DeError::InvalidType),
    }
}

/// Reads an `i64` from an integer of any type that fits.
pub fn read_i64(v: &Value) -> (r: Result<i64, DeError>)
    ensures
        match i64_of(*v) {
            Some(x) => r == Ok::<i64, DeError>(x),
            None => r == Err::<i64, DeError>(int_error(*v)),
        },
{
    match read_int(v) {
        Some(n) => if -9223372036854775808i128 <= n && n <= 9223372036854775807i128 {
            Ok(n as i64)
        } else {
            Err(DeError::InvalidValue)
        },
        None => Err(DeError::InvalidType),
    }
}

/// Reads a `u32` from an integer of any type that fits.
pub fn read_u32(v: &Value) -> (r: Result<u32, DeError>)
    ensures
        match u32_of(*v) {
            Some(x) => r == Ok::<u32, DeError>(x),
            None => r == Err::<u32, DeError>(int_error(*v)),
        },
{
    match read_int(v) {
        Some(n) => if 0i128 <= n && n <= 4294967295i128 { Ok(n as u32) } else { Err(DeError::InvalidValue) },
        None => Err(DeError::InvalidType),
    }
}

/// An optional value is written as serde's `None`, or as `Some` around the value.
pub fn serialize_optional(o: Option<Value>) -> (v: Value)
    ensures
        match o {
            None => v is Null,
            Some(inner) => v matches Value::Present(b) && *b == inner,
        },
{
    match o {
        None => Value::Null,
        Some(inner) => Value::Present(Box::new(inner)),
    }
}

/// What an optional value is read from: nothing for serde's `None` or the unit value,
/// the value inside a `Some`, or, as a self-describing reader hands a present value over,
/// any other value itself.
pub open spec fn optional_content(v: Value) -> Option<Value> {
    match v {
        Value::Null => None,
        Value::Unit => None,
        Value::Present(b) => Some(*b),
        _ => Some(v),
    }
}

/// Reads an optional value: see `optional_content`.
pub fn read_optional(v: &Value) -> (r: Option<&Value>)
    ensures
        match optional_content(*v) {
            None => r is None,
            Some(c) => r matches Some(inner) && *inner == c,
        },
{
    match v {
        Value::Null => None,
        Value::Unit => None,
        Value::Present(b) => Some(&**b),
        _ => Some(v),
    }
}

} // verus!
