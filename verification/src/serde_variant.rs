//! GLib variants in the serde data model: a variant is written as the tuple struct
//! `glib::Variant` of its type string and its value.
use vstd::prelude::*;
use vstd::string::StringExecFns;
use crate::text::str_eq;
use crate::value::{DeError, SerError, Value};

verus! {

/// A definite GVariant type.
pub enum VariantType {
    Bool,
    Byte,
    Int16,
    Uint16,
    Int32,
    Uint32,
    Int64,
    Uint64,
    Handle,
    Double,
    Str,
    ObjectPath,
    Signature,
    Variant,
    Maybe(Box<VariantType>),
    Array(Box<VariantType>),
    Tuple(Vec<VariantType>),
    DictEntry(Box<VariantType>, Box<VariantType>),
}

/// A GVariant value. A container carries the type of its elements; a double is carried as
/// its bit pattern.
pub enum GVariant {
    Bool(bool),
    Byte(u8),
    Int16(i16),
    Uint16(u16),
    Int32(i32),
    Uint32(u32),
    Int64(i64),
    Uint64(u64),
    Handle(i32),
    Double(u64),
    Str(String),
    ObjectPath(String),
    Signature(String),
    Variant(Box<GVariant>),
    Maybe { elem: VariantType, value: Option<Box<GVariant>> },
    Array { elem: VariantType, items: Vec<GVariant> },
    Tuple(Vec<GVariant>),
    DictEntry(Box<GVariant>, Box<GVariant>),
}

/// The type string of a type.
pub open spec fn type_string(t: VariantType) -> Seq<char>
    decreases t,
{
    match t {
        VariantType::Bool => "b"@,
        VariantType::Byte => "y"@,
        VariantType::Int16 => "n"@,
        VariantType::Uint16 => "q"@,
        VariantType::Int32 => "i"@,
        VariantType::Uint32 => "u"@,
        VariantType::Int64 => "x"@,
        VariantType::Uint64 => "t"@,
        VariantType::Handle => "h"@,
        VariantType::Double => "d"@,
        VariantType::Str => "s"@,
        VariantType::ObjectPath => "o"@,
        VariantType::Signature => "g"@,
        VariantType::Variant => "v"@,
        VariantType::Maybe(e) => "m"@ + type_string(*e),
        VariantType::Array(e) => "a"@ + type_string(*e),
        VariantType::Tuple(items) => "("@ + types_string(items@, items@.len() as int) + ")"@,
        VariantType::DictEntry(k, v) => "{"@ + type_string(*k) + type_string(*v) + "}"@,
    }
}

/// The type strings of the first `n` types, one after the other.
pub open spec fn types_string(ts: Seq<VariantType>, n: int) -> Seq<char>
    decreases ts, n,
{
    if n <= 0 || n > ts.len() {
        Seq::empty()
    } else {
        types_string(ts, n - 1) + type_string(ts[n - 1])
    }
}

/// The type string of a value.
pub open spec fn value_type_string(v: GVariant) -> Seq<char>
    decreases v,
{
    match v {
        GVariant::Bool(_) => "b"@,
        GVariant::Byte(_) => "y"@,
        GVariant::Int16(_) => "n"@,
        GVariant::Uint16(_) => "q"@,
        GVariant::Int32(_) => "i"@,
        GVariant::Uint32(_) => "u"@,
        GVariant::Int64(_) => "x"@,
        GVariant::Uint64(_) => "t"@,
        GVariant::Handle(_) => "h"@,
        GVariant::Double(_) => "d"@,
        GVariant::Str(_) => "s"@,
        GVariant::ObjectPath(_) => "o"@,
        GVariant::Signature(_) => "g"@,
        GVariant::Variant(_) => "v"@,
        GVariant::Maybe { elem, .. } => "m"@ + type_string(elem),
        GVariant::Array { elem, .. } => "a"@ + type_string(elem),
        GVariant::Tuple(items) => "("@ + values_type_string(items@, items@.len() as int) + ")"@,
        GVariant::DictEntry(k, v) => "{"@ + value_type_string(*k) + value_type_string(*v) + "}"@,
    }
}

/// The type strings of the first `n` values, one after the other.
pub open spec fn values_type_string(vs: Seq<GVariant>, n: int) -> Seq<char>
    decreases vs, n,
{
    if n <= 0 || n > vs.len() {
        Seq::empty()
    } else {
        values_type_string(vs, n - 1) + value_type_string(vs[n - 1])
    }
}

proof fn lemma_codes()
    ensures
        "b"@.len() == 1 && "b"@[0] == 'b',
        "y"@.len() == 1 && "y"@[0] == 'y',
        "n"@.len() == 1 && "n"@[0] == 'n',
        "q"@.len() == 1 && "q"@[0] == 'q',
        "i"@.len() == 1 && "i"@[0] == 'i',
        "u"@.len() == 1 && "u"@[0] == 'u',
        "x"@.len() == 1 && "x"@[0] == 'x',
        "t"@.len() == 1 && "t"@[0] == 't',
        "h"@.len() == 1 && "h"@[0] == 'h',
        "d"@.len() == 1 && "d"@[0] == 'd',
        "s"@.len() == 1 && "s"@[0] == 's',
        "o"@.len() == 1 && "o"@[0] == 'o',
        "g"@.len() == 1 && "g"@[0] == 'g',
        "v"@.len() == 1 && "v"@[0] == 'v',
{
    reveal_strlit("b");
    reveal_strlit("y");
    reveal_strlit("n");
    reveal_strlit("q");
    reveal_strlit("i");
    reveal_strlit("u");
    reveal_strlit("x");
    reveal_strlit("t");
    reveal_strlit("h");
    reveal_strlit("d");
    reveal_strlit("s");
    reveal_strlit("o");
    reveal_strlit("g");
    reveal_strlit("v");
}

/// A type that holds no other type.
pub open spec fn basic_type(t: VariantType) -> bool {
    !(t is Maybe || t is Array || t is Tuple || t is DictEntry)
}

proof fn lemma_type_string_len(t: VariantType)
    ensures
        type_string(t).len() >= 1,
        !basic_type(t) ==> type_string(t).len() >= 2,
    decreases t,
{
    reveal_strlit("m");
    reveal_strlit("a");
    reveal_strlit("(");
    reveal_strlit(")");
    reveal_strlit("{");
    reveal_strlit("}");
    reveal_strlit("b");
    reveal_strlit("y");
    reveal_strlit("n");
    reveal_strlit("q");
    reveal_strlit("i");
    reveal_strlit("u");
    reveal_strlit("x");
    reveal_strlit("t");
    reveal_strlit("h");
    reveal_strlit("d");
    reveal_strlit("s");
    reveal_strlit("o");
    reveal_strlit("g");
    reveal_strlit("v");
    match t {
        VariantType::Maybe(e) => lemma_type_string_len(*e),
        VariantType::Array(e) => lemma_type_string_len(*e),
        VariantType::DictEntry(k, v) => {
            lemma_type_string_len(*k);
        },
        _ => {},
    }
}

/// Each type is written with GLib's code for it: `b` exactly for booleans, `y` for bytes,
/// `n` for 16-bit integers, `q` for unsigned ones, `i` and `u` for 32-bit ones, `x` and `t`
/// for 64-bit ones, `h` for handles, `d` for doubles, `s` for strings, `o` for object
/// paths, `g` for signatures and `v` for variants; a type that holds others is written
/// with more than one character.
pub proof fn type_strings_are_glib_codes(t: VariantType)
    ensures
        (type_string(t) == "b"@) == (t is Bool),
        (type_string(t) == "y"@) == (t is Byte),
        (type_string(t) == "n"@) == (t is Int16),
        (type_string(t) == "q"@) == (t is Uint16),
        (type_string(t) == "i"@) == (t is Int32),
        (type_string(t) == "u"@) == (t is Uint32),
        (type_string(t) == "x"@) == (t is Int64),
        (type_string(t) == "t"@) == (t is Uint64),
        (type_string(t) == "h"@) == (t is Handle),
        (type_string(t) == "d"@) == (t is Double),
        (type_string(t) == "s"@) == (t is Str),
        (type_string(t) == "o"@) == (t is ObjectPath),
        (type_string(t) == "g"@) == (t is Signature),
        (type_string(t) == "v"@) == (t is Variant),
        !basic_type(t) ==> type_string(t).len() >= 2,
{
    lemma_type_string_len(t);
    lemma_codes();
    match t {
        VariantType::Bool => assert(type_string(t) == "b"@),
        VariantType::Byte => assert(type_string(t) == "y"@),
        VariantType::Int16 => assert(type_string(t) == "n"@),
        VariantType::Uint16 => assert(type_string(t) == "q"@),
        VariantType::Int32 => assert(type_string(t) == "i"@),
        VariantType::Uint32 => assert(type_string(t) == "u"@),
        VariantType::Int64 => assert(type_string(t) == "x"@),
        VariantType::Uint64 => assert(type_string(t) == "t"@),
        VariantType::Handle => assert(type_string(t) == "h"@),
        VariantType::Double => assert(type_string(t) == "d"@),
        VariantType::Str => assert(type_string(t) == "s"@),
        VariantType::ObjectPath => assert(type_string(t) == "o"@),
        VariantType::Signature => assert(type_string(t) == "g"@),
        VariantType::Variant => assert(type_string(t) == "v"@),
        _ => {},
    }
}

/// Types that hold no other type are written with one character each, different types
/// with different characters.
pub proof fn basic_type_strings_distinct(t: VariantType, u: VariantType)
    requires
        basic_type(t),
        basic_type(u),
    ensures
        type_string(t).len() == 1,
        (type_string(t) == type_string(u)) == (t == u),
{
    type_strings_are_glib_codes(t);
    type_strings_are_glib_codes(u);
    lemma_codes();
}

fn append_type_string(out: &mut String, t: &VariantType)
    ensures
        final(out)@ == old(out)@ + type_string(*t),
    decreases t,
{
    match t {
        VariantType::Bool => out.append("b"),
        VariantType::Byte => out.append("y"),
        VariantType::Int16 => out.append("n"),
        VariantType::Uint16 => out.append("q"),
        VariantType::Int32 => out.append("i"),
        VariantType::Uint32 => out.append("u"),
        VariantType::Int64 => out.append("x"),
        VariantType::Uint64 => out.append("t"),
        VariantType::Handle => out.append("h"),
        VariantType::Double => out.append("d"),
        VariantType::Str => out.append("s"),
        VariantType::ObjectPath => out.append("o"),
        VariantType::Signature => out.append("g"),
        VariantType::Variant => out.append("v"),
        VariantType::Maybe(e) => {
            out.append("m");
            append_type_string(out, &**e);
            assert(out@ =~= old(out)@ + type_string(*t));
        },
        VariantType::Array(e) => {
            out.append("a");
            append_type_string(out, &**e);
            assert(out@ =~= old(out)@ + type_string(*t));
        },
        VariantType::Tuple(items) => {
            out.append("(");
            let ghost start = out@;
            let mut i: usize = 0;
            while i < items.len()
                invariant
                    i <= items@.len(),
                    *t is Tuple && (*t)->Tuple_0 == *items,
                    out@ == start + types_string(items@, i as int),
                decreases items.len() - i,
            {
                proof {
                    let tv = (*t)->Tuple_0;
                    assert(decreases_to!(*t => (*t)->Tuple_0));
                    assert(decreases_to!(tv => tv@));
                    assert(decreases_to!(tv@ => tv@[i as int]));
                    assert(tv@[i as int] == items@[i as int]);
                }
                append_type_string(out, &items[i]);
                assert(out@ =~= start + types_string(items@, i as int + 1));
                i = i + 1;
            }
            out.append(")");
            assert(out@ =~= old(out)@ + type_string(*t));
        },
        VariantType::DictEntry(k, v) => {
            out.append("{");
            append_type_string(out, &**k);
            append_type_string(out, &**v);
            out.append("}");
            assert(out@ =~= old(out)@ + type_string(*t));
        },
    }
}

} // verus!

verus! {

/// A variant that GLib can hold: the items of an array of dictionary entries are entries,
/// those of an array of bytes are bytes.
pub open spec fn well_formed(g: GVariant) -> bool
    decreases g,
{
    match g {
        GVariant::Variant(x) => well_formed(*x),
        GVariant::Maybe { value, .. } => match value { Some(x) => well_formed(*x), None => true },
        GVariant::Array { elem, items } => forall|i: int| 0 <= i < items@.len() ==> {
            &&& (elem is DictEntry ==> (#[trigger] items@[i]) is DictEntry)
            &&& (elem is Byte ==> items@[i] is Byte)
            &&& well_formed(items@[i])
        },
        GVariant::Tuple(items) => forall|i: int| 0 <= i < items@.len() ==> well_formed(#[trigger] items@[i]),
        GVariant::DictEntry(k, v) => well_formed(*k) && well_formed(*v),
        _ => true,
    }
}

pub open spec fn handle_message() -> Seq<char> {
    "HANDLE values not supported"@
}

pub open spec fn dict_entry_message() -> Seq<char> {
    "DICT_ENTRY values not supported"@
}

/// The error that writing `g` stops at, in the order it is written, if any: a handle, or a
/// dictionary entry that is not inside an array.
pub open spec fn write_error(g: GVariant) -> Option<Seq<char>>
    decreases g, 1int,
{
    match g {
        GVariant::Handle(_) => Some(handle_message()),
        GVariant::DictEntry(_, _) => Some(dict_entry_message()),
        GVariant::Variant(x) => write_error(*x),
        GVariant::Maybe { value, .. } => match value { Some(x) => write_error(*x), None => None },
        GVariant::Array { elem, items } => if elem is Byte {
            None
        } else if elem is DictEntry {
            entries_error(items@, items@.len() as int)
        } else {
            items_error(items@, items@.len() as int)
        },
        GVariant::Tuple(items) => items_error(items@, items@.len() as int),
        _ => None,
    }
}

/// The first error among the first `n` values.
pub open spec fn items_error(vs: Seq<GVariant>, n: int) -> Option<Seq<char>>
    decreases vs, n,
{
    if n <= 0 || n > vs.len() {
        None
    } else {
        match items_error(vs, n - 1) {
            Some(m) => Some(m),
            None => write_error(vs[n - 1]),
        }
    }
}

/// The first error among the keys and values of the first `n` entries.
pub open spec fn entries_error(vs: Seq<GVariant>, n: int) -> Option<Seq<char>>
    decreases vs, n,
{
    if n <= 0 || n > vs.len() {
        None
    } else {
        match entries_error(vs, n - 1) {
            Some(m) => Some(m),
            None => match vs[n - 1] {
                GVariant::DictEntry(k, v) => match write_error(*k) {
                    Some(m) => Some(m),
                    None => write_error(*v),
                },
                _ => None,
            },
        }
    }
}

/// `v` is the tuple struct `glib::Variant` of `g`'s type string and its value.
pub open spec fn wraps(v: Value, g: GVariant) -> bool
    decreases g, 1int,
{
    match v {
        Value::TupleStruct { name, fields } => name@ == "glib::Variant"@ && fields@.len() == 2
            && (fields@[0] matches Value::Str(t) && t@ == value_type_string(g))
            && payload(fields@[1], g),
        _ => false,
    }
}

/// `p` is how the value of `g` is written: numbers, booleans and strings as themselves,
/// object paths and signatures as newtype structs around their text, a maybe as an
/// option, arrays as sequences (bytes as bytes, entries as a map), tuples as tuples (the
/// empty one as the unit), each contained variant wrapped with its own type.
pub open spec fn payload(p: Value, g: GVariant) -> bool
    decreases g, 0int,
{
    match g {
        GVariant::Bool(b) => p == Value::Bool(b),
        GVariant::Byte(x) => p == Value::U8(x),
        GVariant::Int16(x) => p == Value::I16(x),
        GVariant::Uint16(x) => p == Value::U16(x),
        GVariant::Int32(x) => p == Value::I32(x),
        GVariant::Uint32(x) => p == Value::U32(x),
        GVariant::Int64(x) => p == Value::I64(x),
        GVariant::Uint64(x) => p == Value::U64(x),
        GVariant::Double(x) => p == Value::F64(x),
        GVariant::Str(s) => p matches Value::Str(t) && t@ == s@,
        GVariant::ObjectPath(s) => p matches Value::NewtypeStruct { name, value } && name@ == "glib::ObjectPath"@
            && (*value matches Value::Str(t) && t@ == s@),
        GVariant::Signature(s) => p matches Value::NewtypeStruct { name, value } && name@ == "glib::Signature"@
            && (*value matches Value::Str(t) && t@ == s@),
        GVariant::Variant(x) => wraps(p, *x),
        GVariant::Maybe { value, .. } => match value {
            Some(x) => p matches Value::Present(b) && wraps(*b, *x),
            None => p is Null,
        },
        GVariant::Array { elem, items } => if elem is Byte {
            p matches Value::Bytes(bs) && bs@.len() == items@.len()
                && forall|i: int| 0 <= i < items@.len() ==> items@[i] == GVariant::Byte(#[trigger] bs@[i])
        } else if elem is DictEntry {
            p matches Value::Dict(es) && es@.len() == items@.len()
                && forall|i: int| #![trigger es@[i]] 0 <= i < items@.len() ==> (items@[i] matches GVariant::DictEntry(k, v)
                    && wraps(es@[i].0, *k) && wraps(es@[i].1, *v))
        } else {
            p matches Value::List(ps) && ps@.len() == items@.len()
                && forall|i: int| 0 <= i < items@.len() ==> wraps(#[trigger] ps@[i], items@[i])
        },
        GVariant::Tuple(items) => if items@.len() > 0 {
            p matches Value::Tuple(ps) && ps@.len() == items@.len()
                && forall|i: int| 0 <= i < items@.len() ==> wraps(#[trigger] ps@[i], items@[i])
        } else {
            p is Unit
        },
        GVariant::Handle(_) => false,
        GVariant::DictEntry(_, _) => false,
    }
}

} // verus!

verus! {

proof fn lemma_value_type_string_len(g: GVariant)
    ensures
        value_type_string(g).len() >= 1,
        (g is Maybe || g is Array || g is Tuple || g is DictEntry) ==> value_type_string(g).len() >= 2,
    decreases g,
{
    reveal_strlit("m");
    reveal_strlit("a");
    reveal_strlit("(");
    reveal_strlit(")");
    reveal_strlit("{");
    reveal_strlit("}");
    reveal_strlit("b");
    reveal_strlit("y");
    reveal_strlit("n");
    reveal_strlit("q");
    reveal_strlit("i");
    reveal_strlit("u");
    reveal_strlit("x");
    reveal_strlit("t");
    reveal_strlit("h");
    reveal_strlit("d");
    reveal_strlit("s");
    reveal_strlit("o");
    reveal_strlit("g");
    reveal_strlit("v");
    match g {
        GVariant::DictEntry(k, v) => {
            lemma_value_type_string_len(*k);
        },
        _ => {},
    }
}

/// Each value is written with GLib's code for its type: `t` exactly for an unsigned 64-bit
/// integer, `x` exactly for a signed one, and so on for each type that holds no other
/// (see `type_strings_are_glib_codes`); a value of a type that holds others is written
/// with more than one character.
pub proof fn value_type_strings_are_glib_codes(g: GVariant)
    ensures
        (value_type_string(g) == "b"@) == (g is Bool),
        (value_type_string(g) == "y"@) == (g is Byte),
        (value_type_string(g) == "n"@) == (g is Int16),
        (value_type_string(g) == "q"@) == (g is Uint16),
        (value_type_string(g) == "i"@) == (g is Int32),
        (value_type_string(g) == "u"@) == (g is Uint32),
        (value_type_string(g) == "x"@) == (g is Int64),
        (value_type_string(g) == "t"@) == (g is Uint64),
        (value_type_string(g) == "h"@) == (g is Handle),
        (value_type_string(g) == "d"@) == (g is Double),
        (value_type_string(g) == "s"@) == (g is Str),
        (value_type_string(g) == "o"@) == (g is ObjectPath),
        (value_type_string(g) == "g"@) == (g is Signature),
        (value_type_string(g) == "v"@) == (g is Variant),
        (g is Maybe || g is Array || g is Tuple || g is DictEntry) ==> value_type_string(g).len() >= 2,
{
    lemma_value_type_string_len(g);
    lemma_codes();
    match g {
        GVariant::Bool(..) => assert(value_type_string(g) == "b"@),
        GVariant::Byte(..) => assert(value_type_string(g) == "y"@),
        GVariant::Int16(..) => assert(value_type_string(g) == "n"@),
        GVariant::Uint16(..) => assert(value_type_string(g) == "q"@),
        GVariant::Int32(..) => assert(value_type_string(g) == "i"@),
        GVariant::Uint32(..) => assert(value_type_string(g) == "u"@),
        GVariant::Int64(..) => assert(value_type_string(g) == "x"@),
        GVariant::Uint64(..) => assert(value_type_string(g) == "t"@),
        GVariant::Handle(..) => assert(value_type_string(g) == "h"@),
        GVariant::Double(..) => assert(value_type_string(g) == "d"@),
        GVariant::Str(..) => assert(value_type_string(g) == "s"@),
        GVariant::ObjectPath(..) => assert(value_type_string(g) == "o"@),
        GVariant::Signature(..) => assert(value_type_string(g) == "g"@),
        GVariant::Variant(..) => assert(value_type_string(g) == "v"@),
        _ => {},
    }
}

fn append_value_type_string(out: &mut String, g: &GVariant)
    ensures
        final(out)@ == old(out)@ + value_type_string(*g),
    decreases g,
{
    match g {
        GVariant::Bool(_) => out.append("b"),
        GVariant::Byte(_) => out.append("y"),
        GVariant::Int16(_) => out.append("n"),
        GVariant::Uint16(_) => out.append("q"),
        GVariant::Int32(_) => out.append("i"),
        GVariant::Uint32(_) => out.append("u"),
        GVariant::Int64(_) => out.append("x"),
        GVariant::Uint64(_) => out.append("t"),
        GVariant::Handle(_) => out.append("h"),
        GVariant::Double(_) => out.append("d"),
        GVariant::Str(_) => out.append("s"),
        GVariant::ObjectPath(_) => out.append("o"),
        GVariant::Signature(_) => out.append("g"),
        GVariant::Variant(_) => out.append("v"),
        GVariant::Maybe { elem, .. } => {
            out.append("m");
            append_type_string(out, elem);
            assert(out@ =~= old(out)@ + value_type_string(*g));
        },
        GVariant::Array { elem, .. } => {
            out.append("a");
            append_type_string(out, elem);
            assert(out@ =~= old(out)@ + value_type_string(*g));
        },
        GVariant::Tuple(items) => {
            out.append("(");
            let ghost start = out@;
            let mut i: usize = 0;
            while i < items.len()
                invariant
                    i <= items@.len(),
                    *g is Tuple && (*g)->Tuple_0 == *items,
                    out@ == start + values_type_string(items@, i as int),
                decreases items.len() - i,
            {
                proof {
                    let tv = (*g)->Tuple_0;
                    assert(decreases_to!(*g => (*g)->Tuple_0));
                    assert(decreases_to!(tv => tv@));
                    assert(decreases_to!(tv@ => tv@[i as int]));
                }
                append_value_type_string(out, &items[i]);
                assert(out@ =~= start + values_type_string(items@, i as int + 1));
                i = i + 1;
            }
            out.append(")");
            assert(out@ =~= old(out)@ + value_type_string(*g));
        },
        GVariant::DictEntry(k, v) => {
            out.append("{");
            append_value_type_string(out, &**k);
            append_value_type_string(out, &**v);
            out.append("}");
            assert(out@ =~= old(out)@ + value_type_string(*g));
        },
    }
}

fn write_wrapped(g: &GVariant) -> (r: Result<Value, SerError>)
    requires
        well_formed(*g),
    ensures
        match write_error(*g) {
            None => r matches Ok(v) && wraps(v, *g),
            Some(m) => r matches Err(SerError::Custom { message }) && message@ == m,
        },
    decreases g, 2int,
{
    let p = match write_payload(g) {
        Ok(p) => p,
        Err(e) => return Err(e),
    };
    let mut t = String::new();
    append_value_type_string(&mut t, g);
    let mut fields: Vec<Value> = Vec::new();
    fields.push(Value::Str(t));
    fields.push(p);
    Ok(Value::TupleStruct { name: "glib::Variant".to_owned(), fields })
}

fn write_payload(g: &GVariant) -> (r: Result<Value, SerError>)
    requires
        well_formed(*g),
    ensures
        match write_error(*g) {
            None => r matches Ok(v) && payload(v, *g),
            Some(m) => r matches Err(SerError::Custom { message }) && message@ == m,
        },
    decreases g, 1int,
{
    match g {
        GVariant::Bool(b) => Ok(Value::Bool(*b)),
        GVariant::Byte(x) => Ok(Value::U8(*x)),
        GVariant::Int16(x) => Ok(Value::I16(*x)),
        GVariant::Uint16(x) => Ok(Value::U16(*x)),
        GVariant::Int32(x) => Ok(Value::I32(*x)),
        GVariant::Uint32(x) => Ok(Value::U32(*x)),
        GVariant::Int64(x) => Ok(Value::I64(*x)),
        GVariant::Uint64(x) => Ok(Value::U64(*x)),
        GVariant::Handle(_) => Err(SerError::Custom { message: "HANDLE values not supported".to_owned() }),
        GVariant::Double(x) => Ok(Value::F64(*x)),
        GVariant::Str(s) => Ok(Value::Str(s.clone())),
        GVariant::ObjectPath(s) => Ok(Value::NewtypeStruct {
            name: "glib::ObjectPath".to_owned(),
            value: Box::new(Value::Str(s.clone())),
        }),
        GVariant::Signature(s) => Ok(Value::NewtypeStruct {
            name: "glib::Signature".to_owned(),
            value: Box::new(Value::Str(s.clone())),
        }),
        GVariant::Variant(x) => write_wrapped(&**x),
        GVariant::Maybe { value, .. } => match value {
            Some(x) => match write_wrapped(&**x) {
                Ok(w) => Ok(Value::Present(Box::new(w))),
                Err(e) => Err(e),
            },
            None => Ok(Value::Null),
        },
        GVariant::Array { elem, items } => {
            if matches!(elem, VariantType::Byte) {
                write_bytes(g)
            } else if matches!(elem, VariantType::DictEntry(_, _)) {
                write_entries(g)
            } else {
                match write_list(g) {
                    Ok(ps) => Ok(Value::List(ps)),
                    Err(e) => Err(e),
                }
            }
        },
        GVariant::Tuple(items) => {
            if items.len() > 0 {
                match write_list(g) {
                    Ok(ps) => Ok(Value::Tuple(ps)),
                    Err(e) => Err(e),
                }
            } else {
                Ok(Value::Unit)
            }
        },
        GVariant::DictEntry(_, _) => Err(SerError::Custom { message: "DICT_ENTRY values not supported".to_owned() }),
    }
}

/// The items of an array or tuple.
pub open spec fn children(g: GVariant) -> Seq<GVariant> {
    match g {
        GVariant::Array { items, .. } => items@,
        GVariant::Tuple(items) => items@,
        _ => Seq::empty(),
    }
}

fn write_list(g: &GVariant) -> (r: Result<Vec<Value>, SerError>)
    requires
        well_formed(*g),
        (*g matches GVariant::Array { elem, .. } && !(elem is Byte) && !(elem is DictEntry)) || *g is Tuple,
    ensures
        match items_error(children(*g), children(*g).len() as int) {
            None => r matches Ok(ps) && ps@.len() == children(*g).len()
                && forall|i: int| 0 <= i < ps@.len() ==> wraps(#[trigger] ps@[i], children(*g)[i]),
            Some(m) => r matches Err(SerError::Custom { message }) && message@ == m,
        },
    decreases g, 0int,
{
    let items = match g {
        GVariant::Array { items, .. } => items,
        GVariant::Tuple(items) => items,
        _ => {
            assert(false);
            return Ok(Vec::new());
        },
    };
    let mut ps: Vec<Value> = Vec::new();
    let mut i: usize = 0;
    while i < items.len()
        invariant
            i <= items@.len(),
            well_formed(*g),
            children(*g) == items@,
            (*g matches GVariant::Array { items: it, .. } && it == *items) || (*g matches GVariant::Tuple(it) && it == *items),
            items_error(items@, i as int) is None,
            ps@.len() == i,
            forall|k: int| 0 <= k < i ==> wraps(#[trigger] ps@[k], items@[k]),
        decreases items.len() - i,
    {
        proof {
            if *g is Tuple {
                let tv = (*g)->Tuple_0;
                assert(decreases_to!(*g => (*g)->Tuple_0));
                assert(decreases_to!(tv => tv@));
                assert(decreases_to!(tv@ => tv@[i as int]));
            } else {
                let tv = (*g)->Array_items;
                assert(decreases_to!(*g => (*g)->Array_items));
                assert(decreases_to!(tv => tv@));
                assert(decreases_to!(tv@ => tv@[i as int]));
            }
            assert(well_formed(items@[i as int]));
        }
        match write_wrapped(&items[i]) {
            Ok(w) => ps.push(w),
            Err(e) => {
                assert(items_error(items@, i as int + 1) == write_error(items@[i as int]));
                proof {
                    lemma_items_error_stays(items@, i as int + 1, items@.len() as int);
                }
                return Err(e);
            },
        }
        i = i + 1;
    }
    Ok(ps)
}

proof fn lemma_items_error_stays(vs: Seq<GVariant>, i: int, n: int)
    requires
        0 <= i <= n <= vs.len(),
        items_error(vs, i) is Some,
    ensures
        items_error(vs, n) == items_error(vs, i),
    decreases n - i,
{
    if n > i {
        lemma_items_error_stays(vs, i, n - 1);
    }
}

proof fn lemma_entries_error_stays(vs: Seq<GVariant>, i: int, n: int)
    requires
        0 <= i <= n <= vs.len(),
        entries_error(vs, i) is Some,
    ensures
        entries_error(vs, n) == entries_error(vs, i),
    decreases n - i,
{
    if n > i {
        lemma_entries_error_stays(vs, i, n - 1);
    }
}

fn write_bytes(g: &GVariant) -> (r: Result<Value, SerError>)
    requires
        well_formed(*g),
        *g matches GVariant::Array { elem, .. } && elem is Byte,
    ensures
        r matches Ok(v) && payload(v, *g),
{
    let items = match g {
        GVariant::Array { items, .. } => items,
        _ => {
            assert(false);
            return Ok(Value::Unit);
        },
    };
    let mut bs: Vec<u8> = Vec::new();
    let mut i: usize = 0;
    while i < items.len()
        invariant
            i <= items@.len(),
            well_formed(*g),
            *g matches GVariant::Array { elem, items: it } && elem is Byte && it == *items,
            bs@.len() == i,
            forall|k: int| 0 <= k < i ==> items@[k] == GVariant::Byte(#[trigger] bs@[k]),
        decreases items.len() - i,
    {
        assert(items@[i as int] is Byte);
        match &items[i] {
            GVariant::Byte(b) => bs.push(*b),
            _ => {
                assert(false);
            },
        }
        i = i + 1;
    }
    Ok(Value::Bytes(bs))
}

fn write_entries(g: &GVariant) -> (r: Result<Value, SerError>)
    requires
        well_formed(*g),
        *g matches GVariant::Array { elem, .. } && elem is DictEntry,
    ensures
        match entries_error(children(*g), children(*g).len() as int) {
            None => r matches Ok(v) && payload(v, *g),
            Some(m) => r matches Err(SerError::Custom { message }) && message@ == m,
        },
    decreases g, 0int,
{
    let items = match g {
        GVariant::Array { items, .. } => items,
        _ => {
            assert(false);
            return Ok(Value::Unit);
        },
    };
    let mut es: Vec<(Value, Value)> = Vec::new();
    let mut i: usize = 0;
    while i < items.len()
        invariant
            i <= items@.len(),
            well_formed(*g),
            children(*g) == items@,
            *g matches GVariant::Array { elem, items: it } && elem is DictEntry && it == *items,
            entries_error(items@, i as int) is None,
            es@.len() == i,
            forall|k: int| #![trigger es@[k]] 0 <= k < i ==> (items@[k] matches GVariant::DictEntry(kk, vv)
                && wraps(es@[k].0, *kk) && wraps(es@[k].1, *vv)),
        decreases items.len() - i,
    {
        assert(items@[i as int] is DictEntry);
        assert(well_formed(items@[i as int]));
        match &items[i] {
            GVariant::DictEntry(k, v) => {
                proof {
                    let tv = (*g)->Array_items;
                    assert(decreases_to!(*g => (*g)->Array_items));
                    assert(decreases_to!(tv => tv@));
                    assert(decreases_to!(tv@ => tv@[i as int]));
                    assert(decreases_to!(tv@[i as int] => tv@[i as int]->DictEntry_0));
                    assert(decreases_to!(tv@[i as int] => tv@[i as int]->DictEntry_1));
                }
                let kw = match write_wrapped(&**k) {
                    Ok(w) => w,
                    Err(e) => {
                        assert(entries_error(items@, i as int + 1) == write_error(**k));
                        proof {
                            lemma_entries_error_stays(items@, i as int + 1, items@.len() as int);
                        }
                        return Err(e);
                    },
                };
                let vw = match write_wrapped(&**v) {
                    Ok(w) => w,
                    Err(e) => {
                        assert(entries_error(items@, i as int + 1) == write_error(**v));
                        proof {
                            lemma_entries_error_stays(items@, i as int + 1, items@.len() as int);
                        }
                        return Err(e);
                    },
                };
                es.push((kw, vw));
                assert(entries_error(items@, i as int + 1) is None);

            },
            _ => {
                assert(false);
            },
        }
        i = i + 1;
    }
    Ok(Value::Dict(es))
}

/// A variant is written as the tuple struct `glib::Variant` of its type string and its
/// value; handles and bare dictionary entries cannot be written.
pub fn serialize(g: &GVariant) -> (r: Result<Value, SerError>)
    requires
        well_formed(*g),
    ensures
        match write_error(*g) {
            None => r matches Ok(v) && wraps(v, *g),
            Some(m) => r matches Err(SerError::Custom { message }) && message@ == m,
        },
{
    write_wrapped(g)
}

} // verus!

verus! {

// ---------------------------------------------------------------------------------------
// Reading

/// The type of a value.
pub open spec fn type_of_matches(t: VariantType, g: GVariant) -> bool {
    type_string(t) == value_type_string(g)
}

/// Builds the type of a value.
pub fn type_of(g: &GVariant) -> (t: VariantType)
    ensures
        type_string(t) == value_type_string(*g),
    decreases g,
{
    match g {
        GVariant::Bool(_) => VariantType::Bool,
        GVariant::Byte(_) => VariantType::Byte,
        GVariant::Int16(_) => VariantType::Int16,
        GVariant::Uint16(_) => VariantType::Uint16,
        GVariant::Int32(_) => VariantType::Int32,
        GVariant::Uint32(_) => VariantType::Uint32,
        GVariant::Int64(_) => VariantType::Int64,
        GVariant::Uint64(_) => VariantType::Uint64,
        GVariant::Handle(_) => VariantType::Handle,
        GVariant::Double(_) => VariantType::Double,
        GVariant::Str(_) => VariantType::Str,
        GVariant::ObjectPath(_) => VariantType::ObjectPath,
        GVariant::Signature(_) => VariantType::Signature,
        GVariant::Variant(_) => VariantType::Variant,
        GVariant::Maybe { elem, .. } => VariantType::Maybe(Box::new(copy_type(elem))),
        GVariant::Array { elem, .. } => VariantType::Array(Box::new(copy_type(elem))),
        GVariant::Tuple(items) => {
            let mut ts: Vec<VariantType> = Vec::new();
            let mut i: usize = 0;
            while i < items.len()
                invariant
                    i <= items@.len(),
                    *g is Tuple && (*g)->Tuple_0 == *items,
                    ts@.len() == i,
                    types_string(ts@, i as int) == values_type_string(items@, i as int),
                decreases items.len() - i,
            {
                proof {
                    let tv = (*g)->Tuple_0;
                    assert(decreases_to!(*g => (*g)->Tuple_0));
                    assert(decreases_to!(tv => tv@));
                    assert(decreases_to!(tv@ => tv@[i as int]));
                }
                let t = type_of(&items[i]);
                let ghost before = ts@;
                ts.push(t);
                proof {
                    lemma_types_string_prefix(before, ts@, i as int);
                }
                i = i + 1;
            }
            VariantType::Tuple(ts)
        },
        GVariant::DictEntry(k, v) => VariantType::DictEntry(Box::new(type_of(&**k)), Box::new(type_of(&**v))),
    }
}

proof fn lemma_types_string_prefix(a: Seq<VariantType>, b: Seq<VariantType>, n: int)
    requires
        0 <= n <= a.len(),
        a.len() <= b.len(),
        forall|i: int| 0 <= i < a.len() ==> a[i] == b[i],
    ensures
        types_string(b, n) == types_string(a, n),
    decreases n,
{
    if n > 0 {
        lemma_types_string_prefix(a, b, n - 1);
    }
}

/// A copy of a type.
pub fn copy_type(t: &VariantType) -> (r: VariantType)
    ensures
        type_string(r) == type_string(*t),
    decreases t,
{
    match t {
        VariantType::Bool => VariantType::Bool,
        VariantType::Byte => VariantType::Byte,
        VariantType::Int16 => VariantType::Int16,
        VariantType::Uint16 => VariantType::Uint16,
        VariantType::Int32 => VariantType::Int32,
        VariantType::Uint32 => VariantType::Uint32,
        VariantType::Int64 => VariantType::Int64,
        VariantType::Uint64 => VariantType::Uint64,
        VariantType::Handle => VariantType::Handle,
        VariantType::Double => VariantType::Double,
        VariantType::Str => VariantType::Str,
        VariantType::ObjectPath => VariantType::ObjectPath,
        VariantType::Signature => VariantType::Signature,
        VariantType::Variant => VariantType::Variant,
        VariantType::Maybe(e) => VariantType::Maybe(Box::new(copy_type(&**e))),
        VariantType::Array(e) => VariantType::Array(Box::new(copy_type(&**e))),
        VariantType::Tuple(items) => {
            let mut ts: Vec<VariantType> = Vec::new();
            let mut i: usize = 0;
            while i < items.len()
                invariant
                    i <= items@.len(),
                    *t is Tuple && (*t)->Tuple_0 == *items,
                    ts@.len() == i,
                    types_string(ts@, i as int) == types_string(items@, i as int),
                decreases items.len() - i,
            {
                proof {
                    let tv = (*t)->Tuple_0;
                    assert(decreases_to!(*t => (*t)->Tuple_0));
                    assert(decreases_to!(tv => tv@));
                    assert(decreases_to!(tv@ => tv@[i as int]));
                }
                let c = copy_type(&items[i]);
                let ghost before = ts@;
                ts.push(c);
                proof {
                    lemma_types_string_prefix(before, ts@, i as int);
                }
                i = i + 1;
            }
            VariantType::Tuple(ts)
        },
        VariantType::DictEntry(k, v) => VariantType::DictEntry(Box::new(copy_type(&**k)), Box::new(copy_type(&**v))),
    }
}

} // verus!

verus! {

/// Whether a type can be read without GLib parsing a type string: it holds no variant
/// (`v`, which carries its own type string) and no signature (`g`, which must be one).
pub open spec fn readable_type(t: VariantType) -> bool
    decreases t,
{
    match t {
        VariantType::Variant => false,
        VariantType::Signature => false,
        VariantType::Maybe(e) => readable_type(*e),
        VariantType::Array(e) => readable_type(*e),
        VariantType::Tuple(items) => forall|i: int| 0 <= i < items@.len() ==> readable_type(#[trigger] items@[i]),
        VariantType::DictEntry(k, v) => readable_type(*k) && readable_type(*v),
        _ => true,
    }
}

/// Whether values of a type can be read here: see `readable_type`.
pub fn is_readable_type(t: &VariantType) -> (r: bool)
    ensures
        r == readable_type(*t),
    decreases t,
{
    match t {
        VariantType::Variant => false,
        VariantType::Signature => false,
        VariantType::Maybe(e) => is_readable_type(&**e),
        VariantType::Array(e) => is_readable_type(&**e),
        VariantType::Tuple(items) => {
            let mut i: usize = 0;
            while i < items.len()
                invariant
                    i <= items@.len(),
                    *t is Tuple && (*t)->Tuple_0 == *items,
                    forall|k: int| 0 <= k < i ==> readable_type(#[trigger] items@[k]),
                decreases items.len() - i,
            {
                proof {
                    let tv = (*t)->Tuple_0;
                    assert(decreases_to!(*t => (*t)->Tuple_0));
                    assert(decreases_to!(tv => tv@));
                    assert(decreases_to!(tv@ => tv@[i as int]));
                }
                if !is_readable_type(&items[i]) {
                    return false;
                }
                i = i + 1;
            }
            true
        },
        VariantType::DictEntry(k, v) => is_readable_type(&**k) && is_readable_type(&**v),
        _ => true,
    }
}

/// A character of an element of an object path.
pub open spec fn path_char(c: char) -> bool {
    ('a' <= c && c <= 'z') || ('A' <= c && c <= 'Z') || ('0' <= c && c <= '9') || c == '_'
}

/// A D-Bus object path: `/`, or `/` followed by non-empty elements of ASCII letters,
/// digits and `_`, separated by `/`.
pub open spec fn object_path_valid(s: Seq<char>) -> bool {
    &&& s.len() >= 1
    &&& s[0] == '/'
    &&& (s.len() == 1 || s[s.len() - 1] != '/')
    &&& forall|i: int| 1 <= i < s.len() ==> path_char(#[trigger] s[i]) || (s[i] == '/' && s[i - 1] != '/')
}

pub fn is_object_path(s: &str) -> (r: bool)
    ensures
        r == object_path_valid(s@),
{
    let n = s.unicode_len();
    if n == 0 || s.get_char(0) != '/' {
        return false;
    }
    if n > 1 && s.get_char(n - 1) == '/' {
        return false;
    }
    let mut i: usize = 1;
    while i < n
        invariant
            n == s@.len(),
            1 <= i <= n,
            forall|k: int| 1 <= k < i ==> path_char(#[trigger] s@[k]) || (s@[k] == '/' && s@[k - 1] != '/'),
        decreases n - i,
    {
        let c = s.get_char(i);
        let ok = ('a' <= c && c <= 'z') || ('A' <= c && c <= 'Z') || ('0' <= c && c <= '9') || c == '_'
            || (c == '/' && s.get_char(i - 1) != '/');
        if !ok {
            return false;
        }
        i = i + 1;
    }
    true
}

/// The element type of a maybe or array type.
pub open spec fn element(t: VariantType) -> VariantType {
    match t {
        VariantType::Maybe(e) => *e,
        VariantType::Array(e) => *e,
        _ => t,
    }
}

/// `g` is what reading `p` with the type `ty` gives, the value telling the reader which
/// kind it holds (as in a self-describing format): numbers and booleans as themselves,
/// strings as strings or object paths as `ty` asks, bytes as an array of bytes, the unit as
/// the empty tuple, an option (or, for a maybe type, any value) as a maybe of the element
/// type, a newtype struct as its content, a sequence as an array, tuple or entry of `ty`
/// (or its first element for another type), a map as an array of entries; each element of
/// a container must have the container's element type.
pub open spec fn reads(ty: VariantType, p: Value, g: GVariant) -> bool
    decreases p, 1int,
{
    if ty is Handle {
        false
    } else if ty is Maybe && !(p is Null || p is Unit || p is Present) {
        g matches GVariant::Maybe { elem, value: Some(x) } && type_string(elem) == value_type_string(*x)
            && reads_plain(element(ty), p, *x)
    } else {
        reads_plain(ty, p, g)
    }
}

/// Reading `p` once the reader has asked for the kind of `ty`.
pub open spec fn reads_plain(ty: VariantType, p: Value, g: GVariant) -> bool
    decreases p, 0int,
{
    match p {
        Value::Bool(b) => g == GVariant::Bool(b),
        Value::I16(x) => g == GVariant::Int16(x),
        Value::I32(x) => g == GVariant::Int32(x),
        Value::I64(x) => g == GVariant::Int64(x),
        Value::U8(x) => g == GVariant::Byte(x),
        Value::U16(x) => g == GVariant::Uint16(x),
        Value::U32(x) => g == GVariant::Uint32(x),
        Value::U64(x) => g == GVariant::Uint64(x),
        Value::F64(x) => g == GVariant::Double(x),
        Value::Str(s) => match ty {
            VariantType::Str => g matches GVariant::Str(t) && t@ == s@,
            VariantType::ObjectPath => object_path_valid(s@) && (g matches GVariant::ObjectPath(t) && t@ == s@),
            _ => false,
        },
        Value::Bytes(b) => g matches GVariant::Array { elem, items } && elem is Byte && items@.len() == b@.len()
            && forall|i: int| 0 <= i < b@.len() ==> items@[i] == GVariant::Byte(#[trigger] b@[i]),
        Value::Null => (ty is Maybe || ty is Array) && (g matches GVariant::Maybe { elem, value: None }
            && type_string(elem) == type_string(element(ty))),
        Value::Unit => if ty is Maybe {
            g matches GVariant::Maybe { elem, value: None } && type_string(elem) == type_string(element(ty))
        } else {
            g matches GVariant::Tuple(items) && items@.len() == 0
        },
        Value::Present(x) => (ty is Maybe || ty is Array) && (g matches GVariant::Maybe { elem, value: Some(y) }
            && type_string(elem) == value_type_string(*y) && reads(element(ty), *x, *y)),
        Value::NewtypeStruct { value, .. } => reads(ty, *value, g),
        Value::List(ps) => reads_seq(ty, ps@, g),
        Value::Tuple(ps) => reads_seq(ty, ps@, g),
        Value::TupleStruct { fields, .. } => reads_seq(ty, fields@, g),
        Value::Dict(es) => ty matches VariantType::Array(e) && (*e matches VariantType::DictEntry(k, v)
            && g matches GVariant::Array { elem, items } && type_string(elem) == type_string(*e)
            && items@.len() == es@.len()
            && forall|i: int| #![trigger items@[i]] 0 <= i < es@.len() ==> items@[i] is DictEntry
                && reads(*k, es@[i].0, *items@[i]->DictEntry_0) && type_string(*k) == value_type_string(*items@[i]->DictEntry_0)
                && reads(*v, es@[i].1, *items@[i]->DictEntry_1) && type_string(*v) == value_type_string(*items@[i]->DictEntry_1)),
        _ => false,
    }
}

/// Reading the elements `ps` of a sequence with the type `ty`.
pub open spec fn reads_seq(ty: VariantType, ps: Seq<Value>, g: GVariant) -> bool
    decreases ps, 0int,
{
    match ty {
        VariantType::Array(e) => g matches GVariant::Array { elem, items } && type_string(elem) == type_string(*e)
            && items@.len() == ps.len() && forall|i: int| #![trigger ps[i]] 0 <= i < ps.len() ==>
                reads(*e, ps[i], items@[i]) && value_type_string(items@[i]) == type_string(*e),
        VariantType::Tuple(ts) => ps.len() >= ts@.len() && (g matches GVariant::Tuple(items) && items@.len() == ts@.len()
            && forall|i: int| #![trigger items@[i]] 0 <= i < ts@.len() ==>
                reads(ts@[i], ps[i], items@[i]) && value_type_string(items@[i]) == type_string(ts@[i])),
        VariantType::DictEntry(k, v) => ps.len() >= 2 && (g matches GVariant::DictEntry(a, b)
            && reads(*k, ps[0], *a) && value_type_string(*a) == type_string(*k)
            && reads(*v, ps[1], *b) && value_type_string(*b) == type_string(*v)),
        _ => ps.len() >= 1 && reads(ty, ps[0], g),
    }
}


/// Values whose type strings are those of the first `n` types have, together, the type
/// string of those types.
proof fn lemma_values_types_string(items: Seq<GVariant>, ts: Seq<VariantType>, n: int)
    requires
        0 <= n <= items.len(),
        items.len() == ts.len(),
        forall|i: int| 0 <= i < n ==> value_type_string(#[trigger] items[i]) == type_string(ts[i]),
    ensures
        values_type_string(items, n) == types_string(ts, n),
    decreases n,
{
    if n > 0 {
        lemma_values_types_string(items, ts, n - 1);
    }
}

/// Two readings of one value with one type have the same type string.
proof fn lemma_reads_one_type(ty: VariantType, p: Value, g1: GVariant, g2: GVariant)
    requires
        reads(ty, p, g1),
        reads(ty, p, g2),
    ensures
        value_type_string(g1) == value_type_string(g2),
    decreases p, 1int,
{
    if ty is Maybe && !(p is Null || p is Unit || p is Present) {
        let x1 = *g1->Maybe_value->Some_0;
        let x2 = *g2->Maybe_value->Some_0;
        lemma_reads_plain_one_type(element(ty), p, x1, x2);
    } else {
        lemma_reads_plain_one_type(ty, p, g1, g2);
    }
}

proof fn lemma_reads_plain_one_type(ty: VariantType, p: Value, g1: GVariant, g2: GVariant)
    requires
        reads_plain(ty, p, g1),
        reads_plain(ty, p, g2),
    ensures
        value_type_string(g1) == value_type_string(g2),
    decreases p, 0int,
{
    match p {
        Value::Present(x) => {
            let y1 = *g1->Maybe_value->Some_0;
            let y2 = *g2->Maybe_value->Some_0;
            lemma_reads_one_type(element(ty), *x, y1, y2);
            assert(g1 is Maybe && g2 is Maybe);
            assert(value_type_string(g1) == "m"@ + type_string(g1->Maybe_elem));
            assert(value_type_string(g2) == "m"@ + type_string(g2->Maybe_elem));
            assert(type_string(g1->Maybe_elem) == type_string(g2->Maybe_elem));
        },
        Value::NewtypeStruct { value, .. } => {
            lemma_reads_one_type(ty, *value, g1, g2);
        },
        Value::List(ps) => {
            assert(decreases_to!(p => ps@));
            lemma_reads_seq_one_type(ty, ps@, g1, g2);
        },
        Value::Tuple(ps) => {
            assert(decreases_to!(p => ps@));
            lemma_reads_seq_one_type(ty, ps@, g1, g2);
        },
        Value::TupleStruct { fields, .. } => {
            assert(decreases_to!(p => fields@));
            lemma_reads_seq_one_type(ty, fields@, g1, g2);
        },
        Value::Null => {
            assert(value_type_string(g1) == "m"@ + type_string(g1->Maybe_elem));
            assert(value_type_string(g2) == "m"@ + type_string(g2->Maybe_elem));
        },
        Value::Unit => {
            if ty is Maybe {
                assert(value_type_string(g1) == "m"@ + type_string(g1->Maybe_elem));
                assert(value_type_string(g2) == "m"@ + type_string(g2->Maybe_elem));
            } else {
                assert(g1->Tuple_0@ =~= g2->Tuple_0@);
            }
        },
        Value::Dict(_) => {
            assert(value_type_string(g1) == "a"@ + type_string(g1->Array_elem));
            assert(value_type_string(g2) == "a"@ + type_string(g2->Array_elem));
        },
        _ => {},
    }
}

proof fn lemma_reads_seq_one_type(ty: VariantType, ps: Seq<Value>, g1: GVariant, g2: GVariant)
    requires
        reads_seq(ty, ps, g1),
        reads_seq(ty, ps, g2),
    ensures
        value_type_string(g1) == value_type_string(g2),
    decreases ps, 0int,
{
    match ty {
        VariantType::Array(_) => {},
        VariantType::Tuple(ts) => {
            let items1 = g1->Tuple_0@;
            let items2 = g2->Tuple_0@;
            lemma_values_types_string(items1, ts@, ts@.len() as int);
            lemma_values_types_string(items2, ts@, ts@.len() as int);
        },
        VariantType::DictEntry(_, _) => {},
        _ => {
            lemma_reads_one_type(ty, ps[0], g1, g2);
        },
    }
}

} // verus!

verus! {

/// The message of an element whose type differs from its container's.
pub open spec fn mismatch_message(expected: Seq<char>, actual: Seq<char>) -> Seq<char> {
    "Type mismatch: Expected '"@ + expected + "' got '"@ + actual + "'"@
}

fn check_type(g: &GVariant, t: &VariantType) -> (r: Result<(), DeError>)
    ensures
        match r {
            Ok(()) => value_type_string(*g) == type_string(*t),
            Err(e) => value_type_string(*g) != type_string(*t) && (e matches DeError::Custom { message }
                && message@ == mismatch_message(type_string(*t), value_type_string(*g))),
        },
{
    let mut actual = String::new();
    append_value_type_string(&mut actual, g);
    let mut expected = String::new();
    append_type_string(&mut expected, t);
    if str_eq(actual.as_str(), expected.as_str()) {
        Ok(())
    } else {
        let mut message = "Type mismatch: Expected '".to_owned();
        message.append(expected.as_str());
        message.append("' got '");
        message.append(actual.as_str());
        message.append("'");
        Err(DeError::Custom { message })
    }
}

fn element_of(t: &VariantType) -> (r: &VariantType)
    ensures
        *r == element(*t),
{
    match t {
        VariantType::Maybe(e) => &**e,
        VariantType::Array(e) => &**e,
        _ => t,
    }
}

/// Reads a value of the type `ty` from `p`: see `reads`. Handles are refused.
pub fn read_payload(ty: &VariantType, p: &Value) -> (r: Result<GVariant, DeError>)
    requires
        readable_type(*ty),
    ensures
        r matches Ok(g) ==> reads(*ty, *p, g),
        r is Ok <==> exists|g: GVariant| reads(*ty, *p, g),
        *ty is Handle ==> (r matches Err(DeError::Custom { message }) && message@ == handle_message()),
    decreases p, 2int,
{
    if matches!(ty, VariantType::Handle) {
        return Err(DeError::Custom { message: "HANDLE values not supported".to_owned() });
    }
    if matches!(ty, VariantType::Maybe(_)) && !matches!(p, Value::Null | Value::Unit | Value::Present(_)) {
        let e = element_of(ty);
        assert(readable_type(*e));
        return match read_plain(e, p) {
            Ok(x) => {
                let elem = type_of(&x);
                let r = GVariant::Maybe { elem, value: Some(Box::new(x)) };
                assert(reads(*ty, *p, r));
                Ok(r)
            },
            Err(err) => {
                assert forall|g: GVariant| !reads(*ty, *p, g) by {
                    if reads(*ty, *p, g) {
                        assert(reads_plain(*e, *p, *g->Maybe_value->Some_0));
                    }
                }
                Err(err)
            },
        };
    }
    assert forall|g: GVariant| reads(*ty, *p, g) == reads_plain(*ty, *p, g) by {}
    read_plain(ty, p)
}

fn unsupported(ty: &VariantType) -> (e: DeError)
    ensures
        e matches DeError::Custom { message } && message@ == "Type not supported: '"@ + type_string(*ty) + "'"@,
{
    let mut message = "Type not supported: '".to_owned();
    append_type_string(&mut message, ty);
    message.append("'");
    DeError::Custom { message }
}

fn read_plain(ty: &VariantType, p: &Value) -> (r: Result<GVariant, DeError>)
    requires
        readable_type(*ty),
    ensures
        r matches Ok(g) ==> reads_plain(*ty, *p, g),
        r is Ok <==> exists|g: GVariant| reads_plain(*ty, *p, g),
    decreases p, 1int,
{
    let r = match p {
        Value::Bool(b) => Ok(GVariant::Bool(*b)),
        Value::I16(x) => Ok(GVariant::Int16(*x)),
        Value::I32(x) => Ok(GVariant::Int32(*x)),
        Value::I64(x) => Ok(GVariant::Int64(*x)),
        Value::U8(x) => Ok(GVariant::Byte(*x)),
        Value::U16(x) => Ok(GVariant::Uint16(*x)),
        Value::U32(x) => Ok(GVariant::Uint32(*x)),
        Value::U64(x) => Ok(GVariant::Uint64(*x)),
        Value::F64(x) => Ok(GVariant::Double(*x)),
        Value::Str(s) => match ty {
            VariantType::Str => Ok(GVariant::Str(s.clone())),
            VariantType::ObjectPath => {
                if is_object_path(s.as_str()) {
                    Ok(GVariant::ObjectPath(s.clone()))
                } else {
                    Err(DeError::InvalidValue)
                }
            },
            _ => Err(unsupported(ty)),
        },
        Value::Bytes(b) => {
            let mut items: Vec<GVariant> = Vec::new();
            let mut i: usize = 0;
            while i < b.len()
                invariant
                    i <= b@.len(),
                    items@.len() == i,
                    forall|k: int| 0 <= k < i ==> items@[k] == GVariant::Byte(#[trigger] b@[k]),
                decreases b.len() - i,
            {
                items.push(GVariant::Byte(b[i]));
                i = i + 1;
            }
            Ok(GVariant::Array { elem: VariantType::Byte, items })
        },
        Value::Null => {
            if matches!(ty, VariantType::Maybe(_) | VariantType::Array(_)) {
                Ok(GVariant::Maybe { elem: copy_type(element_of(ty)), value: None })
            } else {
                Err(unsupported(ty))
            }
        },
        Value::Unit => {
            if matches!(ty, VariantType::Maybe(_)) {
                Ok(GVariant::Maybe { elem: copy_type(element_of(ty)), value: None })
            } else {
                Ok(GVariant::Tuple(Vec::new()))
            }
        },
        Value::Present(x) => {
            if matches!(ty, VariantType::Maybe(_) | VariantType::Array(_)) {
                let e = element_of(ty);
                assert(readable_type(*e));
                match read_payload(e, &**x) {
                    Ok(y) => {
                        let elem = type_of(&y);
                        let r = GVariant::Maybe { elem, value: Some(Box::new(y)) };
                        assert(reads_plain(*ty, *p, r));
                        Ok(r)
                    },
                    Err(err) => {
                        assert forall|g: GVariant| !reads_plain(*ty, *p, g) by {
                            if reads_plain(*ty, *p, g) {
                                assert(reads(*e, **x, *g->Maybe_value->Some_0));
                            }
                        }
                        Err(err)
                    },
                }
            } else {
                Err(unsupported(ty))
            }
        },
        Value::NewtypeStruct { value, .. } => {
            assert forall|g: GVariant| reads_plain(*ty, *p, g) == reads(*ty, **value, g) by {}
            read_payload(ty, &**value)
        },
        Value::List(ps) => {
            assert forall|g: GVariant| reads_plain(*ty, *p, g) == reads_seq(*ty, ps@, g) by {}
            read_seq(ty, p, ps)
        },
        Value::Tuple(ps) => {
            assert forall|g: GVariant| reads_plain(*ty, *p, g) == reads_seq(*ty, ps@, g) by {}
            read_seq(ty, p, ps)
        },
        Value::TupleStruct { fields, .. } => {
            assert forall|g: GVariant| reads_plain(*ty, *p, g) == reads_seq(*ty, fields@, g) by {}
            read_seq(ty, p, fields)
        },
        Value::Dict(es) => read_dict(ty, p, es),
        _ => Err(DeError::InvalidType),
    };
    proof {
        if r is Ok {
            assert(reads_plain(*ty, *p, r->Ok_0));
        }
    }
    r
}

fn read_seq(ty: &VariantType, p: &Value, ps: &Vec<Value>) -> (r: Result<GVariant, DeError>)
    requires
        readable_type(*ty),
        (*p matches Value::List(x) && x == *ps) || (*p matches Value::Tuple(x) && x == *ps)
            || (*p matches Value::TupleStruct { fields, .. } && fields == *ps),
    ensures
        r matches Ok(g) ==> reads_seq(*ty, ps@, g),
        r is Ok <==> exists|g: GVariant| reads_seq(*ty, ps@, g),
    decreases p, 0int,
{
    proof {
        assert(decreases_to!(*ps => ps@));
    }
    match ty {
        VariantType::Array(e) => {
            let mut items: Vec<GVariant> = Vec::new();
            let mut i: usize = 0;
            while i < ps.len()
                invariant
                    i <= ps@.len(),
                    readable_type(**e),
                    *ty is Array && (*ty)->Array_0 == *e,
                    (*p matches Value::List(x) && x == *ps) || (*p matches Value::Tuple(x) && x == *ps)
                        || (*p matches Value::TupleStruct { fields, .. } && fields == *ps),
                    items@.len() == i,
                    forall|k: int| #![trigger ps@[k]] 0 <= k < i ==>
                        reads(**e, ps@[k], items@[k]) && value_type_string(items@[k]) == type_string(**e),
                decreases ps.len() - i,
            {
                proof {
                    if *p is List {
                        assert(decreases_to!(*p => (*p)->List_0));
                    } else if *p is Tuple {
                        assert(decreases_to!(*p => (*p)->Tuple_0));
                    } else {
                        assert(decreases_to!(*p => (*p)->TupleStruct_fields));
                    }
                    assert(decreases_to!(*ps => ps@));
                    assert(decreases_to!(ps@ => ps@[i as int]));
                }
                let x = match read_payload(&**e, &ps[i]) {
                    Ok(x) => x,
                    Err(err) => {
                        assert forall|g: GVariant| !reads_seq(*ty, ps@, g) by {
                            if reads_seq(*ty, ps@, g) {
                                assert(reads(**e, ps@[i as int], g->Array_items@[i as int]));
                            }
                        }
                        return Err(err);
                    },
                };
                match check_type(&x, &**e) {
                    Ok(()) => {},
                    Err(err) => {
                        assert forall|g: GVariant| !reads_seq(*ty, ps@, g) by {
                            if reads_seq(*ty, ps@, g) {
                                lemma_reads_one_type(**e, ps@[i as int], x, g->Array_items@[i as int]);
                            }
                        }
                        return Err(err);
                    },
                }
                let ghost gx = x;
                items.push(x);
                assert(items@[i as int] == gx);
                assert(reads(**e, ps@[i as int], gx));
                i = i + 1;
            }
            let r = GVariant::Array { elem: copy_type(&**e), items };
            assert(reads_seq(*ty, ps@, r));
            Ok(r)
        },
        VariantType::Tuple(ts) => {
            let mut items: Vec<GVariant> = Vec::new();
            let mut i: usize = 0;
            while i < ts.len()
                invariant
                    i <= ts@.len(),
                    readable_type(*ty),
                    *ty is Tuple && (*ty)->Tuple_0 == *ts,
                    (*p matches Value::List(x) && x == *ps) || (*p matches Value::Tuple(x) && x == *ps)
                        || (*p matches Value::TupleStruct { fields, .. } && fields == *ps),
                    items@.len() == i,
                    i <= ps@.len(),
                    forall|k: int| #![trigger items@[k]] 0 <= k < i ==>
                        reads(ts@[k], ps@[k], items@[k]) && value_type_string(items@[k]) == type_string(ts@[k]),
                decreases ts.len() - i,
            {
                if i >= ps.len() {
                    assert forall|g: GVariant| !reads_seq(*ty, ps@, g) by {}
                    return Err(DeError::InvalidLength { len: i });
                }
                proof {
                    if *p is List {
                        assert(decreases_to!(*p => (*p)->List_0));
                    } else if *p is Tuple {
                        assert(decreases_to!(*p => (*p)->Tuple_0));
                    } else {
                        assert(decreases_to!(*p => (*p)->TupleStruct_fields));
                    }
                    assert(decreases_to!(*ps => ps@));
                    assert(decreases_to!(ps@ => ps@[i as int]));
                    assert(readable_type(ts@[i as int]));
                }
                let x = match read_payload(&ts[i], &ps[i]) {
                    Ok(x) => x,
                    Err(err) => {
                        assert forall|g: GVariant| !reads_seq(*ty, ps@, g) by {
                            if reads_seq(*ty, ps@, g) {
                                assert(reads(ts@[i as int], ps@[i as int], g->Tuple_0@[i as int]));
                            }
                        }
                        return Err(err);
                    },
                };
                match check_type(&x, &ts[i]) {
                    Ok(()) => {},
                    Err(err) => {
                        assert forall|g: GVariant| !reads_seq(*ty, ps@, g) by {
                            if reads_seq(*ty, ps@, g) {
                                lemma_reads_one_type(ts@[i as int], ps@[i as int], x, g->Tuple_0@[i as int]);
                            }
                        }
                        return Err(err);
                    },
                }
                let ghost gx = x;
                items.push(x);
                assert(items@[i as int] == gx);
                assert(reads(ts@[i as int], ps@[i as int], gx));
                i = i + 1;
            }
            let r = GVariant::Tuple(items);
            assert(reads_seq(*ty, ps@, r));
            Ok(r)
        },
        VariantType::DictEntry(k, v) => {
            if ps.len() < 2 {
                assert forall|g: GVariant| !reads_seq(*ty, ps@, g) by {}
                return Err(DeError::InvalidLength { len: ps.len() });
            }
            proof {
                if *p is List {
                    assert(decreases_to!(*p => (*p)->List_0));
                } else if *p is Tuple {
                    assert(decreases_to!(*p => (*p)->Tuple_0));
                } else {
                    assert(decreases_to!(*p => (*p)->TupleStruct_fields));
                }
                assert(decreases_to!(*ps => ps@));
                assert(decreases_to!(ps@ => ps@[0]));
                assert(decreases_to!(ps@ => ps@[1]));
            }
            let a = match read_payload(&**k, &ps[0]) {
                Ok(a) => a,
                Err(err) => {
                    assert forall|g: GVariant| !reads_seq(*ty, ps@, g) by {
                        if reads_seq(*ty, ps@, g) {
                            assert(reads(**k, ps@[0], *g->DictEntry_0));
                        }
                    }
                    return Err(err);
                },
            };
            match check_type(&a, &**k) {
                Ok(()) => {},
                Err(err) => {
                    assert forall|g: GVariant| !reads_seq(*ty, ps@, g) by {
                        if reads_seq(*ty, ps@, g) {
                            lemma_reads_one_type(**k, ps@[0], a, *g->DictEntry_0);
                        }
                    }
                    return Err(err);
                },
            }
            let b = match read_payload(&**v, &ps[1]) {
                Ok(b) => b,
                Err(err) => {
                    assert forall|g: GVariant| !reads_seq(*ty, ps@, g) by {
                        if reads_seq(*ty, ps@, g) {
                            assert(reads(**v, ps@[1], *g->DictEntry_1));
                        }
                    }
                    return Err(err);
                },
            };
            match check_type(&b, &**v) {
                Ok(()) => {},
                Err(err) => {
                    assert forall|g: GVariant| !reads_seq(*ty, ps@, g) by {
                        if reads_seq(*ty, ps@, g) {
                            lemma_reads_one_type(**v, ps@[1], b, *g->DictEntry_1);
                        }
                    }
                    return Err(err);
                },
            }
            let r = GVariant::DictEntry(Box::new(a), Box::new(b));
            assert(reads_seq(*ty, ps@, r));
            Ok(r)
        },
        _ => {
            if ps.len() < 1 {
                assert forall|g: GVariant| !reads_seq(*ty, ps@, g) by {}
                return Err(DeError::InvalidLength { len: 0 });
            }
            proof {
                if *p is List {
                    assert(decreases_to!(*p => (*p)->List_0));
                } else if *p is Tuple {
                    assert(decreases_to!(*p => (*p)->Tuple_0));
                } else {
                    assert(decreases_to!(*p => (*p)->TupleStruct_fields));
                }
                assert(decreases_to!(*ps => ps@));
                assert(decreases_to!(ps@ => ps@[0]));
            }
            let r = read_payload(ty, &ps[0]);
            proof {
                if r is Ok {
                    assert(reads_seq(*ty, ps@, r->Ok_0));
                } else {
                    assert forall|g: GVariant| !reads_seq(*ty, ps@, g) by {
                        if reads_seq(*ty, ps@, g) {
                            assert(reads(*ty, ps@[0], g));
                        }
                    }
                }
            }
            r
        },
    }
}

fn read_dict(ty: &VariantType, p: &Value, es: &Vec<(Value, Value)>) -> (r: Result<GVariant, DeError>)
    requires
        readable_type(*ty),
        *p matches Value::Dict(x) && x == *es,
    ensures
        r matches Ok(g) ==> reads_plain(*ty, *p, g),
        r is Ok <==> exists|g: GVariant| reads_plain(*ty, *p, g),
    decreases p, 0int,
{
    let (e, k, v) = match ty {
        VariantType::Array(e) => match &**e {
            VariantType::DictEntry(k, v) => (e, k, v),
            _ => return Err(unsupported(ty)),
        },
        _ => return Err(unsupported(ty)),
    };
    assert(readable_type(**e));
    assert(readable_type(**k) && readable_type(**v));
    let mut items: Vec<GVariant> = Vec::new();
    let mut i: usize = 0;
    while i < es.len()
        invariant
            i <= es@.len(),
            readable_type(**k) && readable_type(**v),
            *ty is Array && (*ty)->Array_0 == *e,
            **e is DictEntry && (**e)->DictEntry_0 == *k && (**e)->DictEntry_1 == *v,
            *p matches Value::Dict(x) && x == *es,
            items@.len() == i,
            forall|j: int| #![trigger items@[j]] 0 <= j < i ==> items@[j] is DictEntry
                && reads(**k, es@[j].0, *items@[j]->DictEntry_0) && type_string(**k) == value_type_string(*items@[j]->DictEntry_0)
                && reads(**v, es@[j].1, *items@[j]->DictEntry_1) && type_string(**v) == value_type_string(*items@[j]->DictEntry_1),
        decreases es.len() - i,
    {
        proof {
            assert(decreases_to!(*p => (*p)->Dict_0));
            assert(decreases_to!(*es => es@));
            assert(decreases_to!(es@ => es@[i as int]));
            assert(decreases_to!(es@[i as int] => es@[i as int].0));
            assert(decreases_to!(es@[i as int] => es@[i as int].1));
        }
        let a = match read_payload(&**k, &es[i].0) {
            Ok(a) => a,
            Err(err) => {
                assert forall|g: GVariant| !reads_plain(*ty, *p, g) by {
                    if reads_plain(*ty, *p, g) {
                        assert(reads(**k, es@[i as int].0, *g->Array_items@[i as int]->DictEntry_0));
                    }
                }
                return Err(err);
            },
        };
        match check_type(&a, &**k) {
            Ok(()) => {},
            Err(err) => {
                assert forall|g: GVariant| !reads_plain(*ty, *p, g) by {
                    if reads_plain(*ty, *p, g) {
                        lemma_reads_one_type(**k, es@[i as int].0, a, *g->Array_items@[i as int]->DictEntry_0);
                    }
                }
                return Err(err);
            },
        }
        let b = match read_payload(&**v, &es[i].1) {
            Ok(b) => b,
            Err(err) => {
                assert forall|g: GVariant| !reads_plain(*ty, *p, g) by {
                    if reads_plain(*ty, *p, g) {
                        assert(reads(**v, es@[i as int].1, *g->Array_items@[i as int]->DictEntry_1));
                    }
                }
                return Err(err);
            },
        };
        match check_type(&b, &**v) {
            Ok(()) => {},
            Err(err) => {
                assert forall|g: GVariant| !reads_plain(*ty, *p, g) by {
                    if reads_plain(*ty, *p, g) {
                        lemma_reads_one_type(**v, es@[i as int].1, b, *g->Array_items@[i as int]->DictEntry_1);
                    }
                }
                return Err(err);
            },
        }
        let ghost before = items@;
        let ghost ga = a;
        let ghost gb = b;
        items.push(GVariant::DictEntry(Box::new(a), Box::new(b)));
        assert(forall|j: int| 0 <= j < i ==> items@[j] == before[j]);
        assert(items@[i as int] == GVariant::DictEntry(Box::new(ga), Box::new(gb)));
        assert(reads(**k, es@[i as int].0, ga) && reads(**v, es@[i as int].1, gb));
        assert forall|j: int| #![trigger items@[j]] 0 <= j < i + 1 implies items@[j] is DictEntry
                && reads(**k, es@[j].0, *items@[j]->DictEntry_0) && type_string(**k) == value_type_string(*items@[j]->DictEntry_0)
                && reads(**v, es@[j].1, *items@[j]->DictEntry_1) && type_string(**v) == value_type_string(*items@[j]->DictEntry_1) by {
            if j < i {
                assert(items@[j] == before[j]);
            }
        }
        i = i + 1;
    }
    let r = GVariant::Array { elem: copy_type(&**e), items };
    assert(reads_plain(*ty, *p, r));
    Ok(r)
}

/// The type string and the value of a written variant.
pub open spec fn split(v: Value) -> Result<(Seq<char>, Value), DeError> {
    match v {
        Value::TupleStruct { fields, .. } => split_fields(fields@),
        Value::Tuple(fields) => split_fields(fields@),
        Value::List(fields) => split_fields(fields@),
        _ => Err(DeError::InvalidType),
    }
}

pub open spec fn split_fields(f: Seq<Value>) -> Result<(Seq<char>, Value), DeError> {
    if f.len() == 0 {
        Err(DeError::InvalidLength { len: 0 })
    } else {
        match f[0] {
            Value::Str(t) => if f.len() < 2 { Err(DeError::InvalidLength { len: 1 }) } else { Ok((t@, f[1])) },
            _ => Err(DeError::InvalidType),
        }
    }
}

/// Splits a written variant into its type string and its value. Parsing the type string
/// is GLib's; `read_variant` then reads the value with the parsed type.
pub fn deserialize(v: &Value) -> (r: Result<(&String, &Value), DeError>)
    ensures
        match split(*v) {
            Ok((t, p)) => r matches Ok((t2, p2)) && t2@ == t && *p2 == p,
            Err(e) => r == Err::<(&String, &Value), DeError>(e),
        },
{
    let fields = match v {
        Value::TupleStruct { fields, .. } => fields,
        Value::Tuple(fields) => fields,
        Value::List(fields) => fields,
        _ => return Err(DeError::InvalidType),
    };
    if fields.len() == 0 {
        return Err(DeError::InvalidLength { len: 0 });
    }
    let t = match &fields[0] {
        Value::Str(t) => t,
        _ => return Err(DeError::InvalidType),
    };
    if fields.len() < 2 {
        return Err(DeError::InvalidLength { len: 1 });
    }
    Ok((t, &fields[1]))
}

/// Whether the type string parsed from a written variant may be used: GLib's parse of it
/// failed (with its message), or gave an indefinite type, or gave a definite type.
pub enum ParsedType {
    Invalid { message: String },
    Indefinite,
    Definite(VariantType),
}

/// The type to read a value with, or the error for a type string that cannot be used.
pub fn value_type(parsed: ParsedType) -> (r: Result<VariantType, DeError>)
    ensures
        match parsed {
            ParsedType::Invalid { message } => r matches Err(DeError::Custom { message: m }) && m@ == message@,
            ParsedType::Indefinite => r matches Err(DeError::Custom { message: m }) && m@ == "Type must be definite"@,
            ParsedType::Definite(t) => r == Ok::<VariantType, DeError>(t),
        },
{
    match parsed {
        ParsedType::Invalid { message } => Err(DeError::Custom { message }),
        ParsedType::Indefinite => Err(DeError::Custom { message: "Type must be definite".to_owned() }),
        ParsedType::Definite(t) => Ok(t),
    }
}

/// Reads a variant from what GLib made of its type string and from its written value:
/// the error of a type string that cannot be used; for a type whose values can be read
/// here (see `readable_type`), what `read_payload` reads; nothing for a type that holds
/// variants or signatures, whose values GLib reads.
pub fn read_variant(parsed: ParsedType, payload: &Value) -> (r: Result<Option<GVariant>, DeError>)
    ensures
        match parsed {
            ParsedType::Invalid { message } => r matches Err(DeError::Custom { message: m }) && m@ == message@,
            ParsedType::Indefinite => r matches Err(DeError::Custom { message: m }) && m@ == "Type must be definite"@,
            ParsedType::Definite(t) => if readable_type(t) {
                &&& (r matches Ok(Some(g)) ==> reads(t, *payload, g))
                &&& (r matches Ok(Some(_)) <==> exists|g: GVariant| reads(t, *payload, g))
                &&& !(r matches Ok(None))
                &&& (t is Handle ==> (r matches Err(DeError::Custom { message }) && message@ == handle_message()))
            } else {
                r matches Ok(None)
            },
        },
{
    let t = match value_type(parsed) {
        Ok(t) => t,
        Err(e) => return Err(e),
    };
    if !is_readable_type(&t) {
        return Ok(None);
    }
    match read_payload(&t, payload) {
        Ok(g) => Ok(Some(g)),
        Err(e) => Err(e),
    }
}

} // verus!

verus! {

/// What `serialize` writes splits back into the variant's type string and its value.
pub proof fn split_written(v: Value, g: GVariant)
    requires
        wraps(v, g),
    ensures
        split(v) matches Ok((t, p)) && t == value_type_string(g) && payload(p, g),
{
}

/// The type of a number, a boolean or a string.
pub open spec fn scalar_type(g: GVariant) -> Option<VariantType> {
    match g {
        GVariant::Bool(_) => Some(VariantType::Bool),
        GVariant::Byte(_) => Some(VariantType::Byte),
        GVariant::Int16(_) => Some(VariantType::Int16),
        GVariant::Uint16(_) => Some(VariantType::Uint16),
        GVariant::Int32(_) => Some(VariantType::Int32),
        GVariant::Uint32(_) => Some(VariantType::Uint32),
        GVariant::Int64(_) => Some(VariantType::Int64),
        GVariant::Uint64(_) => Some(VariantType::Uint64),
        GVariant::Double(_) => Some(VariantType::Double),
        GVariant::Str(_) => Some(VariantType::Str),
        _ => None,
    }
}

/// A variant that holds a number, a boolean or a string is read back as itself from what
/// `serialize` writes for it, with its own type.
pub proof fn scalar_round_trip(g: GVariant, p: Value)
    requires
        scalar_type(g) is Some,
        payload(p, g),
    ensures
        reads(scalar_type(g)->Some_0, p, g),
{
}

} // verus!
