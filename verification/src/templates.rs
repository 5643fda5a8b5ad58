//! Widget templates: the children that fields bind, the callbacks that methods provide,
//! and the check that an inline template defines every child that is bound.
use vstd::prelude::*;
use vstd::string::StringExecFns;
use crate::text::{append_decimal, contains_name, decimal_spec, lemma_push_contains, str_eq, utf8_decode};
use crate::type_definition::TypeMode;
use crate::util::Errors;

verus! {

/// Where a template comes from: a file, a string written inline, or a resource; each with
/// where it is written.
pub enum TemplateSource<S> {
    File(S, String),
    String(S, String),
    Resource(S, String),
}

impl<S: Copy> TemplateSource<S> {
    pub fn span(&self) -> (r: S)
        ensures
            r == match self {
                TemplateSource::File(s, _) => *s,
                TemplateSource::String(s, _) => *s,
                TemplateSource::Resource(s, _) => *s,
            },
    {
        match self {
            TemplateSource::File(s, _) => *s,
            TemplateSource::String(s, _) => *s,
            TemplateSource::Resource(s, _) => *s,
        }
    }
}

/// How a template child's field is reached: by its name, or by its position.
pub enum FieldRef {
    Named(String),
    Index(usize),
}

/// A field bound to an object of the template: the object's id and where it is given, and
/// whether the child is internal.
pub struct TemplateChild<S> {
    pub id: String,
    pub span: S,
    pub internal: bool,
    pub field: FieldRef,
}

/// What `#[template_child(...)]` says of a field: the id, with where it is written, and
/// whether the child is internal.
pub struct TemplateChildAttrs<S> {
    pub id: Option<(S, String)>,
    pub internal: bool,
}

/// A field of the struct: its name with where it is, when it has one, and where it is.
pub struct FieldInput<S> {
    pub ident: Option<(S, String)>,
    pub span: S,
}

pub open spec fn unnamed_child_message() -> Seq<char> {
    "Unnamed field must have #[template_child(id = \"...\")]"@
}

pub open spec fn duplicate_child_message(id: Seq<char>) -> Seq<char> {
    "Duplicate template child with id `"@ + id + "`"@
}

/// The id that a field binds, with where it is given: the attribute's, else the field's
/// name.
pub open spec fn child_id<S>(f: FieldInput<S>, attrs: TemplateChildAttrs<S>) -> Option<(S, Seq<char>)> {
    match attrs.id {
        Some((s, id)) => Some((s, id@)),
        None => match f.ident {
            Some((s, n)) => Some((s, n@)),
            None => None,
        },
    }
}

pub open spec fn child_ids<S>(cs: Seq<TemplateChild<S>>) -> Seq<Seq<char>> {
    cs.map_values(|c: TemplateChild<S>| c.id@)
}

impl<S: Copy> TemplateChild<S> {
    /// Records the child that field `index` binds; a field with neither an id nor a name,
    /// and an id bound twice, are reported.
    pub fn from_field(f: FieldInput<S>, index: usize, attrs: TemplateChildAttrs<S>, children: &mut Vec<TemplateChild<S>>,
        errors: &mut Errors<S>)
        ensures
            match child_id(f, attrs) {
                None => {
                    &&& final(children)@ == old(children)@
                    &&& final(errors)@ == old(errors)@.push((f.span, unnamed_child_message()))
                },
                Some((s, id)) => {
                    let c = final(children)@.last();
                    &&& final(children)@.drop_last() == old(children)@
                    &&& final(children)@.len() == old(children)@.len() + 1
                    &&& c.id@ == id
                    &&& c.span == s
                    &&& c.internal == attrs.internal
                    &&& match f.ident {
                        Some((_, n)) => c.field matches FieldRef::Named(x) && x@ == n@,
                        None => c.field matches FieldRef::Index(i) && i == index,
                    }
                    &&& final(errors)@ == if child_ids(old(children)@).contains(id) {
                        old(errors)@.push((s, duplicate_child_message(id)))
                    } else {
                        old(errors)@
                    }
                },
            },
    {
        let (span, id) = match (&attrs.id, &f.ident) {
            (Some((s, id)), _) => (*s, id.clone()),
            (None, Some((s, n))) => (*s, n.clone()),
            (None, None) => {
                errors.push_str(f.span, "Unnamed field must have #[template_child(id = \"...\")]");
                return;
            },
        };
        let mut i: usize = 0;
        let mut dup = false;
        while i < children.len()
            invariant
                i <= children@.len(),
                dup == child_ids(children@).subrange(0, i as int).contains(id@),
            decreases children.len() - i,
        {
            if str_eq(children[i].id.as_str(), id.as_str()) {
                dup = true;
            }
            assert(child_ids(children@).subrange(0, i as int + 1) =~= child_ids(children@).subrange(0, i as int).push(children@[i as int].id@));
            proof {
                lemma_push_contains(child_ids(children@).subrange(0, i as int), children@[i as int].id@, id@);
            }
            i = i + 1;
        }
        assert(child_ids(children@).subrange(0, children@.len() as int) =~= child_ids(children@));
        if dup {
            let mut m = "Duplicate template child with id `".to_owned();
            m.append(id.as_str());
            m.append("`");
            errors.push(span, m);
        }
        let field = match &f.ident {
            Some((_, n)) => FieldRef::Named(n.clone()),
            None => FieldRef::Index(index),
        };
        children.push(TemplateChild { id, span, internal: attrs.internal, field });
    }
}

/// What `#[template_callback(...)]` says of a method: the name the callback is found
/// under, with where it is written, and whether it is called as a function (without the
/// object as its first value).
pub struct TemplateCallbackAttrs<S> {
    pub name: Option<(S, String)>,
    pub function: Option<bool>,
}

/// A method marked `#[template_callback]`, as the macros read it.
pub struct CallbackInput<S> {
    pub ident: String,
    pub ident_span: S,
    /// Where the return type is, when the method is async and declares one.
    pub async_output: Option<S>,
    /// Where `mut` is, when the receiver is `&mut self` (or a `&mut` of the wrapper type).
    pub receiver_mut: Option<S>,
    /// For each argument, whether it carries `#[rest]`, with whether nothing follows the
    /// attribute's path and where that is.
    pub rest: Vec<Option<(bool, S)>>,
}

/// A callback that a template can call by name.
pub struct TemplateCallback {
    pub name: String,
    pub rest_index: Option<usize>,
    pub mode: TypeMode,
    pub function: bool,
}

pub open spec fn callback_name<S>(m: CallbackInput<S>, attrs: TemplateCallbackAttrs<S>) -> (S, Seq<char>) {
    match attrs.name {
        Some((s, n)) => (s, n@),
        None => (m.ident_span, m.ident@),
    }
}

/// The first argument with `#[rest]`.
pub open spec fn first_rest<S>(rest: Seq<Option<(bool, S)>>, i: int) -> bool {
    &&& 0 <= i < rest.len()
    &&& rest[i] is Some
    &&& forall|j: int| 0 <= j < i ==> (#[trigger] rest[j]) is None
}

/// Every error that reading a callback reports, in order.
pub open spec fn callback_errors<S>(m: CallbackInput<S>, attrs: TemplateCallbackAttrs<S>, taken: Seq<Seq<char>>) -> Seq<(S, Seq<char>)> {
    let (s, n) = callback_name(m, attrs);
    (if taken.contains(n) { seq![(s, "Duplicate template callback with name `"@ + n + "`"@)] } else { Seq::empty() })
        + (match m.async_output { Some(o) => seq![(o, "Return value not allowed on async template callbacks"@)], None => Seq::empty() })
        + (match m.receiver_mut { Some(r) => seq![(r, "Template callback receiver cannot be `&mut self`"@)], None => Seq::empty() })
        + if exists|i: int| first_rest(m.rest@, i) {
            let i = choose|i: int| first_rest(m.rest@, i);
            let (empty, at) = m.rest@[i]->Some_0;
            if empty { Seq::empty() } else { seq![(at, "Unknown tokens on #[rest] attribute"@)] }
        } else {
            Seq::empty()
        }
}

pub open spec fn callback_names(cs: Seq<TemplateCallback>) -> Seq<Seq<char>> {
    cs.map_values(|c: TemplateCallback| c.name@)
}

fn find_first_rest<S: Copy>(rest: &Vec<Option<(bool, S)>>) -> (r: Option<usize>)
    ensures
        match r {
            Some(i) => first_rest(rest@, i as int),
            None => forall|j: int| 0 <= j < rest@.len() ==> (#[trigger] rest@[j]) is None,
        },
{
    let mut i: usize = 0;
    while i < rest.len()
        invariant
            i <= rest@.len(),
            forall|j: int| 0 <= j < i ==> (#[trigger] rest@[j]) is None,
        decreases rest.len() - i,
    {
        if rest[i].is_some() {
            return Some(i);
        }
        i = i + 1;
    }
    None
}

impl TemplateCallback {
    /// Records a template callback; a name used twice is reported, as are a return value
    /// on an async callback, a `&mut` receiver, and tokens in `#[rest]`.
    pub fn from_method<S: Copy>(m: &CallbackInput<S>, attrs: &TemplateCallbackAttrs<S>, mode: TypeMode, functions: bool,
        callbacks: &mut Vec<TemplateCallback>, errors: &mut Errors<S>)
        ensures
            final(errors)@ == old(errors)@ + callback_errors(*m, *attrs, callback_names(old(callbacks)@)),
            final(callbacks)@.drop_last() == old(callbacks)@,
            final(callbacks)@.len() == old(callbacks)@.len() + 1,
            ({
                let c = final(callbacks)@.last();
                &&& c.name@ == callback_name(*m, *attrs).1
                &&& c.mode == mode
                &&& c.function == match attrs.function { Some(b) => b, None => functions }
                &&& match c.rest_index {
                    Some(i) => first_rest(m.rest@, i as int),
                    None => forall|j: int| 0 <= j < m.rest@.len() ==> (#[trigger] m.rest@[j]) is None,
                }
            }),
    {
        let ghost start = errors@;
        let (span, name) = match &attrs.name {
            Some((s, n)) => (*s, n.clone()),
            None => (m.ident_span, m.ident.clone()),
        };
        let mut names: Vec<String> = Vec::new();
        let mut k: usize = 0;
        while k < callbacks.len()
            invariant
                k <= callbacks@.len(),
                names@.map_values(|s: String| s@) == callback_names(callbacks@).subrange(0, k as int),
            decreases callbacks.len() - k,
        {
            let ghost before = names@;
            names.push(callbacks[k].name.clone());
            assert(names@.map_values(|s: String| s@) =~= before.map_values(|s: String| s@).push(callbacks@[k as int].name@));
            assert(callback_names(callbacks@).subrange(0, k as int + 1) =~= callback_names(callbacks@).subrange(0, k as int).push(callbacks@[k as int].name@));
            k = k + 1;
        }
        assert(callback_names(callbacks@).subrange(0, callbacks@.len() as int) =~= callback_names(callbacks@));
        if contains_name(&names, name.as_str()) {
            let mut msg = "Duplicate template callback with name `".to_owned();
            msg.append(name.as_str());
            msg.append("`");
            errors.push(span, msg);
        }
        match m.async_output {
            Some(o) => errors.push_str(o, "Return value not allowed on async template callbacks"),
            None => {},
        }
        match m.receiver_mut {
            Some(r) => errors.push_str(r, "Template callback receiver cannot be `&mut self`"),
            None => {},
        }
        let rest_index = find_first_rest(&m.rest);
        match rest_index {
            Some(i) => {
                proof {
                    let c = choose|c: int| first_rest(m.rest@, c);
                    if c < i {
                        assert(m.rest@[c] is None);
                    } else if c > i {
                        assert(m.rest@[i as int] is None);
                    }
                }
                match m.rest[i] {
                    Some((empty, at)) => {
                        if !empty {
                            errors.push_str(at, "Unknown tokens on #[rest] attribute");
                        }
                    },
                    None => {},
                }
            },
            None => {
                assert(!exists|c: int| first_rest(m.rest@, c));
            },
        }
        assert(errors@ =~= start + callback_errors(*m, *attrs, callback_names(old(callbacks)@)));
        let function = match attrs.function {
            Some(b) => b,
            None => functions,
        };
        let ghost before = callbacks@;
        callbacks.push(TemplateCallback { name, rest_index, mode, function });
        assert(callbacks@.drop_last() =~= before);
    }
}


/// A `quick_xml::Reader` over the bytes of an inline template, held opaque: Verus does
/// not accept a declaration of the reader type, whose parameter is bound by `BufRead`.
#[verifier::external_body]
pub struct XmlReader<'a> {
    inner: quick_xml::Reader<&'a [u8]>,
}

/// An event of an XML reader, as far as finding the objects of a template goes: an
/// element that opens (or is empty) with its name and its attributes (each a key and raw
/// value, or nothing where the attribute could not be read), any other event, the end,
/// or an error with its description.
pub enum XmlEvent {
    Element { name: Vec<u8>, attributes: Vec<Option<(Vec<u8>, Vec<u8>)>> },
    Other,
    Eof,
    Error(String),
}

/// The events, converted, that a `quick_xml::Reader` made by `from_str` over `xml` yields
/// from `read_event` with an empty buffer each time, up to and including the first end or
/// error. Every event before that one consumes input, so they are finitely many.
pub uninterp spec fn xml_events(xml: Seq<char>) -> Seq<XmlEvent>;

/// What `quick_xml::Reader::buffer_position` gives for such a reader over `xml` once it has
/// yielded its first `read` events.
pub uninterp spec fn xml_position(xml: Seq<char>, read: nat) -> usize;

/// The text that a reader reads.
pub uninterp spec fn reader_source(r: XmlReader<'_>) -> Seq<char>;

/// How many events a reader has yielded.
pub uninterp spec fn events_read(r: XmlReader<'_>) -> nat;

/// `quick_xml::Reader::from_str`: a reader over the bytes of `xml` that has yielded no
/// event yet, and has at least one to yield (at least the end).
#[verifier::external_body]
fn xml_reader<'a>(xml: &'a str) -> (r: XmlReader<'a>)
    ensures
        reader_source(r) == xml@,
        events_read(r) == 0,
        events_read(r) < xml_events(reader_source(r)).len(),
{
    XmlReader { inner: quick_xml::Reader::from_str(xml) }
}

/// `quick_xml::Reader::read_event`, called with an empty buffer: the reader's next event,
/// converted. Until the first end or error, that is the next of `xml_events` of its text,
/// and it is an end or an error exactly when it is the last of them. Nothing is stated of
/// a call after that one, nor of what the buffer holds afterwards.
#[verifier::external_body]
fn read_event<'a>(reader: &mut XmlReader<'a>, buf: &mut Vec<u8>) -> (r: XmlEvent)
    requires
        old(buf)@.len() == 0,
    ensures
        reader_source(*final(reader)) == reader_source(*old(reader)),
        events_read(*old(reader)) < xml_events(reader_source(*old(reader))).len() ==> {
            let k = events_read(*old(reader));
            let evs = xml_events(reader_source(*old(reader)));
            &&& r == evs[k as int]
            &&& events_read(*final(reader)) == k + 1
            &&& ((r is Eof || r is Error) <==> k + 1 == evs.len())
        },
{
    match reader.inner.read_event(buf) {
        Ok(quick_xml::events::Event::Start(e)) | Ok(quick_xml::events::Event::Empty(e)) => XmlEvent::Element {
            name: e.name().to_vec(),
            attributes: e.attributes().map(|a| a.ok().map(|a| (a.key.to_vec(), a.value.to_vec()))).collect(),
        },
        Ok(quick_xml::events::Event::Eof) => XmlEvent::Eof,
        Ok(_) => XmlEvent::Other,
        Err(e) => XmlEvent::Error(format!("{:?}", e)),
    }
}

/// `quick_xml::Reader::buffer_position`: how many bytes the reader has read, as
/// `xml_position` of its text and of the number of events it has yielded.
#[verifier::external_body]
fn buffer_position<'a>(reader: &XmlReader<'a>) -> (r: usize)
    ensures
        r == xml_position(reader_source(*reader), events_read(*reader)),
{
    reader.inner.buffer_position()
}

pub open spec fn object_name() -> Seq<u8> {
    seq![111u8, 98u8, 106u8, 101u8, 99u8, 116u8]
}

pub open spec fn template_name() -> Seq<u8> {
    seq![116u8, 101u8, 109u8, 112u8, 108u8, 97u8, 116u8, 101u8]
}

pub open spec fn id_key() -> Seq<u8> {
    seq![105u8, 100u8]
}

/// The first readable attribute with the key `id`.
pub open spec fn first_id(attrs: Seq<Option<(Vec<u8>, Vec<u8>)>>, i: int) -> bool {
    &&& 0 <= i < attrs.len()
    &&& attrs[i] matches Some((k, _)) && k@ == id_key()
    &&& forall|j: int| 0 <= j < i ==> !(#[trigger] attrs[j] matches Some((k, _)) && k@ == id_key())
}

/// The id of an element, when it is an `<object>` or `<template>` whose first `id`
/// attribute is UTF-8.
pub open spec fn element_id(name: Seq<u8>, attrs: Seq<Option<(Vec<u8>, Vec<u8>)>>) -> Option<Seq<char>> {
    if (name == object_name() || name == template_name()) && exists|i: int| first_id(attrs, i) {
        let v = attrs[choose|i: int| first_id(attrs, i)]->Some_0.1@;
        if vstd::utf8::valid_utf8(v) { Some(vstd::utf8::decode_utf8(v)) } else { None }
    } else {
        None
    }
}

fn bytes_eq(a: &Vec<u8>, b: &[u8]) -> (r: bool)
    ensures
        r == (a@ == b@),
{
    if a.len() != b.len() {
        return false;
    }
    let mut i: usize = 0;
    while i < a.len()
        invariant
            a@.len() == b@.len(),
            i <= a@.len(),
            forall|k: int| 0 <= k < i ==> a@[k] == b@[k],
        decreases a.len() - i,
    {
        if a[i] != b[i] {
            return false;
        }
        i = i + 1;
    }
    assert(a@ =~= b@);
    true
}

/// The id that an element gives a template object, if any.
pub fn template_element_id(name: &Vec<u8>, attrs: &Vec<Option<(Vec<u8>, Vec<u8>)>>) -> (r: Option<String>)
    ensures
        match r {
            Some(s) => element_id(name@, attrs@) == Some(s@),
            None => element_id(name@, attrs@) is None,
        },
{
    let object: [u8; 6] = [111u8, 98u8, 106u8, 101u8, 99u8, 116u8];
    let template: [u8; 8] = [116u8, 101u8, 109u8, 112u8, 108u8, 97u8, 116u8, 101u8];
    let id: [u8; 2] = [105u8, 100u8];
    assert(object@ =~= object_name());
    assert(template@ =~= template_name());
    assert(id@ =~= id_key());
    let os = object.as_slice();
    let ts = template.as_slice();
    let ids = id.as_slice();
    assert(os@ == object_name() && ts@ == template_name() && ids@ == id_key());
    if !bytes_eq(name, os) && !bytes_eq(name, ts) {
        return None;
    }
    let mut i: usize = 0;
    while i < attrs.len()
        invariant
            i <= attrs@.len(),
            ids@ == id_key(),
            name@ == object_name() || name@ == template_name(),
            forall|j: int| 0 <= j < i ==> !(#[trigger] attrs@[j] matches Some((k, _)) && k@ == id_key()),
        decreases attrs.len() - i,
    {
        match &attrs[i] {
            Some((k, v)) => {
                if bytes_eq(k, ids) {
                    assert(first_id(attrs@, i as int));
                    proof {
                        let c = choose|c: int| first_id(attrs@, c);
                        if c < i {
                            assert(!(attrs@[c] matches Some((k, _)) && k@ == id_key()));
                        } else if c > i {
                            assert(!(attrs@[i as int] matches Some((k, _)) && k@ == id_key()));
                        }
                    }
                    let bytes = v.as_slice();
                    assert(bytes@ == v@);
                    let r = utf8_decode(bytes);
                    assert(attrs@[i as int]->Some_0.1@ == v@);
                    assert(name@ == object_name() || name@ == template_name());
                    assert(exists|c: int| first_id(attrs@, c));
                    return r;
                }
            },
            None => {},
        }
        i = i + 1;
    }
    assert(!exists|c: int| first_id(attrs@, c));
    None
}

/// The ids that the first `n` events give objects of a template, in order.
pub open spec fn event_ids(evs: Seq<XmlEvent>, n: int) -> Seq<Seq<char>>
    decreases n,
{
    if n <= 0 || n > evs.len() {
        Seq::empty()
    } else {
        let ids = event_ids(evs, n - 1);
        match evs[n - 1] {
            XmlEvent::Element { name, attributes } => match element_id(name@, attributes@) {
                Some(id) => ids.push(id),
                None => ids,
            },
            _ => ids,
        }
    }
}

/// The ids of the objects of an inline template, read up to its end or the first error.
pub open spec fn template_ids(xml: Seq<char>) -> Seq<Seq<char>> {
    event_ids(xml_events(xml), xml_events(xml).len() - 1)
}

/// The error that reading an inline template stops at, if any, with the position the
/// reader is at then.
pub open spec fn template_error(xml: Seq<char>) -> Option<(usize, Seq<char>)> {
    let evs = xml_events(xml);
    match evs.last() {
        XmlEvent::Error(m) => Some((xml_position(xml, evs.len()), m@)),
        _ => None,
    }
}

/// Reads an inline template, collecting the ids of its `<object>` and `<template>`
/// elements, until its end or an error, which comes with the position it was met at.
pub fn scan_template_ids(xml: &str) -> (r: (Vec<String>, Option<(usize, String)>))
    ensures
        r.0@.map_values(|s: String| s@) == template_ids(xml@),
        match r.1 {
            Some((pos, m)) => template_error(xml@) == Some((pos, m@)),
            None => template_error(xml@) is None,
        },
{
    let mut reader = xml_reader(xml);
    let mut buf: Vec<u8> = Vec::new();
    let mut ids: Vec<String> = Vec::new();
    let ghost evs = xml_events(xml@);
    loop
        invariant
            reader_source(reader) == xml@,
            evs == xml_events(xml@),
            events_read(reader) < evs.len(),
            buf@.len() == 0,
            ids@.map_values(|s: String| s@) == event_ids(evs, events_read(reader) as int),
        decreases evs.len() - events_read(reader),
    {
        let ghost k = events_read(reader) as int;
        let ghost before = ids@;
        let event = read_event(&mut reader, &mut buf);
        match event {
            XmlEvent::Element { name, attributes } => {
                match template_element_id(&name, &attributes) {
                    Some(id) => {
                        ids.push(id);
                        assert(ids@.map_values(|s: String| s@) =~= before.map_values(|s: String| s@).push(id@));
                    },
                    None => {},
                }
            },
            XmlEvent::Other => {},
            XmlEvent::Eof => {
                return (ids, None);
            },
            XmlEvent::Error(m) => {
                let pos = buffer_position(&reader);
                return (ids, Some((pos, m)));
            },
        }
        assert(event_ids(evs, k + 1) == ids@.map_values(|s: String| s@));
        buf.clear();
    }
}

pub open spec fn missing_child_message(id: Seq<char>) -> Seq<char> {
    "Template child with id `"@ + id + "` not found in template XML"@
}

pub open spec fn read_error_message(pos: nat, m: Seq<char>) -> Seq<char> {
    "Failed reading template XML at position "@ + decimal_spec(pos) + ": "@ + m
}

/// Where the last of the children with id `id` among the first `k` is.
pub open spec fn last_span<S>(cs: Seq<TemplateChild<S>>, id: Seq<char>, k: int) -> Option<S>
    decreases k,
{
    if k <= 0 {
        None
    } else if cs[k - 1].id@ == id {
        Some(cs[k - 1].span)
    } else {
        last_span(cs, id, k - 1)
    }
}

/// The children among the first `k` whose ids the template does not define, each id once
/// (at its first child), reported where the last child with that id is.
pub open spec fn missing_children<S>(cs: Seq<TemplateChild<S>>, found: Seq<Seq<char>>, k: int) -> Seq<(S, Seq<char>)>
    decreases k,
{
    if k <= 0 {
        Seq::empty()
    } else {
        let c = cs[k - 1];
        let earlier = child_ids(cs).subrange(0, k - 1).contains(c.id@);
        if !found.contains(c.id@) && !earlier {
            missing_children(cs, found, k - 1).push((last_span(cs, c.id@, cs.len() as int)->Some_0, missing_child_message(c.id@)))
        } else {
            missing_children(cs, found, k - 1)
        }
    }
}

fn last_span_of<S: Copy>(children: &Vec<TemplateChild<S>>, id: &str) -> (r: Option<S>)
    ensures
        r == last_span(children@, id@, children@.len() as int),
{
    let mut k: usize = children.len();
    while k > 0
        invariant
            k <= children@.len(),
            last_span(children@, id@, children@.len() as int) == last_span(children@, id@, k as int),
        decreases k,
    {
        if str_eq(children[k - 1].id.as_str(), id) {
            return Some(children[k - 1].span);
        }
        k = k - 1;
    }
    None
}

/// Reports what reading an inline template found wrong: the error that reading stopped at
/// (with its position), then each child whose id is not among the `found` ones.
pub fn report_template_children<S: Copy>(children: &Vec<TemplateChild<S>>, found: &Vec<String>,
    error: Option<(usize, String)>, span: S, errors: &mut Errors<S>)
    ensures
        final(errors)@ == old(errors)@ + (match error {
            Some((pos, m)) => seq![(span, read_error_message(pos as nat, m@))],
            None => Seq::empty(),
        }) + missing_children(children@, found@.map_values(|s: String| s@), children@.len() as int),
{
    let ghost start = errors@;
    match error {
        Some((pos, m)) => {
            let mut msg = "Failed reading template XML at position ".to_owned();
            append_decimal(&mut msg, pos as u64);
            msg.append(": ");
            msg.append(m.as_str());
            errors.push(span, msg);
        },
        None => {},
    }
    let ghost mid = errors@;
    let ghost fv = found@.map_values(|s: String| s@);
    let mut seen: Vec<String> = Vec::new();
    let mut i: usize = 0;
    while i < children.len()
        invariant
            i <= children@.len(),
            fv == found@.map_values(|s: String| s@),
            seen@.map_values(|s: String| s@) == child_ids(children@).subrange(0, i as int),
            errors@ == mid + missing_children(children@, fv, i as int),
        decreases children.len() - i,
    {
        let id = children[i].id.as_str();
        let earlier = contains_name(&seen, id);
        if !contains_name(found, id) && !earlier {
            let at = last_span_of(children, id);
            match at {
                Some(at) => {
                    let mut msg = "Template child with id `".to_owned();
                    msg.append(id);
                    msg.append("` not found in template XML");
                    errors.push(at, msg);
                },
                None => {
                    assert(false) by {
                        assert(last_span(children@, children@[i as int].id@, i as int + 1) is Some);
                        lemma_last_span_found(children@, children@[i as int].id@, i as int + 1, children@.len() as int);
                    }
                },
            }
        }
        let ghost before = seen@;
        seen.push(children[i].id.clone());
        assert(seen@.map_values(|s: String| s@) =~= before.map_values(|s: String| s@).push(children@[i as int].id@));
        assert(child_ids(children@).subrange(0, i as int + 1) =~= child_ids(children@).subrange(0, i as int).push(children@[i as int].id@));
        i = i + 1;
    }
}

proof fn lemma_last_span_found<S>(cs: Seq<TemplateChild<S>>, id: Seq<char>, k: int, n: int)
    requires
        0 <= k <= n <= cs.len(),
        last_span(cs, id, k) is Some,
    ensures
        last_span(cs, id, n) is Some,
    decreases n - k,
{
    if k < n {
        lemma_last_span_found(cs, id, k, n - 1);
    }
}

/// Checks an inline template: each child that a field binds must be an object of the
/// template. Templates from files and resources are not read. Reading errors come first,
/// then the children missing from the ids that reading found.
pub fn check_children<S: Copy>(source: &TemplateSource<S>, children: &Vec<TemplateChild<S>>, errors: &mut Errors<S>)
    ensures
        match source {
            TemplateSource::String(span, xml) => final(errors)@ == old(errors)@ + (match template_error(xml@) {
                Some((pos, m)) => seq![(*span, read_error_message(pos as nat, m))],
                None => Seq::empty(),
            }) + missing_children(children@, template_ids(xml@), children@.len() as int),
            _ => final(errors)@ == old(errors)@,
        },
{
    match source {
        TemplateSource::String(span, xml) => {
            let (found, error) = scan_template_ids(xml.as_str());
            let ghost ev = match &error {
                Some((pos, m)) => Some((*pos, m@)),
                None => None::<(usize, Seq<char>)>,
            };
            let ghost fv = found@.map_values(|s: String| s@);
            report_template_children(children, &found, error, *span, errors);
            assert(errors@ == old(errors)@ + (match ev {
                Some((pos, m)) => seq![(*span, read_error_message(pos as nat, m))],
                None => Seq::empty(),
            }) + missing_children(children@, fv, children@.len() as int));
        },
        _ => {},
    }
}

} // verus!
