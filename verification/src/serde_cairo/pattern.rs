//! Cairo patterns: solid colours, linear and radial gradients and meshes, written as the
//! variants of the enum `cairo::Pattern`.
//!
//! Extend and filter modes are carried as Cairo's raw values (`cairo_extend_t`,
//! `cairo_filter_t`); colours and coordinates as `f64` bit patterns.
use vstd::prelude::*;
use vstd::string::StringExecFns;
use crate::serde_cairo::matrix::{self, Matrix};
use crate::serde_cairo::path_segment::{self, PathSegment};
use crate::value::{f64_tuple, f64s_of, fields_of, is_f64_tuple, name_is, read_f64s, DeError, F64Bits, SerError, Value};

verus! {

/// One colour stop of a gradient: its offset and colour.
#[derive(Debug, Clone, Copy, PartialEq)]
pub struct ColorStop {
    pub offset: F64Bits,
    pub red: F64Bits,
    pub green: F64Bits,
    pub blue: F64Bits,
    pub alpha: F64Bits,
}

/// A pattern of one colour.
#[derive(Debug, Clone, Copy, PartialEq)]
pub struct SolidPattern {
    pub red: F64Bits,
    pub green: F64Bits,
    pub blue: F64Bits,
    pub alpha: F64Bits,
}

/// A linear gradient from `(x0, y0)` to `(x1, y1)`.
#[derive(Debug, Clone, PartialEq)]
pub struct LinearGradient {
    pub extend: i32,
    pub filter: i32,
    pub matrix: Matrix,
    pub x0: F64Bits,
    pub y0: F64Bits,
    pub x1: F64Bits,
    pub y1: F64Bits,
    pub stops: Vec<ColorStop>,
}

/// A radial gradient between the circles `(x0, y0, r0)` and `(x1, y1, r1)`.
#[derive(Debug, Clone, PartialEq)]
pub struct RadialGradient {
    pub extend: i32,
    pub filter: i32,
    pub matrix: Matrix,
    pub x0: F64Bits,
    pub y0: F64Bits,
    pub r0: F64Bits,
    pub x1: F64Bits,
    pub y1: F64Bits,
    pub r1: F64Bits,
    pub stops: Vec<ColorStop>,
}

/// The control point and colour of one corner of a mesh patch.
#[derive(Debug, Clone, Copy, PartialEq)]
pub struct MeshCorner {
    pub x: F64Bits,
    pub y: F64Bits,
    pub red: F64Bits,
    pub green: F64Bits,
    pub blue: F64Bits,
    pub alpha: F64Bits,
}

/// One patch of a mesh: its four corners and the path around it.
#[derive(Debug, Clone, PartialEq)]
pub struct MeshPatch {
    pub corners: Vec<MeshCorner>,
    pub path: Vec<PathSegment>,
}

/// A mesh pattern.
#[derive(Debug, Clone, PartialEq)]
pub struct Mesh {
    pub extend: i32,
    pub filter: i32,
    pub matrix: Matrix,
    pub patches: Vec<MeshPatch>,
}

/// A pattern, by its type. `Unsupported` is a pattern of another type (a surface or raster
/// source pattern), with Cairo's raw `cairo_pattern_type_t`.
#[derive(Debug, Clone, PartialEq)]
pub enum Pattern {
    Solid(SolidPattern),
    Linear(LinearGradient),
    Radial(RadialGradient),
    Mesh(Mesh),
    Unsupported { pattern_type: i32 },
}

/// A gradient: linear or radial.
#[derive(Debug, Clone, PartialEq)]
pub enum Gradient {
    Linear(LinearGradient),
    Radial(RadialGradient),
}

// ---------------------------------------------------------------------------------------
// Models

/// A linear gradient as plain values.
pub struct LinearView {
    pub extend: i32,
    pub filter: i32,
    pub matrix: Matrix,
    pub points: Seq<F64Bits>,
    pub stops: Seq<ColorStop>,
}

/// A radial gradient as plain values.
pub struct RadialView {
    pub extend: i32,
    pub filter: i32,
    pub matrix: Matrix,
    pub circles: Seq<F64Bits>,
    pub stops: Seq<ColorStop>,
}

/// A mesh as plain values: each patch is its corners and its path.
pub struct MeshView {
    pub extend: i32,
    pub filter: i32,
    pub matrix: Matrix,
    pub patches: Seq<(Seq<MeshCorner>, Seq<PathSegment>)>,
}

/// What a pattern reads back as.
pub enum PatternView {
    Solid(SolidPattern),
    Linear(LinearView),
    Radial(RadialView),
    Mesh(MeshView),
}

pub open spec fn linear_view(l: LinearGradient) -> LinearView {
    LinearView { extend: l.extend, filter: l.filter, matrix: l.matrix, points: seq![l.x0, l.y0, l.x1, l.y1], stops: l.stops@ }
}

pub open spec fn radial_view(r: RadialGradient) -> RadialView {
    RadialView {
        extend: r.extend,
        filter: r.filter,
        matrix: r.matrix,
        circles: seq![r.x0, r.y0, r.r0, r.x1, r.y1, r.r1],
        stops: r.stops@,
    }
}

pub open spec fn patch_view(p: MeshPatch) -> (Seq<MeshCorner>, Seq<PathSegment>) {
    (p.corners@, p.path@)
}

pub open spec fn mesh_view(m: Mesh) -> MeshView {
    MeshView { extend: m.extend, filter: m.filter, matrix: m.matrix, patches: m.patches@.map_values(|p: MeshPatch| patch_view(p)) }
}

// ---------------------------------------------------------------------------------------
// Extend and filter modes

/// The serde name of a Cairo extend mode, for the four that have one.
pub open spec fn extend_name(e: i32) -> Option<Seq<char>> {
    if e == 0 { Some("None"@) }
    else if e == 1 { Some("Repeat"@) }
    else if e == 2 { Some("Reflect"@) }
    else if e == 3 { Some("Pad"@) }
    else { None }
}

/// The serde name of a Cairo filter, for the six that have one.
pub open spec fn filter_name(f: i32) -> Option<Seq<char>> {
    if f == 0 { Some("Fast"@) }
    else if f == 1 { Some("Good"@) }
    else if f == 2 { Some("Best"@) }
    else if f == 3 { Some("Nearest"@) }
    else if f == 4 { Some("Bilinear"@) }
    else if f == 5 { Some("Gaussian"@) }
    else { None }
}

/// The extend mode that a variant name stands for.
pub open spec fn extend_named(name: Seq<char>) -> Option<i32> {
    if name == "None"@ { Some(0i32) }
    else if name == "Repeat"@ { Some(1i32) }
    else if name == "Reflect"@ { Some(2i32) }
    else if name == "Pad"@ { Some(3i32) }
    else { None }
}

/// The filter that a variant name stands for.
pub open spec fn filter_named(name: Seq<char>) -> Option<i32> {
    if name == "Fast"@ { Some(0i32) }
    else if name == "Good"@ { Some(1i32) }
    else if name == "Best"@ { Some(2i32) }
    else if name == "Nearest"@ { Some(3i32) }
    else if name == "Bilinear"@ { Some(4i32) }
    else if name == "Gaussian"@ { Some(5i32) }
    else { None }
}

/// `v` is the unit variant of the enum `enum_name` for the mode `raw`, named `name`.
pub open spec fn is_mode(v: Value, enum_name: Seq<char>, raw: i32, name: Seq<char>) -> bool {
    v matches Value::UnitVariant { name: n, index, variant } && n@ == enum_name && index == raw as u32 && variant@ == name
}

/// The mode that a unit variant names, by `named`.
pub open spec fn mode_of(v: Value, named: spec_fn(Seq<char>) -> Option<i32>) -> Option<i32> {
    match v {
        Value::UnitVariant { variant, .. } => named(variant@),
        _ => None,
    }
}

fn extend_name_exec(e: i32) -> (r: Option<&'static str>)
    ensures
        match extend_name(e) {
            Some(n) => r matches Some(s) && s@ == n,
            None => r is None,
        },
{
    if e == 0 { Some("None") }
    else if e == 1 { Some("Repeat") }
    else if e == 2 { Some("Reflect") }
    else if e == 3 { Some("Pad") }
    else { None }
}

fn filter_name_exec(f: i32) -> (r: Option<&'static str>)
    ensures
        match filter_name(f) {
            Some(n) => r matches Some(s) && s@ == n,
            None => r is None,
        },
{
    if f == 0 { Some("Fast") }
    else if f == 1 { Some("Good") }
    else if f == 2 { Some("Best") }
    else if f == 3 { Some("Nearest") }
    else if f == 4 { Some("Bilinear") }
    else if f == 5 { Some("Gaussian") }
    else { None }
}

/// Writes an extend mode; one without a serde name is refused.
fn extend_value(e: i32) -> (r: Result<Value, SerError>)
    ensures
        match extend_name(e) {
            Some(n) => r matches Ok(v) && is_mode(v, "cairo::Extend"@, e, n),
            None => r matches Err(SerError::Custom { message }) && message@ == "Unknown PatternExtend"@,
        },
{
    match extend_name_exec(e) {
        Some(n) => Ok(Value::UnitVariant { name: "cairo::Extend".to_owned(), index: e as u32, variant: n.to_owned() }),
        None => Err(SerError::Custom { message: "Unknown PatternExtend".to_owned() }),
    }
}

/// Writes a filter; one without a serde name is refused.
fn filter_value(f: i32) -> (r: Result<Value, SerError>)
    ensures
        match filter_name(f) {
            Some(n) => r matches Ok(v) && is_mode(v, "cairo::Filter"@, f, n),
            None => r matches Err(SerError::Custom { message }) && message@ == "Unknown PatternFilter"@,
        },
{
    match filter_name_exec(f) {
        Some(n) => Ok(Value::UnitVariant { name: "cairo::Filter".to_owned(), index: f as u32, variant: n.to_owned() }),
        None => Err(SerError::Custom { message: "Unknown PatternFilter".to_owned() }),
    }
}

fn read_extend(v: &Value) -> (r: Result<i32, DeError>)
    ensures
        match mode_of(*v, |n: Seq<char>| extend_named(n)) {
            Some(e) => r == Ok::<i32, DeError>(e),
            None => r matches Err(DeError::InvalidType),
        },
{
    proof {
        reveal_strlit("None");
        reveal_strlit("Repeat");
        reveal_strlit("Reflect");
        reveal_strlit("Pad");
    }
    match v {
        Value::UnitVariant { variant, .. } => {
            if name_is(variant, "None") { Ok(0) }
            else if name_is(variant, "Repeat") { Ok(1) }
            else if name_is(variant, "Reflect") { Ok(2) }
            else if name_is(variant, "Pad") { Ok(3) }
            else { Err(DeError::InvalidType) }
        },
        _ => Err(DeError::InvalidType),
    }
}

fn read_filter(v: &Value) -> (r: Result<i32, DeError>)
    ensures
        match mode_of(*v, |n: Seq<char>| filter_named(n)) {
            Some(f) => r == Ok::<i32, DeError>(f),
            None => r matches Err(DeError::InvalidType),
        },
{
    match v {
        Value::UnitVariant { variant, .. } => {
            if name_is(variant, "Fast") { Ok(0) }
            else if name_is(variant, "Good") { Ok(1) }
            else if name_is(variant, "Best") { Ok(2) }
            else if name_is(variant, "Nearest") { Ok(3) }
            else if name_is(variant, "Bilinear") { Ok(4) }
            else if name_is(variant, "Gaussian") { Ok(5) }
            else { Err(DeError::InvalidType) }
        },
        _ => Err(DeError::InvalidType),
    }
}

// ---------------------------------------------------------------------------------------
// Sequences

/// The elements of a sequence value (a list, a tuple or a tuple struct).
pub open spec fn elements(v: Value) -> Option<Seq<Value>> {
    match v {
        Value::List(items) => Some(items@),
        Value::Tuple(items) => Some(items@),
        Value::TupleStruct { fields, .. } => Some(fields@),
        _ => None,
    }
}

/// What a reader of a tuple struct sees: a newtype struct is transparent to it, as in
/// self-describing formats that write newtype structs as their content.
pub open spec fn unwrapped(v: Value) -> Value {
    match v {
        Value::NewtypeStruct { value, .. } => *value,
        _ => v,
    }
}

fn read_elements(v: &Value) -> (r: Result<&Vec<Value>, DeError>)
    ensures
        match elements(*v) {
            Some(items) => r matches Ok(e) && e@ == items,
            None => r matches Err(DeError::InvalidType),
        },
{
    match v {
        Value::List(items) => Ok(items),
        Value::Tuple(items) => Ok(items),
        Value::TupleStruct { fields, .. } => Ok(fields),
        _ => Err(DeError::InvalidType),
    }
}

fn unwrap_newtype(v: &Value) -> (r: &Value)
    ensures
        *r == unwrapped(*v),
{
    match v {
        Value::NewtypeStruct { value, .. } => &**value,
        _ => v,
    }
}

// ---------------------------------------------------------------------------------------
// Colour stops

pub open spec fn stop_bits(s: ColorStop) -> Seq<F64Bits> {
    seq![s.offset, s.red, s.green, s.blue, s.alpha]
}

/// `v` is the list of the stops' `(offset, red, green, blue, alpha)` tuples.
pub open spec fn encodes_stops(v: Value, stops: Seq<ColorStop>) -> bool {
    v matches Value::List(items) && items@.len() == stops.len()
        && forall|i: int| 0 <= i < stops.len() ==> is_f64_tuple(#[trigger] items@[i], stop_bits(stops[i]))
}

pub open spec fn stop_of(v: Value) -> Option<ColorStop> {
    match f64s_of(v, 5) {
        Some(s) => Some(ColorStop { offset: s[0], red: s[1], green: s[2], blue: s[3], alpha: s[4] }),
        None => None,
    }
}

/// The stops that a sequence of five-element tuples gives.
pub open spec fn stops_of(v: Value) -> Option<Seq<ColorStop>> {
    match elements(v) {
        Some(items) => if forall|i: int| 0 <= i < items.len() ==> (#[trigger] stop_of(items[i])) is Some {
            Some(Seq::new(items.len(), |i: int| stop_of(items[i])->Some_0))
        } else {
            None
        },
        None => None,
    }
}

fn stops_value(stops: &Vec<ColorStop>) -> (v: Value)
    ensures
        encodes_stops(v, stops@),
{
    let mut items: Vec<Value> = Vec::new();
    let mut i: usize = 0;
    while i < stops.len()
        invariant
            i <= stops@.len(),
            items@.len() == i,
            forall|k: int| 0 <= k < i ==> is_f64_tuple(#[trigger] items@[k], stop_bits(stops@[k])),
        decreases stops.len() - i,
    {
        let s = stops[i];
        let t = f64_tuple([s.offset, s.red, s.green, s.blue, s.alpha].as_slice());
        assert(stop_bits(s) =~= seq![s.offset, s.red, s.green, s.blue, s.alpha]);
        items.push(t);
        i = i + 1;
    }
    Value::List(items)
}

fn read_stops(v: &Value) -> (r: Result<Vec<ColorStop>, DeError>)
    ensures
        match stops_of(*v) {
            Some(s) => r matches Ok(w) && w@ == s,
            None => r matches Err(DeError::InvalidType),
        },
{
    let items = match read_elements(v) {
        Ok(items) => items,
        Err(e) => return Err(e),
    };
    let mut out: Vec<ColorStop> = Vec::new();
    let mut i: usize = 0;
    while i < items.len()
        invariant
            elements(*v) == Some(items@),
            i <= items@.len(),
            out@.len() == i,
            forall|k: int| 0 <= k < i ==> stop_of(#[trigger] items@[k]) == Some(out@[k]),
        decreases items.len() - i,
    {
        match read_f64s(&items[i], 5) {
            Ok(s) => out.push(ColorStop { offset: s[0], red: s[1], green: s[2], blue: s[3], alpha: s[4] }),
            Err(e) => {
                assert(stop_of(items@[i as int]) is None);
                return Err(e);
            },
        }
        i = i + 1;
    }
    assert(out@ =~= Seq::new(items@.len(), |k: int| stop_of(items@[k])->Some_0));
    Ok(out)
}

// ---------------------------------------------------------------------------------------
// Solid patterns

/// `v` is the tuple struct `cairo::SolidPattern` of the colour.
pub open spec fn encodes_solid(v: Value, p: SolidPattern) -> bool {
    v matches Value::TupleStruct { name, fields } && name@ == "cairo::SolidPattern"@
        && fields@ == seq![Value::F64(p.red), Value::F64(p.green), Value::F64(p.blue), Value::F64(p.alpha)]
}

pub open spec fn solid_of(v: Value) -> Option<SolidPattern> {
    match f64s_of(v, 4) {
        Some(s) => Some(SolidPattern { red: s[0], green: s[1], blue: s[2], alpha: s[3] }),
        None => None,
    }
}

fn solid_value(p: &SolidPattern) -> (v: Value)
    ensures
        encodes_solid(v, *p),
{
    let mut fields: Vec<Value> = Vec::new();
    fields.push(Value::F64(p.red));
    fields.push(Value::F64(p.green));
    fields.push(Value::F64(p.blue));
    fields.push(Value::F64(p.alpha));
    let v = Value::TupleStruct { name: "cairo::SolidPattern".to_owned(), fields };
    assert(fields@ =~= seq![Value::F64(p.red), Value::F64(p.green), Value::F64(p.blue), Value::F64(p.alpha)]);
    v
}

fn read_solid(v: &Value) -> (r: Result<SolidPattern, DeError>)
    ensures
        match solid_of(*v) {
            Some(p) => r == Ok::<SolidPattern, DeError>(p),
            None => r matches Err(DeError::InvalidType),
        },
{
    match read_f64s(v, 4) {
        Ok(s) => Ok(SolidPattern { red: s[0], green: s[1], blue: s[2], alpha: s[3] }),
        Err(e) => Err(e),
    }
}

// ---------------------------------------------------------------------------------------
// Gradients

/// `v` is the newtype struct `name` around the tuple struct `name` of the extend mode,
/// the filter, the matrix, the points and the stops.
pub open spec fn encodes_gradient(v: Value, name: Seq<char>, extend: i32, filter: i32, m: Matrix,
    points: Seq<F64Bits>, stops: Seq<ColorStop>) -> bool
{
    v matches Value::NewtypeStruct { name: outer, value } && outer@ == name
        && (*value matches Value::TupleStruct { name: inner, fields } && inner@ == name && fields@.len() == 5
        && is_mode(fields@[0], "cairo::Extend"@, extend, extend_name(extend)->Some_0)
        && is_mode(fields@[1], "cairo::Filter"@, filter, filter_name(filter)->Some_0)
        && matrix::encodes(fields@[2], m)
        && is_f64_tuple(fields@[3], points)
        && encodes_stops(fields@[4], stops))
}

/// The parts of a gradient that a reader takes from `v`, with `n` points: its five
/// fields in order, read as extend mode, filter, matrix, points and stops.
pub open spec fn gradient_of(v: Value, n: nat) -> Option<(i32, i32, Matrix, Seq<F64Bits>, Seq<ColorStop>)> {
    match elements(unwrapped(v)) {
        Some(f) => if f.len() == 5 {
            let e = mode_of(f[0], |x: Seq<char>| extend_named(x));
            let fl = mode_of(f[1], |x: Seq<char>| filter_named(x));
            let m = matrix::decode(f[2]);
            let p = f64s_of(f[3], n);
            let s = stops_of(f[4]);
            if e is Some && fl is Some && m is Some && p is Some && s is Some {
                Some((e->Some_0, fl->Some_0, m->Some_0, p->Some_0, s->Some_0))
            } else {
                None
            }
        } else {
            None
        },
        None => None,
    }
}

fn gradient_value(name: &str, extend: i32, filter: i32, m: &Matrix, points: &[F64Bits], stops: &Vec<ColorStop>)
    -> (r: Result<Value, SerError>)
    ensures
        match (extend_name(extend), filter_name(filter)) {
            (Some(_), Some(_)) => r matches Ok(v) && encodes_gradient(v, name@, extend, filter, *m, points@, stops@),
            (None, _) => r matches Err(SerError::Custom { message }) && message@ == "Unknown PatternExtend"@,
            (Some(_), None) => r matches Err(SerError::Custom { message }) && message@ == "Unknown PatternFilter"@,
        },
{
    let e = match extend_value(extend) {
        Ok(e) => e,
        Err(err) => return Err(err),
    };
    let f = match filter_value(filter) {
        Ok(f) => f,
        Err(err) => return Err(err),
    };
    let mut fields: Vec<Value> = Vec::new();
    fields.push(e);
    fields.push(f);
    fields.push(matrix::serialize(m));
    fields.push(f64_tuple(points));
    fields.push(stops_value(stops));
    let inner = Value::TupleStruct { name: name.to_owned(), fields };
    Ok(Value::NewtypeStruct { name: name.to_owned(), value: Box::new(inner) })
}

fn read_gradient(v: &Value, n: usize) -> (r: Result<(i32, i32, Matrix, Vec<F64Bits>, Vec<ColorStop>), DeError>)
    ensures
        match gradient_of(*v, n as nat) {
            Some((e, f, m, p, s)) => r matches Ok((e2, f2, m2, p2, s2)) && e2 == e && f2 == f && m2 == m && p2@ == p && s2@ == s,
            None => r matches Err(DeError::InvalidType),
        },
{
    let fields = match read_elements(unwrap_newtype(v)) {
        Ok(f) => f,
        Err(e) => return Err(e),
    };
    if fields.len() != 5 {
        return Err(DeError::InvalidType);
    }
    let e = match read_extend(&fields[0]) { Ok(x) => x, Err(err) => return Err(err) };
    let f = match read_filter(&fields[1]) { Ok(x) => x, Err(err) => return Err(err) };
    let m = match matrix::deserialize(&fields[2]) { Ok(x) => x, Err(err) => return Err(err) };
    let p = match read_f64s(&fields[3], n) { Ok(x) => x, Err(err) => return Err(err) };
    let s = match read_stops(&fields[4]) { Ok(x) => x, Err(err) => return Err(err) };
    Ok((e, f, m, p, s))
}

// ---------------------------------------------------------------------------------------
// Meshes

pub open spec fn corner_point(c: MeshCorner) -> Seq<F64Bits> {
    seq![c.x, c.y]
}

pub open spec fn corner_color(c: MeshCorner) -> Seq<F64Bits> {
    seq![c.red, c.green, c.blue, c.alpha]
}

/// `v` is the nine-element tuple of a patch: for each corner its point and colour, then
/// the sequence of the patch's path segments.
pub open spec fn encodes_patch(v: Value, corners: Seq<MeshCorner>, path: Seq<PathSegment>) -> bool {
    v matches Value::Tuple(items) && items@.len() == 9 && corners.len() == 4
        && (forall|c: int| 0 <= c < 4 ==> is_f64_tuple(#[trigger] items@[2 * c], corner_point(corners[c])))
        && (forall|c: int| 0 <= c < 4 ==> is_f64_tuple(#[trigger] items@[2 * c + 1], corner_color(corners[c])))
        && (items@[8] matches Value::List(segs) && segs@.len() == path.len()
            && forall|i: int| 0 <= i < path.len() ==> path_segment::encodes(#[trigger] segs@[i], path[i]))
}

/// The segments that are drawn into a patch: all but `ClosePath`, which the reader skips.
pub open spec fn drawn(segs: Seq<PathSegment>) -> Seq<PathSegment>
    decreases segs.len(),
{
    if segs.len() == 0 {
        Seq::empty()
    } else if segs.last() is ClosePath {
        drawn(segs.drop_last())
    } else {
        drawn(segs.drop_last()).push(segs.last())
    }
}

pub open spec fn corner_of(point: Value, color: Value) -> Option<MeshCorner> {
    match (f64s_of(point, 2), f64s_of(color, 4)) {
        (Some(p), Some(c)) => Some(MeshCorner { x: p[0], y: p[1], red: c[0], green: c[1], blue: c[2], alpha: c[3] }),
        _ => None,
    }
}

/// The segments of a path sequence, when each can be read.
pub open spec fn segments_of(v: Value) -> Option<Seq<PathSegment>> {
    match elements(v) {
        Some(items) => if forall|i: int| 0 <= i < items.len() ==> (#[trigger] path_segment::decode(items[i])) is Some {
            Some(Seq::new(items.len(), |i: int| path_segment::decode(items[i])->Some_0))
        } else {
            None
        },
        None => None,
    }
}

/// The corners and drawn segments that a reader takes from a patch tuple.
pub open spec fn patch_of(v: Value) -> Option<(Seq<MeshCorner>, Seq<PathSegment>)> {
    match elements(v) {
        Some(items) => if items.len() == 9 {
            let cs = Seq::new(4, |c: int| corner_of(items[2 * c], items[2 * c + 1]));
            let segs = segments_of(items[8]);
            if (forall|c: int| 0 <= c < 4 ==> (#[trigger] cs[c]) is Some) && segs is Some {
                Some((Seq::new(4, |c: int| cs[c]->Some_0), drawn(segs->Some_0)))
            } else {
                None
            }
        } else {
            None
        },
        None => None,
    }
}

/// The patches that a reader takes from a sequence of patch tuples.
pub open spec fn patches_of(v: Value) -> Option<Seq<(Seq<MeshCorner>, Seq<PathSegment>)>> {
    match elements(v) {
        Some(items) => if forall|i: int| 0 <= i < items.len() ==> (#[trigger] patch_of(items[i])) is Some {
            Some(Seq::new(items.len(), |i: int| patch_of(items[i])->Some_0))
        } else {
            None
        },
        None => None,
    }
}

/// `v` is the newtype struct `cairo::Mesh` around the tuple struct `cairo::Mesh` of the
/// extend mode, the filter, the matrix and the list of patches.
pub open spec fn encodes_mesh(v: Value, m: Mesh) -> bool {
    v matches Value::NewtypeStruct { name: outer, value } && outer@ == "cairo::Mesh"@
        && (*value matches Value::TupleStruct { name: inner, fields } && inner@ == "cairo::Mesh"@ && fields@.len() == 4
        && is_mode(fields@[0], "cairo::Extend"@, m.extend, extend_name(m.extend)->Some_0)
        && is_mode(fields@[1], "cairo::Filter"@, m.filter, filter_name(m.filter)->Some_0)
        && matrix::encodes(fields@[2], m.matrix)
        && (fields@[3] matches Value::List(ps) && ps@.len() == m.patches@.len()
            && forall|i: int| 0 <= i < ps@.len() ==>
                encodes_patch(#[trigger] ps@[i], m.patches@[i].corners@, m.patches@[i].path@)))
}

/// The mesh that a reader takes from `v`.
pub open spec fn mesh_of(v: Value) -> Option<MeshView> {
    match elements(unwrapped(v)) {
        Some(f) => if f.len() == 4 {
            let e = mode_of(f[0], |x: Seq<char>| extend_named(x));
            let fl = mode_of(f[1], |x: Seq<char>| filter_named(x));
            let m = matrix::decode(f[2]);
            let ps = patches_of(f[3]);
            if e is Some && fl is Some && m is Some && ps is Some {
                Some(MeshView { extend: e->Some_0, filter: fl->Some_0, matrix: m->Some_0, patches: ps->Some_0 })
            } else {
                None
            }
        } else {
            None
        },
        None => None,
    }
}

/// The corners of every patch are four.
pub open spec fn mesh_well_formed(m: Mesh) -> bool {
    forall|i: int| 0 <= i < m.patches@.len() ==> (#[trigger] m.patches@[i]).corners@.len() == 4
}

fn patch_value(p: &MeshPatch) -> (v: Value)
    requires
        p.corners@.len() == 4,
    ensures
        encodes_patch(v, p.corners@, p.path@),
{
    let mut items: Vec<Value> = Vec::new();
    let mut c: usize = 0;
    while c < 4
        invariant
            c <= 4,
            p.corners@.len() == 4,
            items@.len() == 2 * c,
            forall|k: int| 0 <= k < c ==> is_f64_tuple(#[trigger] items@[2 * k], corner_point(p.corners@[k])),
            forall|k: int| 0 <= k < c ==> is_f64_tuple(#[trigger] items@[2 * k + 1], corner_color(p.corners@[k])),
        decreases 4 - c,
    {
        let k = p.corners[c];
        let pt = f64_tuple([k.x, k.y].as_slice());
        let col = f64_tuple([k.red, k.green, k.blue, k.alpha].as_slice());
        assert(corner_point(k) =~= seq![k.x, k.y]);
        assert(corner_color(k) =~= seq![k.red, k.green, k.blue, k.alpha]);
        items.push(pt);
        items.push(col);
        c = c + 1;
    }
    let mut segs: Vec<Value> = Vec::new();
    let mut i: usize = 0;
    while i < p.path.len()
        invariant
            i <= p.path@.len(),
            segs@.len() == i,
            forall|k: int| 0 <= k < i ==> path_segment::encodes(#[trigger] segs@[k], p.path@[k]),
        decreases p.path.len() - i,
    {
        segs.push(path_segment::serialize(&p.path[i]));
        i = i + 1;
    }
    items.push(Value::List(segs));
    Value::Tuple(items)
}

fn read_segments(v: &Value) -> (r: Result<Vec<PathSegment>, DeError>)
    ensures
        match segments_of(*v) {
            Some(s) => r matches Ok(w) && w@ == drawn(s),
            None => r is Err,
        },
{
    let items = match read_elements(v) {
        Ok(items) => items,
        Err(e) => return Err(e),
    };
    let mut out: Vec<PathSegment> = Vec::new();
    let ghost mut all: Seq<PathSegment> = Seq::empty();
    let mut i: usize = 0;
    while i < items.len()
        invariant
            elements(*v) == Some(items@),
            i <= items@.len(),
            all.len() == i,
            forall|k: int| 0 <= k < i ==> path_segment::decode(#[trigger] items@[k]) == Some(all[k]),
            out@ == drawn(all),
        decreases items.len() - i,
    {
        match path_segment::deserialize(&items[i]) {
            Ok(seg) => {
                let ghost before = all;
                proof {
                    all = all.push(seg);
                    assert(all.drop_last() =~= before);
                }
                match seg {
                    PathSegment::ClosePath => {},
                    _ => out.push(seg),
                }
            },
            Err(e) => {
                assert(path_segment::decode(items@[i as int]) is None);
                return Err(e);
            },
        }
        i = i + 1;
    }
    assert(all =~= Seq::new(items@.len(), |k: int| path_segment::decode(items@[k])->Some_0));
    Ok(out)
}

fn read_patch(v: &Value) -> (r: Result<MeshPatch, DeError>)
    ensures
        match patch_of(*v) {
            Some(p) => r matches Ok(w) && patch_view(w) == p,
            None => r is Err,
        },
{
    let items = match read_elements(v) {
        Ok(items) => items,
        Err(e) => return Err(e),
    };
    if items.len() != 9 {
        return Err(DeError::InvalidType);
    }
    let ghost cs = Seq::new(4, |c: int| corner_of(items@[2 * c], items@[2 * c + 1]));
    let mut corners: Vec<MeshCorner> = Vec::new();
    let mut c: usize = 0;
    while c < 4
        invariant
            elements(*v) == Some(items@),
            items@.len() == 9,
            cs == Seq::new(4, |c: int| corner_of(items@[2 * c], items@[2 * c + 1])),
            c <= 4,
            corners@.len() == c,
            forall|k: int| 0 <= k < c ==> cs[k] == Some(#[trigger] corners@[k]),
        decreases 4 - c,
    {
        let p = match read_f64s(&items[2 * c], 2) {
            Ok(p) => p,
            Err(e) => {
                assert(cs[c as int] is None);
                return Err(e);
            },
        };
        let col = match read_f64s(&items[2 * c + 1], 4) {
            Ok(col) => col,
            Err(e) => {
                assert(cs[c as int] is None);
                return Err(e);
            },
        };
        corners.push(MeshCorner { x: p[0], y: p[1], red: col[0], green: col[1], blue: col[2], alpha: col[3] });
        c = c + 1;
    }
    let path = match read_segments(&items[8]) {
        Ok(p) => p,
        Err(e) => return Err(e),
    };
    assert forall|k: int| 0 <= k < 4 implies (#[trigger] cs[k]) is Some by {
        assert(cs[k] == Some(corners@[k]));
    }
    assert(corners@ =~= Seq::new(4, |k: int| cs[k]->Some_0));
    assert(segments_of(items@[8]) is Some);
    assert(patch_of(*v) == Some((Seq::new(4, |k: int| cs[k]->Some_0), drawn(segments_of(items@[8])->Some_0))));
    Ok(MeshPatch { corners, path })
}

fn read_patches(v: &Value) -> (r: Result<Vec<MeshPatch>, DeError>)
    ensures
        match patches_of(*v) {
            Some(ps) => r matches Ok(w) && w@.map_values(|p: MeshPatch| patch_view(p)) == ps,
            None => r is Err,
        },
{
    let items = match read_elements(v) {
        Ok(items) => items,
        Err(e) => return Err(e),
    };
    let mut out: Vec<MeshPatch> = Vec::new();
    let mut i: usize = 0;
    while i < items.len()
        invariant
            elements(*v) == Some(items@),
            i <= items@.len(),
            out@.len() == i,
            forall|k: int| 0 <= k < i ==> patch_of(#[trigger] items@[k]) == Some(patch_view(out@[k])),
        decreases items.len() - i,
    {
        match read_patch(&items[i]) {
            Ok(p) => out.push(p),
            Err(e) => {
                assert(patch_of(items@[i as int]) is None);
                return Err(e);
            },
        }
        i = i + 1;
    }
    assert(out@.map_values(|p: MeshPatch| patch_view(p)) =~= Seq::new(items@.len(), |k: int| patch_of(items@[k])->Some_0));
    Ok(out)
}

fn mesh_value(m: &Mesh) -> (r: Result<Value, SerError>)
    requires
        mesh_well_formed(*m),
    ensures
        match (extend_name(m.extend), filter_name(m.filter)) {
            (Some(_), Some(_)) => r matches Ok(v) && encodes_mesh(v, *m),
            (None, _) => r matches Err(SerError::Custom { message }) && message@ == "Unknown PatternExtend"@,
            (Some(_), None) => r matches Err(SerError::Custom { message }) && message@ == "Unknown PatternFilter"@,
        },
{
    let e = match extend_value(m.extend) {
        Ok(e) => e,
        Err(err) => return Err(err),
    };
    let f = match filter_value(m.filter) {
        Ok(f) => f,
        Err(err) => return Err(err),
    };
    let mut ps: Vec<Value> = Vec::new();
    let mut i: usize = 0;
    while i < m.patches.len()
        invariant
            mesh_well_formed(*m),
            i <= m.patches@.len(),
            ps@.len() == i,
            forall|k: int| 0 <= k < i ==> encodes_patch(#[trigger] ps@[k], m.patches@[k].corners@, m.patches@[k].path@),
        decreases m.patches.len() - i,
    {
        assert(m.patches@[i as int].corners@.len() == 4);
        ps.push(patch_value(&m.patches[i]));
        i = i + 1;
    }
    let mut fields: Vec<Value> = Vec::new();
    fields.push(e);
    fields.push(f);
    fields.push(matrix::serialize(&m.matrix));
    fields.push(Value::List(ps));
    let inner = Value::TupleStruct { name: "cairo::Mesh".to_owned(), fields };
    Ok(Value::NewtypeStruct { name: "cairo::Mesh".to_owned(), value: Box::new(inner) })
}

fn read_mesh(v: &Value) -> (r: Result<Mesh, DeError>)
    ensures
        match mesh_of(*v) {
            Some(x) => r matches Ok(w) && mesh_view(w) == x,
            None => r is Err,
        },
{
    let fields = match read_elements(unwrap_newtype(v)) {
        Ok(f) => f,
        Err(e) => return Err(e),
    };
    if fields.len() != 4 {
        return Err(DeError::InvalidType);
    }
    let e = match read_extend(&fields[0]) { Ok(x) => x, Err(err) => return Err(err) };
    let f = match read_filter(&fields[1]) { Ok(x) => x, Err(err) => return Err(err) };
    let m = match matrix::deserialize(&fields[2]) { Ok(x) => x, Err(err) => return Err(err) };
    let ps = match read_patches(&fields[3]) { Ok(x) => x, Err(err) => return Err(err) };
    Ok(Mesh { extend: e, filter: f, matrix: m, patches: ps })
}

// ---------------------------------------------------------------------------------------
// Patterns

/// The patterns that can be written: a mesh's patches have four corners each, and a
/// pattern of another type is not one of the four written types.
pub open spec fn well_formed(p: Pattern) -> bool {
    match p {
        Pattern::Mesh(m) => mesh_well_formed(m),
        Pattern::Unsupported { pattern_type } => !(pattern_type == 0 || pattern_type == 2 || pattern_type == 3 || pattern_type == 4),
        _ => true,
    }
}

/// How Cairo displays a pattern type.
pub open spec fn pattern_type_display(t: i32) -> Seq<char> {
    if t == 0 { "Self::Solid"@ }
    else if t == 1 { "Self::Surface"@ }
    else if t == 2 { "Self::LinearGradient"@ }
    else if t == 3 { "Self::RadialGradient"@ }
    else if t == 4 { "Self::Mesh"@ }
    else if t == 5 { "Self::RasterSource"@ }
    else { "Self::Unknown"@ }
}

fn pattern_type_display_exec(t: i32) -> (r: &'static str)
    ensures
        r@ == pattern_type_display(t),
{
    if t == 0 { "Self::Solid" }
    else if t == 1 { "Self::Surface" }
    else if t == 2 { "Self::LinearGradient" }
    else if t == 3 { "Self::RadialGradient" }
    else if t == 4 { "Self::Mesh" }
    else if t == 5 { "Self::RasterSource" }
    else { "Self::Unknown" }
}

/// How `serialize` writes a pattern of a written type.
pub open spec fn encodes(v: Value, p: Pattern) -> bool {
    match p {
        Pattern::Solid(s) => v matches Value::NewtypeVariant { name, index, variant, value } && name@ == "cairo::Pattern"@
            && index == 0 && variant@ == "Solid"@ && encodes_solid(*value, s),
        Pattern::Linear(l) => v matches Value::NewtypeVariant { name, index, variant, value } && name@ == "cairo::Pattern"@
            && index == 2 && variant@ == "LinearGradient"@
            && encodes_gradient(*value, "cairo::LinearGradient"@, l.extend, l.filter, l.matrix, linear_view(l).points, l.stops@),
        Pattern::Radial(r) => v matches Value::NewtypeVariant { name, index, variant, value } && name@ == "cairo::Pattern"@
            && index == 3 && variant@ == "RadialGradient"@
            && encodes_gradient(*value, "cairo::RadialGradient"@, r.extend, r.filter, r.matrix, radial_view(r).circles, r.stops@),
        Pattern::Mesh(m) => v matches Value::NewtypeVariant { name, index, variant, value } && name@ == "cairo::Pattern"@
            && index == 4 && variant@ == "Mesh"@ && encodes_mesh(*value, m),
        Pattern::Unsupported { .. } => false,
    }
}

/// The extend mode and filter of a pattern (a solid pattern has none to write).
pub open spec fn modes(p: Pattern) -> Option<(i32, i32)> {
    match p {
        Pattern::Linear(l) => Some((l.extend, l.filter)),
        Pattern::Radial(r) => Some((r.extend, r.filter)),
        Pattern::Mesh(m) => Some((m.extend, m.filter)),
        _ => None,
    }
}

/// What writing a well-formed pattern gives.
pub open spec fn serialized(p: Pattern, r: Result<Value, SerError>) -> bool {
    match p {
        Pattern::Unsupported { pattern_type } => r matches Err(SerError::Custom { message })
            && message@ == "unsupported pattern type "@ + pattern_type_display(pattern_type),
        _ => match modes(p) {
            Some((e, f)) => if extend_name(e) is None {
                r matches Err(SerError::Custom { message }) && message@ == "Unknown PatternExtend"@
            } else if filter_name(f) is None {
                r matches Err(SerError::Custom { message }) && message@ == "Unknown PatternFilter"@
            } else {
                r matches Ok(v) && encodes(v, p)
            },
            None => r matches Ok(v) && encodes(v, p),
        },
    }
}

/// Writes a solid pattern.
pub fn write_solid(p: &SolidPattern) -> (v: Value)
    ensures
        encodes(v, Pattern::Solid(*p)),
{
    Value::NewtypeVariant {
        name: "cairo::Pattern".to_owned(),
        index: 0,
        variant: "Solid".to_owned(),
        value: Box::new(solid_value(p)),
    }
}

/// Writes a linear gradient.
pub fn write_linear(l: &LinearGradient) -> (r: Result<Value, SerError>)
    ensures
        serialized(Pattern::Linear(*l), r),
{
    let points = [l.x0, l.y0, l.x1, l.y1];
    assert(points@ =~= linear_view(*l).points);
    match gradient_value("cairo::LinearGradient", l.extend, l.filter, &l.matrix, points.as_slice(), &l.stops) {
        Ok(inner) => Ok(Value::NewtypeVariant {
            name: "cairo::Pattern".to_owned(),
            index: 2,
            variant: "LinearGradient".to_owned(),
            value: Box::new(inner),
        }),
        Err(e) => Err(e),
    }
}

/// Writes a radial gradient.
pub fn write_radial(r: &RadialGradient) -> (res: Result<Value, SerError>)
    ensures
        serialized(Pattern::Radial(*r), res),
{
    let circles = [r.x0, r.y0, r.r0, r.x1, r.y1, r.r1];
    assert(circles@ =~= radial_view(*r).circles);
    match gradient_value("cairo::RadialGradient", r.extend, r.filter, &r.matrix, circles.as_slice(), &r.stops) {
        Ok(inner) => Ok(Value::NewtypeVariant {
            name: "cairo::Pattern".to_owned(),
            index: 3,
            variant: "RadialGradient".to_owned(),
            value: Box::new(inner),
        }),
        Err(e) => Err(e),
    }
}

/// Writes a mesh.
pub fn write_mesh(m: &Mesh) -> (r: Result<Value, SerError>)
    requires
        mesh_well_formed(*m),
    ensures
        serialized(Pattern::Mesh(*m), r),
{
    match mesh_value(m) {
        Ok(inner) => Ok(Value::NewtypeVariant {
            name: "cairo::Pattern".to_owned(),
            index: 4,
            variant: "Mesh".to_owned(),
            value: Box::new(inner),
        }),
        Err(e) => Err(e),
    }
}

/// A pattern is written as the variant of `cairo::Pattern` for its type; a pattern of
/// another type is refused.
pub fn serialize(pat: &Pattern) -> (r: Result<Value, SerError>)
    requires
        well_formed(*pat),
    ensures
        serialized(*pat, r),
{
    match pat {
        Pattern::Solid(p) => Ok(write_solid(p)),
        Pattern::Linear(l) => write_linear(l),
        Pattern::Radial(r) => write_radial(r),
        Pattern::Mesh(m) => write_mesh(m),
        Pattern::Unsupported { pattern_type } => {
            let mut message = "unsupported pattern type ".to_owned();
            message.append(pattern_type_display_exec(*pattern_type));
            Err(SerError::Custom { message })
        },
    }
}

/// The pattern that a reader takes from `v`.
pub open spec fn pattern_of(v: Value) -> Option<PatternView> {
    match v {
        Value::NewtypeVariant { variant, value, .. } => if variant@ == "Solid"@ {
            match solid_of(*value) { Some(s) => Some(PatternView::Solid(s)), None => None }
        } else if variant@ == "LinearGradient"@ {
            match gradient_of(*value, 4) {
                Some((e, f, m, p, s)) => Some(PatternView::Linear(LinearView { extend: e, filter: f, matrix: m, points: p, stops: s })),
                None => None,
            }
        } else if variant@ == "RadialGradient"@ {
            match gradient_of(*value, 6) {
                Some((e, f, m, p, s)) => Some(PatternView::Radial(RadialView { extend: e, filter: f, matrix: m, circles: p, stops: s })),
                None => None,
            }
        } else if variant@ == "Mesh"@ {
            match mesh_of(*value) { Some(x) => Some(PatternView::Mesh(x)), None => None }
        } else {
            None
        },
        _ => None,
    }
}

/// Whether `name` names a variant that can be read.
pub open spec fn readable_variant(name: Seq<char>) -> bool {
    name == "Solid"@ || name == "LinearGradient"@ || name == "RadialGradient"@ || name == "Mesh"@
}

/// The variant name of an enum value.
pub open spec fn variant_name(v: Value) -> Option<Seq<char>> {
    match v {
        Value::UnitVariant { variant, .. } => Some(variant@),
        Value::NewtypeVariant { variant, .. } => Some(variant@),
        Value::TupleVariant { variant, .. } => Some(variant@),
        _ => None,
    }
}

/// How reading fails: a variant that cannot be read (the surface variant is never written,
/// nor read) is unknown; other failures are left unqualified.
pub open spec fn read_error(v: Value, e: DeError) -> bool {
    match variant_name(v) {
        Some(n) => !readable_variant(n) ==> (e matches DeError::UnknownVariant { variant } && variant@ == n),
        None => e is InvalidType,
    }
}

/// The message given when a pattern of another type is read where one type is expected.
pub open spec fn wrong_type_message() -> Seq<char> {
    "wrong pattern type"@
}

/// The plain view of a read pattern.
pub open spec fn view_of(p: Pattern) -> Option<PatternView> {
    match p {
        Pattern::Solid(s) => Some(PatternView::Solid(s)),
        Pattern::Linear(l) => Some(PatternView::Linear(linear_view(l))),
        Pattern::Radial(r) => Some(PatternView::Radial(radial_view(r))),
        Pattern::Mesh(m) => Some(PatternView::Mesh(mesh_view(m))),
        Pattern::Unsupported { .. } => None,
    }
}

/// Reads a pattern of one of the four written types.
pub fn deserialize(v: &Value) -> (r: Result<Pattern, DeError>)
    ensures
        match pattern_of(*v) {
            Some(p) => r matches Ok(w) && view_of(w) == Some(p),
            None => r matches Err(e) && read_error(*v, e),
        },
{
    proof {
        reveal_strlit("Solid");
        reveal_strlit("LinearGradient");
        reveal_strlit("RadialGradient");
        reveal_strlit("Mesh");
    }
    let (variant, value) = match v {
        Value::NewtypeVariant { variant, value, .. } => (variant, value),
        Value::UnitVariant { variant, .. } => {
            return if name_is(variant, "Solid") || name_is(variant, "LinearGradient")
                || name_is(variant, "RadialGradient") || name_is(variant, "Mesh") {
                Err(DeError::InvalidType)
            } else {
                Err(DeError::UnknownVariant { variant: variant.clone() })
            };
        },
        Value::TupleVariant { variant, .. } => {
            return if name_is(variant, "Solid") || name_is(variant, "LinearGradient")
                || name_is(variant, "RadialGradient") || name_is(variant, "Mesh") {
                Err(DeError::InvalidType)
            } else {
                Err(DeError::UnknownVariant { variant: variant.clone() })
            };
        },
        _ => return Err(DeError::InvalidType),
    };
    if name_is(variant, "Solid") {
        match read_solid(&**value) {
            Ok(p) => Ok(Pattern::Solid(p)),
            Err(e) => Err(e),
        }
    } else if name_is(variant, "LinearGradient") {
        match read_gradient(&**value, 4) {
            Ok((e, f, m, p, s)) => {
                let l = LinearGradient { extend: e, filter: f, matrix: m, x0: p[0], y0: p[1], x1: p[2], y1: p[3], stops: s };
                assert(linear_view(l).points =~= p@);
                Ok(Pattern::Linear(l))
            },
            Err(e) => Err(e),
        }
    } else if name_is(variant, "RadialGradient") {
        match read_gradient(&**value, 6) {
            Ok((e, f, m, p, s)) => {
                let r = RadialGradient {
                    extend: e, filter: f, matrix: m, x0: p[0], y0: p[1], r0: p[2], x1: p[3], y1: p[4], r1: p[5], stops: s,
                };
                assert(radial_view(r).circles =~= p@);
                Ok(Pattern::Radial(r))
            },
            Err(e) => Err(e),
        }
    } else if name_is(variant, "Mesh") {
        match read_mesh(&**value) {
            Ok(m) => Ok(Pattern::Mesh(m)),
            Err(e) => Err(e),
        }
    } else {
        Err(DeError::UnknownVariant { variant: variant.clone() })
    }
}

} // verus!

verus! {

// ---------------------------------------------------------------------------------------
// Reading back what was written

/// What a written pattern reads back as: the same pattern, except that the paths of mesh
/// patches lose their `ClosePath` segments, which the reader does not draw.
pub open spec fn read_back(p: Pattern) -> Option<PatternView> {
    match p {
        Pattern::Mesh(m) => Some(PatternView::Mesh(MeshView {
            extend: m.extend,
            filter: m.filter,
            matrix: m.matrix,
            patches: m.patches@.map_values(|q: MeshPatch| (q.corners@, drawn(q.path@))),
        })),
        _ => view_of(p),
    }
}

proof fn lemma_names()
    ensures
        forall|e: i32| #[trigger] extend_name(e) is Some ==> extend_named(extend_name(e)->Some_0) == Some(e),
        forall|f: i32| #[trigger] filter_name(f) is Some ==> filter_named(filter_name(f)->Some_0) == Some(f),
{
    reveal_strlit("None");
    reveal_strlit("Repeat");
    reveal_strlit("Reflect");
    reveal_strlit("Pad");
    reveal_strlit("Fast");
    reveal_strlit("Good");
    reveal_strlit("Best");
    reveal_strlit("Nearest");
    reveal_strlit("Bilinear");
    reveal_strlit("Gaussian");
    assert("None"@.len() != "Repeat"@.len() && "None"@.len() != "Reflect"@.len() && "None"@.len() != "Pad"@.len());
    assert("Repeat"@.len() != "Reflect"@.len() && "Repeat"@.len() != "Pad"@.len() && "Reflect"@.len() != "Pad"@.len());
    assert("Good"@[0] != "Fast"@[0]);
    assert("Best"@[0] != "Fast"@[0] && "Best"@[0] != "Good"@[0]);
    assert("Nearest"@.len() != "Fast"@.len() && "Nearest"@.len() != "Bilinear"@.len());
    assert("Bilinear"@.len() != "Fast"@.len() && "Gaussian"@.len() != "Fast"@.len() && "Gaussian"@.len() != "Nearest"@.len());
    assert("Gaussian"@[0] != "Bilinear"@[0]);
}

proof fn lemma_f64_tuple(v: Value, s: Seq<F64Bits>)
    requires
        is_f64_tuple(v, s),
    ensures
        f64s_of(v, s.len()) == Some(s),
        elements(v) is Some,
{
    let items = v->Tuple_0@;
    assert(forall|i: int| 0 <= i < s.len() ==> (#[trigger] items[i]) == Value::F64(s[i]));
    assert(Seq::new(s.len(), |i: int| items[i]->F64_0) =~= s);
}

proof fn lemma_stops(v: Value, stops: Seq<ColorStop>)
    requires
        encodes_stops(v, stops),
    ensures
        stops_of(v) == Some(stops),
{
    let items = v->List_0@;
    assert forall|i: int| 0 <= i < items.len() implies #[trigger] stop_of(items[i]) == Some(stops[i]) by {
        lemma_f64_tuple(items[i], stop_bits(stops[i]));
    }
    assert(Seq::new(items.len(), |i: int| stop_of(items[i])->Some_0) =~= stops);
}

proof fn lemma_gradient(v: Value, name: Seq<char>, e: i32, f: i32, m: Matrix, points: Seq<F64Bits>, stops: Seq<ColorStop>)
    requires
        extend_name(e) is Some,
        filter_name(f) is Some,
        encodes_gradient(v, name, e, f, m, points, stops),
    ensures
        gradient_of(v, points.len()) == Some((e, f, m, points, stops)),
{
    lemma_names();
    let fields = unwrapped(v)->TupleStruct_fields@;
    matrix::round_trip(m, fields[2]);
    lemma_f64_tuple(fields[3], points);
    lemma_stops(fields[4], stops);
}

proof fn lemma_segments(v: Value, path: Seq<PathSegment>)
    requires
        v matches Value::List(segs) && segs@.len() == path.len()
            && forall|i: int| 0 <= i < path.len() ==> path_segment::encodes(#[trigger] segs@[i], path[i]),
    ensures
        segments_of(v) == Some(path),
{
    let items = v->List_0@;
    assert forall|i: int| 0 <= i < items.len() implies #[trigger] path_segment::decode(items[i]) == Some(path[i]) by {
        path_segment::round_trip(path[i], items[i]);
    }
    assert(Seq::new(items.len(), |i: int| path_segment::decode(items[i])->Some_0) =~= path);
}

proof fn lemma_patch(v: Value, corners: Seq<MeshCorner>, path: Seq<PathSegment>)
    requires
        encodes_patch(v, corners, path),
    ensures
        patch_of(v) == Some((corners, drawn(path))),
{
    let items = v->Tuple_0@;
    let cs = Seq::new(4, |c: int| corner_of(items[2 * c], items[2 * c + 1]));
    assert forall|c: int| 0 <= c < 4 implies #[trigger] cs[c] == Some(corners[c]) by {
        lemma_f64_tuple(items[2 * c], corner_point(corners[c]));
        lemma_f64_tuple(items[2 * c + 1], corner_color(corners[c]));
    }
    assert(Seq::new(4, |c: int| cs[c]->Some_0) =~= corners);
    lemma_segments(items[8], path);
}

proof fn lemma_mesh(v: Value, m: Mesh)
    requires
        extend_name(m.extend) is Some,
        filter_name(m.filter) is Some,
        encodes_mesh(v, m),
    ensures
        mesh_of(v) == Some(MeshView {
            extend: m.extend,
            filter: m.filter,
            matrix: m.matrix,
            patches: m.patches@.map_values(|q: MeshPatch| (q.corners@, drawn(q.path@))),
        }),
{
    lemma_names();
    let fields = unwrapped(v)->TupleStruct_fields@;
    matrix::round_trip(m.matrix, fields[2]);
    let ps = fields[3]->List_0@;
    assert forall|i: int| 0 <= i < ps.len() implies #[trigger] patch_of(ps[i]) == Some(
        (m.patches@[i].corners@, drawn(m.patches@[i].path@))) by {
        lemma_patch(ps[i], m.patches@[i].corners@, m.patches@[i].path@);
    }
    assert(Seq::new(ps.len(), |i: int| patch_of(ps[i])->Some_0)
        =~= m.patches@.map_values(|q: MeshPatch| (q.corners@, drawn(q.path@))));
}

/// A pattern that `serialize` wrote is read back by `deserialize` as the same pattern,
/// but for the `ClosePath` segments of mesh paths, which are not drawn again.
pub proof fn round_trip(p: Pattern, v: Value)
    requires
        well_formed(p),
        serialized(p, Ok(v)),
    ensures
        pattern_of(v) == read_back(p),
{
    reveal_strlit("Solid");
    reveal_strlit("LinearGradient");
    reveal_strlit("RadialGradient");
    reveal_strlit("Mesh");
    assert("LinearGradient"@[0] != "RadialGradient"@[0]);
    match p {
        Pattern::Solid(s) => {
            let inner = *v->NewtypeVariant_value;
            let f = inner->TupleStruct_fields@;
            assert(f == seq![Value::F64(s.red), Value::F64(s.green), Value::F64(s.blue), Value::F64(s.alpha)]);
            assert(f[0] is F64 && f[1] is F64 && f[2] is F64 && f[3] is F64);
            assert(forall|i: int| 0 <= i < 4 ==> (#[trigger] f[i]) is F64);
            assert(fields_of(inner, 4) == Some(f));
            assert(Seq::new(4, |i: int| f[i]->F64_0) =~= seq![s.red, s.green, s.blue, s.alpha]);
            assert(solid_of(inner) == Some(s));
        },
        Pattern::Linear(l) => {
            lemma_gradient(*v->NewtypeVariant_value, "cairo::LinearGradient"@, l.extend, l.filter, l.matrix,
                linear_view(l).points, l.stops@);
            assert("LinearGradient"@.len() != "Solid"@.len());
        },
        Pattern::Radial(r) => {
            lemma_gradient(*v->NewtypeVariant_value, "cairo::RadialGradient"@, r.extend, r.filter, r.matrix,
                radial_view(r).circles, r.stops@);
            assert("RadialGradient"@.len() != "Solid"@.len());
        },
        Pattern::Mesh(m) => {
            lemma_mesh(*v->NewtypeVariant_value, m);
            assert("Mesh"@.len() != "Solid"@.len() && "Mesh"@.len() != "LinearGradient"@.len());
        },
        Pattern::Unsupported { .. } => {},
    }
}

} // verus!
