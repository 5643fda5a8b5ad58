//! Captures of closures and async blocks: what the `#[strong]`, `#[weak]` and `#[watch]`
//! attributes on parameters, and the default upgrade-failure actions, make of a closure
//! before its code is written out.
//!
//! Source positions are a type parameter `S`, and expressions a type parameter `E` that
//! the library only carries; the arguments of each attribute arrive read, in an
//! [`AttrArgs`], since reading them means parsing Rust expressions.
use vstd::prelude::*;
use vstd::string::StringExecFns;
use crate::text::{contains_name, str_eq};
use crate::util::{attr_is, extract_attr, extract_attrs, first_named, is_named, named, unnamed, Attribute, Errors};

verus! {

/// What a weak capture does when its object is gone.
#[derive(PartialEq, Eq, Structural, Clone, Copy)]
pub enum FailAction<E> {
    AllowNone,
    Panic,
    Default(E),
    Return(Option<E>),
}

/// How a closure is turned into code: a plain `move` closure that clones, a GLib closure,
/// or a GLib closure whose body is an `async` block.
#[derive(PartialEq, Eq, Structural, Clone, Copy)]
pub enum Mode {
    Clone,
    Closure,
    ClosureAsync,
}

#[derive(PartialEq, Eq, Structural, Clone, Copy)]
pub enum Kind {
    Strong,
    Weak,
    Watch,
}

/// An identifier with its position.
pub struct Ident<S> {
    pub span: S,
    pub name: String,
}

/// A pattern, as far as the identifiers it binds go: an identifier, `_`, a pattern made
/// of others (a tuple, slice, struct, reference, box, or-pattern or typed pattern), or
/// one that binds nothing (a literal, a range, a path, `..`).
pub enum Pat<S> {
    Ident(Ident<S>),
    Wild,
    Nested(Vec<Pat<S>>),
    Other,
}

/// The identifiers that a pattern binds, left to right.
pub open spec fn pat_names<S>(p: Pat<S>) -> Seq<Seq<char>>
    decreases p,
{
    match p {
        Pat::Ident(id) => seq![id.name@],
        Pat::Nested(ps) => pats_names(ps@, ps@.len() as int),
        _ => Seq::empty(),
    }
}

/// The identifiers that the first `n` patterns bind.
pub open spec fn pats_names<S>(ps: Seq<Pat<S>>, n: int) -> Seq<Seq<char>>
    decreases ps, n,
{
    if n <= 0 || n > ps.len() {
        Seq::empty()
    } else {
        pats_names(ps, n - 1) + pat_names(ps[n - 1])
    }
}

/// Adds the identifiers that `p` binds to `names`.
pub fn extract_idents<S>(p: &Pat<S>, names: &mut Vec<String>)
    ensures
        final(names)@.map_values(|s: String| s@) == old(names)@.map_values(|s: String| s@) + pat_names(*p),
    decreases p,
{
    match p {
        Pat::Ident(id) => {
            let ghost before = names@;
            names.push(id.name.clone());
            assert(names@.map_values(|s: String| s@) =~= before.map_values(|s: String| s@) + pat_names(*p));
        },
        Pat::Nested(ps) => {
            let ghost start = names@.map_values(|s: String| s@);
            let mut i: usize = 0;
            while i < ps.len()
                invariant
                    i <= ps@.len(),
                    *p is Nested && (*p)->Nested_0 == *ps,
                    names@.map_values(|s: String| s@) == start + pats_names(ps@, i as int),
                decreases ps.len() - i,
            {
                proof {
                    let pv = (*p)->Nested_0;
                    assert(decreases_to!(*p => (*p)->Nested_0));
                    assert(decreases_to!(pv => pv@));
                    assert(decreases_to!(pv@ => pv@[i as int]));
                    assert(pv@[i as int] == ps@[i as int]);
                }
                extract_idents(&ps[i], names);
                assert(names@.map_values(|s: String| s@) =~= start + pats_names(ps@, i as int + 1));
                i = i + 1;
            }
        },
        _ => {
            assert(names@.map_values(|s: String| s@) =~= old(names)@.map_values(|s: String| s@) + pat_names(*p));
        },
    }
}


/// The arguments of an attribute on a closure or on one of its parameters, read in each
/// way that an attribute of its name reads them; each reading is its result or the error
/// that it stopped at.
pub struct AttrArgs<S, E> {
    /// The attribute's position.
    pub span: S,
    /// Nothing follows the attribute's path.
    pub empty: Result<(), (S, String)>,
    /// As `#[strong(...)]` and `#[watch(...)]` read them: an optional source expression.
    pub source: Result<Option<E>, (S, String)>,
    /// As `#[weak(...)]` reads them: an optional source expression and failure action.
    pub weak: Result<(Option<E>, Option<FailAction<E>>), (S, String)>,
    /// As `#[default_return(...)]` reads them: an optional value to return.
    pub ret: Result<Option<E>, (S, String)>,
    /// As `#[closure(...)]` or `#[clone(...)]` reads them: the errors found along the way
    /// (a second default action in the list), and the list, or the error that reading
    /// stopped at.
    pub list_errors: Vec<(S, String)>,
    pub list: Result<CaptureList<S, E>, (S, String)>,
}

/// The arguments of a `#[closure(...)]` or `#[clone(...)]` attribute: `local`, the
/// captures, and a default action with its position.
pub struct CaptureList<S, E> {
    pub local: bool,
    pub captures: Vec<Capture<S, E>>,
    pub or: Option<(S, FailAction<E>)>,
}

/// A parameter of a closure: its position, its attributes (when its pattern can carry
/// any), and its pattern.
pub struct Param<S, E> {
    pub span: S,
    pub attrs: Option<Vec<Attribute<AttrArgs<S, E>>>>,
    pub pat: Pat<S>,
}

/// A captured variable: how it is captured, where the attribute that asks for it stands,
/// the name it is bound to inside, the expression it is taken from, and for a weak
/// capture what happens when it cannot be upgraded.
pub struct Capture<S, E> {
    pub kind: Kind,
    pub span: S,
    pub ident: Option<Ident<S>>,
    pub from: Option<E>,
    pub or: Option<FailAction<E>>,
}

pub struct CaptureView<S, E> {
    pub kind: Kind,
    pub span: S,
    pub ident: Option<(S, Seq<char>)>,
    pub from: Option<E>,
    pub or: Option<FailAction<E>>,
}

pub open spec fn ident_view<S>(id: Option<Ident<S>>) -> Option<(S, Seq<char>)> {
    match id {
        Some(i) => Some((i.span, i.name@)),
        None => None,
    }
}

impl<S, E> View for Capture<S, E> {
    type V = CaptureView<S, E>;

    open spec fn view(&self) -> CaptureView<S, E> {
        CaptureView { kind: self.kind, span: self.span, ident: ident_view(self.ident), from: self.from, or: self.or }
    }
}

pub open spec fn err_view<S, T>(r: Result<T, (S, String)>) -> Seq<(S, Seq<char>)> {
    match r {
        Ok(_) => Seq::empty(),
        Err((s, m)) => seq![(s, m@)],
    }
}

pub open spec fn kind_name(k: Kind) -> Seq<char> {
    match k {
        Kind::Strong => "strong"@,
        Kind::Weak => "weak"@,
        Kind::Watch => "watch"@,
    }
}

pub open spec fn extra_attrs_message() -> Seq<char> {
    "Extra attributes not allowed on #[strong] or #[weak] or #[watch] capture"@
}

pub open spec fn pattern_message() -> Seq<char> {
    "Pattern for captured variable must be an identifier"@
}

pub open spec fn unnamed_message(k: Kind) -> Seq<char> {
    "capture must be named or provide a source expression using #["@ + kind_name(k) + "(...)]"@
}

/// The capture attribute of a parameter: the first `#[strong]`, else the first `#[weak]`,
/// else, for a GLib closure, the first `#[watch]`; with the index where it stands.
pub open spec fn capture_attr<S, E>(attrs: Seq<Attribute<AttrArgs<S, E>>>, mode: Mode) -> Option<(Kind, int)> {
    if exists|i: int| first_named(attrs, "strong"@, i) {
        Some((Kind::Strong, choose|i: int| first_named(attrs, "strong"@, i)))
    } else if exists|i: int| first_named(attrs, "weak"@, i) {
        Some((Kind::Weak, choose|i: int| first_named(attrs, "weak"@, i)))
    } else if mode != Mode::Clone && exists|i: int| first_named(attrs, "watch"@, i) {
        Some((Kind::Watch, choose|i: int| first_named(attrs, "watch"@, i)))
    } else {
        None
    }
}

pub open spec fn param_capture_attr<S, E>(p: Param<S, E>, mode: Mode) -> Option<(Kind, int)> {
    match p.attrs {
        Some(v) => capture_attr(v@, mode),
        None => None,
    }
}

pub open spec fn is_capture_param<S, E>(p: Param<S, E>, mode: Mode) -> bool {
    param_capture_attr(p, mode) is Some
}

/// The source expression, failure action and reading error of a capture attribute.
pub open spec fn capture_args<S, E>(k: Kind, a: AttrArgs<S, E>) -> (Option<E>, Option<FailAction<E>>, Seq<(S, Seq<char>)>) {
    if k == Kind::Weak {
        match a.weak {
            Ok((f, o)) => (f, o, Seq::empty()),
            Err((s, m)) => (None, None, seq![(s, m@)]),
        }
    } else {
        match a.source {
            Ok(f) => (f, None, Seq::empty()),
            Err((s, m)) => (None, None, seq![(s, m@)]),
        }
    }
}

pub open spec fn pat_ident<S>(p: Pat<S>) -> Option<(S, Seq<char>)> {
    match p {
        Pat::Ident(id) => Some((id.span, id.name@)),
        _ => None,
    }
}

/// The errors that a capture parameter gives: one for each other attribute on it, the
/// reading error of its capture attribute, one for a pattern that is neither `_` nor an
/// identifier, and one when the capture has neither a name nor a source expression.
pub open spec fn param_errors<S, E>(p: Param<S, E>, mode: Mode) -> Seq<(S, Seq<char>)> {
    match param_capture_attr(p, mode) {
        None => Seq::empty(),
        Some((k, i)) => {
            let attrs = p.attrs->Some_0@;
            let a = attrs[i].item;
            let (from, _, read) = capture_args(k, a);
            let rest = attrs.remove(i).map_values(|x: Attribute<AttrArgs<S, E>>| (x.item.span, extra_attrs_message()));
            let bad_pat = if p.pat is Wild || p.pat is Ident { Seq::empty() } else { seq![(p.span, pattern_message())] };
            let unnamed = if pat_ident(p.pat) is None && from is None { seq![(a.span, unnamed_message(k))] } else { Seq::empty() };
            rest + read + bad_pat + unnamed
        },
    }
}

/// The capture that a parameter makes, if it makes one.
pub open spec fn param_capture<S, E>(p: Param<S, E>, mode: Mode) -> Option<CaptureView<S, E>> {
    match param_capture_attr(p, mode) {
        None => None,
        Some((k, i)) => {
            let a = p.attrs->Some_0@[i].item;
            let (from, or, _) = capture_args(k, a);
            if pat_ident(p.pat) is None && from is None {
                None
            } else {
                Some(CaptureView { kind: k, span: a.span, ident: pat_ident(p.pat), from, or })
            }
        },
    }
}

/// An attribute name, at most one index is the first with it.
pub proof fn lemma_first_named_unique<T>(attrs: Seq<Attribute<T>>, name: Seq<char>, i: int, j: int)
    requires
        first_named(attrs, name, i),
        first_named(attrs, name, j),
    ensures
        i == j,
{
    if i < j {
        assert(!is_named(attrs[i], name));
    } else if j < i {
        assert(!is_named(attrs[j], name));
    }
}

fn has_attr<S, E>(attrs: &Vec<Attribute<AttrArgs<S, E>>>, name: &str) -> (r: bool)
    ensures
        r == exists|i: int| first_named(attrs@, name@, i),
{
    let mut i: usize = 0;
    while i < attrs.len()
        invariant
            i <= attrs@.len(),
            forall|j: int| 0 <= j < i ==> !is_named(#[trigger] attrs@[j], name@),
        decreases attrs.len() - i,
    {
        if attr_is(&attrs[i], name) {
            assert(first_named(attrs@, name@, i as int));
            return true;
        }
        i = i + 1;
    }
    assert forall|k: int| !first_named(attrs@, name@, k) by {
        if 0 <= k < attrs@.len() {
            assert(!is_named(attrs@[k], name@));
        }
    }
    false
}

/// Which capture attribute a parameter carries.
fn capture_kind<S, E>(p: &Param<S, E>, mode: Mode) -> (r: Option<Kind>)
    ensures
        match r {
            Some(k) => param_capture_attr(*p, mode) matches Some((pk, _)) && pk == k,
            None => param_capture_attr(*p, mode) is None,
        },
{
    match &p.attrs {
        Some(attrs) => {
            if has_attr(attrs, "strong") {
                Some(Kind::Strong)
            } else if has_attr(attrs, "weak") {
                Some(Kind::Weak)
            } else if mode != Mode::Clone && has_attr(attrs, "watch") {
                Some(Kind::Watch)
            } else {
                None
            }
        },
        None => None,
    }
}


fn kind_str(k: Kind) -> (r: &'static str)
    ensures
        r@ == kind_name(k),
{
    match k {
        Kind::Strong => "strong",
        Kind::Weak => "weak",
        Kind::Watch => "watch",
    }
}

/// Makes the capture that a parameter with a capture attribute asks for, reporting what
/// is wrong with it.
fn take_capture<S: Copy, E: Copy>(p: Param<S, E>, kind: Kind, mode: Mode, errors: &mut Errors<S>) -> (r: Option<Capture<S, E>>)
    requires
        param_capture_attr(p, mode) matches Some((pk, _)) && pk == kind,
    ensures
        final(errors)@ == old(errors)@ + param_errors(p, mode),
        match r {
            Some(c) => param_capture(p, mode) == Some(c@),
            None => param_capture(p, mode) is None,
        },
{
    let ghost orig = p;
    let ghost start = errors@;
    let Param { span, attrs, pat } = p;
    let mut attrs = match attrs {
        Some(a) => a,
        None => Vec::new(),
    };
    let ghost all = attrs@;
    let found = extract_attr(&mut attrs, kind_str(kind));
    let a = match found {
        Some(a) => a,
        None => {
            assert(false);
            return None;
        },
    };
    let ghost i: int = choose|i: int| #[trigger] first_named(all, kind_name(kind), i)
        && a == all[i] && attrs@ == all.remove(i);
    proof {
        let (k, j) = param_capture_attr(orig, mode)->Some_0;
        if kind == Kind::Weak {
            assert(!exists|x: int| first_named(all, "strong"@, x));
        }
        if kind == Kind::Watch {
            assert(!exists|x: int| first_named(all, "strong"@, x));
            assert(!exists|x: int| first_named(all, "weak"@, x));
        }
        lemma_first_named_unique(all, kind_name(kind), i, j);
    }
    let mut k: usize = 0;
    while k < attrs.len()
        invariant
            k <= attrs@.len(),
            errors@ == start + attrs@.subrange(0, k as int).map_values(|x: Attribute<AttrArgs<S, E>>| (x.item.span, extra_attrs_message())),
        decreases attrs.len() - k,
    {
        errors.push_str(attrs[k].item.span, "Extra attributes not allowed on #[strong] or #[weak] or #[watch] capture");
        k = k + 1;
        assert(errors@ =~= start + attrs@.subrange(0, k as int).map_values(|x: Attribute<AttrArgs<S, E>>| (x.item.span, extra_attrs_message())));
    }
    assert(attrs@.subrange(0, attrs@.len() as int) =~= attrs@);
    let ghost after_extra = errors@;
    let AttrArgs { span: aspan, weak, source, .. } = a.item;
    let (from, or) = if kind == Kind::Weak {
        match weak {
            Ok((f, o)) => (f, o),
            Err((s, m)) => {
                errors.push(s, m);
                (None, None)
            },
        }
    } else {
        match source {
            Ok(f) => (f, None),
            Err((s, m)) => {
                errors.push(s, m);
                (None, None)
            },
        }
    };
    let ident = match pat {
        Pat::Wild => None,
        Pat::Ident(id) => Some(id),
        _ => {
            errors.push_str(span, "Pattern for captured variable must be an identifier");
            None
        },
    };
    if ident.is_some() || from.is_some() {
        assert(errors@ =~= start + param_errors(orig, mode));
        Some(Capture { kind, span: aspan, ident, from, or })
    } else {
        let mut m = "capture must be named or provide a source expression using #[".to_owned();
        m.append(kind_str(kind));
        m.append("(...)]");
        errors.push(aspan, m);
        assert(errors@ =~= start + param_errors(orig, mode));
        None
    }
}


/// The errors that the first `k` parameters give, in order.
pub open spec fn params_errors<S, E>(ps: Seq<Param<S, E>>, mode: Mode, k: int) -> Seq<(S, Seq<char>)>
    decreases k,
{
    if k <= 0 {
        Seq::empty()
    } else {
        params_errors(ps, mode, k - 1) + param_errors(ps[k - 1], mode)
    }
}

/// The captures that the first `k` parameters make, in order.
pub open spec fn params_captures<S, E>(ps: Seq<Param<S, E>>, mode: Mode, k: int) -> Seq<CaptureView<S, E>>
    decreases k,
{
    if k <= 0 {
        Seq::empty()
    } else {
        match param_capture(ps[k - 1], mode) {
            Some(c) => params_captures(ps, mode, k - 1).push(c),
            None => params_captures(ps, mode, k - 1),
        }
    }
}

/// The first `k` parameters without those that are captures.
pub open spec fn kept_params<S, E>(ps: Seq<Param<S, E>>, mode: Mode, k: int) -> Seq<Param<S, E>>
    decreases k,
{
    if k <= 0 {
        Seq::empty()
    } else if is_capture_param(ps[k - 1], mode) {
        kept_params(ps, mode, k - 1)
    } else {
        kept_params(ps, mode, k - 1).push(ps[k - 1])
    }
}

pub open spec fn captures_view<S, E>(cs: Seq<Capture<S, E>>) -> Seq<CaptureView<S, E>> {
    cs.map_values(|c: Capture<S, E>| c@)
}

/// Takes the parameters that carry a capture attribute out of `inputs`, and returns the
/// captures they make, or nothing when they make none.
pub fn get_captures<S: Copy, E: Copy>(inputs: &mut Vec<Param<S, E>>, mode: Mode, errors: &mut Errors<S>) -> (r: Option<Vec<Capture<S, E>>>)
    ensures
        final(inputs)@ == kept_params(old(inputs)@, mode, old(inputs)@.len() as int),
        final(errors)@ == old(errors)@ + params_errors(old(inputs)@, mode, old(inputs)@.len() as int),
        match r {
            Some(cs) => captures_view(cs@) == params_captures(old(inputs)@, mode, old(inputs)@.len() as int)
                && cs@.len() > 0,
            None => params_captures(old(inputs)@, mode, old(inputs)@.len() as int).len() == 0,
        },
{
    let ghost orig = inputs@;
    let ghost start = errors@;
    let ghost n = orig.len() as int;
    let mut captures: Vec<Capture<S, E>> = Vec::new();
    let mut index: usize = 0;
    let ghost mut j: int = 0;
    while index < inputs.len()
        invariant
            0 <= j <= n,
            n == orig.len(),
            inputs@ == kept_params(orig, mode, j) + orig.subrange(j, n),
            index == kept_params(orig, mode, j).len(),
            captures_view(captures@) == params_captures(orig, mode, j),
            errors@ == start + params_errors(orig, mode, j),
        decreases inputs.len() - index,
    {
        assert(inputs@[index as int] == orig[j]);
        let kind = capture_kind(&inputs[index], mode);
        match kind {
            Some(k) => {
                let p = inputs.remove(index);
                let c = take_capture(p, k, mode, errors);
                match c {
                    Some(c) => {
                        let ghost before = captures@;
                        captures.push(c);
                        assert(captures_view(captures@) =~= captures_view(before).push(c@));
                    },
                    None => {},
                }
                assert(inputs@ =~= kept_params(orig, mode, j + 1) + orig.subrange(j + 1, n));
            },
            None => {
                index = index + 1;
                assert(inputs@ =~= kept_params(orig, mode, j + 1) + orig.subrange(j + 1, n));
            },
        }
        assert(errors@ =~= start + params_errors(orig, mode, j + 1));
        proof { j = j + 1; }
    }
    assert(j == n) by {
        if j < n {
            assert(inputs@.len() == kept_params(orig, mode, j).len() + (n - j));
        }
    }
    if captures.len() == 0 {
        None
    } else {
        Some(captures)
    }
}


/// The identifiers that the first `k` parameters bind.
pub open spec fn params_names<S, E>(ps: Seq<Param<S, E>>, k: int) -> Seq<Seq<char>>
    decreases k,
{
    if k <= 0 {
        Seq::empty()
    } else {
        params_names(ps, k - 1) + pat_names(ps[k - 1].pat)
    }
}

/// The names of the first `k` captures that have one.
pub open spec fn capture_names<S, E>(cs: Seq<CaptureView<S, E>>, k: int) -> Seq<Seq<char>>
    decreases k,
{
    if k <= 0 {
        Seq::empty()
    } else {
        match cs[k - 1].ident {
            Some((_, n)) => capture_names(cs, k - 1).push(n),
            None => capture_names(cs, k - 1),
        }
    }
}

pub open spec fn watch_message() -> Seq<char> {
    "Only one #[watch] attribute is allowed on closure"@
}

pub open spec fn duplicate_message(n: Seq<char>) -> Seq<char> {
    "Identifier `"@ + n + "` is used more than once in this parameter list"@
}

/// The errors about capture `i`: a second `#[watch]`, and a name that a parameter or an
/// earlier capture already binds.
pub open spec fn capture_error<S, E>(cs: Seq<CaptureView<S, E>>, bound: Seq<Seq<char>>, i: int) -> Seq<(S, Seq<char>)> {
    let watch = if cs[i].kind == Kind::Watch && exists|j: int| 0 <= j < i && (#[trigger] cs[j]).kind == Kind::Watch {
        seq![(cs[i].span, watch_message())]
    } else {
        Seq::empty()
    };
    let dup = match cs[i].ident {
        Some((s, n)) => if bound.contains(n) || capture_names(cs, i).contains(n) {
            seq![(s, duplicate_message(n))]
        } else {
            Seq::empty()
        },
        None => Seq::empty(),
    };
    watch + dup
}

/// The errors about the first `k` captures, in order.
pub open spec fn captures_errors<S, E>(cs: Seq<CaptureView<S, E>>, bound: Seq<Seq<char>>, k: int) -> Seq<(S, Seq<char>)>
    decreases k,
{
    if k <= 0 {
        Seq::empty()
    } else {
        captures_errors(cs, bound, k - 1) + capture_error(cs, bound, k - 1)
    }
}

/// Reports a second `#[watch]` capture, and a capture whose name a parameter or an
/// earlier capture already binds.
pub fn validate_captures<S: Copy, E>(captures: &Vec<Capture<S, E>>, inputs: &Vec<Param<S, E>>, errors: &mut Errors<S>)
    ensures
        final(errors)@ == old(errors)@ + captures_errors(captures_view(captures@),
            params_names(inputs@, inputs@.len() as int), captures@.len() as int),
{
    let ghost cs = captures_view(captures@);
    let mut names: Vec<String> = Vec::new();
    let mut i: usize = 0;
    while i < inputs.len()
        invariant
            i <= inputs@.len(),
            names@.map_values(|s: String| s@) == params_names(inputs@, i as int),
        decreases inputs.len() - i,
    {
        extract_idents(&inputs[i].pat, &mut names);
        i = i + 1;
    }
    let ghost bound = params_names(inputs@, inputs@.len() as int);
    let ghost start = errors@;
    let mut has_watch = false;
    let mut k: usize = 0;
    while k < captures.len()
        invariant
            k <= captures@.len(),
            cs == captures_view(captures@),
            names@.map_values(|s: String| s@) == bound + capture_names(cs, k as int),
            has_watch == exists|j: int| 0 <= j < k && (#[trigger] cs[j]).kind == Kind::Watch,
            errors@ == start + captures_errors(cs, bound, k as int),
        decreases captures.len() - k,
    {
        let c = &captures[k];
        assert(cs[k as int] == c@);
        let ghost before = errors@;
        let ghost watch_seen = has_watch;
        if c.kind == Kind::Watch {
            if has_watch {
                errors.push_str(c.span, "Only one #[watch] attribute is allowed on closure");
            } else {
                has_watch = true;
            }
        }
        let ghost mid = errors@;
        match &c.ident {
            Some(id) => {
                let ghost nv = names@.map_values(|s: String| s@);
                proof {
                    vstd::seq_lib::lemma_seq_concat_contains_all_elements(bound, capture_names(cs, k as int), id.name@);
                }
                if contains_name(&names, id.name.as_str()) {
                    let mut m = "Identifier `".to_owned();
                    m.append(id.name.as_str());
                    m.append("` is used more than once in this parameter list");
                    errors.push(id.span, m);
                }
                let ghost old_names = names@;
                names.push(id.name.clone());
                assert(names@.map_values(|s: String| s@) =~= old_names.map_values(|s: String| s@).push(id.name@));
                assert(capture_names(cs, k as int + 1) == capture_names(cs, k as int).push(id.name@));
                assert(names@.map_values(|s: String| s@) =~= bound + capture_names(cs, k as int + 1));
            },
            None => {},
        }
        assert(mid =~= before + (if c.kind == Kind::Watch && watch_seen {
            seq![(c.span, watch_message())]
        } else {
            Seq::empty()
        }));
        assert(errors@ =~= start + captures_errors(cs, bound, k as int + 1));
        k = k + 1;
    }
}


pub open spec fn duplicate_action_message() -> Seq<char> {
    "Duplicate default action specified"@
}

pub open spec fn is_panic_attr<S, E>(x: Attribute<AttrArgs<S, E>>) -> bool {
    is_named(x, "default_panic"@)
}

pub open spec fn is_none_attr<S, E>(x: Attribute<AttrArgs<S, E>>) -> bool {
    is_named(x, "default_allow_none"@)
}

pub open spec fn is_return_attr<S, E>(x: Attribute<AttrArgs<S, E>>) -> bool {
    is_named(x, "default_return"@)
}

/// A `#[default_return]` whose value could not be read: reading default actions stops there.
pub open spec fn is_bad_return<S, E>(x: Attribute<AttrArgs<S, E>>) -> bool {
    is_return_attr(x) && x.item.ret is Err
}

/// The index of the first unreadable `#[default_return]`, or the length when there is none.
pub open spec fn stop_index<S, E>(a: Seq<Attribute<AttrArgs<S, E>>>) -> int {
    if exists|i: int| 0 <= i < a.len() && is_bad_return(#[trigger] a[i]) {
        choose|i: int| 0 <= i < a.len() && is_bad_return(#[trigger] a[i])
            && forall|j: int| 0 <= j < i ==> !is_bad_return(#[trigger] a[j])
    } else {
        a.len() as int
    }
}

/// Whether the attribute at `j` is read as a default action: every `#[default_panic]` and
/// `#[default_allow_none]`, and each `#[default_return]` up to the first unreadable one.
pub open spec fn taken_attr<S, E>(a: Seq<Attribute<AttrArgs<S, E>>>, stop: int, j: int) -> bool {
    is_panic_attr(a[j]) || is_none_attr(a[j]) || (is_return_attr(a[j]) && j <= stop)
}

/// The first `k` attributes without those read as default actions.
pub open spec fn attrs_left<S, E>(a: Seq<Attribute<AttrArgs<S, E>>>, stop: int, k: int) -> Seq<Attribute<AttrArgs<S, E>>>
    decreases k,
{
    if k <= 0 {
        Seq::empty()
    } else if taken_attr(a, stop, k - 1) {
        attrs_left(a, stop, k - 1)
    } else {
        attrs_left(a, stop, k - 1).push(a[k - 1])
    }
}

/// The attributes read as default actions, in the order in which they are read: the
/// `#[default_panic]` ones, the `#[default_allow_none]` ones, then the `#[default_return]`
/// ones up to the first unreadable one.
pub open spec fn action_attrs<S, E>(a: Seq<Attribute<AttrArgs<S, E>>>) -> Seq<Attribute<AttrArgs<S, E>>> {
    let stop = stop_index(a);
    named(a, "default_panic"@) + named(a, "default_allow_none"@)
        + named(a.subrange(0, if stop < a.len() { stop + 1 } else { a.len() as int }), "default_return"@)
}

pub open spec fn attr_action<S, E>(x: Attribute<AttrArgs<S, E>>) -> Option<FailAction<E>> {
    if is_panic_attr(x) {
        Some(FailAction::Panic)
    } else if is_none_attr(x) {
        Some(FailAction::AllowNone)
    } else {
        match x.item.ret {
            Ok(e) => Some(FailAction::Return(e)),
            Err(_) => None,
        }
    }
}

pub open spec fn attr_read_errors<S, E>(x: Attribute<AttrArgs<S, E>>) -> Seq<(S, Seq<char>)> {
    if is_panic_attr(x) || is_none_attr(x) {
        err_view(x.item.empty)
    } else {
        err_view(x.item.ret)
    }
}

/// The action and the errors after reading the first `k` of `acts`, starting from `init`:
/// each readable one replaces the action, and is reported when there already was one.
pub open spec fn read_actions<S, E>(acts: Seq<Attribute<AttrArgs<S, E>>>, k: int, init: Option<FailAction<E>>)
    -> (Option<FailAction<E>>, Seq<(S, Seq<char>)>)
    decreases k,
{
    if k <= 0 {
        (init, Seq::empty())
    } else {
        let (cur, errs) = read_actions(acts, k - 1, init);
        let x = acts[k - 1];
        match attr_action(x) {
            Some(act) => (Some(act), errs + attr_read_errors(x) + if cur is Some {
                seq![(x.item.span, duplicate_action_message())]
            } else {
                Seq::empty()
            }),
            None => (cur, errs + attr_read_errors(x)),
        }
    }
}


proof fn lemma_first_bad_exists<S, E>(a: Seq<Attribute<AttrArgs<S, E>>>, k: int)
    requires
        0 <= k <= a.len(),
        exists|i: int| 0 <= i < k && is_bad_return(#[trigger] a[i]),
    ensures
        exists|i: int| 0 <= i < a.len() && is_bad_return(#[trigger] a[i])
            && forall|j: int| 0 <= j < i ==> !is_bad_return(#[trigger] a[j]),
    decreases k,
{
    if exists|i: int| 0 <= i < k - 1 && is_bad_return(#[trigger] a[i]) {
        lemma_first_bad_exists(a, k - 1);
    } else {
        assert(is_bad_return(a[k - 1]));
        assert(forall|j: int| 0 <= j < k - 1 ==> !is_bad_return(#[trigger] a[j]));
    }
}

/// `stop_index` is the first unreadable `#[default_return]`, or the length.
proof fn lemma_stop_index<S, E>(a: Seq<Attribute<AttrArgs<S, E>>>)
    ensures
        0 <= stop_index(a) <= a.len(),
        forall|j: int| 0 <= j < stop_index(a) ==> !is_bad_return(#[trigger] a[j]),
        stop_index(a) < a.len() ==> is_bad_return(a[stop_index(a)]),
{
    if exists|i: int| 0 <= i < a.len() && is_bad_return(#[trigger] a[i]) {
        lemma_first_bad_exists(a, a.len() as int);
    }
}

/// Reads the default upgrade-failure actions among `attrs` (`#[default_panic]`,
/// `#[default_allow_none]`, `#[default_return]`) into `action`, and takes them out.
pub fn extract_default_fail_action<S: Copy, E: Copy>(attrs: &mut Vec<Attribute<AttrArgs<S, E>>>,
    action: &mut Option<FailAction<E>>, errors: &mut Errors<S>)
    ensures
        final(attrs)@ == attrs_left(old(attrs)@, stop_index(old(attrs)@), old(attrs)@.len() as int),
        (*final(action), final(errors)@) == {
            let acts = action_attrs(old(attrs)@);
            let (a, e) = read_actions(acts, acts.len() as int, *old(action));
            (a, old(errors)@ + e)
        },
{
    let ghost orig = attrs@;
    let ghost n = orig.len() as int;
    let ghost stop = stop_index(orig);
    proof {
        lemma_stop_index(orig);
        reveal_strlit("default_panic");
        reveal_strlit("default_allow_none");
        reveal_strlit("default_return");
        assert("default_panic"@.len() == 13);
        assert("default_allow_none"@.len() == 18);
        assert("default_return"@.len() == 14);
    }
    let mut ps: Vec<Attribute<AttrArgs<S, E>>> = Vec::new();
    let mut ns: Vec<Attribute<AttrArgs<S, E>>> = Vec::new();
    let mut rs: Vec<Attribute<AttrArgs<S, E>>> = Vec::new();
    let mut kept: Vec<Attribute<AttrArgs<S, E>>> = Vec::new();
    let mut stopped = false;
    let ghost mut i: int = 0;
    while attrs.len() > 0
        invariant
            0 <= i <= n,
            n == orig.len(),
            stop == stop_index(orig),
            attrs@ == orig.subrange(i, n),
            stopped == exists|j: int| 0 <= j < i && is_bad_return(#[trigger] orig[j]),
            !stopped ==> forall|j: int| 0 <= j < i ==> !is_bad_return(#[trigger] orig[j]),
            !stopped ==> stop >= i,
            stopped ==> stop < i,
            0 <= stop <= n,
            forall|j: int| 0 <= j < stop ==> !is_bad_return(#[trigger] orig[j]),
            stop < n ==> is_bad_return(orig[stop]),
            "default_panic"@ != "default_allow_none"@,
            "default_panic"@ != "default_return"@,
            "default_allow_none"@ != "default_return"@,
            ps@ == named(orig.subrange(0, i), "default_panic"@),
            ns@ == named(orig.subrange(0, i), "default_allow_none"@),
            rs@ == named(orig.subrange(0, if stop < i { stop + 1 } else { i }), "default_return"@),
            kept@ == attrs_left(orig, stop, i),
        decreases attrs.len(),
    {
        let a = attrs.remove(0);
        assert(a == orig[i]);
        assert(orig.subrange(0, i + 1).drop_last() =~= orig.subrange(0, i));
        assert(orig.subrange(0, i + 1).last() == orig[i]);
        proof {
            if !stopped && is_bad_return(orig[i]) {
                assert(stop == i) by {
                    if stop > i {
                        assert(!is_bad_return(orig[i]));
                    }
                }
            }
            if !stopped && !is_bad_return(orig[i]) {
                assert(stop != i);
            }
        }
        if attr_is(&a, "default_panic") {
            ps.push(a);
        } else if attr_is(&a, "default_allow_none") {
            ns.push(a);
        } else if attr_is(&a, "default_return") {
            if stopped {
                kept.push(a);
            } else {
                let bad = a.item.ret.is_err();
                rs.push(a);
                if bad {
                    stopped = true;
                }
            }
        } else {
            kept.push(a);
        }
        proof {
            i = i + 1;
        }
        assert(stopped == exists|j: int| 0 <= j < i && is_bad_return(#[trigger] orig[j])) by {
            if stopped {
                if !(exists|j: int| 0 <= j < i - 1 && is_bad_return(#[trigger] orig[j])) {
                    assert(is_bad_return(orig[i - 1]));
                }
            }
        }
    }
    let ghost acts = action_attrs(orig);
    proof {
        assert(orig.subrange(0, n) =~= orig);
    }
    let mut steps = ps;
    steps.append(&mut ns);
    steps.append(&mut rs);
    assert(steps@ =~= acts);
    let ghost init = *action;
    let ghost start = errors@;
    let mut k: usize = 0;
    while k < steps.len()
        invariant
            k <= steps@.len(),
            steps@ == acts,
            (*action, errors@) == {
                let (a, e) = read_actions(acts, k as int, init);
                (a, start + e)
            },
        decreases steps.len() - k,
    {
        let x = &steps[k];
        let ghost before = errors@;
        let ghost cur = *action;
        let act = if attr_is(x, "default_panic") || attr_is(x, "default_allow_none") {
            match &x.item.empty {
                Ok(()) => {},
                Err((s, m)) => errors.push(*s, m.clone()),
            }
            if attr_is(x, "default_panic") { Some(FailAction::Panic) } else { Some(FailAction::AllowNone) }
        } else {
            match &x.item.ret {
                Ok(e) => Some(FailAction::Return(*e)),
                Err((s, m)) => {
                    errors.push(*s, m.clone());
                    None
                },
            }
        };
        assert(act == attr_action(*x));
        assert(errors@ =~= before + attr_read_errors(*x));
        match act {
            Some(a) => {
                if action.is_some() {
                    errors.push_str(x.item.span, "Duplicate default action specified");
                }
                *action = Some(a);
            },
            None => {},
        }
        k = k + 1;
    }
    *attrs = kept;
}


pub open spec fn errors_view<S>(v: Seq<(S, String)>) -> Seq<(S, Seq<char>)> {
    v.map_values(|e: (S, String)| (e.0, e.1@))
}

/// What the first `k` capture lists give: whether the closure is local (starting from
/// `local`), the captures, the default action, and the errors, in order.
pub open spec fn merge_lists<S, E>(ls: Seq<Attribute<AttrArgs<S, E>>>, k: int, local: bool)
    -> (bool, Seq<CaptureView<S, E>>, Option<FailAction<E>>, Seq<(S, Seq<char>)>)
    decreases k,
{
    if k <= 0 {
        (local, Seq::empty(), None, Seq::empty())
    } else {
        let (l, cs, act, errs) = merge_lists(ls, k - 1, local);
        let x = ls[k - 1].item;
        let errs = errs + errors_view(x.list_errors@);
        match x.list {
            Err((s, m)) => (l, cs, act, errs.push((s, m@))),
            Ok(list) => (
                list.local || l,
                cs + captures_view(list.captures@),
                match list.or {
                    Some((_, a)) => Some(a),
                    None => act,
                },
                match list.or {
                    Some((s, _)) => if act is Some { errs.push((s, duplicate_action_message())) } else { errs },
                    None => errs,
                },
            ),
        }
    }
}

fn push_errors<S: Copy>(errors: &mut Errors<S>, found: Vec<(S, String)>)
    ensures
        final(errors)@ == old(errors)@ + errors_view(found@),
{
    let ghost start = errors@;
    let ghost all = found@;
    let mut found = found;
    let mut i: usize = 0;
    let n = found.len();
    while found.len() > 0
        invariant
            n == all.len(),
            i <= n,
            found@ == all.subrange(i as int, n as int),
            errors@ == start + errors_view(all.subrange(0, i as int)),
        decreases found.len(),
    {
        let (s, m) = found.remove(0);
        errors.push(s, m);
        i = i + 1;
        assert(errors_view(all.subrange(0, i as int)) =~= errors_view(all.subrange(0, i as int - 1)).push((s, m@)));
    }
    assert(all.subrange(0, n as int) =~= all);
}

/// Reads the capture lists of a closure's `#[closure(...)]` or `#[clone(...)]`
/// attributes, in order.
pub fn merge_capture_lists<S: Copy, E: Copy>(lists: Vec<Attribute<AttrArgs<S, E>>>, local: bool, errors: &mut Errors<S>)
    -> (r: (bool, Vec<Capture<S, E>>, Option<FailAction<E>>))
    ensures
        ({
            let (l, cs, act, errs) = merge_lists(lists@, lists@.len() as int, local);
            &&& r.0 == l
            &&& captures_view(r.1@) == cs
            &&& r.2 == act
            &&& final(errors)@ == old(errors)@ + errs
        }),
{
    let ghost all = lists@;
    let ghost start = errors@;
    let n = lists.len();
    let mut lists = lists;
    let mut local = local;
    let ghost local0 = local;
    let mut captures: Vec<Capture<S, E>> = Vec::new();
    let mut action: Option<FailAction<E>> = None;
    let mut i: usize = 0;
    while lists.len() > 0
        invariant
            n == all.len(),
            i <= n,
            lists@ == all.subrange(i as int, n as int),
            ({
                let (l, cs, act, errs) = merge_lists(all, i as int, local0);
                &&& local == l
                &&& captures_view(captures@) == cs
                &&& action == act
                &&& errors@ == start + errs
            }),
        decreases lists.len(),
    {
        let x = lists.remove(0);
        assert(x == all[i as int]);
        let AttrArgs { list_errors, list, .. } = x.item;
        push_errors(errors, list_errors);
        match list {
            Err((s, m)) => errors.push(s, m),
            Ok(l) => {
                let CaptureList { local: l_local, captures: l_captures, or } = l;
                let ghost before = captures@;
                let mut l_captures = l_captures;
                let ghost added = l_captures@;
                captures.append(&mut l_captures);
                assert(captures_view(captures@) =~= captures_view(before) + captures_view(added));
                match or {
                    Some((s, a)) => {
                        if action.is_some() {
                            errors.push_str(s, "Duplicate default action specified");
                        }
                        action = Some(a);
                    },
                    None => {},
                }
                local = l_local || local;
            },
        }
        i = i + 1;
    }
    (local, captures, action)
}

/// A capture with `action` as its failure action when it is weak and has none of its own.
pub open spec fn with_default<S, E>(c: CaptureView<S, E>, action: FailAction<E>) -> CaptureView<S, E> {
    if c.kind == Kind::Weak && c.or is None {
        CaptureView { or: Some(action), ..c }
    } else {
        c
    }
}

/// Gives the weak captures without a failure action of their own the default one.
pub fn set_default_fail<S: Copy, E: Copy>(captures: &mut Vec<Capture<S, E>>, action: FailAction<E>)
    ensures
        captures_view(final(captures)@) == captures_view(old(captures)@).map_values(|c: CaptureView<S, E>| with_default(c, action)),
{
    let ghost orig = captures_view(captures@);
    let mut out: Vec<Capture<S, E>> = Vec::new();
    let n = captures.len();
    let mut i: usize = 0;
    while captures.len() > 0
        invariant
            n == orig.len(),
            i <= n,
            captures_view(captures@) == orig.subrange(i as int, n as int),
            captures@.len() == n - i,
            captures_view(out@) == orig.subrange(0, i as int).map_values(|c: CaptureView<S, E>| with_default(c, action)),
        decreases captures.len(),
    {
        let ghost cv = captures_view(captures@);
        let ghost old_caps = captures@;
        let c = captures.remove(0);
        assert(captures@ == old_caps.subrange(1, old_caps.len() as int));
        assert(captures_view(captures@) =~= cv.subrange(1, cv.len() as int));
        assert(c@ == cv[0]);
        assert(cv[0] == orig[i as int]);
        let ghost cview = c@;
        let Capture { kind, span, ident, from, or } = c;
        let or = if kind == Kind::Weak && or.is_none() { Some(action) } else { or };
        let ghost before = out@;
        let nc = Capture { kind, span, ident, from, or };
        assert(nc@ == with_default(cview, action));
        out.push(nc);
        assert(captures_view(out@) =~= captures_view(before).push(nc@));
        assert(orig.subrange(0, i as int + 1).map_values(|c: CaptureView<S, E>| with_default(c, action))
            =~= orig.subrange(0, i as int).map_values(|c: CaptureView<S, E>| with_default(c, action)).push(with_default(orig[i as int], action)));
        i = i + 1;
        assert(captures_view(out@) =~= orig.subrange(0, i as int).map_values(|c: CaptureView<S, E>| with_default(c, action)));
        assert(captures_view(captures@) =~= orig.subrange(i as int, n as int));
    }
    assert(orig.subrange(0, n as int) =~= orig);
    *captures = out;
}


pub open spec fn has_rest<S, E>(p: Param<S, E>) -> bool {
    p.attrs matches Some(v) && exists|j: int| first_named(v@, "rest"@, j)
}

pub open spec fn rest_attr_index<S, E>(p: Param<S, E>) -> int {
    choose|j: int| first_named(p.attrs->Some_0@, "rest"@, j)
}

pub open spec fn past_rest_message() -> Seq<char> {
    "Arguments not allowed past #[rest] parameter"@
}

/// The error for tokens inside a `#[rest]` attribute.
pub open spec fn rest_token_errors<S, E>(a: AttrArgs<S, E>) -> Seq<(S, Seq<char>)> {
    match a.empty {
        Ok(_) => Seq::empty(),
        Err((s, _)) => seq![(s, "Unknown tokens on #[rest] attribute"@)],
    }
}

fn find_rest<S, E>(inputs: &Vec<Param<S, E>>) -> (r: Option<usize>)
    ensures
        match r {
            Some(k) => k < inputs@.len() && has_rest(inputs@[k as int])
                && forall|i: int| 0 <= i < k ==> !has_rest(#[trigger] inputs@[i]),
            None => forall|i: int| 0 <= i < inputs@.len() ==> !has_rest(#[trigger] inputs@[i]),
        },
{
    let mut index: usize = 0;
    while index < inputs.len()
        invariant
            index <= inputs@.len(),
            forall|i: int| 0 <= i < index ==> !has_rest(#[trigger] inputs@[i]),
        decreases inputs.len() - index,
    {
        let hit = match &inputs[index].attrs {
            Some(v) => has_attr(v, "rest"),
            None => false,
        };
        if hit {
            return Some(index);
        }
        index = index + 1;
    }
    None
}

/// `out` is `o` with its first `#[rest]` parameter, at `r`, stripped of that attribute and
/// the parameters after it dropped; or, with no such parameter, `o` itself.
pub open spec fn rest_taken<S, E>(o: Seq<Param<S, E>>, out: Seq<Param<S, E>>, r: Option<usize>) -> bool {
    match r {
        None => out == o && forall|i: int| 0 <= i < o.len() ==> !has_rest(#[trigger] o[i]),
        Some(k) => {
            let p = o[k as int];
            &&& k < o.len()
            &&& has_rest(p)
            &&& forall|i: int| 0 <= i < k ==> !has_rest(#[trigger] o[i])
            &&& out.len() == k + 1
            &&& forall|i: int| 0 <= i < k ==> #[trigger] out[i] == o[i]
            &&& out[k as int].span == p.span
            &&& out[k as int].pat == p.pat
            &&& out[k as int].attrs matches Some(v) && v@ == p.attrs->Some_0@.remove(rest_attr_index(p))
        },
    }
}

/// The errors for a `#[rest]` parameter at `r`: tokens inside its attribute, and each
/// parameter after it.
pub open spec fn rest_errors<S, E>(o: Seq<Param<S, E>>, r: Option<usize>) -> Seq<(S, Seq<char>)> {
    match r {
        None => Seq::empty(),
        Some(k) => {
            let p = o[k as int];
            rest_token_errors(p.attrs->Some_0@[rest_attr_index(p)].item)
                + o.subrange(k + 1, o.len() as int).map_values(|q: Param<S, E>| (q.span, past_rest_message()))
        },
    }
}

/// Finds the first parameter with a `#[rest]` attribute, takes that attribute off it, and
/// drops the parameters after it, reporting each.
pub fn take_rest<S: Copy, E>(inputs: &mut Vec<Param<S, E>>, errors: &mut Errors<S>) -> (r: Option<usize>)
    ensures
        rest_taken(old(inputs)@, final(inputs)@, r),
        final(errors)@ == old(errors)@ + rest_errors(old(inputs)@, r),
{
    let ghost o = inputs@;
    assert(o.len() == inputs.len());
    let found = find_rest(inputs);
    let k = match found {
        Some(k) => k,
        None => {
            return None;
        },
    };
    let ghost p = o[k as int];
    let ghost start = errors@;
    let Param { span, attrs, pat } = inputs.remove(k);
    let mut attrs = match attrs {
        Some(a) => a,
        None => Vec::new(),
    };
    let ghost all = attrs@;
    let taken = extract_attr(&mut attrs, "rest");
    match taken {
        Some(a) => {
            proof {
                let j = choose|j: int| #[trigger] first_named(all, "rest"@, j) && a == all[j] && attrs@ == all.remove(j);
                lemma_first_named_unique(all, "rest"@, j, rest_attr_index(p));
            }
            match &a.item.empty {
                Ok(()) => {},
                Err((s, _)) => {
                    errors.push_str(*s, "Unknown tokens on #[rest] attribute");
                },
            }
        },
        None => {
            assert(false);
        },
    }
    inputs.insert(k, Param { span, attrs: Some(attrs), pat });
    let ghost mid = errors@;
    let ghost base = inputs@;
    let mut m: usize = k + 1;
    while inputs.len() > k + 1
        invariant
            base.len() == o.len(),
            o.len() <= usize::MAX,
            k + 1 <= m <= o.len(),
            inputs@.len() == k + 1 + (o.len() - m),
            forall|i: int| 0 <= i <= k ==> #[trigger] inputs@[i] == base[i],
            forall|i: int| k < i < inputs@.len() ==> #[trigger] inputs@[i] == o[i + m - k - 1],
            errors@ == mid + o.subrange(k + 1, m as int).map_values(|q: Param<S, E>| (q.span, past_rest_message())),
        decreases inputs.len(),
    {
        let q = inputs.remove(k + 1);
        assert(q == o[m as int]);
        errors.push_str(q.span, "Arguments not allowed past #[rest] parameter");
        m = m + 1;
        assert(o.subrange(k + 1, m as int).map_values(|q: Param<S, E>| (q.span, past_rest_message()))
            =~= o.subrange(k + 1, m as int - 1).map_values(|q: Param<S, E>| (q.span, past_rest_message())).push((q.span, past_rest_message())));
    }
    assert(m == o.len());
    Some(k)
}

/// How many arguments a GLib closure needs: one past the last parameter that is neither
/// `_` nor the `#[rest]` one.
pub open spec fn required_args<S, E>(inputs: Seq<Param<S, E>>, rest: Option<usize>) -> int
    decreases inputs.len(),
{
    if inputs.len() == 0 {
        0
    } else {
        let i = inputs.len() - 1;
        if Some(i as usize) != rest && !(inputs[i].pat is Wild) {
            inputs.len() as int
        } else {
            required_args(inputs.drop_last(), rest)
        }
    }
}

pub fn required_arg_count<S, E>(inputs: &Vec<Param<S, E>>, rest: Option<usize>) -> (r: usize)
    ensures
        r == required_args(inputs@, rest),
{
    let mut i: usize = inputs.len();
    assert(inputs@.subrange(0, i as int) =~= inputs@);
    while i > 0
        invariant
            i <= inputs@.len(),
            required_args(inputs@, rest) == required_args(inputs@.subrange(0, i as int), rest),
        decreases i,
    {
        let j = i - 1;
        assert(inputs@.subrange(0, i as int).drop_last() =~= inputs@.subrange(0, j as int));
        let is_rest = match rest {
            Some(r) => r == j,
            None => false,
        };
        let wild = match &inputs[j].pat {
            Pat::Wild => true,
            _ => false,
        };
        if !is_rest && !wild {
            return i;
        }
        i = j;
    }
    0
}


/// A closure rewritten for its captures: whether the GLib closure is local, how its body
/// runs, its captures, its remaining attributes and parameters, the index of its
/// `#[rest]` parameter, and how many arguments it needs.
pub struct ClosurePlan<S, E> {
    pub local: bool,
    pub mode: Mode,
    pub captures: Vec<Capture<S, E>>,
    pub attrs: Vec<Attribute<AttrArgs<S, E>>>,
    pub inputs: Vec<Param<S, E>>,
    pub rest_index: Option<usize>,
    pub required_arg_count: usize,
}

/// Some attribute of the list is named `name`.
pub open spec fn any_named<T>(attrs: Seq<Attribute<T>>, name: Seq<char>) -> bool {
    exists|i: int| 0 <= i < attrs.len() && is_named(#[trigger] attrs[i], name)
}

pub open spec fn param_attr_named<S, E>(p: Param<S, E>, name: Seq<char>) -> bool {
    p.attrs matches Some(v) && any_named(v@, name)
}

/// Some parameter carries an attribute named `name`.
pub open spec fn param_has<S, E>(ps: Seq<Param<S, E>>, name: Seq<char>) -> bool {
    exists|i: int| 0 <= i < ps.len() && param_attr_named(#[trigger] ps[i], name)
}

pub open spec fn gclosure_move_message() -> Seq<char> {
    "Closure must be `move` to use #[watch] or #[strong] or #[weak]"@
}

pub open spec fn default_all<S, E>(cs: Seq<CaptureView<S, E>>, act: Option<FailAction<E>>) -> Seq<CaptureView<S, E>> {
    match act {
        Some(a) => cs.map_values(|c: CaptureView<S, E>| with_default(c, a)),
        None => cs,
    }
}

fn any_attr<T>(attrs: &Vec<Attribute<T>>, name: &str) -> (r: bool)
    ensures
        r == any_named(attrs@, name@),
{
    let mut i: usize = 0;
    while i < attrs.len()
        invariant
            i <= attrs@.len(),
            forall|j: int| 0 <= j < i ==> !is_named(#[trigger] attrs@[j], name@),
        decreases attrs.len() - i,
    {
        if attr_is(&attrs[i], name) {
            return true;
        }
        i = i + 1;
    }
    false
}

fn any_param_attr<S, E>(inputs: &Vec<Param<S, E>>, name: &str) -> (r: bool)
    ensures
        r == param_has(inputs@, name@),
{
    let mut i: usize = 0;
    while i < inputs.len()
        invariant
            i <= inputs@.len(),
            forall|j: int| 0 <= j < i ==> !param_attr_named(#[trigger] inputs@[j], name@),
        decreases inputs.len() - i,
    {
        let hit = match &inputs[i].attrs {
            Some(v) => any_attr(v, name),
            None => false,
        };
        if hit {
            return true;
        }
        i = i + 1;
    }
    false
}

/// Prepares a closure for a GLib closure, when it has a `#[closure]` attribute or a
/// `#[watch]` parameter: the `#[closure(...)]` lists are read (a closure without one is
/// local), then the capture parameters are taken out, the default actions read and given
/// to the weak captures, the captures checked, and the `#[rest]` parameter found.
pub fn plan_gclosure<S: Copy, E: Copy>(attrs: Vec<Attribute<AttrArgs<S, E>>>, inputs: Vec<Param<S, E>>,
    body_async: bool, is_move: bool, span: S, errors: &mut Errors<S>) -> (r: Option<ClosurePlan<S, E>>)
    ensures
        ({
            let a0 = attrs@;
            let has_closure = any_named(a0, "closure"@);
            let lists = named(a0, "closure"@);
            let a1 = unnamed(a0, "closure"@);
            let (local, cs1, act1, e1) = merge_lists(lists, lists.len() as int, !has_closure);
            let mode = if body_async { Mode::ClosureAsync } else { Mode::Closure };
            let n = inputs@.len() as int;
            let cs2 = cs1 + params_captures(inputs@, mode, n);
            let e2 = params_errors(inputs@, mode, n);
            let in2 = kept_params(inputs@, mode, n);
            let acts = action_attrs(a1);
            let (act3, e3) = read_actions(acts, acts.len() as int, act1);
            let cs4 = default_all(cs2, act3);
            let e5 = if cs4.len() > 0 && !is_move { seq![(span, gclosure_move_message())] } else { Seq::empty() };
            let e6 = captures_errors(cs4, params_names(in2, in2.len() as int), cs4.len() as int);
            match r {
                None => !has_closure && !param_has(inputs@, "watch"@) && final(errors)@ == old(errors)@,
                Some(plan) => {
                    &&& (has_closure || param_has(inputs@, "watch"@))
                    &&& plan.local == local
                    &&& plan.mode == mode
                    &&& captures_view(plan.captures@) == cs4
                    &&& plan.attrs@ == attrs_left(a1, stop_index(a1), a1.len() as int)
                    &&& rest_taken(in2, plan.inputs@, plan.rest_index)
                    &&& plan.required_arg_count == required_args(plan.inputs@, plan.rest_index)
                    &&& final(errors)@ == old(errors)@ + e1 + e2 + e3 + e5 + e6 + rest_errors(in2, plan.rest_index)
                },
            }
        }),
{
    let has_closure = any_attr(&attrs, "closure");
    let has_watch = any_param_attr(&inputs, "watch");
    if !has_closure && !has_watch {
        return None;
    }
    let ghost start = errors@;
    let mut attrs = attrs;
    let mut inputs = inputs;
    let lists = match extract_attrs(&mut attrs, "closure") {
        Some(l) => l,
        None => Vec::new(),
    };
    let (local, mut captures, mut action) = merge_capture_lists(lists, !has_closure, errors);
    let ghost e1 = errors@;
    let mode = if body_async { Mode::ClosureAsync } else { Mode::Closure };
    match get_captures(&mut inputs, mode, errors) {
        Some(mut caps) => {
            let ghost before = captures@;
            let ghost added = caps@;
            captures.append(&mut caps);
            assert(captures_view(captures@) =~= captures_view(before) + captures_view(added));
        },
        None => {
            assert(captures_view(captures@) =~= captures_view(captures@) + Seq::<CaptureView<S, E>>::empty());
        },
    }
    extract_default_fail_action(&mut attrs, &mut action, errors);
    match action {
        Some(a) => set_default_fail(&mut captures, a),
        None => {},
    }
    if captures.len() > 0 && !is_move {
        errors.push_str(span, "Closure must be `move` to use #[watch] or #[strong] or #[weak]");
    }
    validate_captures(&captures, &inputs, errors);
    let rest_index = take_rest(&mut inputs, errors);
    let required_arg_count = required_arg_count(&inputs, rest_index);
    Some(ClosurePlan { local, mode, captures, attrs, inputs, rest_index, required_arg_count })
}


/// A `move` closure or `async` block rewritten for its captures: the captures, and the
/// attributes and parameters that remain.
pub struct ClonePlan<S, E> {
    pub captures: Vec<Capture<S, E>>,
    pub attrs: Vec<Attribute<AttrArgs<S, E>>>,
    pub inputs: Vec<Param<S, E>>,
}

pub open spec fn closure_move_message() -> Seq<char> {
    "Closure must be `move` to use #[strong] or #[weak]"@
}

pub open spec fn async_move_message() -> Seq<char> {
    "Async block must be `move` to use #[clone]"@
}

/// Prepares a closure whose captures are cloned in, when it has a `#[clone]` attribute or
/// a `#[strong]` or `#[weak]` parameter: the `#[clone(...)]` lists are read, the capture
/// parameters taken out and the captures checked, the closure must be `move`, and the
/// default actions are read and given to the weak captures.
pub fn plan_closure<S: Copy, E: Copy>(attrs: Vec<Attribute<AttrArgs<S, E>>>, inputs: Vec<Param<S, E>>,
    is_move: bool, span: S, errors: &mut Errors<S>) -> (r: Option<ClonePlan<S, E>>)
    ensures
        ({
            let a0 = attrs@;
            let has_clone = any_named(a0, "clone"@);
            let lists = named(a0, "clone"@);
            let a1 = unnamed(a0, "clone"@);
            let (_, cs1, act1, e1) = merge_lists(lists, lists.len() as int, false);
            let n = inputs@.len() as int;
            let cs2 = cs1 + params_captures(inputs@, Mode::Clone, n);
            let e2 = params_errors(inputs@, Mode::Clone, n);
            let in2 = kept_params(inputs@, Mode::Clone, n);
            let e3 = captures_errors(cs2, params_names(in2, in2.len() as int), cs2.len() as int);
            let e4 = if !is_move { seq![(span, closure_move_message())] } else { Seq::empty() };
            let acts = action_attrs(a1);
            let (act5, e5) = read_actions(acts, acts.len() as int, act1);
            let has_captures = param_has(inputs@, "strong"@) || param_has(inputs@, "weak"@);
            match r {
                None => !has_clone && !has_captures && final(errors)@ == old(errors)@,
                Some(plan) => {
                    &&& (has_clone || has_captures)
                    &&& captures_view(plan.captures@) == default_all(cs2, act5)
                    &&& plan.attrs@ == attrs_left(a1, stop_index(a1), a1.len() as int)
                    &&& plan.inputs@ == in2
                    &&& final(errors)@ == old(errors)@ + e1 + e2 + e3 + e4 + e5
                },
            }
        }),
{
    let has_clone = any_attr(&attrs, "clone");
    if !has_clone && !any_param_attr(&inputs, "strong") && !any_param_attr(&inputs, "weak") {
        return None;
    }
    let mut attrs = attrs;
    let mut inputs = inputs;
    let lists = match extract_attrs(&mut attrs, "clone") {
        Some(l) => l,
        None => Vec::new(),
    };
    let (_, mut captures, mut action) = merge_capture_lists(lists, false, errors);
    match get_captures(&mut inputs, Mode::Clone, errors) {
        Some(mut caps) => {
            let ghost before = captures@;
            let ghost added = caps@;
            captures.append(&mut caps);
            assert(captures_view(captures@) =~= captures_view(before) + captures_view(added));
        },
        None => {
            assert(captures_view(captures@) =~= captures_view(captures@) + Seq::<CaptureView<S, E>>::empty());
        },
    }
    validate_captures(&captures, &inputs, errors);
    if !is_move {
        errors.push_str(span, "Closure must be `move` to use #[strong] or #[weak]");
    }
    extract_default_fail_action(&mut attrs, &mut action, errors);
    match action {
        Some(a) => set_default_fail(&mut captures, a),
        None => {},
    }
    Some(ClonePlan { captures, attrs, inputs })
}

/// Prepares an `async` block with a `#[clone]` attribute: its `#[clone(...)]` lists are
/// read and checked, the block must be `move`, and the default actions are read and
/// given to the weak captures.
pub fn plan_async<S: Copy, E: Copy>(attrs: Vec<Attribute<AttrArgs<S, E>>>, is_move: bool, span: S,
    errors: &mut Errors<S>) -> (r: Option<ClonePlan<S, E>>)
    ensures
        ({
            let a0 = attrs@;
            let lists = named(a0, "clone"@);
            let a1 = unnamed(a0, "clone"@);
            let (_, cs1, act1, e1) = merge_lists(lists, lists.len() as int, false);
            let e3 = captures_errors(cs1, Seq::empty(), cs1.len() as int);
            let e4 = if !is_move { seq![(span, async_move_message())] } else { Seq::empty() };
            let acts = action_attrs(a1);
            let (act5, e5) = read_actions(acts, acts.len() as int, act1);
            match r {
                None => !any_named(a0, "clone"@) && final(errors)@ == old(errors)@,
                Some(plan) => {
                    &&& any_named(a0, "clone"@)
                    &&& captures_view(plan.captures@) == default_all(cs1, act5)
                    &&& plan.attrs@ == attrs_left(a1, stop_index(a1), a1.len() as int)
                    &&& plan.inputs@.len() == 0
                    &&& final(errors)@ == old(errors)@ + e1 + e3 + e4 + e5
                },
            }
        }),
{
    if !any_attr(&attrs, "clone") {
        return None;
    }
    let mut attrs = attrs;
    let lists = match extract_attrs(&mut attrs, "clone") {
        Some(l) => l,
        None => Vec::new(),
    };
    let (_, mut captures, mut action) = merge_capture_lists(lists, false, errors);
    let inputs: Vec<Param<S, E>> = Vec::new();
    assert(params_names(inputs@, 0) =~= Seq::<Seq<char>>::empty());
    validate_captures(&captures, &inputs, errors);
    if !is_move {
        errors.push_str(span, "Async block must be `move` to use #[clone]");
    }
    extract_default_fail_action(&mut attrs, &mut action, errors);
    match action {
        Some(a) => set_default_fail(&mut captures, a),
        None => {},
    }
    Some(ClonePlan { captures, attrs, inputs })
}


/// When checking captures reports nothing, no two captures share a name, no capture takes
/// the name of a parameter, and at most one capture is `#[watch]`.
pub proof fn captures_distinct_without_errors<S, E>(cs: Seq<CaptureView<S, E>>, bound: Seq<Seq<char>>, k: int)
    requires
        0 <= k <= cs.len(),
        captures_errors(cs, bound, k).len() == 0,
    ensures
        capture_names(cs, k).no_duplicates(),
        forall|i: int| 0 <= i < capture_names(cs, k).len() ==> !bound.contains(#[trigger] capture_names(cs, k)[i]),
        forall|i: int, j: int| 0 <= i < j < k && (#[trigger] cs[i]).kind == Kind::Watch ==> (#[trigger] cs[j]).kind != Kind::Watch,
    decreases k,
{
    if k > 0 {
        let prev = captures_errors(cs, bound, k - 1);
        let own = capture_error(cs, bound, k - 1);
        assert(prev.len() + own.len() == 0);
        captures_distinct_without_errors(cs, bound, k - 1);
        let names = capture_names(cs, k - 1);
        match cs[k - 1].ident {
            Some((_, n)) => {
                assert(!bound.contains(n) && !names.contains(n));
                assert(capture_names(cs, k) == names.push(n));
                assert forall|a: int, b: int| 0 <= a < b < names.push(n).len() implies names.push(n)[a] != names.push(n)[b] by {
                    if b == names.len() {
                        assert(names.push(n)[a] == names[a]);
                    }
                }
            },
            None => {},
        }
        assert forall|i: int, j: int| 0 <= i < j < k && (#[trigger] cs[i]).kind == Kind::Watch implies (#[trigger] cs[j]).kind != Kind::Watch by {
            if j == k - 1 && cs[j].kind == Kind::Watch {
                assert(exists|x: int| 0 <= x < k - 1 && (#[trigger] cs[x]).kind == Kind::Watch);
            }
        }
    }
}


/// The outline of an expression, as far as telling a simple one goes.
pub enum ExprShape {
    Cast(Box<ExprShape>),
    Field(Box<ExprShape>),
    Index(Box<ExprShape>, Box<ExprShape>),
    Lit,
    Paren(Box<ExprShape>),
    Path,
    Reference(Box<ExprShape>),
    Type(Box<ExprShape>),
    Other,
}

/// An expression made only of paths and literals, through casts, field accesses,
/// indexing, parentheses, references and type ascriptions: watching it needs no copy.
pub open spec fn simple_expr(e: ExprShape) -> bool
    decreases e,
{
    match e {
        ExprShape::Cast(x) => simple_expr(*x),
        ExprShape::Field(x) => simple_expr(*x),
        ExprShape::Index(a, b) => simple_expr(*a) && simple_expr(*b),
        ExprShape::Lit => true,
        ExprShape::Paren(x) => simple_expr(*x),
        ExprShape::Path => true,
        ExprShape::Reference(x) => simple_expr(*x),
        ExprShape::Type(x) => simple_expr(*x),
        ExprShape::Other => false,
    }
}

pub fn is_simple_expr(e: &ExprShape) -> (r: bool)
    ensures
        r == simple_expr(*e),
    decreases e,
{
    match e {
        ExprShape::Cast(x) => is_simple_expr(x),
        ExprShape::Field(x) => is_simple_expr(x),
        ExprShape::Index(a, b) => is_simple_expr(a) && is_simple_expr(b),
        ExprShape::Lit => true,
        ExprShape::Paren(x) => is_simple_expr(x),
        ExprShape::Path => true,
        ExprShape::Reference(x) => is_simple_expr(x),
        ExprShape::Type(x) => is_simple_expr(x),
        ExprShape::Other => false,
    }
}

} // verus!
