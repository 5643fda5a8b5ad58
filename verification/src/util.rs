//! Diagnostics, names and attribute lists, shared by the code generators.
//!
//! Source positions are a type parameter `S` throughout: the library only carries
//! them from where an attribute was written to the diagnostic that points at it.
use vstd::prelude::*;
use vstd::string::StringExecFns;
use crate::case::{kebab_case, to_kebab_case};
use crate::text::str_eq;

verus! {

/// One error message, at a source position.
pub struct Diagnostic<S> {
    pub span: S,
    pub message: String,
}

impl<S> View for Diagnostic<S> {
    type V = (S, Seq<char>);

    open spec fn view(&self) -> (S, Seq<char>) {
        (self.span, self.message@)
    }
}

/// The errors gathered while expanding one item, in the order they were found.
pub struct Errors<S> {
    pub errors: Vec<Diagnostic<S>>,
}

impl<S> View for Errors<S> {
    type V = Seq<(S, Seq<char>)>;

    open spec fn view(&self) -> Seq<(S, Seq<char>)> {
        self.errors@.map_values(|d: Diagnostic<S>| d@)
    }
}

impl<S> Errors<S> {
    pub fn new() -> (e: Self)
        ensures
            e@ == Seq::<(S, Seq<char>)>::empty(),
    {
        let e = Errors { errors: Vec::new() };
        assert(e@ =~= Seq::<(S, Seq<char>)>::empty());
        e
    }

    /// Records `message` at `span`.
    pub fn push(&mut self, span: S, message: String)
        ensures
            final(self)@ == old(self)@.push((span, message@)),
    {
        let ghost before = self@;
        self.errors.push(Diagnostic { span, message });
        assert(self@ =~= before.push((span, message@)));
    }

    /// Records a literal `message` at `span`.
    pub fn push_str(&mut self, span: S, message: &str)
        ensures
            final(self)@ == old(self)@.push((span, message@)),
    {
        self.push(span, message.to_owned());
    }

    pub fn is_empty(&self) -> (r: bool)
        ensures
            r == (self@.len() == 0),
    {
        self.errors.len() == 0
    }

    /// The gathered errors, or nothing when there are none.
    pub fn into_compile_errors(self) -> (r: Option<Vec<Diagnostic<S>>>)
        ensures
            match r {
                None => self@.len() == 0,
                Some(v) => self@.len() > 0 && v@.map_values(|d: Diagnostic<S>| d@) == self@,
            },
    {
        if self.errors.len() == 0 {
            None
        } else {
            Some(self.errors)
        }
    }
}

pub open spec fn is_ascii_alphabetic(c: char) -> bool {
    ('a' <= c && c <= 'z') || ('A' <= c && c <= 'Z')
}

pub open spec fn is_ascii_alphanumeric(c: char) -> bool {
    is_ascii_alphabetic(c) || ('0' <= c && c <= '9')
}

/// A property or signal name: an ASCII letter, then ASCII letters, digits, `-` or `_`.
pub open spec fn valid_name(name: Seq<char>) -> bool {
    &&& name.len() > 0
    &&& is_ascii_alphabetic(name[0])
    &&& forall|i: int| 1 <= i < name.len() ==> is_ascii_alphanumeric(#[trigger] name[i]) || name[i] == '-' || name[i] == '_'
}

pub fn is_valid_name(name: &str) -> (r: bool)
    ensures
        r == valid_name(name@),
{
    let n = name.unicode_len();
    if n == 0 {
        return false;
    }
    let c = name.get_char(0);
    if !(('a' <= c && c <= 'z') || ('A' <= c && c <= 'Z')) {
        return false;
    }
    let mut i: usize = 1;
    while i < n
        invariant
            n == name@.len(),
            1 <= i <= n,
            forall|k: int| 1 <= k < i ==> is_ascii_alphanumeric(#[trigger] name@[k]) || name@[k] == '-' || name@[k] == '_',
        decreases n - i,
    {
        let c = name.get_char(i);
        if !(('a' <= c && c <= 'z') || ('A' <= c && c <= 'Z') || ('0' <= c && c <= '9') || c == '-' || c == '_') {
            return false;
        }
        i = i + 1;
    }
    true
}

/// The number of leading underscores of `s`.
pub open spec fn leading_underscores(s: Seq<char>, k: int) -> bool {
    &&& 0 <= k <= s.len()
    &&& forall|i: int| 0 <= i < k ==> s[i] == '_'
    &&& (k == s.len() || s[k] != '_')
}

/// The name that an identifier gives a property or signal: without its leading
/// underscores, in kebab-case.
pub open spec fn format_name_spec(ident: Seq<char>) -> Seq<char> {
    kebab_case(ident.skip(choose|k: int| leading_underscores(ident, k)))
}

pub proof fn lemma_leading_underscores_unique(s: Seq<char>, a: int, b: int)
    requires
        leading_underscores(s, a),
        leading_underscores(s, b),
    ensures
        a == b,
{
    if a < b {
        assert(s[a] == '_');
    } else if b < a {
        assert(s[b] == '_');
    }
}

pub fn format_name(ident: &str) -> (r: String)
    ensures
        r@ == format_name_spec(ident@),
{
    let n = ident.unicode_len();
    let mut k: usize = 0;
    while k < n && ident.get_char(k) == '_'
        invariant
            n == ident@.len(),
            k <= n,
            forall|i: int| 0 <= i < k ==> ident@[i] == '_',
        decreases n - k,
    {
        k = k + 1;
    }
    proof {
        assert(leading_underscores(ident@, k as int));
        let c = choose|j: int| leading_underscores(ident@, j);
        lemma_leading_underscores_unique(ident@, k as int, c);
    }
    let rest = ident.substring_char(k, n);
    assert(rest@ =~= ident@.skip(k as int));
    to_kebab_case(rest)
}

/// An attribute: the identifier that its path is (when the path is a single identifier),
/// with whatever else it carries.
pub struct Attribute<T> {
    pub ident: Option<String>,
    pub item: T,
}

/// Whether the path of `a` is the identifier `name`.
pub open spec fn is_named<T>(a: Attribute<T>, name: Seq<char>) -> bool {
    a.ident matches Some(id) && id@ == name
}

pub fn attr_is(a: &Attribute<impl Sized>, name: &str) -> (r: bool)
    ensures
        r == is_named(*a, name@),
{
    match &a.ident {
        Some(id) => str_eq(id.as_str(), name),
        None => false,
    }
}

/// `i` is the first attribute named `name`.
pub open spec fn first_named<T>(attrs: Seq<Attribute<T>>, name: Seq<char>, i: int) -> bool {
    &&& 0 <= i < attrs.len()
    &&& is_named(attrs[i], name)
    &&& forall|j: int| 0 <= j < i ==> !is_named(#[trigger] attrs[j], name)
}

/// The attributes with the first one named `name`, if any, removed.
pub open spec fn without_first<T>(attrs: Seq<Attribute<T>>, name: Seq<char>) -> Seq<Attribute<T>> {
    if exists|k: int| first_named(attrs, name, k) {
        attrs.remove(choose|k: int| first_named(attrs, name, k))
    } else {
        attrs
    }
}

proof fn lemma_first_named_unique<T>(attrs: Seq<Attribute<T>>, name: Seq<char>, i: int, k: int)
    requires
        first_named(attrs, name, i),
        first_named(attrs, name, k),
    ensures
        i == k,
{
    if i < k {
        assert(!is_named(attrs[i], name));
    } else if k < i {
        assert(!is_named(attrs[k], name));
    }
}

/// Removes and returns the first attribute named `name`.
pub fn extract_attr<T>(attrs: &mut Vec<Attribute<T>>, name: &str) -> (r: Option<Attribute<T>>)
    ensures
        match r {
            Some(a) => exists|i: int| #[trigger] first_named(old(attrs)@, name@, i)
                && a == old(attrs)@[i] && final(attrs)@ == old(attrs)@.remove(i),
            None => final(attrs)@ == old(attrs)@ && forall|j: int|
                0 <= j < old(attrs)@.len() ==> !is_named(#[trigger] old(attrs)@[j], name@),
        },
{
    let mut i: usize = 0;
    while i < attrs.len()
        invariant
            attrs@ == old(attrs)@,
            i <= attrs@.len(),
            forall|j: int| 0 <= j < i ==> !is_named(#[trigger] attrs@[j], name@),
        decreases attrs.len() - i,
    {
        if attr_is(&attrs[i], name) {
            assert(first_named(attrs@, name@, i as int));
            let a = attrs.remove(i);
            return Some(a);
        }
        i = i + 1;
    }
    None
}

/// The attributes of `attrs` named `name`, in order.
pub open spec fn named<T>(attrs: Seq<Attribute<T>>, name: Seq<char>) -> Seq<Attribute<T>>
    decreases attrs.len(),
{
    if attrs.len() == 0 {
        Seq::empty()
    } else if is_named(attrs.last(), name) {
        named(attrs.drop_last(), name).push(attrs.last())
    } else {
        named(attrs.drop_last(), name)
    }
}

/// The attributes of `attrs` not named `name`, in order.
pub open spec fn unnamed<T>(attrs: Seq<Attribute<T>>, name: Seq<char>) -> Seq<Attribute<T>>
    decreases attrs.len(),
{
    if attrs.len() == 0 {
        Seq::empty()
    } else if is_named(attrs.last(), name) {
        unnamed(attrs.drop_last(), name)
    } else {
        unnamed(attrs.drop_last(), name).push(attrs.last())
    }
}

/// Removes every attribute named `name` and returns them in order, or nothing when there
/// is none; the other attributes keep their order.
pub fn extract_attrs<T>(attrs: &mut Vec<Attribute<T>>, name: &str) -> (r: Option<Vec<Attribute<T>>>)
    ensures
        final(attrs)@ == unnamed(old(attrs)@, name@),
        match r {
            Some(found) => found@ == named(old(attrs)@, name@) && found@.len() > 0,
            None => named(old(attrs)@, name@).len() == 0,
        },
{
    let ghost orig = attrs@;
    let mut rest: Vec<Attribute<T>> = Vec::new();
    let mut found: Vec<Attribute<T>> = Vec::new();
    let mut i: usize = 0;
    let n = attrs.len();
    while attrs.len() > 0
        invariant
            n == orig.len(),
            i <= n,
            attrs@ == orig.subrange(i as int, n as int),
            found@ == named(orig.subrange(0, i as int), name@),
            rest@ == unnamed(orig.subrange(0, i as int), name@),
        decreases attrs.len(),
    {
        let a = attrs.remove(0);
        assert(a == orig[i as int]);
        assert(orig.subrange(0, i as int + 1).drop_last() =~= orig.subrange(0, i as int));
        if attr_is(&a, name) {
            found.push(a);
        } else {
            rest.push(a);
        }
        i = i + 1;
    }
    assert(orig.subrange(0, n as int) =~= orig);
    *attrs = rest;
    if found.len() == 0 {
        None
    } else {
        Some(found)
    }
}

/// The message for tokens left inside an attribute that takes none.
pub open spec fn unknown_tokens_message(path: Seq<char>) -> Seq<char> {
    "Unknown tokens on #["@ + path + "] attribute"@
}

/// Reports tokens inside an attribute that takes none; `path` is the attribute's path
/// as written, `tokens_empty` whether nothing follows it.
pub fn require_empty<S: Copy>(path: &str, tokens_empty: bool, span: S, errors: &mut Errors<S>)
    ensures
        final(errors)@ == if tokens_empty { old(errors)@ } else {
            old(errors)@.push((span, unknown_tokens_message(path@)))
        },
{
    if !tokens_empty {
        let mut m = "Unknown tokens on #[".to_owned();
        m.append(path);
        m.append("] attribute");
        errors.push(span, m);
    }
}

/// The positions of the arguments marked `#[is_a]`, which take any subtype of the
/// declared type.
pub struct GenericArgs {
    pub indices: Vec<usize>,
}

impl GenericArgs {
    /// `args[i]` is the attribute list of argument `i`, or nothing for a receiver. The first
    /// `is_a` attribute of each argument is removed, and the argument recorded.
    pub fn new<T>(args: &mut Vec<Option<Vec<Attribute<T>>>>) -> (g: GenericArgs)
        ensures
            final(args)@.len() == old(args)@.len(),
            forall|i: int| 0 <= i < old(args)@.len() ==> match #[trigger] old(args)@[i] {
                Some(a) => final(args)@[i] matches Some(b) && b@ == without_first(a@, "is_a"@),
                None => final(args)@[i] is None,
            },
            forall|i: int| 0 <= i < old(args)@.len() ==> (#[trigger] g.indices@.contains(i as usize) <==>
                (old(args)@[i] matches Some(a) && exists|k: int| #[trigger] first_named(a@, "is_a"@, k))),
            forall|i: int| 0 <= i < g.indices@.len() ==> g.indices@[i] < old(args)@.len(),
    {
        let ghost orig = args@;
        let mut indices: Vec<usize> = Vec::new();
        let mut i: usize = 0;
        while i < args.len()
            invariant
                args@.len() == orig.len(),
                i <= args@.len(),
                forall|j: int| i <= j < orig.len() ==> args@[j] == orig[j],
                forall|j: int| 0 <= j < i ==> match #[trigger] orig[j] {
                    Some(a) => args@[j] matches Some(b) && b@ == without_first(a@, "is_a"@),
                    None => args@[j] is None,
                },
                forall|k: int| 0 <= k < indices@.len() ==> indices@[k] < i,
                forall|j: int| 0 <= j < i ==> (#[trigger] indices@.contains(j as usize) <==>
                    (orig[j] matches Some(a) && exists|k: int| #[trigger] first_named(a@, "is_a"@, k))),
            decreases args.len() - i,
        {
            let mut slot: Option<Vec<Attribute<T>>> = None;
            std::mem::swap(&mut slot, &mut args[i]);
            let ghost before = indices@;
            match slot {
                Some(mut attrs) => {
                    let found = extract_attr(&mut attrs, "is_a");
                    if found.is_some() {
                        proof {
                            let a = orig[i as int]->Some_0@;
                            let w = choose|w: int| #[trigger] first_named(a, "is_a"@, w) && attrs@ == a.remove(w);
                            let c = choose|k: int| first_named(a, "is_a"@, k);
                            lemma_first_named_unique(a, "is_a"@, w, c);
                            assert(attrs@ == without_first(a, "is_a"@));
                        }
                        indices.push(i);
                    } else {
                        assert(forall|k: int| !#[trigger] first_named(orig[i as int]->Some_0@, "is_a"@, k));
                        assert(attrs@ == without_first(orig[i as int]->Some_0@, "is_a"@));
                    }
                    args.set(i, Some(attrs));
                },
                None => {
                    args.set(i, None);
                },
            }
            assert(indices@ == before || indices@ == before.push(i));
            assert(indices@ == before.push(i) <==> (orig[i as int] matches Some(a) && exists|k: int| #[trigger] first_named(a@, "is_a"@, k)));
            assert forall|j: int| 0 <= j < i + 1 implies (#[trigger] indices@.contains(j as usize) <==>
                (orig[j] matches Some(a) && exists|k: int| #[trigger] first_named(a@, "is_a"@, k))) by {
                if indices@.contains(j as usize) {
                    let k = choose|k: int| 0 <= k < indices@.len() && indices@[k] == j as usize;
                    if k < before.len() {
                        assert(before[k] == j as usize);
                        assert(before.contains(j as usize));
                    }
                }
                if j < i && before.contains(j as usize) {
                    let k = choose|k: int| 0 <= k < before.len() && before[k] == j as usize;
                    assert(indices@[k] == j as usize);
                }
                if j == i && indices@ == before.push(i) {
                    assert(indices@[before.len() as int] == i);
                }
                if j == i && before.contains(j as usize) {
                    let k = choose|k: int| 0 <= k < before.len() && before[k] == j as usize;
                    assert(before[k] < i);
                }
            }
            i = i + 1;
        }
        GenericArgs { indices }
    }

    /// Whether argument `index` was marked `#[is_a]`.
    pub fn contains(&self, index: usize) -> (r: bool)
        ensures
            r == self.indices@.contains(index),
    {
        let mut i: usize = 0;
        while i < self.indices.len()
            invariant
                i <= self.indices@.len(),
                forall|k: int| 0 <= k < i ==> self.indices@[k] != index,
            decreases self.indices.len() - i,
        {
            if self.indices[i] == index {
                return true;
            }
            i = i + 1;
        }
        false
    }
}

} // verus!
