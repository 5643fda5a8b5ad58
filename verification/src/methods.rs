//! Public methods, constructors and virtual methods declared in a type's `impl` blocks:
//! which methods they are, what they are called, and what is wrong with them.
use vstd::prelude::*;
use crate::text::str_eq;
use crate::type_definition::{TypeBase, TypeMode};
use crate::util::Errors;

verus! {

/// What `#[public(...)]` or `#[constructor(...)]` attributes say: the name the method is
/// published under, with where it is written.
pub struct NameAttrs<S> {
    pub name: Option<(S, String)>,
}

/// A method of an `impl` block as the method macros read it.
pub struct MethodInput<S> {
    pub ident: String,
    /// Where the signature is.
    pub sig_span: S,
    /// Where the `self` argument is, when there is one.
    pub receiver: Option<S>,
    pub has_output: bool,
    /// The body has no statements.
    pub body_empty: bool,
    /// Where each typed argument's pattern is, and whether it is a plain identifier.
    pub arg_patterns: Vec<(S, bool)>,
    /// The method's `#[constructor]` attributes, read, when it has any.
    pub constructor: Option<NameAttrs<S>>,
    /// The method's `#[public]` attributes, read, when it has any.
    pub public: Option<NameAttrs<S>>,
}

/// A constructor written out from its signature alone (an empty body), or one with its
/// own body.
#[derive(PartialEq, Eq, Structural, Clone, Copy)]
pub enum ConstructorType {
    Auto,
    Custom,
}

/// A method published on the wrapper type: the name it is published under, the name of
/// the method it calls when that differs, the mode it is written in, and whether it is a
/// constructor.
pub struct PublicMethod {
    pub ident: String,
    pub target: Option<String>,
    pub mode: TypeMode,
    pub constructor: Option<ConstructorType>,
}

pub open spec fn self_constructor_message() -> Seq<char> {
    "`self` not allowed on constructor"@
}

pub open spec fn constructor_output_message() -> Seq<char> {
    "Constructor must have a return type"@
}

pub open spec fn auto_argument_message() -> Seq<char> {
    "Auto constructor argument must be an ident"@
}

pub open spec fn duplicate_name_message() -> Seq<char> {
    "Duplicate `name` attribute"@
}

pub open spec fn same_name_message() -> Seq<char> {
    "`name` attribute cannot be the same as the function name"@
}

pub open spec fn interface_self_message() -> Seq<char> {
    "`self` not supported on public method for private interface struct. \\\n                    Implement this method on the wrapper type"@
}

/// `#[constructor]` counts on classes only.
pub open spec fn is_constructor<S>(m: MethodInput<S>, base: TypeBase) -> bool {
    base == TypeBase::Class && m.constructor is Some
}

/// The arguments of an auto constructor that are not plain identifiers, reported.
pub open spec fn pattern_errors<S>(args: Seq<(S, bool)>) -> Seq<(S, Seq<char>)>
    decreases args.len(),
{
    if args.len() == 0 {
        Seq::empty()
    } else if args.last().1 {
        pattern_errors(args.drop_last())
    } else {
        pattern_errors(args.drop_last()).push((args.last().0, auto_argument_message()))
    }
}

/// The errors about a constructor.
pub open spec fn constructor_errors<S>(m: MethodInput<S>, base: TypeBase) -> Seq<(S, Seq<char>)> {
    if is_constructor(m, base) {
        (match m.receiver { Some(r) => seq![(r, self_constructor_message())], None => Seq::empty() })
            + (if m.has_output { Seq::empty() } else { seq![(m.sig_span, constructor_output_message())] })
            + (if m.body_empty { pattern_errors(m.arg_patterns@) } else { Seq::empty() })
    } else {
        Seq::empty()
    }
}

pub open spec fn name_view<S>(n: Option<(S, String)>) -> Option<(S, Seq<char>)> {
    match n {
        Some((s, x)) => Some((s, x@)),
        None => None,
    }
}

/// The name given by `#[constructor(name = ...)]`, on a class.
pub open spec fn constructor_name<S>(m: MethodInput<S>, base: TypeBase) -> Option<(S, Seq<char>)> {
    if is_constructor(m, base) { name_view(m.constructor->Some_0.name) } else { None }
}

/// The name the method is published under, when one is given: the constructor's, else
/// the one in `#[public(name = ...)]`.
pub open spec fn published_name<S>(m: MethodInput<S>, base: TypeBase) -> Option<(S, Seq<char>)> {
    match constructor_name(m, base) {
        Some(n) => Some(n),
        None => match m.public {
            Some(p) => name_view(p.name),
            None => None,
        },
    }
}

/// The errors about the name in `#[public(name = ...)]`: a second name, or the method's
/// own name.
pub open spec fn public_name_errors<S>(m: MethodInput<S>, base: TypeBase) -> Seq<(S, Seq<char>)> {
    match m.public {
        Some(p) => match name_view(p.name) {
            Some((s, n)) => if constructor_name(m, base) is Some {
                seq![(s, duplicate_name_message())]
            } else if n == m.ident@ {
                seq![(s, same_name_message())]
            } else {
                Seq::empty()
            },
            None => Seq::empty(),
        },
        None => Seq::empty(),
    }
}

/// Whether the method is published: it has `#[public]`, or is a constructor of a class.
pub open spec fn is_published<S>(m: MethodInput<S>, base: TypeBase) -> bool {
    m.public is Some || is_constructor(m, base)
}

/// Every error that reading a method reports, in order.
pub open spec fn method_errors<S>(m: MethodInput<S>, base: TypeBase, mode: TypeMode) -> Seq<(S, Seq<char>)> {
    constructor_errors(m, base) + public_name_errors(m, base) + if is_published(m, base) && mode == TypeMode::Subclass
        && base == TypeBase::Interface && m.receiver is Some {
        seq![(m.receiver->Some_0, interface_self_message())]
    } else {
        Seq::empty()
    }
}

fn push_pattern_errors<S: Copy>(args: &Vec<(S, bool)>, errors: &mut Errors<S>)
    ensures
        final(errors)@ == old(errors)@ + pattern_errors(args@),
{
    let ghost start = errors@;
    let mut i: usize = 0;
    while i < args.len()
        invariant
            i <= args@.len(),
            errors@ == start + pattern_errors(args@.subrange(0, i as int)),
        decreases args.len() - i,
    {
        assert(args@.subrange(0, i as int + 1).drop_last() =~= args@.subrange(0, i as int));
        let (s, ok) = args[i];
        if !ok {
            errors.push_str(s, "Auto constructor argument must be an ident");
        }
        i = i + 1;
        assert(errors@ =~= start + pattern_errors(args@.subrange(0, i as int)));
    }
    assert(args@.subrange(0, args@.len() as int) =~= args@);
}

impl PublicMethod {
    /// Reads a method as a public method or constructor; a method that is neither gives
    /// nothing.
    pub fn from_method<S: Copy>(m: &MethodInput<S>, base: TypeBase, mode: TypeMode, errors: &mut Errors<S>) -> (r: Option<PublicMethod>)
        ensures
            final(errors)@ == old(errors)@ + method_errors(*m, base, mode),
            match r {
                None => !is_published(*m, base),
                Some(p) => {
                    &&& is_published(*m, base)
                    &&& p.mode == mode
                    &&& p.constructor == if is_constructor(*m, base) {
                        Some(if m.body_empty { ConstructorType::Auto } else { ConstructorType::Custom })
                    } else {
                        None
                    }
                    &&& match published_name(*m, base) {
                        Some((_, n)) => p.ident@ == n && (p.target matches Some(t) && t@ == m.ident@),
                        None => p.ident@ == m.ident@ && p.target is None,
                    }
                },
            },
    {
        let ghost start = errors@;
        let mut name: Option<String> = None;
        let mut constructor: Option<ConstructorType> = None;
        if base == TypeBase::Class {
            match &m.constructor {
                Some(c) => {
                    name = match &c.name {
                        Some((_, n)) => Some(n.clone()),
                        None => None,
                    };
                    match m.receiver {
                        Some(r) => errors.push_str(r, "`self` not allowed on constructor"),
                        None => {},
                    }
                    if !m.has_output {
                        errors.push_str(m.sig_span, "Constructor must have a return type");
                    }
                    if m.body_empty {
                        push_pattern_errors(&m.arg_patterns, errors);
                        constructor = Some(ConstructorType::Auto);
                    } else {
                        constructor = Some(ConstructorType::Custom);
                    }
                },
                None => {},
            }
        }
        assert(errors@ =~= start + constructor_errors(*m, base));
        let ghost after_constructor = errors@;
        let mut public = false;
        match &m.public {
            Some(p) => {
                match &p.name {
                    Some((s, n)) => {
                        if name.is_some() {
                            errors.push_str(*s, "Duplicate `name` attribute");
                        } else {
                            if str_eq(n.as_str(), m.ident.as_str()) {
                                errors.push_str(*s, "`name` attribute cannot be the same as the function name");
                            }
                            name = Some(n.clone());
                        }
                    },
                    None => {},
                }
                public = true;
            },
            None => {},
        }
        assert(errors@ =~= after_constructor + public_name_errors(*m, base));
        if !public && constructor.is_none() {
            assert(errors@ =~= start + method_errors(*m, base, mode));
            return None;
        }
        if mode == TypeMode::Subclass && base == TypeBase::Interface {
            match m.receiver {
                Some(r) => errors.push_str(r, "`self` not supported on public method for private interface struct. \\\n                    Implement this method on the wrapper type"),
                None => {},
            }
        }
        assert(errors@ =~= start + method_errors(*m, base, mode));
        let (ident, target) = match name {
            Some(n) => (n, Some(m.ident.clone())),
            None => (m.ident.clone(), None),
        };
        Some(PublicMethod { ident, target, mode, constructor })
    }

    /// A constructor or a method without `self` is called on the type, not on an object.
    pub fn is_static(&self, has_receiver: bool) -> (r: bool)
        ensures
            r == (self.constructor is Some || !has_receiver),
    {
        self.constructor.is_some() || !has_receiver
    }
}

/// What reading the methods `0..k` gives: the public methods, and the indices of the
/// auto constructors, which leave the `impl` block.
pub open spec fn published<S>(ms: Seq<MethodInput<S>>, base: TypeBase, k: int) -> Seq<int>
    decreases k,
{
    if k <= 0 {
        Seq::empty()
    } else if is_published(ms[k - 1], base) {
        published(ms, base, k - 1).push(k - 1)
    } else {
        published(ms, base, k - 1)
    }
}

pub open spec fn auto_constructors<S>(ms: Seq<MethodInput<S>>, base: TypeBase, k: int) -> Seq<usize>
    decreases k,
{
    if k <= 0 {
        Seq::empty()
    } else if is_constructor(ms[k - 1], base) && ms[k - 1].body_empty {
        auto_constructors(ms, base, k - 1).push((k - 1) as usize)
    } else {
        auto_constructors(ms, base, k - 1)
    }
}

pub open spec fn methods_errors<S>(ms: Seq<MethodInput<S>>, base: TypeBase, mode: TypeMode, k: int) -> Seq<(S, Seq<char>)>
    decreases k,
{
    if k <= 0 {
        Seq::empty()
    } else {
        methods_errors(ms, base, mode, k - 1) + method_errors(ms[k - 1], base, mode)
    }
}

impl PublicMethod {
    /// Reads the methods of an `impl` block: the public methods in order, and the indices
    /// of the auto constructors, which are removed from the block.
    pub fn many_from_items<S: Copy>(methods: &Vec<MethodInput<S>>, base: TypeBase, mode: TypeMode, errors: &mut Errors<S>)
        -> (r: (Vec<PublicMethod>, Vec<usize>))
        ensures
            final(errors)@ == old(errors)@ + methods_errors(methods@, base, mode, methods@.len() as int),
            r.0@.len() == published(methods@, base, methods@.len() as int).len(),
            forall|j: int| 0 <= j < r.0@.len() ==> {
                let m = methods@[published(methods@, base, methods@.len() as int)[j]];
                &&& (#[trigger] r.0@[j]).mode == mode
                &&& r.0@[j].constructor == if is_constructor(m, base) {
                    Some(if m.body_empty { ConstructorType::Auto } else { ConstructorType::Custom })
                } else {
                    None
                }
                &&& match published_name(m, base) {
                    Some((_, n)) => r.0@[j].ident@ == n,
                    None => r.0@[j].ident@ == m.ident@ && r.0@[j].target is None,
                }
            },
            r.1@ == auto_constructors(methods@, base, methods@.len() as int),
    {
        let ghost ms = methods@;
        let ghost start = errors@;
        let mut out: Vec<PublicMethod> = Vec::new();
        let mut remove: Vec<usize> = Vec::new();
        let mut i: usize = 0;
        while i < methods.len()
            invariant
                i <= ms.len(),
                ms == methods@,
                errors@ == start + methods_errors(ms, base, mode, i as int),
                remove@ == auto_constructors(ms, base, i as int),
                out@.len() == published(ms, base, i as int).len(),
                forall|j: int| 0 <= j < published(ms, base, i as int).len() ==> 0 <= #[trigger] published(ms, base, i as int)[j] < i,
                forall|j: int| 0 <= j < out@.len() ==> {
                    let m = ms[published(ms, base, i as int)[j]];
                    &&& (#[trigger] out@[j]).mode == mode
                    &&& out@[j].constructor == if is_constructor(m, base) {
                        Some(if m.body_empty { ConstructorType::Auto } else { ConstructorType::Custom })
                    } else {
                        None
                    }
                    &&& match published_name(m, base) {
                        Some((_, n)) => out@[j].ident@ == n,
                        None => out@[j].ident@ == m.ident@ && out@[j].target is None,
                    }
                },
            decreases methods.len() - i,
        {
            let p = PublicMethod::from_method(&methods[i], base, mode, errors);
            match p {
                Some(p) => {
                    if matches!(p.constructor, Some(ConstructorType::Auto)) {
                        remove.push(i);
                    }
                    out.push(p);
                },
                None => {},
            }
            i = i + 1;
        }
        (out, remove)
    }
}

/// A method marked `#[virt]`, as the macros read it: the tokens after its attribute's path
/// (where they are, when there are any), where `async` is when it is async, where its
/// arguments are and whether there are none, and where its `self` argument is.
pub struct VirtualInput<S> {
    pub tokens: Option<S>,
    pub asyncness: Option<S>,
    pub inputs_span: S,
    pub inputs_empty: bool,
    pub receiver: Option<S>,
}

/// A virtual method: the type it belongs to and the mode it is written in.
pub struct VirtualMethod {
    pub base: TypeBase,
    pub mode: TypeMode,
}

pub open spec fn virtual_errors<S>(v: VirtualInput<S>, base: TypeBase, mode: TypeMode) -> Seq<(S, Seq<char>)> {
    (match v.tokens { Some(s) => seq![(s, "Unknown tokens on virtual method"@)], None => Seq::empty() })
        + (match v.asyncness { Some(s) => seq![(s, "Virtual method cannot be async, return a Future instead"@)], None => Seq::empty() })
        + (if v.inputs_empty {
            seq![(v.inputs_span, "First argument required on virtual method, must be `self`, `&self` or the wrapper type"@)]
        } else {
            Seq::empty()
        })
        + (if mode == TypeMode::Subclass && base == TypeBase::Interface && v.receiver is Some {
            seq![(v.receiver->Some_0, "First argument to interface virtual method must be the wrapper type"@)]
        } else {
            Seq::empty()
        })
}

impl VirtualMethod {
    /// Reads a `#[virt]` method, reporting what is wrong with it.
    pub fn from_method<S: Copy>(v: &VirtualInput<S>, base: TypeBase, mode: TypeMode, errors: &mut Errors<S>) -> (r: VirtualMethod)
        ensures
            final(errors)@ == old(errors)@ + virtual_errors(*v, base, mode),
            r.base == base,
            r.mode == mode,
    {
        let ghost start = errors@;
        match v.tokens {
            Some(s) => errors.push_str(s, "Unknown tokens on virtual method"),
            None => {},
        }
        match v.asyncness {
            Some(s) => errors.push_str(s, "Virtual method cannot be async, return a Future instead"),
            None => {},
        }
        if v.inputs_empty {
            errors.push_str(v.inputs_span, "First argument required on virtual method, must be `self`, `&self` or the wrapper type");
        }
        if mode == TypeMode::Subclass && base == TypeBase::Interface {
            match v.receiver {
                Some(r) => errors.push_str(r, "First argument to interface virtual method must be the wrapper type"),
                None => {},
            }
        }
        assert(errors@ =~= start + virtual_errors(*v, base, mode));
        VirtualMethod { base, mode }
    }
}


pub open spec fn virtuals_errors<S>(vs: Seq<Option<VirtualInput<S>>>, base: TypeBase, mode: TypeMode, k: int) -> Seq<(S, Seq<char>)>
    decreases k,
{
    if k <= 0 {
        Seq::empty()
    } else {
        virtuals_errors(vs, base, mode, k - 1) + match vs[k - 1] {
            Some(v) => virtual_errors(v, base, mode),
            None => Seq::empty(),
        }
    }
}

pub open spec fn virtual_count<S>(vs: Seq<Option<VirtualInput<S>>>, k: int) -> int
    decreases k,
{
    if k <= 0 {
        0
    } else {
        virtual_count(vs, k - 1) + if vs[k - 1] is Some { 1int } else { 0int }
    }
}

impl VirtualMethod {
    /// Reads the methods of an `impl` block that are marked `#[virt]` (those given as
    /// `Some`), in order.
    pub fn many_from_items<S: Copy>(methods: &Vec<Option<VirtualInput<S>>>, base: TypeBase, mode: TypeMode, errors: &mut Errors<S>)
        -> (r: Vec<VirtualMethod>)
        ensures
            final(errors)@ == old(errors)@ + virtuals_errors(methods@, base, mode, methods@.len() as int),
            r@.len() == virtual_count(methods@, methods@.len() as int),
            forall|j: int| 0 <= j < r@.len() ==> (#[trigger] r@[j]).base == base && r@[j].mode == mode,
    {
        let ghost start = errors@;
        let mut out: Vec<VirtualMethod> = Vec::new();
        let mut i: usize = 0;
        while i < methods.len()
            invariant
                i <= methods@.len(),
                errors@ == start + virtuals_errors(methods@, base, mode, i as int),
                out@.len() == virtual_count(methods@, i as int),
                forall|j: int| 0 <= j < out@.len() ==> (#[trigger] out@[j]).base == base && out@[j].mode == mode,
            decreases methods.len() - i,
        {
            match &methods[i] {
                Some(v) => {
                    let m = VirtualMethod::from_method(v, base, mode, errors);
                    out.push(m);
                },
                None => {},
            }
            i = i + 1;
        }
        out
    }
}

} // verus!
