//! The kinds of type that the macros define, how their items are addressed, and how the
//! items of a definition's module are assigned to the type.
use vstd::prelude::*;
use crate::text::str_eq;
use crate::case::{to_upper_camel_case, upper_camel_case};
use crate::members::{read_members, reads_members, MemberInput, TypeMembers};
use crate::util::Errors;

verus! {

/// Whether code refers to the subclass implementation or to the wrapper type.
#[derive(PartialEq, Eq, Structural, Clone, Copy)]
pub enum TypeMode {
    Subclass,
    Wrapper,
}

/// Whether a type is named from inside the definition's module or from outside it.
#[derive(PartialEq, Eq, Structural, Clone, Copy)]
pub enum TypeContext {
    Internal,
    External,
}

/// Whether the definition is a class or an interface.
#[derive(PartialEq, Eq, Structural, Clone, Copy)]
pub enum TypeBase {
    Class,
    Interface,
}

/// Whether the type must be `Send + Sync`.
#[derive(PartialEq, Eq, Structural, Clone, Copy)]
pub enum Concurrency {
    Unbounded,
    SendSync,
}

impl TypeMode {
    /// The mode that the self type of an `impl` block names: a path of two segments
    /// (`super::Name`) is the wrapper, a path of one the subclass; `path_segments` is the
    /// number of segments when the type is a path.
    pub fn for_item_type(path_segments: Option<usize>) -> (r: Option<TypeMode>)
        ensures
            r == match path_segments {
                Some(2) => Some(TypeMode::Wrapper),
                Some(1) => Some(TypeMode::Subclass),
                _ => None::<TypeMode>,
            },
    {
        match path_segments {
            Some(2) => Some(TypeMode::Wrapper),
            Some(1) => Some(TypeMode::Subclass),
            _ => None,
        }
    }
}

impl Concurrency {
    /// The bounds that the concurrency adds to a trait object or generic bound.
    pub fn to_tokens(&self) -> (r: &'static str)
        ensures
            match self {
                Concurrency::Unbounded => r@ == ""@,
                Concurrency::SendSync => r@ == " + Send + Sync"@,
            },
    {
        match self {
            Concurrency::Unbounded => "",
            Concurrency::SendSync => " + Send + Sync",
        }
    }
}


/// The self type of an `impl` block when it is a path: whether it starts with `::`, and
/// the identifiers of its segments.
pub struct TypePath {
    pub leading_colon: bool,
    pub segments: Vec<String>,
}

/// The identifier that names the defined type in a self type: `Name` or `super::Name`.
pub open spec fn type_ident_of(ty: Option<TypePath>) -> Option<Seq<char>> {
    match ty {
        Some(p) => if p.leading_colon {
            None
        } else if p.segments@.len() == 1 {
            Some(p.segments@[0]@)
        } else if p.segments@.len() == 2 && p.segments@[0]@ == "super"@ {
            Some(p.segments@[1]@)
        } else {
            None
        },
        None => None,
    }
}

pub fn type_ident(ty: &Option<TypePath>) -> (r: Option<String>)
    ensures
        match r {
            Some(s) => type_ident_of(*ty) == Some(s@),
            None => type_ident_of(*ty) is None,
        },
{
    match ty {
        Some(p) => {
            if p.leading_colon {
                None
            } else if p.segments.len() == 1 {
                Some(p.segments[0].clone())
            } else if p.segments.len() == 2 && str_eq(p.segments[0].as_str(), "super") {
                Some(p.segments[1].clone())
            } else {
                None
            }
        },
        None => None,
    }
}

/// An item of the module that a type definition is written in, as far as assigning
/// items to the type goes.
pub enum ModuleItem {
    /// A struct, its visibility, and whether it carries a `#[properties]` attribute.
    Struct { ident: String, vis: Visibility, has_properties: bool },
    /// An `impl` block: whether it implements a trait, its self type when that is a
    /// path, whether it carries a `#[methods]` attribute, and the names of its methods.
    Impl { is_trait: bool, self_ty: Option<TypePath>, has_methods: bool, methods: Vec<String> },
    Other,
}

/// The name of the type that an inherent `impl` block is for, when its self type names one.
pub open spec fn impl_ident(it: ModuleItem) -> Option<Seq<char>> {
    match it {
        ModuleItem::Impl { is_trait, self_ty, .. } => if is_trait { None } else { type_ident_of(self_ty) },
        _ => None,
    }
}

pub open spec fn is_struct(it: ModuleItem) -> bool {
    it is Struct
}

pub open spec fn struct_ident(it: ModuleItem) -> Seq<char> {
    match it {
        ModuleItem::Struct { ident, .. } => ident@,
        _ => Seq::empty(),
    }
}

pub open spec fn struct_named(it: ModuleItem, n: Seq<char>) -> bool {
    is_struct(it) && struct_ident(it) == n
}

pub open spec fn has_properties_attr(it: ModuleItem) -> bool {
    it matches ModuleItem::Struct { has_properties, .. } && has_properties
}

pub open spec fn typed_impl(it: ModuleItem) -> bool {
    impl_ident(it) is Some
}

pub open spec fn impl_with_methods(it: ModuleItem) -> bool {
    typed_impl(it) && (it matches ModuleItem::Impl { has_methods, .. } && has_methods)
}

/// `i` is the first index whose item satisfies `p`.
pub open spec fn first_index(items: Seq<ModuleItem>, p: spec_fn(ModuleItem) -> bool, i: int) -> bool {
    &&& 0 <= i < items.len()
    &&& p(items[i])
    &&& forall|j: int| 0 <= j < i ==> !p(#[trigger] items[j])
}

/// No item satisfies `p`.
pub open spec fn no_index(items: Seq<ModuleItem>, p: spec_fn(ModuleItem) -> bool) -> bool {
    forall|j: int| 0 <= j < items.len() ==> !p(#[trigger] items[j])
}

/// The indices below `k`, but `skip`, of the inherent `impl` blocks for the type `n`, in order.
pub open spec fn impls_named(items: Seq<ModuleItem>, n: Seq<char>, skip: int, k: int) -> Seq<usize>
    decreases k,
{
    if k <= 0 {
        Seq::empty()
    } else {
        let prev = impls_named(items, n, skip, k - 1);
        if k - 1 != skip && impl_ident(items[k - 1]) == Some(n) {
            prev.push((k - 1) as usize)
        } else {
            prev
        }
    }
}

/// The first struct named `n`, if any.
fn find_struct_named(items: &Vec<ModuleItem>, n: &str) -> (r: Option<usize>)
    ensures
        match r {
            Some(i) => first_index(items@, |it: ModuleItem| struct_named(it, n@), i as int),
            None => no_index(items@, |it: ModuleItem| struct_named(it, n@)),
        },
{
    let mut i: usize = 0;
    while i < items.len()
        invariant
            i <= items@.len(),
            forall|j: int| 0 <= j < i ==> !struct_named(#[trigger] items@[j], n@),
        decreases items.len() - i,
    {
        if let ModuleItem::Struct { ident, .. } = &items[i] {
            if str_eq(ident.as_str(), n) {
                return Some(i);
            }
        }
        i = i + 1;
    }
    None
}

/// The first struct with a `#[properties]` attribute, and the first struct.
fn find_structs(items: &Vec<ModuleItem>) -> (r: (Option<usize>, Option<usize>))
    ensures
        match r.0 {
            Some(i) => first_index(items@, |it: ModuleItem| has_properties_attr(it), i as int),
            None => no_index(items@, |it: ModuleItem| has_properties_attr(it)),
        },
        match r.1 {
            Some(i) => first_index(items@, |it: ModuleItem| is_struct(it), i as int),
            None => no_index(items@, |it: ModuleItem| is_struct(it)),
        },
{
    let mut with_attr: Option<usize> = None;
    let mut first: Option<usize> = None;
    let mut i: usize = 0;
    while i < items.len()
        invariant
            i <= items@.len(),
            match with_attr {
                Some(k) => first_index(items@, |it: ModuleItem| has_properties_attr(it), k as int),
                None => forall|j: int| 0 <= j < i ==> !has_properties_attr(#[trigger] items@[j]),
            },
            match first {
                Some(k) => first_index(items@, |it: ModuleItem| is_struct(it), k as int),
                None => forall|j: int| 0 <= j < i ==> !is_struct(#[trigger] items@[j]),
            },
        decreases items.len() - i,
    {
        if let ModuleItem::Struct { has_properties, .. } = &items[i] {
            if first.is_none() {
                first = Some(i);
            }
            if *has_properties && with_attr.is_none() {
                with_attr = Some(i);
            }
        }
        i = i + 1;
    }
    (with_attr, first)
}

/// The first inherent `impl` block with a `#[methods]` attribute whose self type names a
/// type, and the first whose self type names one.
fn find_impls(items: &Vec<ModuleItem>) -> (r: (Option<usize>, Option<usize>))
    ensures
        match r.0 {
            Some(i) => first_index(items@, |it: ModuleItem| impl_with_methods(it), i as int),
            None => no_index(items@, |it: ModuleItem| impl_with_methods(it)),
        },
        match r.1 {
            Some(i) => first_index(items@, |it: ModuleItem| typed_impl(it), i as int),
            None => no_index(items@, |it: ModuleItem| typed_impl(it)),
        },
{
    let mut with_attr: Option<usize> = None;
    let mut first: Option<usize> = None;
    let mut i: usize = 0;
    while i < items.len()
        invariant
            i <= items@.len(),
            match with_attr {
                Some(k) => first_index(items@, |it: ModuleItem| impl_with_methods(it), k as int),
                None => forall|j: int| 0 <= j < i ==> !impl_with_methods(#[trigger] items@[j]),
            },
            match first {
                Some(k) => first_index(items@, |it: ModuleItem| typed_impl(it), k as int),
                None => forall|j: int| 0 <= j < i ==> !typed_impl(#[trigger] items@[j]),
            },
        decreases items.len() - i,
    {
        if let ModuleItem::Impl { is_trait, self_ty, has_methods, .. } = &items[i] {
            if !*is_trait {
                if type_ident(self_ty).is_some() {
                    if first.is_none() {
                        first = Some(i);
                    }
                    if *has_methods && with_attr.is_none() {
                        with_attr = Some(i);
                    }
                }
            }
        }
        i = i + 1;
    }
    (with_attr, first)
}

/// The inherent `impl` blocks for the type `n`, in order, leaving out the one at `skip`.
fn impls_for(items: &Vec<ModuleItem>, n: &str, skip: Option<usize>) -> (r: Vec<usize>)
    ensures
        r@ == impls_named(items@, n@, match skip { Some(k) => k as int, None => -1 }, items@.len() as int),
{
    let ghost sk: int = match skip { Some(k) => k as int, None => -1 };
    let mut r: Vec<usize> = Vec::new();
    let mut i: usize = 0;
    while i < items.len()
        invariant
            i <= items@.len(),
            sk == match skip { Some(k) => k as int, None => -1 },
            r@ == impls_named(items@, n@, sk, i as int),
        decreases items.len() - i,
    {
        let skipped = match skip { Some(k) => k == i, None => false };
        if !skipped {
            if let ModuleItem::Impl { is_trait, self_ty, .. } = &items[i] {
                if !*is_trait {
                    match type_ident(self_ty) {
                        Some(id) => {
                            if str_eq(id.as_str(), n) {
                                r.push(i);
                            }
                        },
                        None => {},
                    }
                }
            }
        }
        i = i + 1;
    }
    r
}


/// Which items of a module make up a type definition: the type's name, the struct that
/// holds its properties with whether that struct carried its own `#[properties]`
/// attribute, and the inherent `impl` blocks that hold its methods, in the order in which
/// they are read.
pub struct ItemSelection {
    pub name: Option<String>,
    pub properties: Option<(usize, bool)>,
    pub methods: Vec<usize>,
}

/// What `select_items` chooses. With a name given, the first struct of that name and every
/// inherent `impl` block for it. Otherwise the first struct with `#[properties]`, else the
/// first struct, names the type, and the `impl` blocks for that name follow; with no struct
/// at all, the first typed `impl` block with `#[methods]`, else the first typed one, names
/// the type and comes first, followed by the other `impl` blocks for that name.
pub open spec fn selects(items: Seq<ModuleItem>, given: Option<Seq<char>>, name: Option<Seq<char>>,
    properties: Option<(usize, bool)>, methods: Seq<usize>) -> bool
{
    let len = items.len() as int;
    match given {
        Some(n) => {
            &&& name == Some(n)
            &&& match properties {
                Some((i, b)) => first_index(items, |it: ModuleItem| struct_named(it, n), i as int)
                    && b == has_properties_attr(items[i as int]),
                None => no_index(items, |it: ModuleItem| struct_named(it, n)),
            }
            &&& methods == impls_named(items, n, -1, len)
        },
        None => match properties {
            Some((i, b)) => {
                &&& b == has_properties_attr(items[i as int])
                &&& if b {
                    first_index(items, |it: ModuleItem| has_properties_attr(it), i as int)
                } else {
                    no_index(items, |it: ModuleItem| has_properties_attr(it))
                        && first_index(items, |it: ModuleItem| is_struct(it), i as int)
                }
                &&& name == Some(struct_ident(items[i as int]))
                &&& methods == impls_named(items, struct_ident(items[i as int]), -1, len)
            },
            None => {
                &&& no_index(items, |it: ModuleItem| is_struct(it))
                &&& match name {
                    Some(n) => {
                        let f = methods[0] as int;
                        &&& methods.len() > 0
                        &&& (first_index(items, |it: ModuleItem| impl_with_methods(it), f)
                            || (no_index(items, |it: ModuleItem| impl_with_methods(it))
                                && first_index(items, |it: ModuleItem| typed_impl(it), f)))
                        &&& impl_ident(items[f]) == Some(n)
                        &&& methods == seq![f as usize] + impls_named(items, n, f, len)
                    },
                    None => no_index(items, |it: ModuleItem| typed_impl(it)) && methods.len() == 0,
                }
            },
        },
    }
}

pub open spec fn opt_view(s: Option<String>) -> Option<Seq<char>> {
    match s {
        Some(x) => Some(x@),
        None => None,
    }
}

/// Chooses the struct and the `impl` blocks of a module that make up the type, by the
/// given name or else by attributes and order.
pub fn select_items(items: &Vec<ModuleItem>, name: Option<String>) -> (r: ItemSelection)
    ensures
        selects(items@, opt_view(name), opt_view(r.name), r.properties, r.methods@),
{
    match name {
        Some(n) => {
            let properties = match find_struct_named(items, n.as_str()) {
                Some(i) => {
                    let b = match &items[i] {
                        ModuleItem::Struct { has_properties, .. } => *has_properties,
                        _ => false,
                    };
                    Some((i, b))
                },
                None => None,
            };
            let methods = impls_for(items, n.as_str(), None);
            ItemSelection { name: Some(n), properties, methods }
        },
        None => {
            let (with_attr, first) = find_structs(items);
            let chosen = match with_attr {
                Some(i) => Some((i, true)),
                None => match first {
                    Some(i) => Some((i, false)),
                    None => None,
                },
            };
            match chosen {
                Some((i, b)) => {
                    let id = match &items[i] {
                        ModuleItem::Struct { ident, .. } => ident.clone(),
                        _ => String::new(),
                    };
                    let methods = impls_for(items, id.as_str(), None);
                    ItemSelection { name: Some(id), properties: Some((i, b)), methods }
                },
                None => {
                    let (with_methods, first_impl) = find_impls(items);
                    let f = match with_methods {
                        Some(f) => Some(f),
                        None => first_impl,
                    };
                    match f {
                        Some(f) => {
                            let id = match &items[f] {
                                ModuleItem::Impl { self_ty, .. } => match type_ident(self_ty) {
                                    Some(id) => id,
                                    None => String::new(),
                                },
                                _ => String::new(),
                            };
                            let rest = impls_for(items, id.as_str(), Some(f));
                            let mut methods: Vec<usize> = Vec::new();
                            methods.push(f);
                            let mut k: usize = 0;
                            while k < rest.len()
                                invariant
                                    k <= rest@.len(),
                                    methods@ == seq![f] + rest@.subrange(0, k as int),
                                decreases rest.len() - k,
                            {
                                methods.push(rest[k]);
                                k = k + 1;
                            }
                            assert(rest@.subrange(0, rest@.len() as int) =~= rest@);
                            ItemSelection { name: Some(id), properties: None, methods }
                        },
                        None => ItemSelection { name: None, properties: None, methods: Vec::new() },
                    }
                },
            }
        },
    }
}


/// A visibility as written: private, `pub`, `crate`, or `pub(path)` / `pub(in path)`.
pub enum Visibility {
    Inherited,
    Public,
    Crate,
    Restricted { explicit_in: bool, path: Vec<String> },
}

pub enum VisibilityView {
    Inherited,
    Public,
    Crate,
    Restricted { explicit_in: bool, path: Seq<Seq<char>> },
}

impl View for Visibility {
    type V = VisibilityView;

    open spec fn view(&self) -> VisibilityView {
        match self {
            Visibility::Inherited => VisibilityView::Inherited,
            Visibility::Public => VisibilityView::Public,
            Visibility::Crate => VisibilityView::Crate,
            Visibility::Restricted { explicit_in, path } => VisibilityView::Restricted {
                explicit_in: *explicit_in,
                path: path@.map_values(|s: String| s@),
            },
        }
    }
}

fn copy_strings(v: &Vec<String>) -> (r: Vec<String>)
    ensures
        r@.map_values(|s: String| s@) == v@.map_values(|s: String| s@),
{
    let mut r: Vec<String> = Vec::new();
    let mut i: usize = 0;
    while i < v.len()
        invariant
            i <= v@.len(),
            r@.map_values(|s: String| s@) == v@.subrange(0, i as int).map_values(|s: String| s@),
        decreases v.len() - i,
    {
        let c = v[i].clone();
        assert(c@ == v@[i as int]@);
        let ghost before = r@;
        r.push(c);
        assert(r@.map_values(|s: String| s@) =~= before.map_values(|s: String| s@).push(c@));
        assert(v@.subrange(0, i as int + 1).map_values(|s: String| s@) =~= v@.subrange(0, i as int).map_values(|s: String| s@).push(v@[i as int]@));
        i = i + 1;
        assert(r@.map_values(|s: String| s@) =~= v@.subrange(0, i as int).map_values(|s: String| s@));
    }
    assert(v@.subrange(0, v@.len() as int) =~= v@);
    r
}

impl Visibility {
    pub fn copy(&self) -> (r: Visibility)
        ensures
            r@ == self@,
    {
        match self {
            Visibility::Inherited => Visibility::Inherited,
            Visibility::Public => Visibility::Public,
            Visibility::Crate => Visibility::Crate,
            Visibility::Restricted { explicit_in, path } => Visibility::Restricted {
                explicit_in: *explicit_in,
                path: copy_strings(path),
            },
        }
    }

    /// `pub(super)`.
    pub fn super_private() -> (r: Visibility)
        ensures
            r@ == super_private_view(),
    {
        let mut path: Vec<String> = Vec::new();
        path.push("super".to_string());
        let r = Visibility::Restricted { explicit_in: false, path };
        assert(r@->path =~= seq!["super"@]);
        r
    }
}

pub open spec fn super_private_view() -> VisibilityView {
    VisibilityView::Restricted { explicit_in: false, path: seq!["super"@] }
}

/// `pub(self)`, which is private too.
pub open spec fn is_self_scope(v: VisibilityView) -> bool {
    v matches VisibilityView::Restricted { path, .. } && path.len() == 1 && path[0] == "self"@
}

/// A path that starts with `super` and is at least `min` segments long.
pub open spec fn is_super_scope(v: VisibilityView, min: int) -> bool {
    v matches VisibilityView::Restricted { path, .. } && path.len() >= min && path[0] == "super"@
}

/// The visibility of the type, that of the items generated inside its module, and the
/// new visibility of the struct that holds its properties, from the module's visibility
/// and that struct's. A private struct becomes `pub(super)`; a struct visible in
/// `super::path` makes the type visible in `path`; any other struct visibility is the
/// type's. With no struct, the module's visibility is the type's, and the inner items
/// reach one module further out.
pub open spec fn type_visibility(module: VisibilityView, strukt: Option<VisibilityView>)
    -> (VisibilityView, VisibilityView, Option<VisibilityView>)
{
    match strukt {
        Some(v) => if v is Inherited || is_self_scope(v) {
            (VisibilityView::Inherited, super_private_view(), Some(super_private_view()))
        } else if is_super_scope(v, 2) {
            (VisibilityView::Restricted { explicit_in: true, path: v->path.skip(1) }, v, Some(v))
        } else {
            (v, v, Some(v))
        },
        None => if module is Inherited || is_self_scope(module) {
            (module, super_private_view(), None)
        } else if is_super_scope(module, 1) {
            (module, VisibilityView::Restricted { explicit_in: true, path: seq!["super"@] + module->path }, None)
        } else {
            (module, module, None)
        },
    }
}

pub fn type_visibility_of(module: &Visibility, strukt: Option<&Visibility>) -> (r: (Visibility, Visibility, Option<Visibility>))
    ensures
        (r.0@, r.1@, match r.2 { Some(v) => Some(v@), None => None::<VisibilityView> })
            == type_visibility(module@, match strukt { Some(v) => Some(v@), None => None::<VisibilityView> }),
{
    match strukt {
        Some(v) => {
            let private = match v {
                Visibility::Inherited => true,
                Visibility::Restricted { path, .. } => path.len() == 1 && str_eq(path[0].as_str(), "self"),
                _ => false,
            };
            if private {
                return (Visibility::Inherited, Visibility::super_private(), Some(Visibility::super_private()));
            }
            match v {
                Visibility::Restricted { path, .. } => {
                    if path.len() >= 2 && str_eq(path[0].as_str(), "super") {
                        let mut rest: Vec<String> = Vec::new();
                        let mut i: usize = 1;
                        while i < path.len()
                            invariant
                                1 <= i <= path@.len(),
                                rest@.map_values(|s: String| s@) == path@.subrange(1, i as int).map_values(|s: String| s@),
                            decreases path.len() - i,
                        {
                            let c = path[i].clone();
                            assert(c@ == path@[i as int]@);
                            let ghost before = rest@;
                            rest.push(c);
                            assert(rest@.map_values(|s: String| s@) =~= before.map_values(|s: String| s@).push(c@));
                            assert(path@.subrange(1, i as int + 1).map_values(|s: String| s@) =~= path@.subrange(1, i as int).map_values(|s: String| s@).push(path@[i as int]@));
                            i = i + 1;
                            assert(rest@.map_values(|s: String| s@) =~= path@.subrange(1, i as int).map_values(|s: String| s@));
                        }
                        assert(path@.subrange(1, path@.len() as int).map_values(|s: String| s@) =~= v@->path.skip(1));
                        let t = Visibility::Restricted { explicit_in: true, path: rest };
                        assert(t@->path =~= v@->path.skip(1));
                        return (t, v.copy(), Some(v.copy()));
                    }
                },
                _ => {},
            }
            (v.copy(), v.copy(), Some(v.copy()))
        },
        None => {
            let private = match module {
                Visibility::Inherited => true,
                Visibility::Restricted { path, .. } => path.len() == 1 && str_eq(path[0].as_str(), "self"),
                _ => false,
            };
            if private {
                return (module.copy(), Visibility::super_private(), None);
            }
            match module {
                Visibility::Restricted { path, .. } => {
                    if path.len() >= 1 && str_eq(path[0].as_str(), "super") {
                        let mut full: Vec<String> = Vec::new();
                        full.push("super".to_string());
                        let mut i: usize = 0;
                        while i < path.len()
                            invariant
                                i <= path@.len(),
                                full@.map_values(|s: String| s@) == seq!["super"@] + path@.subrange(0, i as int).map_values(|s: String| s@),
                            decreases path.len() - i,
                        {
                            let c = path[i].clone();
                            assert(c@ == path@[i as int]@);
                            let ghost before = full@;
                            full.push(c);
                            assert(full@.map_values(|s: String| s@) =~= before.map_values(|s: String| s@).push(c@));
                            assert(path@.subrange(0, i as int + 1).map_values(|s: String| s@) =~= path@.subrange(0, i as int).map_values(|s: String| s@).push(path@[i as int]@));
                            i = i + 1;
                            assert(full@.map_values(|s: String| s@) =~= seq!["super"@] + path@.subrange(0, i as int).map_values(|s: String| s@));
                        }
                        assert(path@.subrange(0, path@.len() as int) =~= path@);
                        let t = Visibility::Restricted { explicit_in: true, path: full };
                        assert(t@->path =~= seq!["super"@] + module@->path);
                        return (module.copy(), t, None);
                    }
                },
                _ => {},
            }
            (module.copy(), module.copy(), None)
        },
    }
}


/// The mode that an `impl` block's self type addresses: `super::Name` the wrapper, `Name`
/// the subclass.
pub open spec fn impl_mode(it: ModuleItem) -> Option<TypeMode> {
    match it {
        ModuleItem::Impl { self_ty: Some(p), .. } => if p.segments@.len() == 2 {
            Some(TypeMode::Wrapper)
        } else if p.segments@.len() == 1 {
            Some(TypeMode::Subclass)
        } else {
            None
        },
        _ => None,
    }
}

/// Every `impl` block listed for a type names that type, so its mode is known.
pub proof fn lemma_impls_named_typed(items: Seq<ModuleItem>, n: Seq<char>, skip: int, k: int)
    requires
        k <= items.len() <= usize::MAX,
    ensures
        forall|j: int| 0 <= j < impls_named(items, n, skip, k).len() ==> {
            let e = #[trigger] impls_named(items, n, skip, k)[j] as int;
            &&& 0 <= e < k
            &&& e != skip
            &&& impl_ident(items[e]) == Some(n)
            &&& impl_mode(items[e]) is Some
        },
    decreases k,
{
    if k > 0 {
        lemma_impls_named_typed(items, n, skip, k - 1);
        let prev = impls_named(items, n, skip, k - 1);
        let cur = impls_named(items, n, skip, k);
        assert forall|j: int| 0 <= j < cur.len() implies {
            let e = #[trigger] cur[j] as int;
            &&& 0 <= e < k
            &&& e != skip
            &&& impl_ident(items[e]) == Some(n)
            &&& impl_mode(items[e]) is Some
        } by {
            if j < prev.len() {
                assert(cur[j] == prev[j]);
            } else {
                assert(cur[j] == (k - 1) as usize);
            }
        }
    }
}

/// The items chosen for a type all belong to it: the properties struct has the type's
/// name, and every `impl` block read for its methods is an inherent block for that name.
pub proof fn selection_belongs_to_type(items: Seq<ModuleItem>, given: Option<Seq<char>>, n: Seq<char>,
    properties: Option<(usize, bool)>, methods: Seq<usize>)
    requires
        items.len() <= usize::MAX,
        selects(items, given, Some(n), properties, methods),
    ensures
        properties matches Some((i, _)) ==> struct_named(items[i as int], n),
        forall|k: int| 0 <= k < methods.len() ==> impl_ident(items[#[trigger] methods[k] as int]) == Some(n),
{
    let len = items.len() as int;
    lemma_impls_named_typed(items, n, -1, len);
    if given is None && properties is None && methods.len() > 0 {
        let f = methods[0] as int;
        lemma_impls_named_typed(items, n, f, len);
        assert forall|k: int| 0 <= k < methods.len() implies impl_ident(items[#[trigger] methods[k] as int]) == Some(n) by {
            if k > 0 {
                assert(methods[k] == impls_named(items, n, f, len)[k - 1]);
            }
        }
    }
}

fn mode_of(it: &ModuleItem) -> (r: Option<TypeMode>)
    ensures
        r == impl_mode(*it),
{
    match it {
        ModuleItem::Impl { self_ty: Some(p), .. } => TypeMode::for_item_type(Some(p.segments.len())),
        _ => None,
    }
}

/// A class or interface definition: its visibilities, its name, and which items of its
/// module hold its properties and methods.
pub struct TypeDefinition {
    pub base: TypeBase,
    pub vis: Visibility,
    pub inner_vis: Visibility,
    pub concurrency: Concurrency,
    pub name: String,
    /// The struct that holds the properties.
    pub properties_item_index: Option<usize>,
    /// Whether that struct carried its own `#[properties]` attribute; without one it is
    /// read as if it had an empty one.
    pub properties_explicit: bool,
    /// The visibility that the properties struct is given.
    pub struct_vis: Option<Visibility>,
    /// The `impl` blocks that hold the methods, in the order in which they are read.
    pub methods_item_indices: Vec<usize>,
    /// The mode that each of those blocks addresses.
    pub method_modes: Vec<TypeMode>,
    /// Its properties, signals and virtual methods.
    pub members: TypeMembers,
}

pub open spec fn module_body_message() -> Seq<char> {
    "Module must have a body to use the class macro"@
}

pub open spec fn vis_opt(v: Option<Visibility>) -> Option<VisibilityView> {
    match v {
        Some(x) => Some(x@),
        None => None,
    }
}

pub open spec fn struct_vis_of(it: ModuleItem) -> VisibilityView {
    match it {
        ModuleItem::Struct { vis, .. } => vis@,
        _ => VisibilityView::Inherited,
    }
}

/// What reading a definition from its module gives: `before` and `after` are the errors
/// before and after the reading.
pub open spec fn parses_as<S>(module_ident: Seq<char>, module_vis: VisibilityView, content: Option<Vec<ModuleItem>>,
    base: TypeBase, name: Option<Seq<char>>, span: S, before: Seq<(S, Seq<char>)>, after: Seq<(S, Seq<char>)>,
    r: TypeDefinition) -> bool
{
    &&& r.base == base
    &&& match content {
        None => {
            &&& after == before.push((span, module_body_message()))
            &&& r.name@ == upper_camel_case(module_ident)
            &&& r.vis@ == VisibilityView::Inherited
            &&& r.inner_vis@ == super_private_view()
            &&& r.properties_item_index is None
            &&& r.struct_vis is None
            &&& r.methods_item_indices@.len() == 0
            &&& r.method_modes@.len() == 0
        },
        Some(items) => {
            let found = name is Some || r.properties_item_index is Some
                || r.methods_item_indices@.len() > 0;
            &&& after == before
            &&& selects(items@, name, if found { Some(r.name@) } else { None },
                match r.properties_item_index {
                    Some(i) => Some((i, r.properties_explicit)),
                    None => None,
                }, r.methods_item_indices@)
            &&& !found ==> r.name@ == upper_camel_case(module_ident)
            &&& (r.vis@, r.inner_vis@, vis_opt(r.struct_vis)) == type_visibility(module_vis,
                match r.properties_item_index {
                    Some(i) => Some(struct_vis_of(items@[i as int])),
                    None => None,
                })
            &&& r.method_modes@.len() == r.methods_item_indices@.len()
            &&& forall|k: int| 0 <= k < r.method_modes@.len() ==>
                Some(#[trigger] r.method_modes@[k]) == impl_mode(items@[r.methods_item_indices@[k] as int])
        },
    }
}

fn no_members() -> (m: TypeMembers) {
    TypeMembers { properties: Vec::new(), kept_fields: Vec::new(), signals: Vec::new(), virtual_methods: Vec::new() }
}

/// What reading a definition and its members gives: see `parses_as` and `reads_members`.
pub open spec fn parses_with_members<S>(module_ident: Seq<char>, module_vis: VisibilityView, content: Option<Vec<ModuleItem>>,
    base: TypeBase, name: Option<Seq<char>>, span: S, members: MemberInput<S>, before: Seq<(S, Seq<char>)>,
    after: Seq<(S, Seq<char>)>, r: TypeDefinition) -> bool
{
    exists|mid: Seq<(S, Seq<char>)>| {
        &&& parses_as(module_ident, module_vis, content, base, name, span, before, mid, r)
        &&& reads_members(members, base, span, mid, after, r.members)
    }
}

impl TypeDefinition {
    /// Reads a definition from its module: `module_ident` and `module_vis` are the module's
    /// name and visibility, `content` its items (nothing for a module without a body),
    /// and `name` the type's name when the macro was given one; then reads its members
    /// from `members`, with `span` as the call site. Without a name from the macro or the
    /// items, the type is named after the module in UpperCamelCase.
    pub fn parse<S: Copy>(module_ident: &str, module_vis: &Visibility, content: &Option<Vec<ModuleItem>>,
        base: TypeBase, name: Option<String>, span: S, members: MemberInput<S>, errors: &mut Errors<S>) -> (r: TypeDefinition)
        ensures
            r.concurrency == Concurrency::Unbounded,
            parses_with_members(module_ident@, module_vis@, *content, base, opt_view(name), span, members, old(errors)@,
                final(errors)@, r),
    {
        let ghost start = errors@;
        let ghost name_view = opt_view(name);
        let mut def = TypeDefinition::select(module_ident, module_vis, content, base, name, span, errors);
        let ghost mid = errors@;
        let ghost selected = def;
        let ghost input = members;
        def.members = read_members(members, base, span, errors);
        assert(parses_as(module_ident@, module_vis@, *content, base, name_view, span, start, mid, def));
        assert(reads_members(input, base, span, mid, errors@, def.members));
        def
    }

    fn select<S: Copy>(module_ident: &str, module_vis: &Visibility, content: &Option<Vec<ModuleItem>>,
        base: TypeBase, name: Option<String>, span: S, errors: &mut Errors<S>) -> (r: TypeDefinition)
        ensures
            r.concurrency == Concurrency::Unbounded,
            parses_as(module_ident@, module_vis@, *content, base, opt_view(name), span, old(errors)@, final(errors)@, r),
    {
        let default_name = to_upper_camel_case(module_ident);
        match content {
            None => {
                errors.push_str(span, "Module must have a body to use the class macro");
                TypeDefinition {
                    base,
                    vis: Visibility::Inherited,
                    inner_vis: Visibility::super_private(),
                    concurrency: Concurrency::Unbounded,
                    name: default_name,
                    properties_item_index: None,
                    properties_explicit: false,
                    struct_vis: None,
                    methods_item_indices: Vec::new(),
                    method_modes: Vec::new(),
                    members: no_members(),
                }
            },
            Some(items) => {
                let sel = select_items(items, name);
                let strukt = match sel.properties {
                    Some((i, _)) => match &items[i] {
                        ModuleItem::Struct { vis, .. } => Some(vis),
                        _ => None,
                    },
                    None => None,
                };
                let (vis, inner_vis, struct_vis) = type_visibility_of(module_vis, strukt);
                proof {
                    assert(items@.len() == items.len());
                    match opt_view(sel.name) {
                        Some(n) => {
                            lemma_impls_named_typed(items@, n, -1, items@.len() as int);
                            if sel.methods@.len() > 0 {
                                lemma_impls_named_typed(items@, n, sel.methods@[0] as int, items@.len() as int);
                            }
                        },
                        None => {},
                    }
                }
                let mut modes: Vec<TypeMode> = Vec::new();
                let mut k: usize = 0;
                while k < sel.methods.len()
                    invariant
                        k <= sel.methods@.len(),
                        modes@.len() == k,
                        forall|j: int| 0 <= j < sel.methods@.len() ==> sel.methods@[j] < items@.len()
                            && impl_mode(items@[#[trigger] sel.methods@[j] as int]) is Some,
                        forall|j: int| 0 <= j < k ==> Some(#[trigger] modes@[j]) == impl_mode(items@[sel.methods@[j] as int]),
                    decreases sel.methods.len() - k,
                {
                    let m = mode_of(&items[sel.methods[k]]);
                    match m {
                        Some(m) => modes.push(m),
                        None => {},
                    }
                    k = k + 1;
                }
                TypeDefinition {
                    base,
                    vis,
                    inner_vis,
                    concurrency: Concurrency::Unbounded,
                    name: match sel.name {
                        Some(n) => n,
                        None => default_name,
                    },
                    properties_item_index: match sel.properties {
                        Some((i, _)) => Some(i),
                        None => None,
                    },
                    properties_explicit: match sel.properties {
                        Some((_, b)) => b,
                        None => false,
                    },
                    struct_vis,
                    methods_item_indices: sel.methods,
                    method_modes: modes,
                    members: no_members(),
                }
            },
        }
    }
}


/// The names of an `impl` block's methods.
pub open spec fn impl_methods(it: ModuleItem) -> Seq<Seq<char>> {
    match it {
        ModuleItem::Impl { methods, .. } => methods@.map_values(|m: String| m@),
        _ => Seq::empty(),
    }
}

/// Item `i` is one of the type's `impl` blocks for `mode` with a method named `name`.
pub open spec fn has_method_at(items: Seq<ModuleItem>, indices: Seq<usize>, mode: TypeMode, name: Seq<char>, i: int) -> bool {
    &&& 0 <= i < items.len()
    &&& indices.contains(i as usize)
    &&& impl_mode(items[i]) == Some(mode)
    &&& impl_methods(items[i]).contains(name)
}

impl TypeDefinition {
    /// Finds a method of the type by name among its `impl` blocks for `mode`, taking the
    /// blocks in the order they stand in the module: the block and the method's position
    /// in it.
    pub fn find_method(&self, items: &Vec<ModuleItem>, mode: TypeMode, name: &str) -> (r: Option<(usize, usize)>)
        ensures
            match r {
                Some((i, j)) => {
                    &&& has_method_at(items@, self.methods_item_indices@, mode, name@, i as int)
                    &&& forall|k: int| 0 <= k < i ==> !has_method_at(items@, self.methods_item_indices@, mode, name@, k)
                    &&& j < impl_methods(items@[i as int]).len()
                    &&& impl_methods(items@[i as int])[j as int] == name@
                    &&& forall|l: int| 0 <= l < j ==> impl_methods(items@[i as int])[l] != name@
                },
                None => forall|k: int| 0 <= k < items@.len() ==> !has_method_at(items@, self.methods_item_indices@, mode, name@, k),
            },
    {
        let mut i: usize = 0;
        while i < items.len()
            invariant
                i <= items@.len(),
                forall|k: int| 0 <= k < i ==> !has_method_at(items@, self.methods_item_indices@, mode, name@, k),
            decreases items.len() - i,
        {
            let mut listed = false;
            let mut k: usize = 0;
            while k < self.methods_item_indices.len()
                invariant
                    k <= self.methods_item_indices@.len(),
                    listed == self.methods_item_indices@.subrange(0, k as int).contains(i),
                decreases self.methods_item_indices.len() - k,
            {
                if self.methods_item_indices[k] == i {
                    listed = true;
                }
                proof {
                    crate::text::lemma_push_contains(self.methods_item_indices@.subrange(0, k as int), self.methods_item_indices@[k as int], i);
                    assert(self.methods_item_indices@.subrange(0, k as int + 1) =~= self.methods_item_indices@.subrange(0, k as int).push(self.methods_item_indices@[k as int]));
                }
                k = k + 1;
            }
            assert(self.methods_item_indices@.subrange(0, self.methods_item_indices@.len() as int) =~= self.methods_item_indices@);
            if listed && mode_of(&items[i]) == Some(mode) {
                match &items[i] {
                    ModuleItem::Impl { methods, .. } => {
                        let ghost mv = methods@.map_values(|m: String| m@);
                        let mut j: usize = 0;
                        while j < methods.len()
                            invariant
                                j <= methods@.len(),
                                mv == methods@.map_values(|m: String| m@),
                                mv == impl_methods(items@[i as int]),
                                i < items@.len(),
                                self.methods_item_indices@.contains(i),
                                impl_mode(items@[i as int]) == Some(mode),
                                forall|k: int| 0 <= k < i ==> !has_method_at(items@, self.methods_item_indices@, mode, name@, k),
                                forall|l: int| 0 <= l < j ==> mv[l] != name@,
                            decreases methods.len() - j,
                        {
                            if str_eq(methods[j].as_str(), name) {
                                assert(mv[j as int] == name@);
                                return Some((i, j));
                            }
                            j = j + 1;
                        }
                        assert(!mv.contains(name@));
                    },
                    _ => {},
                }
            }
            i = i + 1;
        }
        None
    }

    pub fn has_method(&self, items: &Vec<ModuleItem>, mode: TypeMode, name: &str) -> (r: bool)
        ensures
            r == exists|k: int| has_method_at(items@, self.methods_item_indices@, mode, name@, k),
    {
        let found = self.find_method(items, mode, name);
        proof {
            if found is None {
                assert forall|k: int| !has_method_at(items@, self.methods_item_indices@, mode, name@, k) by {
                    if 0 <= k < items@.len() {}
                }
            }
        }
        found.is_some()
    }
}

} // verus!
