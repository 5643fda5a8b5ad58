//! Class and interface definitions: the options of `#[class]` and `#[interface]`, the names
//! they give the generated items, and the checks on them.
use vstd::prelude::*;
use vstd::string::StringExecFns;
use crate::members::{blocks_errors, reads_members, MemberInput};
use crate::property::collect_errors;
use crate::type_definition::{parses_as, parses_with_members, opt_view, Concurrency, ModuleItem, TypeBase, TypeDefinition, Visibility, VisibilityView};
use crate::util::Errors;
use crate::validations::{only_one, only_one_errors};

verus! {

/// The options of `#[class(...)]`: names given to the generated items, where `abstract`
/// and `final` are written, the types it extends (each with where it is written), and
/// the paths it implements and inherits, as their text.
pub struct ClassAttrs<S> {
    pub name: Option<String>,
    pub ns: Option<String>,
    pub class: Option<String>,
    pub ext_trait: Option<String>,
    pub impl_trait: Option<String>,
    pub impl_ext_trait: Option<String>,
    pub parent_trait: Option<String>,
    pub wrapper: Option<bool>,
    pub abstract_: Option<S>,
    pub final_: Option<S>,
    pub extends: Vec<(S, String)>,
    pub implements: Vec<String>,
    pub inherits: Vec<String>,
    pub sync: bool,
}

/// A class: its type definition and the names of its class struct and traits (a final
/// class has no traits for subclasses).
pub struct ClassDefinition {
    pub inner: TypeDefinition,
    pub ns: Option<String>,
    pub class: String,
    pub ext_trait: Option<String>,
    pub impl_trait: Option<String>,
    pub impl_ext_trait: Option<String>,
    pub parent_trait: Option<String>,
    pub wrapper: bool,
    pub abstract_: bool,
    pub final_: bool,
    pub extends: Vec<String>,
    pub implements: Vec<String>,
    pub inherits: Vec<String>,
}

/// A name given in the options, or the type's name with `suffix`.
pub open spec fn named_or(given: Option<String>, name: Seq<char>, suffix: Seq<char>) -> Seq<char> {
    match given {
        Some(g) => g@,
        None => name + suffix,
    }
}

fn name_or(given: Option<String>, name: &str, suffix: &str) -> (r: String)
    ensures
        r@ == named_or(given, name@, suffix@),
{
    match given {
        Some(g) => g,
        None => {
            let mut r = name.to_owned();
            r.append(suffix);
            r
        },
    }
}

pub open spec fn final_virtual_message() -> Seq<char> {
    "Virtual method not allowed on final class"@
}

pub open spec fn parent_trait_message() -> Seq<char> {
    "Derivable class must specify `parent_trait` when using `extends`"@
}

/// The errors about what a class may not have: virtual methods on a final class, or
/// `extends` without `parent_trait` on one that can be derived from.
pub open spec fn class_errors<S>(attrs: ClassAttrs<S>, virtual_spans: Seq<S>) -> Seq<(S, Seq<char>)> {
    if attrs.final_ is Some {
        virtual_spans.map_values(|s: S| (s, final_virtual_message()))
    } else if attrs.extends@.len() > 0 && attrs.parent_trait is None {
        seq![(attrs.extends@[0].0, parent_trait_message())]
    } else {
        Seq::empty()
    }
}

pub open spec fn strings(v: Seq<String>) -> Seq<Seq<char>> {
    v.map_values(|s: String| s@)
}

/// What reading a class gives, but for the types it extends and its parent trait:
/// `before` and `after` are the errors before and after the reading.
pub open spec fn class_core<S>(module_ident: Seq<char>, module_vis: VisibilityView, content: Option<Vec<ModuleItem>>,
    attrs: ClassAttrs<S>, members: MemberInput<S>, virtual_spans: Seq<S>, span: S, before: Seq<(S, Seq<char>)>,
    after: Seq<(S, Seq<char>)>, r: ClassDefinition) -> bool
{
    let e1 = before + only_one_errors(seq![("abstract", attrs.abstract_), ("final", attrs.final_)]);
    let name = r.inner.name@;
    let f = attrs.final_ is Some;
    &&& exists|e2: Seq<(S, Seq<char>)>| {
        &&& parses_with_members(module_ident, module_vis, content, TypeBase::Class, opt_view(attrs.name), span, members, e1, e2, r.inner)
        &&& after == e2 + class_errors(attrs, virtual_spans)
    }
    &&& r.inner.concurrency == if attrs.sync { Concurrency::SendSync } else { Concurrency::Unbounded }
    &&& opt_view(r.ns) == opt_view(attrs.ns)
    &&& r.class@ == named_or(attrs.class, name, "Class"@)
    &&& opt_view(r.ext_trait) == if f { None } else { Some(named_or(attrs.ext_trait, name, "Ext"@)) }
    &&& opt_view(r.impl_trait) == if f { None } else { Some(named_or(attrs.impl_trait, name, "Impl"@)) }
    &&& opt_view(r.impl_ext_trait) == if f { None } else { Some(named_or(attrs.impl_ext_trait, name, "ImplExt"@)) }
    &&& r.wrapper == match attrs.wrapper { Some(w) => w, None => true }
    &&& r.abstract_ == attrs.abstract_ is Some
    &&& r.final_ == f
    &&& strings(r.implements@) == strings(attrs.implements@)
    &&& strings(r.inherits@) == strings(attrs.inherits@)
}

impl ClassDefinition {
    /// Reads a class from the options of `#[class(...)]`, its module and its members:
    /// `virtual_spans` are where the virtual methods that its `impl` blocks declare are.
    pub fn parse<S: Copy>(module_ident: &str, module_vis: &Visibility, content: &Option<Vec<ModuleItem>>, attrs: ClassAttrs<S>,
        members: MemberInput<S>, virtual_spans: &Vec<S>, span: S, errors: &mut Errors<S>) -> (r: ClassDefinition)
        ensures
            class_core(module_ident@, module_vis@, *content, attrs, members, virtual_spans@, span, old(errors)@, final(errors)@, r),
            opt_view(r.parent_trait) == opt_view(attrs.parent_trait),
            strings(r.extends@) == attrs.extends@.map_values(|e: (S, String)| e.1@),
    {
        let ghost start = errors@;
        only_one(&[("abstract", attrs.abstract_), ("final", attrs.final_)], errors);
        let ghost e1 = errors@;
        let ClassAttrs { name, ns, class, ext_trait, impl_trait, impl_ext_trait, parent_trait, wrapper, abstract_, final_,
            extends, implements, inherits, sync } = attrs;
        let ghost name_view = opt_view(name);
        let ghost member_input = members;
        let mut inner = TypeDefinition::parse(module_ident, module_vis, content, TypeBase::Class, name, span, members, errors);
        let ghost e2 = errors@;
        let ghost parsed = inner;
        if sync {
            inner.concurrency = Concurrency::SendSync;
        }
        proof {
            let mid = choose|mid: Seq<(S, Seq<char>)>| parses_as(module_ident@, module_vis@, *content, TypeBase::Class, name_view, span, e1, mid, parsed)
                && reads_members(member_input, TypeBase::Class, span, mid, e2, parsed.members);
            assert(parses_as(module_ident@, module_vis@, *content, TypeBase::Class, name_view, span, e1, mid, inner));
            assert(reads_members(member_input, TypeBase::Class, span, mid, e2, inner.members));
        }
        assert(parses_with_members(module_ident@, module_vis@, *content, TypeBase::Class, name_view, span, member_input, e1, e2, inner));
        let f = final_.is_some();
        if f {
            let mut i: usize = 0;
            while i < virtual_spans.len()
                invariant
                    i <= virtual_spans@.len(),
                    errors@ == e2 + virtual_spans@.subrange(0, i as int).map_values(|s: S| (s, final_virtual_message())),
                decreases virtual_spans.len() - i,
            {
                errors.push_str(virtual_spans[i], "Virtual method not allowed on final class");
                i = i + 1;
                assert(errors@ =~= e2 + virtual_spans@.subrange(0, i as int).map_values(|s: S| (s, final_virtual_message())));
            }
            assert(virtual_spans@.subrange(0, virtual_spans@.len() as int) =~= virtual_spans@);
        } else if extends.len() > 0 && parent_trait.is_none() {
            errors.push_str(extends[0].0, "Derivable class must specify `parent_trait` when using `extends`");
        }
        let ghost after = errors@;
        let n = inner.name.as_str();
        let class = name_or(class, n, "Class");
        let ext_trait = if f { None } else { Some(name_or(ext_trait, n, "Ext")) };
        let impl_trait = if f { None } else { Some(name_or(impl_trait, n, "Impl")) };
        let impl_ext_trait = if f { None } else { Some(name_or(impl_ext_trait, n, "ImplExt")) };
        let ghost ext_view = extends@;
        let mut ext_paths: Vec<String> = Vec::new();
        let mut extends = extends;
        let mut i: usize = 0;
        let k = extends.len();
        while extends.len() > 0
            invariant
                k == ext_view.len(),
                i <= k,
                extends@ == ext_view.subrange(i as int, k as int),
                strings(ext_paths@) == ext_view.subrange(0, i as int).map_values(|e: (S, String)| e.1@),
            decreases extends.len(),
        {
            let ghost x = extends@[0];
            assert(x == ext_view[i as int]);
            let (_, p) = extends.remove(0);
            assert(p@ == x.1@);
            let ghost before = ext_paths@;
            ext_paths.push(p);
            assert(strings(ext_paths@) =~= strings(before).push(x.1@));
            assert(ext_view.subrange(0, i as int + 1).map_values(|e: (S, String)| e.1@)
                =~= ext_view.subrange(0, i as int).map_values(|e: (S, String)| e.1@).push(x.1@));
            i = i + 1;
            assert(strings(ext_paths@) =~= ext_view.subrange(0, i as int).map_values(|e: (S, String)| e.1@));
        }
        assert(ext_view.subrange(0, k as int) =~= ext_view);
        let r = ClassDefinition {
            inner,
            ns,
            class,
            ext_trait,
            impl_trait,
            impl_ext_trait,
            parent_trait,
            wrapper: match wrapper { Some(w) => w, None => true },
            abstract_: abstract_.is_some(),
            final_: f,
            extends: ext_paths,
            implements,
            inherits,
        };
        assert(parses_with_members(module_ident@, module_vis@, *content, TypeBase::Class, opt_view(attrs.name), span, member_input, e1, e2, r.inner));
        assert(errors@ == e2 + class_errors(attrs, virtual_spans@));
        r
    }
}


/// The options of `#[interface(...)]`: names given to the generated items, and the types
/// an implementor must be, as their text.
pub struct InterfaceAttrs {
    pub name: Option<String>,
    pub ns: Option<String>,
    pub ext_trait: Option<String>,
    pub impl_trait: Option<String>,
    pub impl_ext_trait: Option<String>,
    pub parent_trait: Option<String>,
    pub wrapper: Option<bool>,
    pub prerequisites: Vec<String>,
    pub sync: bool,
}

/// An interface: its type definition and the names of its traits.
pub struct InterfaceDefinition {
    pub inner: TypeDefinition,
    pub ns: Option<String>,
    pub ext_trait: String,
    pub impl_trait: String,
    pub impl_ext_trait: String,
    pub parent_trait: Option<String>,
    pub wrapper: bool,
    pub prerequisites: Vec<String>,
}

impl InterfaceDefinition {
    /// Reads an interface from the options of `#[interface(...)]` and its module.
    pub fn parse<S: Copy>(module_ident: &str, module_vis: &Visibility, content: &Option<Vec<ModuleItem>>, attrs: InterfaceAttrs,
        members: MemberInput<S>, span: S, errors: &mut Errors<S>) -> (r: InterfaceDefinition)
        ensures
            ({
                let name = r.inner.name@;
                &&& parses_with_members(module_ident@, module_vis@, *content, TypeBase::Interface, opt_view(attrs.name), span,
                    members, old(errors)@, final(errors)@, r.inner)
                &&& r.inner.concurrency == if attrs.sync { Concurrency::SendSync } else { Concurrency::Unbounded }
                &&& opt_view(r.ns) == opt_view(attrs.ns)
                &&& r.ext_trait@ == named_or(attrs.ext_trait, name, "Ext"@)
                &&& r.impl_trait@ == named_or(attrs.impl_trait, name, "Impl"@)
                &&& r.impl_ext_trait@ == named_or(attrs.impl_ext_trait, name, "ImplExt"@)
                &&& opt_view(r.parent_trait) == opt_view(attrs.parent_trait)
                &&& r.wrapper == match attrs.wrapper { Some(w) => w, None => true }
                &&& strings(r.prerequisites@) == strings(attrs.prerequisites@)
            }),
    {
        let ghost before = errors@;
        let InterfaceAttrs { name, ns, ext_trait, impl_trait, impl_ext_trait, parent_trait, wrapper, prerequisites, sync } = attrs;
        let ghost name_view = opt_view(name);
        let ghost member_input = members;
        let mut inner = TypeDefinition::parse(module_ident, module_vis, content, TypeBase::Interface, name, span, members, errors);
        let ghost parsed = inner;
        let ghost e2 = errors@;
        if sync {
            inner.concurrency = Concurrency::SendSync;
        }
        proof {
            let mid = choose|mid: Seq<(S, Seq<char>)>| parses_as(module_ident@, module_vis@, *content, TypeBase::Interface, name_view, span, before, mid, parsed)
                && reads_members(member_input, TypeBase::Interface, span, mid, e2, parsed.members);
            assert(parses_as(module_ident@, module_vis@, *content, TypeBase::Interface, name_view, span, before, mid, inner));
            assert(reads_members(member_input, TypeBase::Interface, span, mid, e2, inner.members));
        }
        assert(parses_with_members(module_ident@, module_vis@, *content, TypeBase::Interface, name_view, span, member_input,
            before, errors@, inner));
        let n = inner.name.as_str();
        let ext_trait = name_or(ext_trait, n, "Ext");
        let impl_trait = name_or(impl_trait, n, "Impl");
        let impl_ext_trait = name_or(impl_ext_trait, n, "ImplExt");
        InterfaceDefinition {
            inner,
            ns,
            ext_trait,
            impl_trait,
            impl_ext_trait,
            parent_trait,
            wrapper: match wrapper { Some(w) => w, None => true },
            prerequisites,
        }
    }
}


/// A GStreamer element: a class that also extends `gst::Element` and `gst::Object`.
pub struct ElementDefinition {
    pub class: ClassDefinition,
}

impl ElementDefinition {
    /// Reads an element from the class options of `#[element(...)]` and its module: the
    /// class extends `gst::Element` and `gst::Object` (under `crate_path`) after the types
    /// it names, and its parent trait is `GstObjectImpl` unless one is given.
    pub fn parse<S: Copy>(module_ident: &str, module_vis: &Visibility, content: &Option<Vec<ModuleItem>>, attrs: ClassAttrs<S>,
        members: MemberInput<S>, crate_path: &str, virtual_spans: &Vec<S>, span: S, errors: &mut Errors<S>) -> (r: ElementDefinition)
        ensures
            class_core(module_ident@, module_vis@, *content, attrs, members, virtual_spans@, span, old(errors)@, final(errors)@, r.class),
            strings(r.class.extends@) == attrs.extends@.map_values(|e: (S, String)| e.1@)
                + seq![crate_path@ + "::gst::Element"@, crate_path@ + "::gst::Object"@],
            opt_view(r.class.parent_trait) == Some(match attrs.parent_trait {
                Some(p) => p@,
                None => crate_path@ + "::gst::subclass::prelude::GstObjectImpl"@,
            }),
    {
        let mut class = ClassDefinition::parse(module_ident, module_vis, content, attrs, members, virtual_spans, span, errors);
        let ghost before = class.extends@;
        let mut element = crate_path.to_owned();
        element.append("::gst::Element");
        let mut object = crate_path.to_owned();
        object.append("::gst::Object");
        class.extends.push(element);
        class.extends.push(object);
        assert(strings(class.extends@) =~= strings(before) + seq![crate_path@ + "::gst::Element"@, crate_path@ + "::gst::Object"@]);
        if class.parent_trait.is_none() {
            let mut p = crate_path.to_owned();
            p.append("::gst::subclass::prelude::GstObjectImpl");
            class.parent_trait = Some(p);
        }
        ElementDefinition { class }
    }
}

/// Reading a class whose module has a body and whose members are read without error adds
/// exactly these errors, in order: those of `abstract` written with `final`, then one per
/// virtual method when the class is final, or, when it is not, one for `extends` without
/// `parent_trait`; no other.
pub proof fn class_errors_law<S>(module_ident: Seq<char>, module_vis: VisibilityView, items: Vec<ModuleItem>,
    attrs: ClassAttrs<S>, members: MemberInput<S>, virtual_spans: Seq<S>, span: S, before: Seq<(S, Seq<char>)>,
    after: Seq<(S, Seq<char>)>, r: ClassDefinition)
    requires
        class_core(module_ident, module_vis, Some(items), attrs, members, virtual_spans, span, before, after, r),
        collect_errors(members.fields@, members.fields@.len() as int, span, members.pod, TypeBase::Class).len() == 0,
        blocks_errors(members.blocks@, TypeBase::Class, members.blocks@.len() as int).len() == 0,
    ensures
        after == before + only_one_errors(seq![("abstract", attrs.abstract_), ("final", attrs.final_)])
            + class_errors(attrs, virtual_spans),
{
    let e1 = before + only_one_errors(seq![("abstract", attrs.abstract_), ("final", attrs.final_)]);
    let e2 = choose|e2: Seq<(S, Seq<char>)>| {
        &&& parses_with_members(module_ident, module_vis, Some(items), TypeBase::Class, opt_view(attrs.name), span, members, e1, e2, r.inner)
        &&& after == e2 + class_errors(attrs, virtual_spans)
    };
    let mid = choose|mid: Seq<(S, Seq<char>)>| {
        &&& parses_as(module_ident, module_vis, Some(items), TypeBase::Class, opt_view(attrs.name), span, e1, mid, r.inner)
        &&& reads_members(members, TypeBase::Class, span, mid, e2, r.inner.members)
    };
    assert(mid == e1);
    assert(e2 =~= e1);
}

} // verus!
