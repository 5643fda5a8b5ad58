//! `Initable` and `AsyncInitable` on a class: what the generated `init` passes on, and the
//! checks on the constructors that initialize the object.
use vstd::prelude::*;
use vstd::string::StringExecFns;
use crate::text::str_eq;
use crate::definitions::strings;
use crate::type_definition::{has_method_at, ModuleItem, TypeDefinition, TypeMode};
use crate::util::Errors;

verus! {

/// A constructor of the class as the initable extensions read it: where its signature is,
/// the mode it is written in, whether it was renamed with `#[public(name = ...)]`, the
/// extension that already wrote its body, if one did, the name of its method, how many
/// arguments its signature has, and whether it is async.
pub struct ConstructorInput<S> {
    pub span: S,
    pub mode: TypeMode,
    pub renamed: bool,
    pub custom_tag: Option<String>,
    pub ident: String,
    pub inputs: usize,
    pub is_async: bool,
}

/// The arguments that the generated `init` hands on to the class's own: the object when
/// the class's `init` takes more than one argument, and the cancellable (or priority) when
/// it takes more than two.
pub fn init_args(arg_count: usize) -> (r: (bool, bool))
    ensures
        r == (arg_count > 1, arg_count > 2),
{
    (arg_count > 1, arg_count > 2)
}

pub open spec fn initable_overridden_message(tag: Seq<char>) -> Seq<char> {
    "Initable constructor already overriden by "@ + tag
}

pub open spec fn async_overridden_message(tag: Seq<char>) -> Seq<char> {
    "AsyncInitable constructor already overriden by "@ + tag
}

pub open spec fn initable_rename_message() -> Seq<char> {
    "custom constructor on wrapper type for Initable must be renamed with #[public(name = \"...\")]"@
}

pub open spec fn async_rename_message() -> Seq<char> {
    "custom constructor on wrapper type for AsyncInitable must be renamed with #[public(name = \"...\")]"@
}

/// The errors about the first `k` constructors for `Initable`: one whose body another
/// extension wrote, and one on the wrapper type that keeps its name.
pub open spec fn initable_errors<S>(cs: Seq<ConstructorInput<S>>, k: int) -> Seq<(S, Seq<char>)>
    decreases k,
{
    if k <= 0 {
        Seq::empty()
    } else {
        let c = cs[k - 1];
        initable_errors(cs, k - 1)
            + (match c.custom_tag { Some(t) => seq![(c.span, initable_overridden_message(t@))], None => Seq::empty() })
            + (if c.mode == TypeMode::Wrapper && !c.renamed { seq![(c.span, initable_rename_message())] } else { Seq::empty() })
    }
}

/// The errors about the first `k` constructors for `AsyncInitable`: one whose body an
/// extension other than `Initable` wrote, and, when the class has no `init` of its own,
/// one on the wrapper type that keeps its name.
pub open spec fn async_initable_errors<S>(cs: Seq<ConstructorInput<S>>, has_init: bool, k: int) -> Seq<(S, Seq<char>)>
    decreases k,
{
    if k <= 0 {
        Seq::empty()
    } else {
        let c = cs[k - 1];
        async_initable_errors(cs, has_init, k - 1)
            + (match c.custom_tag {
                Some(t) => if t@ != "Initable"@ { seq![(c.span, async_overridden_message(t@))] } else { Seq::empty() },
                None => Seq::empty(),
            })
            + (if !has_init && c.mode == TypeMode::Wrapper && !c.renamed { seq![(c.span, async_rename_message())] } else { Seq::empty() })
    }
}

/// Checks the constructors of a class that implements `Initable`.
pub fn check_initable_constructors<S: Copy>(cs: &Vec<ConstructorInput<S>>, errors: &mut Errors<S>)
    ensures
        final(errors)@ == old(errors)@ + initable_errors(cs@, cs@.len() as int),
{
    let ghost start = errors@;
    let mut i: usize = 0;
    while i < cs.len()
        invariant
            i <= cs@.len(),
            errors@ == start + initable_errors(cs@, i as int),
        decreases cs.len() - i,
    {
        let c = &cs[i];
        let ghost before = errors@;
        match &c.custom_tag {
            Some(t) => {
                let mut m = "Initable constructor already overriden by ".to_owned();
                m.append(t.as_str());
                errors.push(c.span, m);
            },
            None => {},
        }
        if c.mode == TypeMode::Wrapper && !c.renamed {
            errors.push_str(c.span, "custom constructor on wrapper type for Initable must be renamed with #[public(name = \"...\")]");
        }
        assert(errors@ =~= start + initable_errors(cs@, i as int + 1));
        i = i + 1;
    }
}

/// The name of the future-returning constructor made from one for `AsyncInitable` when
/// the class has its own `init`: the constructor's name and `_future`.
pub fn future_constructor_name(name: &str) -> (r: String)
    ensures
        r@ == name@ + "_future"@,
{
    let mut r = name.to_owned();
    r.append("_future");
    r
}

/// Checks the constructors of a class that implements `AsyncInitable`; `has_init` tells
/// whether the class has an `init` of its own.
pub fn check_async_initable_constructors<S: Copy>(cs: &Vec<ConstructorInput<S>>, has_init: bool, errors: &mut Errors<S>)
    ensures
        final(errors)@ == old(errors)@ + async_initable_errors(cs@, has_init, cs@.len() as int),
{
    let ghost start = errors@;
    let mut i: usize = 0;
    while i < cs.len()
        invariant
            i <= cs@.len(),
            errors@ == start + async_initable_errors(cs@, has_init, i as int),
        decreases cs.len() - i,
    {
        let c = &cs[i];
        match &c.custom_tag {
            Some(t) => {
                if !str_eq(t.as_str(), "Initable") {
                    let mut m = "AsyncInitable constructor already overriden by ".to_owned();
                    m.append(t.as_str());
                    errors.push(c.span, m);
                }
            },
            None => {},
        }
        if !has_init && c.mode == TypeMode::Wrapper && !c.renamed {
            errors.push_str(c.span, "custom constructor on wrapper type for AsyncInitable must be renamed with #[public(name = \"...\")]");
        }
        assert(errors@ =~= start + async_initable_errors(cs@, has_init, i as int + 1));
        i = i + 1;
    }
}

/// The path of `Initable` from the crate `go`.
pub open spec fn initable_path(go: Seq<char>) -> Seq<char> {
    go + "::gio::Initable"@
}

/// Whether a definition has an `init` method written on the subclass.
pub open spec fn has_subclass_init(def: TypeDefinition, items: Seq<ModuleItem>) -> bool {
    exists|k: int| has_method_at(items, def.methods_item_indices@, TypeMode::Subclass, "init"@, k)
}

/// Makes a class whose subclass has an `init` method implement `Initable`: `Initable` is
/// added to what the class implements, the constructors are checked, and the body of
/// each constructor is from then on written by `Initable`. A class without such an `init`
/// is left as it is.
pub fn extend_initable<S: Copy>(def: &TypeDefinition, items: &Vec<ModuleItem>, go: &str, implements: &mut Vec<String>,
    cs: &mut Vec<ConstructorInput<S>>, errors: &mut Errors<S>)
    ensures
        if has_subclass_init(*def, items@) {
            &&& strings(final(implements)@) == strings(old(implements)@).push(initable_path(go@))
            &&& final(errors)@ == old(errors)@ + initable_errors(old(cs)@, old(cs)@.len() as int)
            &&& final(cs)@.len() == old(cs)@.len()
            &&& forall|i: int| 0 <= i < old(cs)@.len() ==> {
                let c = #[trigger] final(cs)@[i];
                &&& c.span == old(cs)@[i].span
                &&& c.mode == old(cs)@[i].mode
                &&& c.renamed == old(cs)@[i].renamed
                &&& c.custom_tag matches Some(t) && t@ == "Initable"@
                &&& c.ident == old(cs)@[i].ident
                &&& c.inputs == old(cs)@[i].inputs
                &&& c.is_async == old(cs)@[i].is_async
            }
        } else {
            &&& *final(implements) == *old(implements)
            &&& *final(cs) == *old(cs)
            &&& final(errors)@ == old(errors)@
        },
{
    if !def.has_method(items, TypeMode::Subclass, "init") {
        return;
    }
    let mut path = go.to_owned();
    path.append("::gio::Initable");
    let ghost before = implements@;
    implements.push(path);
    assert(strings(implements@) =~= strings(before).push(initable_path(go@)));
    check_initable_constructors(cs, errors);
    let mut tagged: Vec<ConstructorInput<S>> = Vec::new();
    let mut i: usize = 0;
    while i < cs.len()
        invariant
            i <= cs@.len(),
            tagged@.len() == i,
            forall|k: int| 0 <= k < i ==> {
                let c = #[trigger] tagged@[k];
                &&& c.span == cs@[k].span
                &&& c.mode == cs@[k].mode
                &&& c.renamed == cs@[k].renamed
                &&& c.custom_tag matches Some(t) && t@ == "Initable"@
                &&& c.ident == cs@[k].ident
                &&& c.inputs == cs@[k].inputs
                &&& c.is_async == cs@[k].is_async
            },
        decreases cs.len() - i,
    {
        let c = &cs[i];
        tagged.push(ConstructorInput {
            span: c.span,
            mode: c.mode,
            renamed: c.renamed,
            custom_tag: Some("Initable".to_owned()),
            ident: c.ident.clone(),
            inputs: c.inputs,
            is_async: c.is_async,
        });
        i = i + 1;
    }
    *cs = tagged;
}

/// The path of `AsyncInitable` from the crate `go`.
pub open spec fn async_initable_path(go: Seq<char>) -> Seq<char> {
    go + "::gio::AsyncInitable"@
}

/// What the generated `init_future` hands on to the class's own: the object when the
/// class's `init_future` takes more than one argument, and the priority when it takes more
/// than two (each async constructor then takes the priority as its last argument).
pub struct AsyncInitPlan {
    pub object: bool,
    pub priority: bool,
}

/// Constructor `c` once `AsyncInitable` writes its body: async, with the body tagged
/// `Initable`, and with the priority as one more argument when `priority`.
pub open spec fn async_written<S>(c: ConstructorInput<S>, o: ConstructorInput<S>, priority: bool) -> bool {
    &&& c.span == o.span
    &&& c.mode == o.mode
    &&& c.renamed == o.renamed
    &&& c.custom_tag matches Some(t) && t@ == "Initable"@
    &&& c.is_async
    &&& c.inputs == o.inputs + if priority { 1nat } else { 0nat }
}

/// Makes a class whose subclass has an `init_future` method (taking `init_future` arguments)
/// implement `AsyncInitable`; `init` is how many arguments the subclass's `init` takes, when
/// it has one. `AsyncInitable` is added to what the class implements and the constructors
/// are checked. With an `init` of its own, the class keeps its constructors and gains an
/// async copy of each, named with `_future` and without the cancellable argument when
/// `init` takes more than two; without one, the constructors themselves become async.
/// A class without `init_future` is left as it is.
pub fn extend_async_initable<S: Copy>(init_future: Option<usize>, init: Option<usize>, go: &str,
    implements: &mut Vec<String>, cs: &mut Vec<ConstructorInput<S>>, errors: &mut Errors<S>) -> (r: Option<AsyncInitPlan>)
    requires
        forall|i: int| 0 <= i < old(cs)@.len() ==> (#[trigger] old(cs)@[i]).inputs < usize::MAX,
        old(cs)@.len() <= usize::MAX / 2,
    ensures
        match init_future {
            None => {
                &&& r is None
                &&& *final(implements) == *old(implements)
                &&& *final(cs) == *old(cs)
                &&& final(errors)@ == old(errors)@
            },
            Some(n) => {
                let priority = n > 2;
                let n0 = old(cs)@.len();
                &&& r matches Some(plan) && plan.object == (n > 1) && plan.priority == priority
                &&& strings(final(implements)@) == strings(old(implements)@).push(async_initable_path(go@))
                &&& final(errors)@ == old(errors)@ + async_initable_errors(old(cs)@, init is Some, n0 as int)
                &&& final(cs)@.len() == if init is Some { 2 * n0 } else { n0 }
                &&& forall|i: int| 0 <= i < n0 ==> {
                    let (c, o) = (#[trigger] final(cs)@[i], old(cs)@[i]);
                    if init is Some { c == o } else { async_written(c, o, priority) && c.ident == o.ident }
                }
                &&& init is Some ==> forall|i: int| 0 <= i < n0 ==> {
                    let (c, o) = (#[trigger] final(cs)@[n0 + i], old(cs)@[i]);
                    &&& c.ident@ == o.ident@ + "_future"@
                    &&& async_written(c, ConstructorInput { inputs: if init->Some_0 > 2 && o.inputs > 0 { (o.inputs - 1) as usize } else { o.inputs }, ..o }, priority)
                }
            },
        },
{
    let n = match init_future {
        Some(n) => n,
        None => return None,
    };
    let priority = n > 2;
    let mut path = go.to_owned();
    path.append("::gio::AsyncInitable");
    let ghost before = implements@;
    implements.push(path);
    assert(strings(implements@) =~= strings(before).push(async_initable_path(go@)));
    let has_init = init.is_some();
    check_async_initable_constructors(cs, has_init, errors);
    let drop_cancellable = match init { Some(k) => k > 2, None => false };
    let ghost orig = cs@;
    let n0 = cs.len();
    let mut copies: Vec<ConstructorInput<S>> = Vec::new();
    let mut i: usize = 0;
    while i < n0
        invariant
            n0 == orig.len(),
            i <= n0,
            cs@.len() == n0,
            drop_cancellable == (init is Some && init->Some_0 > 2),
            has_init == init is Some,
            forall|k: int| 0 <= k < n0 ==> (#[trigger] orig[k]).inputs < usize::MAX,
            forall|k: int| i <= k < n0 ==> cs@[k] == orig[k],
            forall|k: int| 0 <= k < i ==> {
                let (c, o) = (#[trigger] cs@[k], orig[k]);
                if has_init { c == o } else { async_written(c, o, priority) && c.ident == o.ident }
            },
            copies@.len() == if has_init { i as int } else { 0 },
            has_init ==> forall|k: int| 0 <= k < i ==> {
                let (c, o) = (#[trigger] copies@[k], orig[k]);
                &&& c.ident@ == o.ident@ + "_future"@
                &&& async_written(c, ConstructorInput { inputs: if init->Some_0 > 2 && o.inputs > 0 { (o.inputs - 1) as usize } else { o.inputs }, ..o }, priority)
            },
        decreases n0 - i,
    {
        let c = &cs[i];
        if has_init {
            let mut ident = c.ident.clone();
            ident.append("_future");
            let base = if drop_cancellable && c.inputs > 0 { c.inputs - 1 } else { c.inputs };
            copies.push(ConstructorInput {
                span: c.span,
                mode: c.mode,
                renamed: c.renamed,
                custom_tag: Some("Initable".to_owned()),
                ident,
                inputs: if priority { base + 1 } else { base },
                is_async: true,
            });
        } else {
            let w = ConstructorInput {
                span: c.span,
                mode: c.mode,
                renamed: c.renamed,
                custom_tag: Some("Initable".to_owned()),
                ident: c.ident.clone(),
                inputs: if priority { c.inputs + 1 } else { c.inputs },
                is_async: true,
            };
            cs.set(i, w);
        }
        i = i + 1;
    }
    let ghost kept = cs@;
    cs.append(&mut copies);
    Some(AsyncInitPlan { object: n > 1, priority })
}

} // verus!
