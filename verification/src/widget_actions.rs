//! Actions installed on a widget class with `#[widget_action]` methods: their names, the
//! argument that receives the parameter, and how the parameter is converted.
use vstd::prelude::*;
use vstd::string::StringExecFns;
use crate::actions::{HandlerArg, HandlerSig, ParameterType};
use crate::case::{kebab_case, to_kebab_case};
use crate::type_definition::TypeMode;
use crate::text::{contains_name, str_eq};
use crate::util::Errors;
use crate::validations::{only_one, only_one_errors};

verus! {

/// The options of a `#[widget_action(...)]` attribute, each with where it was written;
/// paths are given as their text.
pub struct WidgetActionAttrs<S> {
    pub name: Option<String>,
    pub group: Option<String>,
    pub type_: Option<(S, ParameterType)>,
    pub type_str: Option<(S, String)>,
    pub disabled: Option<S>,
    pub with: Option<(S, String)>,
    pub to: Option<(S, String)>,
    pub from: Option<(S, String)>,
}

pub open spec fn opt_span<S, T>(o: Option<(S, T)>) -> Option<S> {
    match o {
        Some((s, _)) => Some(s),
        None => None,
    }
}

/// The errors for options that exclude each other: `type` and `type_str`, `with` and
/// `to`, `with` and `from`, and `type_str` with `with`, `to` or `from`.
pub open spec fn widget_attr_errors<S>(a: WidgetActionAttrs<S>) -> Seq<(S, Seq<char>)> {
    let t = ("type", opt_span(a.type_));
    let ts = ("type_str", opt_span(a.type_str));
    let w = ("with", opt_span(a.with));
    let to = ("to", opt_span(a.to));
    let fr = ("from", opt_span(a.from));
    only_one_errors(seq![t, ts]) + only_one_errors(seq![w, to]) + only_one_errors(seq![w, fr])
        + only_one_errors(seq![ts, w]) + only_one_errors(seq![ts, to]) + only_one_errors(seq![ts, fr])
}

fn span_of<S: Copy, T>(o: &Option<(S, T)>) -> (r: Option<S>)
    ensures
        r == opt_span(*o),
{
    match o {
        Some((s, _)) => Some(*s),
        None => None,
    }
}

impl<S: Copy> WidgetActionAttrs<S> {
    /// Reports options that exclude each other.
    pub fn validate(&self, errors: &mut Errors<S>)
        ensures
            final(errors)@ == old(errors)@ + widget_attr_errors(*self),
    {
        let t = ("type", span_of(&self.type_));
        let ts = ("type_str", span_of(&self.type_str));
        let w = ("with", span_of(&self.with));
        let to = ("to", span_of(&self.to));
        let fr = ("from", span_of(&self.from));
        let ghost start = errors@;
        only_one(&[t, ts], errors);
        only_one(&[w, to], errors);
        only_one(&[w, fr], errors);
        only_one(&[ts, w], errors);
        only_one(&[ts, to], errors);
        only_one(&[ts, fr], errors);
        assert(errors@ =~= start + widget_attr_errors(*self));
    }
}

/// The full name of a widget action: its group (by default the type's name in
/// kebab-case), a dot, and its name (by default the method's name in kebab-case).
pub open spec fn action_name(ty_ident: Seq<char>, action_ident: Seq<char>, name: Option<Seq<char>>, group: Option<Seq<char>>) -> Seq<char> {
    let g = match group { Some(g) => g, None => kebab_case(ty_ident) };
    let n = match name { Some(n) => n, None => kebab_case(action_ident) };
    g + "."@ + n
}

pub open spec fn text_opt(o: Option<String>) -> Option<Seq<char>> {
    match o {
        Some(s) => Some(s@),
        None => None,
    }
}

pub fn make_name(ty_ident: &str, action_ident: &str, name: Option<String>, group: Option<String>) -> (r: String)
    ensures
        r@ == action_name(ty_ident@, action_ident@, text_opt(name), text_opt(group)),
{
    let mut r = match group {
        Some(g) => g,
        None => to_kebab_case(ty_ident),
    };
    r.append(".");
    match name {
        Some(n) => r.append(n.as_str()),
        None => {
            let k = to_kebab_case(action_ident);
            r.append(k.as_str());
        },
    }
    r
}

/// The type of a widget action's parameter: one given as for actions, or the static
/// variant type of the type at a path.
pub enum WidgetParameterType {
    Given(ParameterType),
    StaticVariantType(String),
}

/// An action of a widget class.
pub struct WidgetAction<S> {
    pub name: String,
    pub mode: TypeMode,
    pub parameter_type: WidgetParameterType,
    pub parameter_index: Option<(usize, S)>,
    pub disabled: bool,
    /// The path of the function that converts the parameter to a variant, and back.
    pub parameter_to: Option<String>,
    pub parameter_from: Option<String>,
}

/// The first typed argument from `start` on is the parameter; each later one is reported.
pub open spec fn parameter_of<S>(args: Seq<HandlerArg<S>>, start: int, n: int) -> (Option<(usize, S)>, Seq<(S, Seq<char>)>)
    decreases n - start,
{
    if n <= start {
        (None, Seq::empty())
    } else {
        let (p, e) = parameter_of(args, start, n - 1);
        match args[n - 1] {
            HandlerArg::Receiver { .. } => (p, e),
            HandlerArg::Typed { span, .. } => if p is Some {
                (p, e.push((span, "Duplicate parameter argument"@)))
            } else {
                (Some(((n - 1) as usize, span)), e)
            },
        }
    }
}

pub open spec fn receiver_skip<S>(args: Seq<HandlerArg<S>>) -> int {
    if args.len() > 0 && args[0] is Receiver { 1 } else { 0 }
}

/// Every error that reading a widget action's method reports, in order.
pub open spec fn widget_action_errors<S>(sig: HandlerSig<S>, mode: TypeMode) -> Seq<(S, Seq<char>)> {
    let args = sig.args@;
    (match sig.output { Some((s, _)) => seq![(s, "Widget action cannot have return type"@)], None => Seq::empty() })
        + (if args.len() > 0 && (args[0] matches HandlerArg::Receiver { by_ref, .. } && !by_ref) && mode == TypeMode::Subclass {
            seq![(args[0]->Receiver_span, "Subclass action receiver must be `&self`"@)]
        } else {
            Seq::empty()
        })
        + parameter_of(args, receiver_skip(args), args.len() as int).1
}

impl<S: Copy> WidgetAction<S> {
    /// Reads a `#[widget_action]` method of the type `ty_ident`.
    pub fn from_method(sig: &HandlerSig<S>, attrs: WidgetActionAttrs<S>, ty_ident: &str, action_ident: &str, mode: TypeMode,
        errors: &mut Errors<S>) -> (r: WidgetAction<S>)
        ensures
            final(errors)@ == old(errors)@ + widget_action_errors(*sig, mode),
            r.name@ == action_name(ty_ident@, action_ident@, text_opt(attrs.name), text_opt(attrs.group)),
            r.mode == mode,
            r.parameter_index == parameter_of(sig.args@, receiver_skip(sig.args@), sig.args@.len() as int).0,
            r.disabled == attrs.disabled is Some,
            match attrs.type_ {
                Some((_, t)) => r.parameter_type == WidgetParameterType::Given(t),
                None => match attrs.type_str {
                    Some((_, s)) => r.parameter_type matches WidgetParameterType::Given(ParameterType::Named { type_string })
                        && type_string@ == s@,
                    None => match attrs.with {
                        Some((_, p)) => r.parameter_type matches WidgetParameterType::StaticVariantType(x)
                            && x@ == p@ + "::static_variant_type"@,
                        None => r.parameter_type == WidgetParameterType::Given(ParameterType::Inferred),
                    },
                },
            },
            match attrs.to {
                Some((_, t)) => r.parameter_to matches Some(x) && x@ == t@,
                None => match attrs.with {
                    Some((_, p)) => r.parameter_to matches Some(x) && x@ == p@ + "::to_variant"@,
                    None => r.parameter_to is None,
                },
            },
            match attrs.from {
                Some((_, f)) => r.parameter_from matches Some(x) && x@ == f@,
                None => match attrs.with {
                    Some((_, p)) => r.parameter_from matches Some(x) && x@ == p@ + "::from_variant"@,
                    None => r.parameter_from is None,
                },
            },
    {
        let ghost start = errors@;
        match &sig.output {
            Some((s, _)) => errors.push_str(*s, "Widget action cannot have return type"),
            None => {},
        }
        let mut skip: usize = 0;
        if sig.args.len() > 0 {
            match &sig.args[0] {
                HandlerArg::Receiver { span, by_ref } => {
                    if mode == TypeMode::Subclass && !*by_ref {
                        errors.push_str(*span, "Subclass action receiver must be `&self`");
                    }
                    skip = 1;
                },
                _ => {},
            }
        }
        let ghost mid = errors@;
        let mut parameter_index: Option<(usize, S)> = None;
        let mut i: usize = skip;
        while i < sig.args.len()
            invariant
                skip <= i <= sig.args@.len(),
                skip == receiver_skip(sig.args@),
                (parameter_index, errors@) == {
                    let (p, e) = parameter_of(sig.args@, skip as int, i as int);
                    (p, mid + e)
                },
            decreases sig.args.len() - i,
        {
            match &sig.args[i] {
                HandlerArg::Receiver { .. } => {},
                HandlerArg::Typed { span, .. } => {
                    if parameter_index.is_some() {
                        errors.push_str(*span, "Duplicate parameter argument");
                    } else {
                        parameter_index = Some((i, *span));
                    }
                },
            }
            i = i + 1;
        }
        assert(errors@ =~= start + widget_action_errors(*sig, mode));
        let WidgetActionAttrs { name, group, type_, type_str, disabled, with, to, from } = attrs;
        let parameter_type = match type_ {
            Some((_, t)) => WidgetParameterType::Given(t),
            None => match type_str {
                Some((_, s)) => WidgetParameterType::Given(ParameterType::Named { type_string: s }),
                None => match &with {
                    Some((_, p)) => {
                        let mut x = p.clone();
                        x.append("::static_variant_type");
                        WidgetParameterType::StaticVariantType(x)
                    },
                    None => WidgetParameterType::Given(ParameterType::Inferred),
                },
            },
        };
        let parameter_to = match to {
            Some((_, t)) => Some(t),
            None => match &with {
                Some((_, p)) => {
                    let mut x = p.clone();
                    x.append("::to_variant");
                    Some(x)
                },
                None => None,
            },
        };
        let parameter_from = match from {
            Some((_, f)) => Some(f),
            None => match &with {
                Some((_, p)) => {
                    let mut x = p.clone();
                    x.append("::from_variant");
                    Some(x)
                },
                None => None,
            },
        };
        let name = make_name(ty_ident, action_ident, name, group);
        WidgetAction {
            name,
            mode,
            parameter_type,
            parameter_index,
            disabled: disabled.is_some(),
            parameter_to,
            parameter_from,
        }
    }
}


/// What `#[widget_action(...)]` on a property's field says: the action's name and group,
/// and where `disabled` is written.
pub struct PropertyActionAttrs<S> {
    pub name: Option<String>,
    pub group: Option<String>,
    pub disabled: Option<S>,
}

/// An action that toggles or sets a property of the widget.
pub struct PropertyAction {
    pub name: String,
    pub property: String,
    pub disabled: bool,
}

impl PropertyAction {
    pub fn new<S>(ty_ident: &str, property: &str, attrs: PropertyActionAttrs<S>) -> (r: PropertyAction)
        ensures
            r.name@ == action_name(ty_ident@, property@, text_opt(attrs.name), text_opt(attrs.group)),
            r.property@ == property@,
            r.disabled == attrs.disabled is Some,
    {
        let PropertyActionAttrs { name, group, disabled } = attrs;
        PropertyAction { name: make_name(ty_ident, property, name, group), property: property.to_owned(), disabled: disabled.is_some() }
    }
}

pub open spec fn duplicate_action_message(n: Seq<char>) -> Seq<char> {
    "Duplicate action `"@ + n + "`"@
}

/// Each action named like an earlier one, reported where it is declared.
pub open spec fn action_name_errors<S>(names: Seq<(S, String)>, k: int) -> Seq<(S, Seq<char>)>
    decreases k,
{
    if k <= 0 {
        Seq::empty()
    } else {
        let (s, n) = names[k - 1];
        let earlier = names.subrange(0, k - 1).map_values(|e: (S, String)| e.1@);
        action_name_errors(names, k - 1) + if earlier.contains(n@) { seq![(s, duplicate_action_message(n@))] } else { Seq::empty() }
    }
}

/// Reports each action of a widget class named like one before it: the methods' actions
/// come first, then the properties'.
pub fn check_action_names<S: Copy>(names: &Vec<(S, String)>, errors: &mut Errors<S>)
    ensures
        final(errors)@ == old(errors)@ + action_name_errors(names@, names@.len() as int),
{
    let ghost start = errors@;
    let mut seen: Vec<String> = Vec::new();
    let mut i: usize = 0;
    while i < names.len()
        invariant
            i <= names@.len(),
            seen@.map_values(|s: String| s@) == names@.subrange(0, i as int).map_values(|e: (S, String)| e.1@),
            errors@ == start + action_name_errors(names@, i as int),
        decreases names.len() - i,
    {
        let (s, n) = &names[i];
        if contains_name(&seen, n.as_str()) {
            let mut m = "Duplicate action `".to_owned();
            m.append(n.as_str());
            m.append("`");
            errors.push(*s, m);
        }
        let ghost before = seen@;
        seen.push(n.clone());
        assert(seen@.map_values(|s: String| s@) =~= before.map_values(|s: String| s@).push(n@));
        assert(names@.subrange(0, i as int + 1).map_values(|e: (S, String)| e.1@)
            =~= names@.subrange(0, i as int).map_values(|e: (S, String)| e.1@).push(n@));
        i = i + 1;
    }
}

/// A method's widget action, with the method's name and where its signature is.
pub struct MethodAction<S> {
    pub action: WidgetAction<S>,
    pub ident: String,
    pub span: S,
}

/// A property field's `#[widget_action(...)]`: the property's name, where the field is,
/// and what the attribute says.
pub struct PropertyActionInput<S> {
    pub property: String,
    pub span: S,
    pub attrs: PropertyActionAttrs<S>,
}

/// A public method of the class as widget actions see it: the mode it is written in, the
/// name of its method, where its signature is, whether it is a constructor written out
/// from its signature alone, whether it was renamed, and the extension that wrote its
/// body, if one did.
pub struct PublicMethodInput<S> {
    pub mode: TypeMode,
    pub ident: String,
    pub span: S,
    pub auto_constructor: bool,
    pub renamed: bool,
    pub custom_tag: Option<String>,
}

/// What a widget class installs: the property actions, and the names of the actions
/// disabled when an instance is made (the methods' first, then the properties').
pub struct WidgetActionsPlan {
    pub property_actions: Vec<PropertyAction>,
    pub disabled: Vec<String>,
}

pub open spec fn property_action_name<S>(ty_ident: Seq<char>, p: PropertyActionInput<S>) -> Seq<char> {
    action_name(ty_ident, p.property@, text_opt(p.attrs.name), text_opt(p.attrs.group))
}

/// Each action with where it is declared and its name: the methods' first, then the
/// properties'.
pub open spec fn action_entries<S>(ty_ident: Seq<char>, acts: Seq<MethodAction<S>>, props: Seq<PropertyActionInput<S>>) -> Seq<(S, Seq<char>)> {
    Seq::new(acts.len() + props.len(), |i: int| if i < acts.len() {
        (acts[i].span, acts[i].action.name@)
    } else {
        (props[i - acts.len()].span, property_action_name(ty_ident, props[i - acts.len()]))
    })
}

/// Each of the first `k` entries named like an earlier one, reported where it is.
pub open spec fn duplicate_entries<S>(entries: Seq<(S, Seq<char>)>, k: int) -> Seq<(S, Seq<char>)>
    decreases k,
{
    if k <= 0 {
        Seq::empty()
    } else {
        let (s, n) = entries[k - 1];
        let earlier = entries.subrange(0, k - 1).map_values(|e: (S, Seq<char>)| e.1);
        duplicate_entries(entries, k - 1) + if earlier.contains(n) { seq![(s, duplicate_action_message(n))] } else { Seq::empty() }
    }
}

/// `j` is the first public method that action `a` takes over: written in its mode, for the
/// method of its name.
pub open spec fn takes_over<S>(pms: Seq<PublicMethodInput<S>>, a: MethodAction<S>, j: int) -> bool {
    &&& 0 <= j < pms.len()
    &&& pms[j].mode == a.action.mode && pms[j].ident@ == a.ident@
    &&& forall|i: int| 0 <= i < j ==> !((#[trigger] pms[i]).mode == a.action.mode && pms[i].ident@ == a.ident@)
}

pub open spec fn overridden_message(tag: Seq<char>) -> Seq<char> {
    "#[action] cannot be used on public method already overriden by "@ + tag
}

pub open spec fn rename_message() -> Seq<char> {
    "widget action using #[public] on wrapper type for final class must be renamed with #[public(name = \"...\")]"@
}

pub open spec fn widget_tag() -> Seq<char> {
    "#[widget_action]"@
}

pub open spec fn tags_of<S>(pms: Seq<PublicMethodInput<S>>) -> Seq<Option<Seq<char>>> {
    pms.map_values(|p: PublicMethodInput<S>| text_opt(p.custom_tag))
}

/// The public methods' tags and the errors after the first `k` actions took over their
/// public methods: a body already written by another extension is reported, and so is a
/// public method on the wrapper of a final class that keeps its name (but for a
/// constructor written out from its signature); the body is then written by
/// `#[widget_action]`.
pub open spec fn take_over<S>(pms: Seq<PublicMethodInput<S>>, acts: Seq<MethodAction<S>>, final_: bool, k: int)
    -> (Seq<Option<Seq<char>>>, Seq<(S, Seq<char>)>)
    decreases k,
{
    if k <= 0 {
        (tags_of(pms), Seq::empty())
    } else {
        let (tags, errs) = take_over(pms, acts, final_, k - 1);
        let a = acts[k - 1];
        if exists|j: int| takes_over(pms, a, j) {
            let j = choose|j: int| takes_over(pms, a, j);
            let e1 = match tags[j] { Some(t) => seq![(pms[j].span, overridden_message(t))], None => Seq::empty() };
            let e2 = if a.action.mode == TypeMode::Wrapper && !pms[j].auto_constructor && !pms[j].renamed && final_ {
                seq![(a.span, rename_message())]
            } else {
                Seq::empty()
            };
            (tags.update(j, Some(widget_tag())), errs + e1 + e2)
        } else {
            (tags, errs)
        }
    }
}

/// The names of the disabled actions among the first `k` of the methods.
pub open spec fn disabled_methods<S>(acts: Seq<MethodAction<S>>, k: int) -> Seq<Seq<char>>
    decreases k,
{
    if k <= 0 {
        Seq::empty()
    } else {
        disabled_methods(acts, k - 1) + if acts[k - 1].action.disabled { seq![acts[k - 1].action.name@] } else { Seq::empty() }
    }
}

/// The names of the disabled actions among the first `k` of the properties.
pub open spec fn disabled_properties<S>(ty_ident: Seq<char>, props: Seq<PropertyActionInput<S>>, k: int) -> Seq<Seq<char>>
    decreases k,
{
    if k <= 0 {
        Seq::empty()
    } else {
        disabled_properties(ty_ident, props, k - 1)
            + if props[k - 1].attrs.disabled is Some { seq![property_action_name(ty_ident, props[k - 1])] } else { Seq::empty() }
    }
}

proof fn lemma_takes_over_unique<S>(pms: Seq<PublicMethodInput<S>>, a: MethodAction<S>, i: int, j: int)
    requires
        takes_over(pms, a, i),
        takes_over(pms, a, j),
    ensures
        i == j,
{
    if i < j {
        assert(pms[i].mode == a.action.mode && pms[i].ident@ == a.ident@);
    } else if j < i {
        assert(pms[j].mode == a.action.mode && pms[j].ident@ == a.ident@);
    }
}

proof fn lemma_takes_over_same<S>(p1: Seq<PublicMethodInput<S>>, p2: Seq<PublicMethodInput<S>>, a: MethodAction<S>, j: int)
    requires
        p1.len() == p2.len(),
        forall|i: int| 0 <= i < p1.len() ==> {
            let (x, y) = (#[trigger] p1[i], p2[i]);
            x.mode == y.mode && x.ident == y.ident
        },
    ensures
        takes_over(p1, a, j) == takes_over(p2, a, j),
{
    if 0 <= j < p1.len() {
        assert(p1[j].mode == p2[j].mode && p1[j].ident == p2[j].ident);
        assert forall|i: int| 0 <= i < j implies
            (((#[trigger] p1[i]).mode == a.action.mode && p1[i].ident@ == a.ident@)
            <==> (p2[i].mode == a.action.mode && p2[i].ident@ == a.ident@)) by {
            assert(p1[i].mode == p2[i].mode && p1[i].ident == p2[i].ident);
        }
        if takes_over(p1, a, j) {
            assert forall|i: int| 0 <= i < j implies !((#[trigger] p2[i]).mode == a.action.mode && p2[i].ident@ == a.ident@) by {
                assert(p1[i].mode == p2[i].mode && p1[i].ident == p2[i].ident);
            }
        }
        if takes_over(p2, a, j) {
            assert forall|i: int| 0 <= i < j implies !((#[trigger] p1[i]).mode == a.action.mode && p1[i].ident@ == a.ident@) by {
                assert(p1[i].mode == p2[i].mode && p1[i].ident == p2[i].ident);
            }
        }
    }
}

fn find_public<S: Copy>(pms: &Vec<PublicMethodInput<S>>, a: &MethodAction<S>) -> (r: Option<usize>)
    ensures
        match r {
            Some(j) => takes_over(pms@, *a, j as int),
            None => !exists|j: int| takes_over(pms@, *a, j),
        },
{
    let mut i: usize = 0;
    while i < pms.len()
        invariant
            i <= pms@.len(),
            forall|k: int| 0 <= k < i ==> !((#[trigger] pms@[k]).mode == a.action.mode && pms@[k].ident@ == a.ident@),
        decreases pms.len() - i,
    {
        if pms[i].mode == a.action.mode && str_eq(pms[i].ident.as_str(), a.ident.as_str()) {
            assert(takes_over(pms@, *a, i as int));
            return Some(i);
        }
        i = i + 1;
    }
    None
}

/// Plans the actions of a widget class: reports each action named like an earlier one
/// (the methods' first, then the properties'), makes the property actions, lets each
/// method action take over the public method written for it (see `take_over`), and
/// lists the disabled actions. A class without any action gives nothing.
pub fn plan_widget_actions<S: Copy>(ty_ident: &str, final_: bool, actions: &Vec<MethodAction<S>>,
    properties: &Vec<PropertyActionInput<S>>, public_methods: &mut Vec<PublicMethodInput<S>>, errors: &mut Errors<S>)
    -> (r: Option<WidgetActionsPlan>)
    requires
        actions@.len() + properties@.len() <= usize::MAX,
    ensures
        final(errors)@ == old(errors)@
            + duplicate_entries(action_entries(ty_ident@, actions@, properties@), (actions@.len() + properties@.len()) as int)
            + take_over(old(public_methods)@, actions@, final_, actions@.len() as int).1,
        final(public_methods)@.len() == old(public_methods)@.len(),
        forall|i: int| 0 <= i < old(public_methods)@.len() ==> {
            let (a, b) = (#[trigger] final(public_methods)@[i], old(public_methods)@[i]);
            a.mode == b.mode && a.ident == b.ident && a.span == b.span && a.auto_constructor == b.auto_constructor
                && a.renamed == b.renamed
        },
        tags_of(final(public_methods)@) == take_over(old(public_methods)@, actions@, final_, actions@.len() as int).0,
        match r {
            None => actions@.len() == 0 && properties@.len() == 0,
            Some(plan) => {
                &&& actions@.len() + properties@.len() > 0
                &&& plan.property_actions@.len() == properties@.len()
                &&& forall|i: int| 0 <= i < properties@.len() ==> {
                    let pa = #[trigger] plan.property_actions@[i];
                    &&& pa.name@ == property_action_name(ty_ident@, properties@[i])
                    &&& pa.property@ == properties@[i].property@
                    &&& pa.disabled == properties@[i].attrs.disabled is Some
                }
                &&& plan.disabled@.map_values(|n: String| n@) == disabled_methods(actions@, actions@.len() as int)
                    + disabled_properties(ty_ident@, properties@, properties@.len() as int)
            },
        },
{
    let ghost start = errors@;
    let ghost entries = action_entries(ty_ident@, actions@, properties@);
    let n = actions.len();
    let total = n + properties.len();
    let mut names: Vec<String> = Vec::new();
    let mut prop_actions: Vec<PropertyAction> = Vec::new();
    let mut k: usize = 0;
    while k < total
        invariant
            n == actions@.len(),
            total == actions@.len() + properties@.len(),
            entries == action_entries(ty_ident@, actions@, properties@),
            k <= total,
            names@.map_values(|x: String| x@) == entries.subrange(0, k as int).map_values(|e: (S, Seq<char>)| e.1),
            errors@ == start + duplicate_entries(entries, k as int),
            prop_actions@.len() == if k < n { 0 } else { k - n },
            forall|i: int| 0 <= i < prop_actions@.len() ==> {
                let pa = #[trigger] prop_actions@[i];
                &&& pa.name@ == property_action_name(ty_ident@, properties@[i])
                &&& pa.property@ == properties@[i].property@
                &&& pa.disabled == properties@[i].attrs.disabled is Some
            },
        decreases total - k,
    {
        let (span, name) = if k < n {
            (actions[k].span, actions[k].action.name.clone())
        } else {
            let p = &properties[k - n];
            let attrs = PropertyActionAttrs { name: p.attrs.name.clone(), group: p.attrs.group.clone(), disabled: p.attrs.disabled };
            let pa = PropertyAction::new(ty_ident, p.property.as_str(), attrs);
            let nm = pa.name.clone();
            prop_actions.push(pa);
            (p.span, nm)
        };
        assert(entries[k as int] == (span, name@));
        if contains_name(&names, name.as_str()) {
            let mut m = "Duplicate action `".to_owned();
            m.append(name.as_str());
            m.append("`");
            errors.push(span, m);
        }
        let ghost before = names@;
        names.push(name);
        assert(names@.map_values(|x: String| x@) =~= before.map_values(|x: String| x@).push(entries[k as int].1));
        assert(entries.subrange(0, k as int + 1).map_values(|e: (S, Seq<char>)| e.1)
            =~= entries.subrange(0, k as int).map_values(|e: (S, Seq<char>)| e.1).push(entries[k as int].1));
        assert(errors@ =~= start + duplicate_entries(entries, k as int + 1));
        k = k + 1;
    }
    let ghost after_names = errors@;
    let ghost pms0 = public_methods@;
    let mut i: usize = 0;
    while i < n
        invariant
            n == actions@.len(),
            i <= n,
            public_methods@.len() == pms0.len(),
            forall|j: int| 0 <= j < pms0.len() ==> {
                let (a, b) = (#[trigger] public_methods@[j], pms0[j]);
                a.mode == b.mode && a.ident == b.ident && a.span == b.span && a.auto_constructor == b.auto_constructor
                    && a.renamed == b.renamed
            },
            tags_of(public_methods@) == take_over(pms0, actions@, final_, i as int).0,
            errors@ == after_names + take_over(pms0, actions@, final_, i as int).1,
        decreases n - i,
    {
        let a = &actions[i];
        let ghost prev = take_over(pms0, actions@, final_, i as int);
        let ghost before = public_methods@;
        let found = find_public(public_methods, a);
        proof {
            assert forall|j: int| takes_over(public_methods@, *a, j) <==> takes_over(pms0, *a, j) by {
                lemma_takes_over_same(public_methods@, pms0, *a, j);
            }
        }
        match found {
            Some(j) => {
                proof {
                    lemma_takes_over_same(public_methods@, pms0, *a, j as int);
                    assert(takes_over(pms0, *a, j as int));
                    let c = choose|c: int| takes_over(pms0, *a, c);
                    lemma_takes_over_unique(pms0, *a, c, j as int);
                    assert(prev.0[j as int] == text_opt(public_methods@[j as int].custom_tag));
                }
                let pm = public_methods.remove(j);
                match &pm.custom_tag {
                    Some(t) => {
                        let mut m = "#[action] cannot be used on public method already overriden by ".to_owned();
                        m.append(t.as_str());
                        errors.push(pm.span, m);
                    },
                    None => {},
                }
                if a.action.mode == TypeMode::Wrapper && !pm.auto_constructor && !pm.renamed && final_ {
                    errors.push_str(a.span, "widget action using #[public] on wrapper type for final class must be renamed with #[public(name = \"...\")]");
                }
                let PublicMethodInput { mode, ident, span, auto_constructor, renamed, custom_tag: _ } = pm;
                public_methods.insert(j, PublicMethodInput {
                    mode, ident, span, auto_constructor, renamed, custom_tag: Some("#[widget_action]".to_owned()),
                });
                proof {
                    assert(tags_of(public_methods@) =~= prev.0.update(j as int, Some(widget_tag())));
                    assert(actions@[i as int] == *a);
                    let e1 = match prev.0[j as int] { Some(t) => seq![(pms0[j as int].span, overridden_message(t))], None => Seq::empty() };
                    let e2 = if a.action.mode == TypeMode::Wrapper && !pms0[j as int].auto_constructor && !pms0[j as int].renamed && final_ {
                        seq![(a.span, rename_message())]
                    } else {
                        Seq::empty()
                    };
                    assert(take_over(pms0, actions@, final_, i as int + 1).1 == prev.1 + e1 + e2);
                    assert(errors@ =~= after_names + prev.1 + e1 + e2);
                }
            },
            None => {},
        }
        i = i + 1;
    }
    if total == 0 {
        return None;
    }
    let mut disabled: Vec<String> = Vec::new();
    let mut q: usize = 0;
    while q < n
        invariant
            n == actions@.len(),
            q <= n,
            disabled@.map_values(|x: String| x@) == disabled_methods(actions@, q as int),
        decreases n - q,
    {
        let ghost before = disabled@;
        if actions[q].action.disabled {
            disabled.push(actions[q].action.name.clone());
        }
        assert(disabled@.map_values(|x: String| x@) =~= disabled_methods(actions@, q as int + 1));
        q = q + 1;
    }
    let mut q: usize = 0;
    while q < properties.len()
        invariant
            q <= properties@.len(),
            prop_actions@.len() == properties@.len(),
            forall|i: int| 0 <= i < prop_actions@.len() ==> {
                let pa = #[trigger] prop_actions@[i];
                &&& pa.name@ == property_action_name(ty_ident@, properties@[i])
                &&& pa.property@ == properties@[i].property@
                &&& pa.disabled == properties@[i].attrs.disabled is Some
            },
            disabled@.map_values(|x: String| x@) == disabled_methods(actions@, n as int)
                + disabled_properties(ty_ident@, properties@, q as int),
        decreases properties.len() - q,
    {
        let ghost before = disabled@;
        assert(prop_actions@[q as int].disabled == properties@[q as int].attrs.disabled is Some);
        assert(prop_actions@[q as int].name@ == property_action_name(ty_ident@, properties@[q as int]));
        if prop_actions[q].disabled {
            let nm = prop_actions[q].name.clone();
            disabled.push(nm);
            assert(disabled@.map_values(|x: String| x@) =~= before.map_values(|x: String| x@)
                .push(property_action_name(ty_ident@, properties@[q as int])));
        } else {
            assert(disabled@ == before);
        }
        assert(disabled_properties(ty_ident@, properties@, q as int + 1) == disabled_properties(ty_ident@, properties@, q as int)
            + if properties@[q as int].attrs.disabled is Some { seq![property_action_name(ty_ident@, properties@[q as int])] } else { Seq::<Seq<char>>::empty() });
        assert(disabled@.map_values(|x: String| x@) =~= disabled_methods(actions@, n as int)
            + disabled_properties(ty_ident@, properties@, q as int + 1));
        q = q + 1;
    }
    Some(WidgetActionsPlan { property_actions: prop_actions, disabled })
}

} // verus!
