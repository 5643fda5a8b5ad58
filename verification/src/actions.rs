//! Actions declared with `#[action]` methods: which argument is which, and the checks on
//! an action's handlers and options.
use vstd::prelude::*;
use vstd::string::StringExecFns;
use crate::case::{kebab_case, to_kebab_case};
use crate::text::str_eq;
use crate::type_definition::TypeMode;
use crate::util::{require_empty, unknown_tokens_message, Errors};
use crate::validations::{only_one, only_one_errors};

verus! {

/// Whether a handler activates the action or changes its state.
#[derive(PartialEq, Eq, Structural, Clone, Copy)]
pub enum HandlerType {
    Activate,
    ChangeState,
}

/// One argument of a handler: its receiver (and whether it is a reference), or a typed
/// argument with the text of its type and its `#[state]` and `#[action]` attributes (each
/// with where it is and whether nothing follows its path).
pub enum HandlerArg<S> {
    Receiver { span: S, by_ref: bool },
    Typed { span: S, ty: String, state: Option<(S, bool)>, action: Option<(S, bool)> },
}

/// A method's signature as the action macros read it.
pub struct HandlerSig<S> {
    pub span: S,
    pub args: Vec<HandlerArg<S>>,
    /// The text of the return type and where it is, when one is written.
    pub output: Option<(S, String)>,
    pub is_async: bool,
}

/// A handler of an action, with the positions of its parameter, state and action
/// arguments.
pub struct ActionHandler<S> {
    pub span: S,
    pub mode: TypeMode,
    pub ty: HandlerType,
    pub parameter_index: Option<(usize, S)>,
    pub state_index: Option<(usize, S)>,
    pub action_index: Option<(usize, S)>,
    /// The text of each argument's type (`None` for the receiver).
    pub arg_types: Vec<Option<String>>,
    /// The text of the return type; an async handler has none.
    pub output: Option<String>,
    /// Whether the receiver is a reference, when the handler has one.
    pub receiver: Option<bool>,
    pub is_async: bool,
}

/// The roles given to the arguments from `start` on, and the errors found: the first
/// `#[state]` argument is the state, the first `#[action]` one the action, the first
/// other typed argument the parameter; later ones are duplicates.
pub struct Roles<S> {
    pub parameter: Option<(usize, S)>,
    pub state: Option<(usize, S)>,
    pub action: Option<(usize, S)>,
    pub errors: Seq<(S, Seq<char>)>,
}

pub open spec fn initial_roles<S>() -> Roles<S> {
    Roles { parameter: None, state: None, action: None, errors: Seq::empty() }
}

/// The roles after looking at argument `index`.
pub open spec fn step_roles<S>(r: Roles<S>, index: usize, arg: HandlerArg<S>) -> Roles<S> {
    match arg {
        HandlerArg::Receiver { .. } => r,
        HandlerArg::Typed { span, state, action, .. } => match state {
            Some((at, empty)) => {
                let e1 = if empty { Seq::empty() } else { seq![(at, unknown_tokens_message("state"@))] };
                if r.state is Some {
                    Roles { errors: r.errors + e1 + seq![(at, "Duplicate state argument"@)], ..r }
                } else {
                    Roles { state: Some((index, span)), errors: r.errors + e1, ..r }
                }
            },
            None => match action {
                Some((at, empty)) => {
                    let e1 = if empty { Seq::empty() } else { seq![(at, unknown_tokens_message("action"@))] };
                    if r.action is Some {
                        Roles { errors: r.errors + e1 + seq![(at, "Duplicate action argument"@)], ..r }
                    } else {
                        Roles { action: Some((index, span)), errors: r.errors + e1, ..r }
                    }
                },
                None => if r.parameter is Some {
                    Roles { errors: r.errors + seq![(span, "Duplicate parameter argument"@)], ..r }
                } else {
                    Roles { parameter: Some((index, span)), ..r }
                },
            },
        },
    }
}

/// The roles after the arguments `start..n`.
pub open spec fn roles<S>(args: Seq<HandlerArg<S>>, start: int, n: int) -> Roles<S>
    decreases n - start,
{
    if n <= start {
        initial_roles()
    } else {
        step_roles(roles(args, start, n - 1), (n - 1) as usize, args[n - 1])
    }
}

/// How many arguments the receiver takes up.
pub open spec fn skip_of<S>(args: Seq<HandlerArg<S>>) -> int {
    if args.len() > 0 && args[0] is Receiver { 1 } else { 0 }
}

/// Every error that reading a handler reports, in order.
pub open spec fn handler_errors<S>(sig: HandlerSig<S>, mode: TypeMode, ty: HandlerType) -> Seq<(S, Seq<char>)> {
    let args = sig.args@;
    let e_recv = if args.len() > 0 && (args[0] matches HandlerArg::Receiver { by_ref, .. } && !by_ref) && mode is Subclass {
        seq![(args[0]->Receiver_span, "Subclass action receiver must be `&self`"@)]
    } else {
        Seq::empty()
    };
    let r = roles(args, skip_of(args), args.len() as int);
    let e_change = if ty is ChangeState && r.parameter is None {
        seq![(sig.span, "Change state handler must have a parameter to receive the new state"@)]
    } else {
        Seq::empty()
    };
    let e_async = if sig.is_async && sig.output is Some {
        seq![(sig.output->Some_0.0, "Async action cannot have return type"@)]
    } else {
        Seq::empty()
    };
    e_recv + r.errors + e_change + e_async
}

pub open spec fn type_text<S>(a: HandlerArg<S>) -> Option<Seq<char>> {
    match a {
        HandlerArg::Receiver { .. } => None,
        HandlerArg::Typed { ty, .. } => Some(ty@),
    }
}

pub open spec fn opt_text(o: Option<String>) -> Option<Seq<char>> {
    match o {
        Some(t) => Some(t@),
        None => None,
    }
}

/// Stepping the roles appends to the errors found so far, whatever they are.
proof fn lemma_step_errors<S>(r: Roles<S>, index: usize, arg: HandlerArg<S>)
    ensures
        ({
            let e = Roles { errors: Seq::empty(), ..r };
            let a = step_roles(r, index, arg);
            let b = step_roles(e, index, arg);
            &&& a.parameter == b.parameter
            &&& a.state == b.state
            &&& a.action == b.action
            &&& a.errors =~= r.errors + b.errors
        }),
{
}

fn take_role<S: Copy>(
    index: usize,
    arg: &HandlerArg<S>,
    parameter: &mut Option<(usize, S)>,
    state: &mut Option<(usize, S)>,
    action: &mut Option<(usize, S)>,
    errors: &mut Errors<S>,
)
    ensures
        ({
            let before = Roles { parameter: *old(parameter), state: *old(state), action: *old(action), errors: Seq::empty() };
            let after = step_roles(before, index, *arg);
            &&& *final(parameter) == after.parameter
            &&& *final(state) == after.state
            &&& *final(action) == after.action
            &&& final(errors)@ == old(errors)@ + after.errors
        }),
{
    let ghost start = errors@;
    match arg {
        HandlerArg::Receiver { .. } => {},
        HandlerArg::Typed { span, state: st, action: ac, .. } => match st {
            Some((at, empty)) => {
                require_empty("state", *empty, *at, errors);
                if state.is_some() {
                    errors.push_str(*at, "Duplicate state argument");
                } else {
                    *state = Some((index, *span));
                }
                proof {
                    reveal_strlit("state");
                }
                assert(errors@ =~= start + step_roles(Roles { parameter: *old(parameter), state: *old(state), action: *old(action), errors: Seq::empty() }, index, *arg).errors);
            },
            None => match ac {
                Some((at, empty)) => {
                    require_empty("action", *empty, *at, errors);
                    if action.is_some() {
                        errors.push_str(*at, "Duplicate action argument");
                    } else {
                        *action = Some((index, *span));
                    }
                    assert(errors@ =~= start + step_roles(Roles { parameter: *old(parameter), state: *old(state), action: *old(action), errors: Seq::empty() }, index, *arg).errors);
                },
                None => {
                    if parameter.is_some() {
                        errors.push_str(*span, "Duplicate parameter argument");
                    } else {
                        *parameter = Some((index, *span));
                    }
                    assert(errors@ =~= start + step_roles(Roles { parameter: *old(parameter), state: *old(state), action: *old(action), errors: Seq::empty() }, index, *arg).errors);
                },
            },
        },
    }
}

/// `h` is the handler that reading `sig` gives.
pub open spec fn describes<S>(h: ActionHandler<S>, sig: HandlerSig<S>, mode: TypeMode, ty: HandlerType) -> bool {
    let r = roles(sig.args@, skip_of(sig.args@), sig.args@.len() as int);
    &&& h.parameter_index == r.parameter
    &&& h.state_index == r.state
    &&& h.action_index == r.action
    &&& h.span == sig.span
    &&& h.mode == mode
    &&& h.ty == ty
    &&& h.arg_types@.len() == sig.args@.len()
    &&& forall|i: int| 0 <= i < sig.args@.len() ==> opt_text(#[trigger] h.arg_types@[i]) == type_text(sig.args@[i])
    &&& opt_text(h.output) == if sig.is_async { None } else {
        match sig.output { Some((_, t)) => Some(t@), None => None }
    }
    &&& h.receiver == if sig.args@.len() > 0 {
        match sig.args@[0] { HandlerArg::Receiver { by_ref, .. } => Some(by_ref), _ => None }
    } else {
        None
    }
    &&& h.is_async == sig.is_async
}

impl<S: Copy> ActionHandler<S> {
    /// Reads a handler's signature: checks its receiver, gives its arguments their roles,
    /// checks that a change-state handler has a parameter, and drops the return type of an
    /// async handler (reporting it).
    pub fn new(sig: HandlerSig<S>, mode: TypeMode, ty: HandlerType, errors: &mut Errors<S>) -> (h: ActionHandler<S>)
        ensures
            final(errors)@ == old(errors)@ + handler_errors(sig, mode, ty),
            describes(h, sig, mode, ty),
    {
        let ghost start = errors@;
        let args = &sig.args;
        let mut skip: usize = 0;
        if args.len() > 0 {
            if let HandlerArg::Receiver { span, by_ref } = &args[0] {
                if matches!(mode, TypeMode::Subclass) && !*by_ref {
                    errors.push_str(*span, "Subclass action receiver must be `&self`");
                }
                skip = 1;
            }
        }
        let ghost after_recv = errors@;
        let mut parameter: Option<(usize, S)> = None;
        let mut state: Option<(usize, S)> = None;
        let mut action: Option<(usize, S)> = None;
        let mut i = skip;
        while i < args.len()
            invariant
                skip <= i <= args@.len(),
                skip as int == skip_of(args@),
                ({
                    let r = roles(args@, skip as int, i as int);
                    &&& parameter == r.parameter
                    &&& state == r.state
                    &&& action == r.action
                    &&& errors@ == after_recv + r.errors
                }),
            decreases args.len() - i,
        {
            let ghost prev = roles(args@, skip as int, i as int);
            proof {
                lemma_step_errors(prev, i, args@[i as int]);
            }
            take_role(i, &args[i], &mut parameter, &mut state, &mut action, errors);
            i = i + 1;
        }
        let r_parameter = parameter;
        if matches!(ty, HandlerType::ChangeState) && parameter.is_none() {
            errors.push_str(sig.span, "Change state handler must have a parameter to receive the new state");
        }
        let output = match &sig.output {
            Some((at, t)) => {
                if sig.is_async {
                    errors.push_str(*at, "Async action cannot have return type");
                    None
                } else {
                    Some(t.clone())
                }
            },
            None => None,
        };
        let mut arg_types: Vec<Option<String>> = Vec::new();
        let mut k: usize = 0;
        while k < args.len()
            invariant
                k <= args@.len(),
                arg_types@.len() == k,
                forall|j: int| 0 <= j < k ==> opt_text(#[trigger] arg_types@[j]) == type_text(args@[j]),
            decreases args.len() - k,
        {
            match &args[k] {
                HandlerArg::Receiver { .. } => arg_types.push(None),
                HandlerArg::Typed { ty, .. } => arg_types.push(Some(ty.clone())),
            }
            k = k + 1;
        }
        assert(errors@ =~= start + handler_errors(sig, mode, ty));
        ActionHandler {
            span: sig.span,
            mode,
            ty,
            parameter_index: r_parameter,
            state_index: state,
            action_index: action,
            arg_types,
            output,
            receiver: if args.len() > 0 {
                match &args[0] { HandlerArg::Receiver { by_ref, .. } => Some(*by_ref), _ => None }
            } else {
                None
            },
            is_async: sig.is_async,
        }
    }
}

/// The type of an action's parameter, as its `parameter_type` option gives it.
pub enum ParameterType {
    Empty,
    Inferred,
    /// A GVariant type string.
    Named { type_string: String },
}

/// The options of an `#[action(...)]` attribute, with where each was written.
pub struct ActionAttrs<S> {
    pub name: Option<String>,
    pub parameter_type: Option<(S, ParameterType)>,
    pub change_state: bool,
    pub default: Option<(S, String)>,
    pub default_variant: Option<(S, String)>,
    pub hint: Option<(S, String)>,
    pub disabled: Option<S>,
}

/// An action of a type, with its handlers and options as far as they were found.
pub struct Action<S> {
    pub name: String,
    pub parameter_type: ParameterType,
    pub state_variant: bool,
    pub activate: Option<ActionHandler<S>>,
    pub change_state: Option<ActionHandler<S>>,
    /// The text of the expression of the default state.
    pub default_state: Option<String>,
    pub default_hint: Option<String>,
    pub disabled: bool,
}

/// The name of an action: the one written, or the method's name in kebab-case.
pub open spec fn action_name(written: Option<String>, ident: Seq<char>) -> Seq<char> {
    match written {
        Some(n) => n@,
        None => kebab_case(ident),
    }
}

/// The errors for an action's options that are given twice or conflict, in order, for
/// an entry that had `o` before.
pub open spec fn option_errors<S>(o: Action<S>, attr: ActionAttrs<S>) -> Seq<(S, Seq<char>)> {
    (match attr.parameter_type {
        Some((at, _)) => if !(o.parameter_type is Inferred) {
            seq![(at, "Conflicting `parameter_type` attribute"@)]
        } else {
            Seq::empty()
        },
        None => Seq::empty(),
    })
    + only_one_errors(seq![("default_state", span_of(attr.default)), ("default_state_variant", span_of(attr.default_variant))])
    + (match attr.hint {
        Some((at, _)) => if o.default_hint is Some { seq![(at, "Duplicate `default_hint` attribute"@)] } else { Seq::empty() },
        None => Seq::empty(),
    })
    + (match attr.disabled {
        Some(at) => if o.disabled { seq![(at, "Duplicate `disabled` attribute"@)] } else { Seq::empty() },
        None => Seq::empty(),
    })
}

pub open spec fn span_of<S, T>(o: Option<(S, T)>) -> Option<S> {
    match o {
        Some((s, _)) => Some(s),
        None => None,
    }
}

/// `n` is the entry `o` with the options of `attr` taken in (the handlers aside).
pub open spec fn options_taken<S>(o: Action<S>, n: Action<S>, attr: ActionAttrs<S>) -> bool {
    &&& n.name == o.name
    &&& match attr.parameter_type {
        Some((_, p)) => if o.parameter_type is Inferred { n.parameter_type == p } else { n.parameter_type == o.parameter_type },
        None => n.parameter_type == o.parameter_type,
    }
    &&& match (attr.default, attr.default_variant) {
        (Some((_, d)), _) => if o.default_state is None {
            opt_text(n.default_state) == Some(d@) && n.state_variant == o.state_variant
        } else {
            n.default_state == o.default_state && n.state_variant == o.state_variant
        },
        (None, Some((_, d))) => if o.default_state is None {
            opt_text(n.default_state) == Some(d@) && n.state_variant
        } else {
            n.default_state == o.default_state && n.state_variant == o.state_variant
        },
        (None, None) => n.default_state == o.default_state && n.state_variant == o.state_variant,
    }
    &&& match attr.hint {
        Some((_, h)) => if o.default_hint is None { opt_text(n.default_hint) == Some(h@) } else { n.default_hint == o.default_hint },
        None => n.default_hint == o.default_hint,
    }
    &&& n.disabled == (o.disabled || attr.disabled is Some)
}

/// The errors of taking a handler into an entry that had `o`: a second handler of the
/// same kind is reported, the first one's own errors otherwise.
pub open spec fn handler_taken_errors<S>(o: Action<S>, sig: HandlerSig<S>, mode: TypeMode, change_state: bool) -> Seq<(S, Seq<char>)> {
    if !change_state {
        if o.activate is Some { seq![(sig.span, "Duplicate activate handler for action"@)] } else { handler_errors(sig, mode, HandlerType::Activate) }
    } else {
        if o.change_state is Some { seq![(sig.span, "Duplicate change-state handler for action"@)] } else { handler_errors(sig, mode, HandlerType::ChangeState) }
    }
}

/// `n` has the handlers of `o` with the new one taken in where its kind had none.
pub open spec fn handler_taken<S>(o: Action<S>, n: Action<S>, sig: HandlerSig<S>, mode: TypeMode, change_state: bool) -> bool {
    if !change_state {
        n.change_state == o.change_state && if o.activate is Some {
            n.activate == o.activate
        } else {
            n.activate matches Some(h) && describes(h, sig, mode, HandlerType::Activate)
        }
    } else {
        n.activate == o.activate && if o.change_state is Some {
            n.change_state == o.change_state
        } else {
            n.change_state matches Some(h) && describes(h, sig, mode, HandlerType::ChangeState)
        }
    }
}

#[verifier::rlimit(40)]
fn take_options<S: Copy>(a: &mut Action<S>, attr: ActionAttrs<S>, errors: &mut Errors<S>)
    ensures
        final(errors)@ == old(errors)@ + option_errors(*old(a), attr),
        options_taken(*old(a), *final(a), attr),
        final(a).activate == old(a).activate,
        final(a).change_state == old(a).change_state,
{
    let ghost start = errors@;
    let ghost o = *a;
    let default_span = match &attr.default { Some((s, _)) => Some(*s), None => None };
    let variant_span = match &attr.default_variant { Some((s, _)) => Some(*s), None => None };
    let ActionAttrs { parameter_type, default, default_variant, hint, disabled, .. } = attr;
    match parameter_type {
        Some((at, p)) => {
            if !matches!(a.parameter_type, ParameterType::Inferred) {
                errors.push_str(at, "Conflicting `parameter_type` attribute");
            } else {
                a.parameter_type = p;
            }
        },
        None => {},
    }
    let ghost after_param = errors@;
    let flags = vec![("default_state", default_span), ("default_state_variant", variant_span)];
    assert(flags@ =~= seq![("default_state", span_of(attr.default)), ("default_state_variant", span_of(attr.default_variant))]);
    only_one(flags.as_slice(), errors);
    let ghost after_only = errors@;
    match default {
        Some((_, d)) => {
            if a.default_state.is_none() {
                a.default_state = Some(d);
            }
        },
        None => match default_variant {
            Some((_, d)) => {
                if a.default_state.is_none() {
                    a.default_state = Some(d);
                    a.state_variant = true;
                }
            },
            None => {},
        },
    }
    match hint {
        Some((at, h)) => {
            if a.default_hint.is_some() {
                errors.push_str(at, "Duplicate `default_hint` attribute");
            } else {
                a.default_hint = Some(h);
            }
        },
        None => {},
    }
    let ghost after_hint = errors@;
    match disabled {
        Some(at) => {
            if a.disabled {
                errors.push_str(at, "Duplicate `disabled` attribute");
            } else {
                a.disabled = true;
            }
        },
        None => {},
    }
    assert(errors@ =~= start + option_errors(o, attr));
}

/// The index of the first action named `name`.
pub open spec fn first_action<S>(actions: Seq<Action<S>>, name: Seq<char>, i: int) -> bool {
    &&& 0 <= i < actions.len()
    &&& actions[i].name@ == name
    &&& forall|j: int| 0 <= j < i ==> (#[trigger] actions[j]).name@ != name
}

pub open spec fn has_action<S>(actions: Seq<Action<S>>, name: Seq<char>) -> bool {
    exists|i: int| 0 <= i < actions.len() && (#[trigger] actions[i]).name@ == name
}

/// A new entry for `name`.
pub open spec fn fresh_action<S>(a: Action<S>, name: Seq<char>) -> bool {
    &&& a.name@ == name
    &&& a.parameter_type is Inferred
    &&& !a.state_variant
    &&& a.activate is None
    &&& a.change_state is None
    &&& a.default_state is None
    &&& a.default_hint is None
    &&& !a.disabled
}

fn find_action<S>(actions: &Vec<Action<S>>, name: &str) -> (r: Option<usize>)
    ensures
        match r {
            Some(i) => first_action(actions@, name@, i as int),
            None => !has_action(actions@, name@),
        },
{
    let mut i: usize = 0;
    while i < actions.len()
        invariant
            i <= actions@.len(),
            forall|j: int| 0 <= j < i ==> (#[trigger] actions@[j]).name@ != name@,
        decreases actions.len() - i,
    {
        if str_eq(actions[i].name.as_str(), name) {
            return Some(i);
        }
        i = i + 1;
    }
    None
}

/// The entry that an action had before a method was recorded into it: the first entry
/// for `name`, or a new one (named `fresh_name`).
pub open spec fn prior<S>(before: Seq<Action<S>>, name: Seq<char>, i: int, fresh_name: String) -> Action<S> {
    if has_action(before, name) {
        before[i]
    } else {
        Action {
            name: fresh_name,
            parameter_type: ParameterType::Inferred,
            state_variant: false,
            activate: None,
            change_state: None,
            default_state: None,
            default_hint: None,
            disabled: false,
        }
    }
}

/// Entry `i` of `after` is the one for `name`: the first of `before` with that name, or a
/// new one at the end; the others are unchanged.
pub open spec fn placed<S>(before: Seq<Action<S>>, after: Seq<Action<S>>, name: Seq<char>, i: int) -> bool {
    &&& if has_action(before, name) {
        first_action(before, name, i) && after.len() == before.len()
    } else {
        i == before.len() && after.len() == before.len() + 1
    }
    &&& forall|j: int| 0 <= j < before.len() && j != i ==> after[j] == before[j]
    &&& after[i].name@ == name
}

/// Recording method `ident` with signature `sig` and options `attr` took entry `i` of
/// `before` to `after`, reporting `errors`.
pub open spec fn recorded<S>(before: Seq<Action<S>>, after: Seq<Action<S>>, ident: Seq<char>, sig: HandlerSig<S>,
    attr: ActionAttrs<S>, mode: TypeMode, errors: Seq<(S, Seq<char>)>, i: int) -> bool
{
    let name = action_name(attr.name, ident);
    let o = prior(before, name, i, after[i].name);
    &&& placed(before, after, name, i)
    &&& errors == handler_taken_errors(o, sig, mode, attr.change_state) + option_errors(o, attr)
    &&& handler_taken(o, after[i], sig, mode, attr.change_state)
    &&& options_taken(o, after[i], attr)
}

fn take_handler<S: Copy>(a: &mut Action<S>, sig: HandlerSig<S>, mode: TypeMode, change_state: bool, errors: &mut Errors<S>)
    ensures
        final(errors)@ == old(errors)@ + handler_taken_errors(*old(a), sig, mode, change_state),
        handler_taken(*old(a), *final(a), sig, mode, change_state),
        final(a).name == old(a).name,
        final(a).parameter_type == old(a).parameter_type,
        final(a).state_variant == old(a).state_variant,
        final(a).default_state == old(a).default_state,
        final(a).default_hint == old(a).default_hint,
        final(a).disabled == old(a).disabled,
{
    if !change_state {
        if a.activate.is_some() {
            errors.push_str(sig.span, "Duplicate activate handler for action");
        } else {
            a.activate = Some(ActionHandler::new(sig, mode, HandlerType::Activate, errors));
        }
    } else if a.change_state.is_some() {
        errors.push_str(sig.span, "Duplicate change-state handler for action");
    } else {
        a.change_state = Some(ActionHandler::new(sig, mode, HandlerType::ChangeState, errors));
    }
}

fn entry_index<S>(actions: &mut Vec<Action<S>>, name: &String) -> (i: usize)
    ensures
        ({
            let b = old(actions)@;
            let a = final(actions)@;
            &&& if has_action(b, name@) {
                first_action(b, name@, i as int) && a == b
            } else {
                i == b.len() && a.len() == b.len() + 1 && a.subrange(0, b.len() as int) == b
                    && a[i as int] == prior(b, name@, i as int, a[i as int].name) && a[i as int].name@ == name@
            }
        }),
{
    match find_action(actions, name.as_str()) {
        Some(i) => i,
        None => {
            let ghost b = actions@;
            actions.push(Action {
                name: name.clone(),
                parameter_type: ParameterType::Inferred,
                state_variant: false,
                activate: None,
                change_state: None,
                default_state: None,
                default_hint: None,
                disabled: false,
            });
            assert(actions@.subrange(0, b.len() as int) =~= b);
            actions.len() - 1
        },
    }
}

impl<S: Copy> Action<S> {
    /// Records an `#[action]` method `ident` with signature `sig` into the entry for its
    /// action (the first with its name, or a new one at the end).
    pub fn from_method(ident: &str, sig: HandlerSig<S>, attr: ActionAttrs<S>, mode: TypeMode,
        actions: &mut Vec<Action<S>>, errors: &mut Errors<S>)
        ensures
            exists|i: int| #[trigger] recorded(old(actions)@, final(actions)@, ident@, sig, attr, mode,
                final(errors)@.subrange(old(errors)@.len() as int, final(errors)@.len() as int), i),
            final(errors)@.len() >= old(errors)@.len(),
            final(errors)@.subrange(0, old(errors)@.len() as int) == old(errors)@,
    {
        let ghost before = actions@;
        let ghost start = errors@;
        let name = match &attr.name {
            Some(n) => n.clone(),
            None => to_kebab_case(ident),
        };
        let i = entry_index(actions, &name);
        let ghost mid = actions@;
        let mut a = actions.remove(i);
        let ghost o = a;
        let ghost sig_copy = sig;
        take_handler(&mut a, sig, mode, attr.change_state, errors);
        let ghost e1 = errors@;
        let ghost attr_copy = attr;
        take_options(&mut a, attr, errors);
        actions.insert(i, a);
        proof {
            let after = actions@;
            assert(after[i as int] == a);
            assert(o == mid[i as int]);
            assert(forall|j: int| 0 <= j < before.len() && j != i ==> after[j] == before[j]);
            assert(o == prior(before, name@, i as int, after[i as int].name));
            assert(e1 =~= start + handler_taken_errors(o, sig_copy, mode, attr_copy.change_state));
            assert(errors@.subrange(start.len() as int, errors@.len() as int)
                =~= handler_taken_errors(o, sig_copy, mode, attr_copy.change_state) + option_errors(o, attr_copy));
            assert(errors@.subrange(0, start.len() as int) =~= start);
            assert(recorded(before, after, ident@, sig_copy, attr_copy, mode,
                errors@.subrange(start.len() as int, errors@.len() as int), i as int));
        }
    }
}

/// The text of the type of argument `index`, when it is a typed argument.
pub open spec fn arg_type<S>(h: ActionHandler<S>, index: usize) -> Option<Seq<char>> {
    if index < h.arg_types@.len() { opt_text(h.arg_types@[index as int]) } else { None }
}

/// The type of the state that a handler gives: a change-state handler's parameter, else
/// the state argument, else what the return type gives back as state.
pub open spec fn handler_state_type<S>(h: ActionHandler<S>, go: Seq<char>) -> Option<Seq<char>> {
    let from_parameter = if h.ty is ChangeState {
        match h.parameter_index { Some((i, _)) => arg_type(h, i), None => None }
    } else {
        None
    };
    let from_state = match h.state_index { Some((i, _)) => arg_type(h, i), None => None };
    if from_parameter is Some {
        from_parameter
    } else if from_state is Some {
        from_state
    } else {
        match h.output {
            Some(t) => Some("<"@ + t@ + " as "@ + go + "::ActionStateReturn>::ReturnType"@),
            None => None,
        }
    }
}

/// The type of the parameter that a handler takes, as its action's `parameter_type` allows.
pub open spec fn handler_parameter_type<S>(h: ActionHandler<S>, action_parameter: ParameterType) -> Option<Seq<char>> {
    if !(h.ty is Activate) && !(action_parameter is Inferred) {
        None
    } else {
        match h.parameter_index { Some((i, _)) => arg_type(h, i), None => None }
    }
}

fn arg_type_of<S>(h: &ActionHandler<S>, index: usize) -> (r: Option<String>)
    ensures
        opt_text(r) == arg_type(*h, index),
{
    if index < h.arg_types.len() {
        match &h.arg_types[index] {
            Some(t) => Some(t.clone()),
            None => None,
        }
    } else {
        None
    }
}

impl<S: Copy> ActionHandler<S> {
    pub fn state_type(&self, go: &str) -> (r: Option<String>)
        ensures
            opt_text(r) == handler_state_type(*self, go@),
    {
        let from_parameter = if matches!(self.ty, HandlerType::ChangeState) {
            match self.parameter_index { Some((i, _)) => arg_type_of(self, i), None => None }
        } else {
            None
        };
        if from_parameter.is_some() {
            return from_parameter;
        }
        let from_state = match self.state_index { Some((i, _)) => arg_type_of(self, i), None => None };
        if from_state.is_some() {
            return from_state;
        }
        match &self.output {
            Some(t) => {
                let mut r = "<".to_owned();
                r.append(t.as_str());
                r.append(" as ");
                r.append(go);
                r.append("::ActionStateReturn>::ReturnType");
                Some(r)
            },
            None => None,
        }
    }

    pub fn parameter_type(&self, action: &Action<S>) -> (r: Option<String>)
        ensures
            opt_text(r) == handler_parameter_type(*self, action.parameter_type),
    {
        if !matches!(self.ty, HandlerType::Activate) && !matches!(action.parameter_type, ParameterType::Inferred) {
            return None;
        }
        match self.parameter_index {
            Some((i, _)) => arg_type_of(self, i),
            None => None,
        }
    }

    /// Whether the handler's argument is converted from a variant: an activate handler's
    /// when the parameter type is inferred, a change-state handler's unless the default
    /// state is given as a variant.
    pub fn param_needs_convert(&self, action: &Action<S>) -> (r: bool)
        ensures
            r == match self.ty {
                HandlerType::Activate => action.parameter_type is Inferred,
                HandlerType::ChangeState => !action.state_variant,
            },
    {
        match self.ty {
            HandlerType::Activate => matches!(action.parameter_type, ParameterType::Inferred),
            HandlerType::ChangeState => !action.state_variant,
        }
    }
}

/// The state type of an action: its activate handler's, else its change-state handler's.
pub open spec fn action_state_type<S>(a: Action<S>, go: Seq<char>) -> Option<Seq<char>> {
    let from_activate = match a.activate { Some(h) => handler_state_type(h, go), None => None };
    if from_activate is Some {
        from_activate
    } else {
        match a.change_state { Some(h) => handler_state_type(h, go), None => None }
    }
}

impl<S: Copy> Action<S> {
    pub fn state_type(&self, go: &str) -> (r: Option<String>)
        ensures
            opt_text(r) == action_state_type(*self, go@),
    {
        let from_activate = match &self.activate { Some(h) => h.state_type(go), None => None };
        if from_activate.is_some() {
            return from_activate;
        }
        match &self.change_state { Some(h) => h.state_type(go), None => None }
    }

    pub fn parameter_type(&self) -> (r: Option<String>)
        ensures
            opt_text(r) == {
                let from_activate = match self.activate { Some(h) => handler_parameter_type(h, self.parameter_type), None => None };
                if from_activate is Some {
                    from_activate
                } else {
                    match self.change_state { Some(h) => handler_parameter_type(h, self.parameter_type), None => None }
                }
            },
    {
        let from_activate = match &self.activate { Some(h) => h.parameter_type(self), None => None };
        if from_activate.is_some() {
            return from_activate;
        }
        match &self.change_state { Some(h) => h.parameter_type(self), None => None }
    }
}

pub open spec fn missing_state_message() -> Seq<char> {
    "Action with change-state handler must have a state argument, return type, or `default` attribute"@
}

/// The errors for actions whose state cannot be told, for the first `n` actions.
pub open spec fn validation_errors<S>(actions: Seq<Action<S>>, n: int) -> Seq<(S, Seq<char>)>
    decreases n,
{
    if n <= 0 {
        Seq::empty()
    } else {
        validation_errors(actions, n - 1) + match actions[n - 1].change_state {
            Some(h) => if action_state_type(actions[n - 1], "go"@) is None {
                seq![(h.span, missing_state_message())]
            } else {
                Seq::empty()
            },
            None => Seq::empty(),
        }
    }
}

/// Reports each action with a change-state handler whose state type cannot be told.
pub fn validate_actions<S: Copy>(actions: &Vec<Action<S>>, errors: &mut Errors<S>)
    ensures
        final(errors)@ == old(errors)@ + validation_errors(actions@, actions@.len() as int),
{
    let ghost start = errors@;
    let mut i: usize = 0;
    while i < actions.len()
        invariant
            i <= actions@.len(),
            errors@ == start + validation_errors(actions@, i as int),
        decreases actions.len() - i,
    {
        let a = &actions[i];
        match &a.change_state {
            Some(h) => {
                if a.state_type("go").is_none() {
                    errors.push_str(h.span, "Action with change-state handler must have a state argument, return type, or `default` attribute");
                }
            },
            None => {},
        }
        assert(errors@ =~= start + validation_errors(actions@, i as int + 1));
        i = i + 1;
    }
}

/// Action names stay unique: recording a method adds an entry only for a name that has
/// none.
pub proof fn actions_stay_unique<S>(before: Seq<Action<S>>, after: Seq<Action<S>>, name: Seq<char>, i: int)
    requires
        forall|a: int, b: int| 0 <= a < b < before.len() ==> (#[trigger] before[a]).name@ != (#[trigger] before[b]).name@,
        placed(before, after, name, i),
    ensures
        forall|a: int, b: int| 0 <= a < b < after.len() ==> (#[trigger] after[a]).name@ != (#[trigger] after[b]).name@,
{
    assert forall|a: int, b: int| 0 <= a < b < after.len() implies (#[trigger] after[a]).name@ != (#[trigger] after[b]).name@ by {
        if a != i && b != i {
            assert(after[a] == before[a] && after[b] == before[b]);
        } else if a == i {
            assert(after[b] == before[b]);
            if has_action(before, name) {
                assert(before[i].name@ == name);
            }
        } else {
            assert(after[a] == before[a]);
            if has_action(before, name) {
                assert(before[i].name@ == name);
            }
        }
    }
}

} // verus!
