//! What the code generated for an action handler does: the closure connected to the
//! action's signal, and the public method that runs the action. Each plan lists the
//! decisions that the code follows: which bindings it makes, what it converts, which call
//! it makes, and what it hands the handler.
use vstd::prelude::*;
use crate::actions::{action_state_type, handler_parameter_type, opt_text, Action, ActionHandler, HandlerType, ParameterType};
use crate::type_definition::TypeMode;

verus! {

/// What an argument of the handler is handed: the object, the parameter, the action, or
/// its state.
#[derive(PartialEq, Eq, Structural, Clone, Copy)]
pub enum ArgRole {
    Object,
    Parameter,
    Action,
    State,
}

/// The role of argument `i`: the receiver first, then the parameter, the action and the
/// state; other arguments are handed nothing.
pub open spec fn role_of<S>(h: ActionHandler<S>, i: int) -> Option<ArgRole> {
    if i == 0 && h.receiver is Some {
        Some(ArgRole::Object)
    } else if h.parameter_index matches Some((p, _)) && p == i {
        Some(ArgRole::Parameter)
    } else if h.action_index matches Some((p, _)) && p == i {
        Some(ArgRole::Action)
    } else if h.state_index matches Some((p, _)) && p == i {
        Some(ArgRole::State)
    } else {
        None
    }
}

/// The roles of the first `n` arguments that are handed something, in order.
pub open spec fn arg_roles<S>(h: ActionHandler<S>, n: int) -> Seq<ArgRole>
    decreases n,
{
    if n <= 0 {
        Seq::empty()
    } else {
        match role_of(h, n - 1) {
            Some(r) => arg_roles(h, n - 1).push(r),
            None => arg_roles(h, n - 1),
        }
    }
}

/// Whether the handler's action argument is a reference.
pub open spec fn action_by_ref<S>(h: ActionHandler<S>) -> bool {
    h.action_index matches Some((i, _)) && 0 <= i < h.arg_types@.len()
        && (opt_text(h.arg_types@[i as int]) matches Some(t) && t.len() > 0 && t[0] == '&')
}

/// How the state is read before the call: whether it is converted from a variant, and
/// whether it is given the action's state type.
pub struct StateStep {
    pub convert: bool,
    pub cast: bool,
}

/// What is done with the handler's return value: whether it is converted to a variant,
/// whether the action's state is changed through `change_state` (else it is set), and
/// whether the value is given the action's state type.
pub struct ReturnStep {
    pub to_variant: bool,
    pub change_state: bool,
    pub cast: bool,
}

/// Whether the value handed as the parameter can be given a type: the parameter type of
/// an activate handler, the state type of a change-state handler.
pub open spec fn param_typed<S>(h: ActionHandler<S>, a: Action<S>) -> bool {
    match h.ty {
        HandlerType::Activate => action_parameter_type(a) is Some,
        HandlerType::ChangeState => action_state_type(a, "go"@) is Some,
    }
}

/// The parameter type of an action: its activate handler's, else its change-state one's.
pub open spec fn action_parameter_type<S>(a: Action<S>) -> Option<Seq<char>> {
    let from_activate = match a.activate { Some(h) => handler_parameter_type(h, a.parameter_type), None => None };
    if from_activate is Some {
        from_activate
    } else {
        match a.change_state { Some(h) => handler_parameter_type(h, a.parameter_type), None => None }
    }
}

/// The state step, when the handler takes the state.
pub open spec fn state_step_fits<S>(r: Option<StateStep>, h: ActionHandler<S>, a: Action<S>) -> bool {
    match r {
        Some(s) => h.state_index is Some && s.convert == !a.state_variant && s.cast == (action_state_type(a, "go"@) is Some),
        None => h.state_index is None,
    }
}

/// The return step, when the handler returns a value.
pub open spec fn return_step_fits<S>(r: Option<ReturnStep>, h: ActionHandler<S>, a: Action<S>) -> bool {
    match r {
        Some(s) => h.output is Some && s.to_variant == !a.state_variant && s.change_state == (h.ty == HandlerType::Activate)
            && s.cast == (action_state_type(a, "go"@) is Some),
        None => h.output is None,
    }
}

/// Whether a handler's parameter is converted from (or to) a variant.
pub open spec fn needs_convert<S>(h: ActionHandler<S>, a: Action<S>) -> bool {
    match h.ty {
        HandlerType::Activate => a.parameter_type is Inferred,
        HandlerType::ChangeState => !a.state_variant,
    }
}

/// What the body of the public method that runs an action does.
pub enum PublicMethodPlan {
    /// Without a receiver, for an activate handler: activate the action by name on the
    /// object, with the parameter (converted to a variant when `convert`) or with none.
    ActivateByName { param: Option<bool> },
    /// Without a receiver, for a change-state handler with a parameter: change the
    /// action's state by name to the parameter (converted when `convert`).
    ChangeStateByName { convert: bool },
    /// Without a receiver, for a change-state handler without a parameter: nothing.
    Nothing,
    /// With a receiver: look the action up and call the handler.
    Call {
        /// Whether the handler is written on the subclass, whose implementation is reached.
        subclass: bool,
        /// Whether the receiver is a reference (the object is upcast by reference).
        recv_by_ref: bool,
        /// Whether the parameter is given its type.
        param_cast: bool,
        state: Option<StateStep>,
        /// How the action is handed, when the handler takes it: by reference or not.
        action: Option<bool>,
        returned: Option<ReturnStep>,
        args: Vec<ArgRole>,
        /// Whether the call is awaited.
        awaited: bool,
    },
}

/// `r` is the plan of the public method for handler `h` of action `a`.
pub open spec fn public_method_plan<S>(r: PublicMethodPlan, h: ActionHandler<S>, a: Action<S>) -> bool {
    match h.receiver {
        None => match h.ty {
            HandlerType::Activate => r matches PublicMethodPlan::ActivateByName { param }
                && param == (if h.parameter_index is Some { Some(needs_convert(h, a)) } else { None }),
            HandlerType::ChangeState => if h.parameter_index is Some {
                r matches PublicMethodPlan::ChangeStateByName { convert } && convert == needs_convert(h, a)
            } else {
                r is Nothing
            },
        },
        Some(by_ref) => r matches PublicMethodPlan::Call { subclass, recv_by_ref, param_cast, state, action, returned, args, awaited }
            && subclass == (h.mode == TypeMode::Subclass)
            && recv_by_ref == by_ref
            && param_cast == (!(a.parameter_type is Empty) && h.parameter_index is Some && param_typed(h, a))
            && state_step_fits(state, h, a)
            && action == (if h.action_index is Some { Some(action_by_ref(h)) } else { None })
            && return_step_fits(returned, h, a)
            && args@ == arg_roles(h, h.arg_types@.len() as int)
            && awaited == h.is_async,
    }
}

/// How the closure connected to the action's signal reaches the object before the call:
/// through the subclass's implementation (by reference when the handler is async), by
/// borrowing it, or as it is.
pub enum ReceiverStep {
    Implementation { by_ref: bool },
    Borrow,
    Keep,
}

/// What the closure connected to an action's signal does.
pub struct SignalClosurePlan {
    /// Whether the closure names the action it is given (else ignores it), and whether it
    /// takes it by reference.
    pub takes_action: bool,
    pub action_by_ref: bool,
    /// Whether the closure names the parameter it is given.
    pub takes_param: bool,
    /// How the object is captured, when the handler has a receiver: watched when it is an
    /// object, else held weakly (panicking when gone).
    pub watched: Option<bool>,
    pub receiver: Option<ReceiverStep>,
    /// How the parameter is prepared, when the action has a parameter type and the handler
    /// takes it: whether it is converted from a variant, and whether it is given its type.
    pub param: Option<(bool, bool)>,
    pub state: Option<StateStep>,
    /// Whether the action is cast by reference, when the handler takes it.
    pub action: Option<bool>,
    pub returned: Option<ReturnStep>,
    pub args: Vec<ArgRole>,
    /// Whether the closure is an async block that awaits the call.
    pub awaited: bool,
}

/// `r` is the plan of the closure connected to the signal of action `a` for handler `h`;
/// `is_object` is whether the type is an object (its instances can be watched).
pub open spec fn signal_closure_plan<S>(r: SignalClosurePlan, h: ActionHandler<S>, a: Action<S>, is_object: bool) -> bool {
    &&& r.takes_action == (h.action_index is Some || h.state_index is Some || h.output is Some)
    &&& r.action_by_ref == action_by_ref(h)
    &&& r.takes_param == h.parameter_index is Some
    &&& r.watched == (if h.receiver is Some { Some(is_object) } else { None })
    &&& r.receiver == match h.receiver {
        None => None,
        Some(by_ref) => Some(match h.mode {
            TypeMode::Subclass => ReceiverStep::Implementation { by_ref: h.is_async },
            TypeMode::Wrapper => if by_ref { ReceiverStep::Borrow } else { ReceiverStep::Keep },
        }),
    }
    &&& r.param == (if !(a.parameter_type is Empty) && h.parameter_index is Some {
        Some((needs_convert(h, a), param_typed(h, a)))
    } else {
        None
    })
    &&& state_step_fits(r.state, h, a)
    &&& r.action == (if h.action_index is Some { Some(action_by_ref(h)) } else { None })
    &&& return_step_fits(r.returned, h, a)
    &&& r.args@ == arg_roles(h, h.arg_types@.len() as int)
    &&& r.awaited == h.is_async
}

fn roles_of<S: Copy>(h: &ActionHandler<S>) -> (r: Vec<ArgRole>)
    ensures
        r@ == arg_roles(*h, h.arg_types@.len() as int),
{
    let mut out: Vec<ArgRole> = Vec::new();
    let mut i: usize = 0;
    while i < h.arg_types.len()
        invariant
            i <= h.arg_types@.len(),
            out@ == arg_roles(*h, i as int),
        decreases h.arg_types.len() - i,
    {
        let role = if i == 0 && h.receiver.is_some() {
            Some(ArgRole::Object)
        } else if matches!(h.parameter_index, Some((p, _)) if p == i) {
            Some(ArgRole::Parameter)
        } else if matches!(h.action_index, Some((p, _)) if p == i) {
            Some(ArgRole::Action)
        } else if matches!(h.state_index, Some((p, _)) if p == i) {
            Some(ArgRole::State)
        } else {
            None
        };
        assert(role == role_of(*h, i as int));
        match role {
            Some(r) => out.push(r),
            None => {},
        }
        i = i + 1;
    }
    out
}

fn action_is_ref<S: Copy>(h: &ActionHandler<S>) -> (r: bool)
    ensures
        r == action_by_ref(*h),
{
    match h.action_index {
        Some((i, _)) => {
            if i < h.arg_types.len() {
                match &h.arg_types[i] {
                    Some(t) => {
                        let s = t.as_str();
                        s.unicode_len() > 0 && s.get_char(0) == '&'
                    },
                    None => false,
                }
            } else {
                false
            }
        },
        None => false,
    }
}

fn state_step<S: Copy>(h: &ActionHandler<S>, a: &Action<S>) -> (r: Option<StateStep>)
    ensures
        state_step_fits(r, *h, *a),
{
    if h.state_index.is_some() {
        Some(StateStep { convert: !a.state_variant, cast: a.state_type("go").is_some() })
    } else {
        None
    }
}

fn return_step<S: Copy>(h: &ActionHandler<S>, a: &Action<S>) -> (r: Option<ReturnStep>)
    ensures
        return_step_fits(r, *h, *a),
{
    if h.output.is_some() {
        Some(ReturnStep {
            to_variant: !a.state_variant,
            change_state: matches!(h.ty, HandlerType::Activate),
            cast: a.state_type("go").is_some(),
        })
    } else {
        None
    }
}

fn param_is_typed<S: Copy>(h: &ActionHandler<S>, a: &Action<S>) -> (r: bool)
    ensures
        r == param_typed(*h, *a),
{
    match h.ty {
        HandlerType::Activate => a.parameter_type().is_some(),
        HandlerType::ChangeState => a.state_type("go").is_some(),
    }
}

/// The plan of the public method that runs action `a` through its handler `h`.
pub fn plan_public_method<S: Copy>(h: &ActionHandler<S>, a: &Action<S>) -> (r: PublicMethodPlan)
    ensures
        public_method_plan(r, *h, *a),
{
    match h.receiver {
        None => match h.ty {
            HandlerType::Activate => PublicMethodPlan::ActivateByName {
                param: if h.parameter_index.is_some() { Some(h.param_needs_convert(a)) } else { None },
            },
            HandlerType::ChangeState => if h.parameter_index.is_some() {
                PublicMethodPlan::ChangeStateByName { convert: h.param_needs_convert(a) }
            } else {
                PublicMethodPlan::Nothing
            },
        },
        Some(by_ref) => PublicMethodPlan::Call {
            subclass: matches!(h.mode, TypeMode::Subclass),
            recv_by_ref: by_ref,
            param_cast: !matches!(a.parameter_type, ParameterType::Empty) && h.parameter_index.is_some() && param_is_typed(h, a),
            state: state_step(h, a),
            action: if h.action_index.is_some() { Some(action_is_ref(h)) } else { None },
            returned: return_step(h, a),
            args: roles_of(h),
            awaited: h.is_async,
        },
    }
}

/// The plan of the closure connected to the signal of action `a` for its handler `h`;
/// `is_object` is whether the type's instances are objects.
pub fn plan_signal_closure<S: Copy>(h: &ActionHandler<S>, a: &Action<S>, is_object: bool) -> (r: SignalClosurePlan)
    ensures
        signal_closure_plan(r, *h, *a, is_object),
{
    let receiver = match h.receiver {
        None => None,
        Some(by_ref) => Some(match h.mode {
            TypeMode::Subclass => ReceiverStep::Implementation { by_ref: h.is_async },
            TypeMode::Wrapper => if by_ref { ReceiverStep::Borrow } else { ReceiverStep::Keep },
        }),
    };
    SignalClosurePlan {
        takes_action: h.action_index.is_some() || h.state_index.is_some() || h.output.is_some(),
        action_by_ref: action_is_ref(h),
        takes_param: h.parameter_index.is_some(),
        watched: if h.receiver.is_some() { Some(is_object) } else { None },
        receiver,
        param: if !matches!(a.parameter_type, ParameterType::Empty) && h.parameter_index.is_some() {
            Some((h.param_needs_convert(a), param_is_typed(h, a)))
        } else {
            None
        },
        state: state_step(h, a),
        action: if h.action_index.is_some() { Some(action_is_ref(h)) } else { None },
        returned: return_step(h, a),
        args: roles_of(h),
        awaited: h.is_async,
    }
}

} // verus!
