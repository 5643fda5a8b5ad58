use gobject::action_plans::{plan_public_method, plan_signal_closure, ArgRole, PublicMethodPlan, ReceiverStep};
use gobject::actions::{Action, ActionHandler, HandlerArg, HandlerSig, HandlerType, ParameterType};
use gobject::type_definition::TypeMode;
use gobject::util::Errors;

fn handler(args: Vec<HandlerArg<u32>>, output: Option<&str>, is_async: bool, mode: TypeMode, ty: HandlerType) -> ActionHandler<u32> {
    let sig = HandlerSig { span: 50, args, output: output.map(|t| (60, t.to_string())), is_async };
    let mut e = Errors::new();
    ActionHandler::new(sig, mode, ty, &mut e)
}

fn action(parameter_type: ParameterType, state_variant: bool) -> Action<u32> {
    Action {
        name: "go".to_string(),
        parameter_type,
        state_variant,
        activate: None,
        change_state: None,
        default_state: None,
        default_hint: None,
        disabled: false,
    }
}

#[test]
fn public_method_without_receiver() {
    let h = handler(vec![HandlerArg::Typed { span: 1, ty: "i32".to_string(), state: None, action: None }], None, false,
        TypeMode::Wrapper, HandlerType::Activate);
    let a = action(ParameterType::Inferred, false);
    assert!(matches!(plan_public_method(&h, &a), PublicMethodPlan::ActivateByName { param: Some(true) }));
    let h = handler(vec![], None, false, TypeMode::Wrapper, HandlerType::Activate);
    assert!(matches!(plan_public_method(&h, &a), PublicMethodPlan::ActivateByName { param: None }));
    let h = handler(vec![HandlerArg::Typed { span: 1, ty: "bool".to_string(), state: None, action: None }], None, false,
        TypeMode::Wrapper, HandlerType::ChangeState);
    assert!(matches!(plan_public_method(&h, &action(ParameterType::Empty, true)), PublicMethodPlan::ChangeStateByName { convert: false }));
    let h = handler(vec![], None, false, TypeMode::Wrapper, HandlerType::ChangeState);
    assert!(matches!(plan_public_method(&h, &a), PublicMethodPlan::Nothing));
}

#[test]
fn public_method_with_receiver() {
    let args = vec![
        HandlerArg::Receiver { span: 1, by_ref: true },
        HandlerArg::Typed { span: 2, ty: "&gio::SimpleAction".to_string(), state: None, action: Some((3, true)) },
        HandlerArg::Typed { span: 4, ty: "i32".to_string(), state: None, action: None },
        HandlerArg::Typed { span: 5, ty: "bool".to_string(), state: Some((6, true)), action: None },
    ];
    let h = handler(args, Some("Option<bool>"), false, TypeMode::Subclass, HandlerType::Activate);
    let a = action(ParameterType::Inferred, false);
    match plan_public_method(&h, &a) {
        PublicMethodPlan::Call { subclass, recv_by_ref, param_cast, state, action, returned, args, awaited } => {
            assert!(subclass && recv_by_ref && !awaited);
            assert!(!param_cast);
            let state = state.unwrap();
            assert!(state.convert && !state.cast);
            assert_eq!(action, Some(true));
            let returned = returned.unwrap();
            assert!(returned.to_variant && returned.change_state);
            assert!(args == vec![ArgRole::Object, ArgRole::Action, ArgRole::Parameter, ArgRole::State]);
        }
        _ => panic!("a call through the receiver"),
    }
}

#[test]
fn signal_closure_plan() {
    let args = vec![
        HandlerArg::Receiver { span: 1, by_ref: true },
        HandlerArg::Typed { span: 4, ty: "i32".to_string(), state: None, action: None },
    ];
    let h = handler(args, None, true, TypeMode::Subclass, HandlerType::Activate);
    let a = action(ParameterType::Inferred, false);
    let p = plan_signal_closure(&h, &a, true);
    assert!(!p.takes_action && !p.action_by_ref && p.takes_param);
    assert_eq!(p.watched, Some(true));
    assert!(matches!(p.receiver, Some(ReceiverStep::Implementation { by_ref: true })));
    assert_eq!(p.param, Some((true, false)));
    assert!(p.state.is_none() && p.action.is_none() && p.returned.is_none());
    assert!(p.args == vec![ArgRole::Object, ArgRole::Parameter]);
    assert!(p.awaited);
    let h = handler(vec![HandlerArg::Receiver { span: 1, by_ref: false }], None, false, TypeMode::Wrapper, HandlerType::Activate);
    let p = plan_signal_closure(&h, &action(ParameterType::Empty, false), false);
    assert_eq!(p.watched, Some(false));
    assert!(matches!(p.receiver, Some(ReceiverStep::Keep)));
    assert!(p.param.is_none());
}
