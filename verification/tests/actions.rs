use gobject::actions::{
    validate_actions, Action, ActionAttrs, ActionHandler, HandlerArg, HandlerSig, HandlerType,
    ParameterType,
};
use gobject::type_definition::TypeMode;
use gobject::util::Errors;

fn messages(e: &Errors<u32>) -> Vec<(u32, String)> {
    e.errors.iter().map(|d| (d.span, d.message.clone())).collect()
}

fn typed(span: u32, ty: &str) -> HandlerArg<u32> {
    HandlerArg::Typed { span, ty: ty.to_string(), state: None, action: None }
}

fn sig(args: Vec<HandlerArg<u32>>, output: Option<&str>, is_async: bool) -> HandlerSig<u32> {
    HandlerSig { span: 50, args, output: output.map(|t| (60, t.to_string())), is_async }
}

fn attrs() -> ActionAttrs<u32> {
    ActionAttrs {
        name: None,
        parameter_type: None,
        change_state: false,
        default: None,
        default_variant: None,
        hint: None,
        disabled: None,
    }
}

#[test]
fn handler_argument_roles() {
    let args = vec![
        HandlerArg::Receiver { span: 1, by_ref: true },
        typed(2, "i32"),
        HandlerArg::Typed { span: 3, ty: "bool".to_string(), state: Some((30, true)), action: None },
        HandlerArg::Typed { span: 4, ty: "gio::SimpleAction".to_string(), state: None, action: Some((40, false)) },
    ];
    let mut e = Errors::new();
    let h = ActionHandler::new(sig(args, None, false), TypeMode::Subclass, HandlerType::Activate, &mut e);
    assert_eq!(messages(&e), vec![(40, "Unknown tokens on #[action] attribute".to_string())]);
    assert_eq!(h.parameter_index, Some((1, 2)));
    assert_eq!(h.state_index, Some((2, 3)));
    assert_eq!(h.action_index, Some((3, 4)));
    assert_eq!(h.state_type("go"), Some("bool".to_string()));
}

#[test]
fn handler_errors() {
    let args = vec![HandlerArg::Receiver { span: 1, by_ref: false }, typed(2, "i32"), typed(3, "u32")];
    let mut e = Errors::new();
    let h = ActionHandler::new(sig(args, Some("bool"), true), TypeMode::Subclass, HandlerType::ChangeState, &mut e);
    assert_eq!(
        messages(&e),
        vec![
            (1, "Subclass action receiver must be `&self`".to_string()),
            (3, "Duplicate parameter argument".to_string()),
            (60, "Async action cannot have return type".to_string()),
        ]
    );
    assert_eq!(h.output, None);
    let mut e = Errors::new();
    ActionHandler::new(sig(vec![], None, false), TypeMode::Wrapper, HandlerType::ChangeState, &mut e);
    assert_eq!(messages(&e), vec![(50, "Change state handler must have a parameter to receive the new state".to_string())]);
}

#[test]
fn actions_from_methods() {
    let mut actions: Vec<Action<u32>> = Vec::new();
    let mut e = Errors::new();
    let mut a = attrs();
    a.parameter_type = Some((7, ParameterType::Empty));
    a.hint = Some((8, "0".to_string()));
    Action::from_method("do_thing", sig(vec![], None, false), a, TypeMode::Subclass, &mut actions, &mut e);
    assert!(e.errors.is_empty());
    assert_eq!(actions.len(), 1);
    assert_eq!(actions[0].name, "do-thing");
    assert!(actions[0].activate.is_some());
    let mut b = attrs();
    b.name = Some("do-thing".to_string());
    b.parameter_type = Some((9, ParameterType::Inferred));
    b.hint = Some((10, "1".to_string()));
    b.disabled = Some(11);
    b.default = Some((12, "true".to_string()));
    b.default_variant = Some((13, "v".to_string()));
    Action::from_method("other", sig(vec![], None, false), b, TypeMode::Subclass, &mut actions, &mut e);
    let only = "Only one of `default_state`, `default_state_variant` is allowed".to_string();
    assert_eq!(
        messages(&e),
        vec![
            (50, "Duplicate activate handler for action".to_string()),
            (9, "Conflicting `parameter_type` attribute".to_string()),
            (12, only.clone()),
            (13, only),
            (10, "Duplicate `default_hint` attribute".to_string()),
        ]
    );
    assert_eq!(actions.len(), 1);
    assert!(actions[0].disabled);
    assert_eq!(actions[0].default_state, Some("true".to_string()));
    assert!(!actions[0].state_variant);
}

#[test]
fn change_state_needs_state_type() {
    let mut actions: Vec<Action<u32>> = Vec::new();
    let mut e = Errors::new();
    let mut a = attrs();
    a.change_state = true;
    Action::from_method("toggle", sig(vec![typed(2, "bool")], None, false), a, TypeMode::Wrapper, &mut actions, &mut e);
    let mut v = Errors::new();
    validate_actions(&actions, &mut v);
    assert!(v.errors.is_empty());
    assert_eq!(actions[0].state_type("go"), Some("bool".to_string()));

    let mut b = attrs();
    b.change_state = true;
    let mut others: Vec<Action<u32>> = Vec::new();
    Action::from_method("pick", sig(vec![], None, false), b, TypeMode::Wrapper, &mut others, &mut e);
    let mut v = Errors::new();
    validate_actions(&others, &mut v);
    assert_eq!(
        messages(&v),
        vec![(50, "Action with change-state handler must have a state argument, return type, or `default` attribute".to_string())]
    );
}

#[test]
fn return_type_gives_state() {
    let mut e = Errors::new();
    let h = ActionHandler::new(sig(vec![], Some("bool"), false), TypeMode::Wrapper, HandlerType::Activate, &mut e);
    assert_eq!(h.state_type("go"), Some("<bool as go::ActionStateReturn>::ReturnType".to_string()));
    let a: Action<u32> = Action {
        name: "a".to_string(),
        parameter_type: ParameterType::Empty,
        state_variant: true,
        activate: None,
        change_state: None,
        default_state: None,
        default_hint: None,
        disabled: false,
    };
    assert!(!h.param_needs_convert(&a));
    assert_eq!(h.parameter_type(&a), None);
}
