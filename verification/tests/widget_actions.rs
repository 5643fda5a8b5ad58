use gobject::actions::{HandlerArg, HandlerSig, ParameterType};
use gobject::type_definition::TypeMode;
use gobject::util::Errors;
use gobject::widget_actions::{
    check_action_names, make_name, plan_widget_actions, MethodAction, PropertyAction, PropertyActionAttrs,
    PropertyActionInput, PublicMethodInput, WidgetAction, WidgetActionAttrs, WidgetParameterType,
};

fn attrs() -> WidgetActionAttrs<u32> {
    WidgetActionAttrs { name: None, group: None, type_: None, type_str: None, disabled: None, with: None, to: None, from: None }
}

fn typed(span: u32) -> HandlerArg<u32> {
    HandlerArg::Typed { span, ty: "i32".to_string(), state: None, action: None }
}

fn messages(e: &Errors<u32>) -> Vec<(u32, String)> {
    e.errors.iter().map(|d| (d.span, d.message.clone())).collect()
}

#[test]
fn action_names() {
    assert_eq!(make_name("MyWidget", "do_thing", None, None), "my-widget.do-thing");
    assert_eq!(make_name("MyWidget", "do_thing", Some("go".to_string()), Some("win".to_string())), "win.go");
}

#[test]
fn conflicting_options_are_reported() {
    let mut a = attrs();
    a.type_str = Some((1, "s".to_string()));
    a.with = Some((2, "my::Type".to_string()));
    a.type_ = Some((3, ParameterType::Inferred));
    let mut errors = Errors::new();
    a.validate(&mut errors);
    let m = messages(&errors);
    assert_eq!(m.len(), 4);
    assert_eq!(m[0].0, 3);
    assert_eq!(m[1].0, 1);
    assert_eq!(m[2].0, 1);
    assert_eq!(m[3].0, 2);
}

#[test]
fn method_with_conversion_path() {
    let sig = HandlerSig {
        span: 0,
        args: vec![HandlerArg::Receiver { span: 1, by_ref: false }, typed(2), typed(3)],
        output: Some((4, "bool".to_string())),
        is_async: false,
    };
    let mut a = attrs();
    a.with = Some((5, "my::Point".to_string()));
    a.disabled = Some(6);
    let mut errors = Errors::new();
    let act = WidgetAction::from_method(&sig, a, "Canvas", "move_to", TypeMode::Subclass, &mut errors);
    assert_eq!(act.name, "canvas.move-to");
    assert_eq!(act.parameter_index, Some((1, 2)));
    assert!(act.disabled);
    assert!(matches!(&act.parameter_type, WidgetParameterType::StaticVariantType(p) if p == "my::Point::static_variant_type"));
    assert_eq!(act.parameter_to.as_deref(), Some("my::Point::to_variant"));
    assert_eq!(act.parameter_from.as_deref(), Some("my::Point::from_variant"));
    assert_eq!(
        messages(&errors),
        vec![
            (4, "Widget action cannot have return type".to_string()),
            (1, "Subclass action receiver must be `&self`".to_string()),
            (3, "Duplicate parameter argument".to_string()),
        ]
    );
}

#[test]
fn method_with_type_string() {
    let sig = HandlerSig { span: 0, args: vec![typed(2)], output: None, is_async: false };
    let mut a = attrs();
    a.type_str = Some((1, "(ii)".to_string()));
    a.to = Some((7, "conv::to".to_string()));
    let mut errors = Errors::new();
    let act = WidgetAction::from_method(&sig, a, "Canvas", "zoom", TypeMode::Wrapper, &mut errors);
    assert!(matches!(&act.parameter_type, WidgetParameterType::Given(ParameterType::Named { type_string }) if type_string == "(ii)"));
    assert_eq!(act.parameter_index, Some((0, 2)));
    assert_eq!(act.parameter_to.as_deref(), Some("conv::to"));
    assert!(act.parameter_from.is_none());
    assert!(errors.errors.is_empty());
}

#[test]
fn property_actions_and_duplicate_names() {
    let p = PropertyAction::new("MyWidget", "show-all", PropertyActionAttrs::<u32> { name: None, group: None, disabled: Some(1) });
    assert_eq!(p.name, "my-widget.show-all");
    assert_eq!(p.property, "show-all");
    assert!(p.disabled);
    let names = vec![(1, "w.a".to_string()), (2, "w.b".to_string()), (3, "w.a".to_string()), (4, "w.a".to_string())];
    let mut errors = Errors::new();
    check_action_names(&names, &mut errors);
    assert_eq!(
        messages(&errors),
        vec![(3, "Duplicate action `w.a`".to_string()), (4, "Duplicate action `w.a`".to_string())]
    );
}

fn method_action(name: &str, ident: &str, span: u32, mode: TypeMode, disabled: bool) -> MethodAction<u32> {
    MethodAction {
        action: WidgetAction {
            name: name.to_string(),
            mode,
            parameter_type: WidgetParameterType::Given(ParameterType::Empty),
            parameter_index: None,
            disabled,
            parameter_to: None,
            parameter_from: None,
        },
        ident: ident.to_string(),
        span,
    }
}

fn public(mode: TypeMode, ident: &str, span: u32, tag: Option<&str>) -> PublicMethodInput<u32> {
    PublicMethodInput {
        mode,
        ident: ident.to_string(),
        span,
        auto_constructor: false,
        renamed: false,
        custom_tag: tag.map(|t| t.to_string()),
    }
}

#[test]
fn widget_actions_plan() {
    let actions = vec![
        method_action("my-widget.copy", "copy", 1, TypeMode::Wrapper, true),
        method_action("my-widget.paste", "paste", 2, TypeMode::Subclass, false),
    ];
    let properties = vec![
        PropertyActionInput {
            property: "visible".to_string(),
            span: 3,
            attrs: PropertyActionAttrs { name: None, group: None, disabled: Some(4) },
        },
        PropertyActionInput {
            property: "x".to_string(),
            span: 5,
            attrs: PropertyActionAttrs { name: Some("copy".to_string()), group: None, disabled: None },
        },
    ];
    let mut pms = vec![public(TypeMode::Wrapper, "copy", 10, None), public(TypeMode::Subclass, "paste", 11, Some("Initable"))];
    let mut e = Errors::new();
    let plan = plan_widget_actions("MyWidget", true, &actions, &properties, &mut pms, &mut e).unwrap();
    assert_eq!(
        messages(&e),
        vec![
            (5, "Duplicate action `my-widget.copy`".to_string()),
            (1, "widget action using #[public] on wrapper type for final class must be renamed with #[public(name = \"...\")]".to_string()),
            (11, "#[action] cannot be used on public method already overriden by Initable".to_string()),
        ]
    );
    assert_eq!(plan.property_actions.len(), 2);
    assert_eq!(plan.property_actions[0].name, "my-widget.visible");
    assert!(plan.property_actions[0].disabled);
    assert_eq!(plan.disabled, vec!["my-widget.copy".to_string(), "my-widget.visible".to_string()]);
    assert!(pms.iter().all(|p| p.custom_tag.as_deref() == Some("#[widget_action]")));
}

#[test]
fn widget_actions_plan_empty() {
    let mut pms = vec![public(TypeMode::Wrapper, "copy", 10, None)];
    let mut e = Errors::new();
    assert!(plan_widget_actions("MyWidget", false, &vec![], &vec![], &mut pms, &mut e).is_none());
    assert!(e.is_empty());
    assert_eq!(pms[0].custom_tag, None);
}
