use gobject::initable::{
    check_async_initable_constructors, check_initable_constructors, extend_async_initable, extend_initable, future_constructor_name,
    init_args, ConstructorInput,
};
use gobject::members::MemberInput;
use gobject::type_definition::{ModuleItem, TypeBase, TypeDefinition, TypeMode, TypePath, Visibility};
use gobject::util::Errors;

fn messages(e: &Errors<u32>) -> Vec<(u32, String)> {
    e.errors.iter().map(|d| (d.span, d.message.clone())).collect()
}

fn constructor(span: u32, mode: TypeMode, renamed: bool, tag: Option<&str>, ident: &str, inputs: usize) -> ConstructorInput<u32> {
    ConstructorInput {
        span,
        mode,
        renamed,
        custom_tag: tag.map(|t| t.to_string()),
        ident: ident.to_string(),
        inputs,
        is_async: false,
    }
}

fn constructors() -> Vec<ConstructorInput<u32>> {
    vec![
        constructor(1, TypeMode::Wrapper, false, None, "new", 0),
        constructor(2, TypeMode::Subclass, false, Some("Initable"), "with_label", 1),
        constructor(3, TypeMode::Wrapper, true, Some("action"), "with_cancellable", 2),
    ]
}

#[test]
fn init_arguments() {
    assert_eq!(init_args(1), (false, false));
    assert_eq!(init_args(2), (true, false));
    assert_eq!(init_args(3), (true, true));
}

#[test]
fn initable_constructor_checks() {
    let mut errors = Errors::new();
    check_initable_constructors(&constructors(), &mut errors);
    assert_eq!(
        messages(&errors),
        vec![
            (1, "custom constructor on wrapper type for Initable must be renamed with #[public(name = \"...\")]".to_string()),
            (2, "Initable constructor already overriden by Initable".to_string()),
            (3, "Initable constructor already overriden by action".to_string()),
        ]
    );
}

#[test]
fn async_initable_constructor_checks() {
    let mut errors = Errors::new();
    check_async_initable_constructors(&constructors(), false, &mut errors);
    assert_eq!(
        messages(&errors),
        vec![
            (1, "custom constructor on wrapper type for AsyncInitable must be renamed with #[public(name = \"...\")]".to_string()),
            (3, "AsyncInitable constructor already overriden by action".to_string()),
        ]
    );
    let mut errors = Errors::new();
    check_async_initable_constructors(&constructors(), true, &mut errors);
    assert_eq!(messages(&errors), vec![(3, "AsyncInitable constructor already overriden by action".to_string())]);
    assert_eq!(future_constructor_name("new"), "new_future");
}

fn module_items(methods: &[&str]) -> Vec<ModuleItem> {
    vec![
        ModuleItem::Struct { ident: "Thing".to_string(), vis: Visibility::Inherited, has_properties: false },
        ModuleItem::Impl {
            is_trait: false,
            self_ty: Some(TypePath { leading_colon: false, segments: vec!["Thing".to_string()] }),
            has_methods: true,
            methods: methods.iter().map(|m| m.to_string()).collect(),
        },
    ]
}

fn definition(methods: &[&str]) -> (TypeDefinition, Vec<ModuleItem>) {
    let mut errors: Errors<u32> = Errors::new();
    let members = MemberInput { fields: vec![], pod: false, blocks: vec![] };
    let def = TypeDefinition::parse("imp", &Visibility::Inherited, &Some(module_items(methods)), TypeBase::Class, None, 0, members, &mut errors);
    (def, module_items(methods))
}

#[test]
fn extend_initable_with_init() {
    let (def, items) = definition(&["init", "other"]);
    let mut implements = vec!["gio::ListModel".to_string()];
    let mut cs = constructors();
    let mut errors = Errors::new();
    extend_initable(&def, &items, "go", &mut implements, &mut cs, &mut errors);
    assert_eq!(implements, vec!["gio::ListModel".to_string(), "go::gio::Initable".to_string()]);
    assert_eq!(errors.errors.len(), 3);
    assert_eq!(cs.len(), 3);
    assert!(cs.iter().all(|c| c.custom_tag.as_deref() == Some("Initable")));
    assert_eq!(cs[2].span, 3);
    assert!(cs[2].renamed);
}

#[test]
fn extend_initable_without_init() {
    let (def, items) = definition(&["other"]);
    let mut implements = vec![];
    let mut cs = constructors();
    let mut errors = Errors::new();
    extend_initable(&def, &items, "go", &mut implements, &mut cs, &mut errors);
    assert!(implements.is_empty());
    assert!(errors.is_empty());
    assert_eq!(cs[0].custom_tag, None);
    assert_eq!(cs[2].custom_tag.as_deref(), Some("action"));
}

#[test]
fn extend_async_initable_without_init_future() {
    let mut implements = vec![];
    let mut cs = constructors();
    let mut errors = Errors::new();
    assert!(extend_async_initable(None, Some(3), "go", &mut implements, &mut cs, &mut errors).is_none());
    assert!(implements.is_empty() && errors.is_empty());
    assert_eq!(cs.len(), 3);
    assert_eq!(cs[0].custom_tag, None);
}

#[test]
fn extend_async_initable_with_init() {
    let mut implements = vec![];
    let mut cs = constructors();
    let mut errors = Errors::new();
    let plan = extend_async_initable(Some(3), Some(3), "go", &mut implements, &mut cs, &mut errors).unwrap();
    assert!(plan.object && plan.priority);
    assert_eq!(implements, vec!["go::gio::AsyncInitable".to_string()]);
    assert_eq!(messages(&errors), vec![(3, "AsyncInitable constructor already overriden by action".to_string())]);
    assert_eq!(cs.len(), 6);
    assert_eq!(cs[0].custom_tag, None);
    assert!(!cs[0].is_async);
    assert_eq!(cs[3].ident, "new_future");
    assert_eq!(cs[3].inputs, 1);
    assert_eq!(cs[5].ident, "with_cancellable_future");
    assert_eq!(cs[5].inputs, 2);
    assert!(cs[5].is_async);
    assert_eq!(cs[5].custom_tag.as_deref(), Some("Initable"));
}

#[test]
fn extend_async_initable_without_init() {
    let mut implements = vec![];
    let mut cs = constructors();
    let mut errors = Errors::new();
    let plan = extend_async_initable(Some(2), None, "go", &mut implements, &mut cs, &mut errors).unwrap();
    assert!(plan.object && !plan.priority);
    assert_eq!(
        messages(&errors),
        vec![
            (1, "custom constructor on wrapper type for AsyncInitable must be renamed with #[public(name = \"...\")]".to_string()),
            (3, "AsyncInitable constructor already overriden by action".to_string()),
        ]
    );
    assert_eq!(cs.len(), 3);
    assert!(cs.iter().all(|c| c.is_async && c.custom_tag.as_deref() == Some("Initable")));
    assert_eq!(cs[1].inputs, 1);
}
