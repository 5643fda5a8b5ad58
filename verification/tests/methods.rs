use gobject::methods::{
    ConstructorType, MethodInput, NameAttrs, PublicMethod, VirtualInput, VirtualMethod,
};
use gobject::type_definition::{TypeBase, TypeMode};
use gobject::util::Errors;

fn method(ident: &str) -> MethodInput<u32> {
    MethodInput {
        ident: ident.to_string(),
        sig_span: 1,
        receiver: None,
        has_output: true,
        body_empty: false,
        arg_patterns: Vec::new(),
        constructor: None,
        public: None,
    }
}

fn named(span: u32, name: &str) -> NameAttrs<u32> {
    NameAttrs { name: Some((span, name.to_string())) }
}

fn messages(e: &Errors<u32>) -> Vec<(u32, String)> {
    e.errors.iter().map(|d| (d.span, d.message.clone())).collect()
}

#[test]
fn plain_method_is_not_published() {
    let mut errors = Errors::new();
    assert!(PublicMethod::from_method(&method("helper"), TypeBase::Class, TypeMode::Subclass, &mut errors).is_none());
    assert!(errors.errors.is_empty());
}

#[test]
fn public_method_can_be_renamed() {
    let mut m = method("do_thing");
    m.public = Some(named(5, "thing"));
    let mut errors = Errors::new();
    let p = PublicMethod::from_method(&m, TypeBase::Class, TypeMode::Wrapper, &mut errors).unwrap();
    assert_eq!(p.ident, "thing");
    assert_eq!(p.target.as_deref(), Some("do_thing"));
    assert!(p.constructor.is_none());
    assert!(errors.errors.is_empty());
}

#[test]
fn public_name_equal_to_method_name_is_reported() {
    let mut m = method("same");
    m.public = Some(named(5, "same"));
    let mut errors = Errors::new();
    PublicMethod::from_method(&m, TypeBase::Class, TypeMode::Wrapper, &mut errors).unwrap();
    assert_eq!(messages(&errors), vec![(5, "`name` attribute cannot be the same as the function name".to_string())]);
}

#[test]
fn auto_constructor_checks() {
    let mut m = method("new");
    m.constructor = Some(named(3, "with_value"));
    m.public = Some(named(4, "other"));
    m.receiver = Some(2);
    m.has_output = false;
    m.body_empty = true;
    m.arg_patterns = vec![(10, true), (11, false)];
    let mut errors = Errors::new();
    let p = PublicMethod::from_method(&m, TypeBase::Class, TypeMode::Subclass, &mut errors).unwrap();
    assert!(p.constructor == Some(ConstructorType::Auto));
    assert_eq!(p.ident, "with_value");
    assert_eq!(
        messages(&errors),
        vec![
            (2, "`self` not allowed on constructor".to_string()),
            (1, "Constructor must have a return type".to_string()),
            (11, "Auto constructor argument must be an ident".to_string()),
            (4, "Duplicate `name` attribute".to_string()),
        ]
    );
}

#[test]
fn constructor_only_counts_on_classes() {
    let mut m = method("new");
    m.constructor = Some(NameAttrs { name: None });
    let mut errors = Errors::new();
    assert!(PublicMethod::from_method(&m, TypeBase::Interface, TypeMode::Wrapper, &mut errors).is_none());
    let p = PublicMethod::from_method(&m, TypeBase::Class, TypeMode::Wrapper, &mut errors).unwrap();
    assert!(p.constructor == Some(ConstructorType::Custom));
    assert!(p.is_static(true));
}

#[test]
fn interface_subclass_method_cannot_take_self() {
    let mut m = method("frob");
    m.public = Some(NameAttrs { name: None });
    m.receiver = Some(8);
    let mut errors = Errors::new();
    let p = PublicMethod::from_method(&m, TypeBase::Interface, TypeMode::Subclass, &mut errors).unwrap();
    assert!(!p.is_static(true));
    assert_eq!(errors.errors.len(), 1);
    assert_eq!(errors.errors[0].span, 8);
    assert!(errors.errors[0].message.starts_with("`self` not supported on public method for private interface struct. \\\n"));
    assert!(errors.errors[0].message.ends_with("Implement this method on the wrapper type"));
}

#[test]
fn many_methods_list_auto_constructors() {
    let mut a = method("new");
    a.constructor = Some(NameAttrs { name: None });
    a.body_empty = true;
    let b = method("private");
    let mut c = method("open");
    c.public = Some(NameAttrs { name: None });
    let mut errors = Errors::new();
    let (published, removed) = PublicMethod::many_from_items(&vec![a, b, c], TypeBase::Class, TypeMode::Wrapper, &mut errors);
    assert_eq!(published.len(), 2);
    assert_eq!(published[0].ident, "new");
    assert_eq!(published[1].ident, "open");
    assert_eq!(removed, vec![0]);
}

#[test]
fn virtual_method_checks() {
    let v = VirtualInput { tokens: Some(1), asyncness: Some(2), inputs_span: 3, inputs_empty: true, receiver: Some(4) };
    let mut errors = Errors::new();
    let m = VirtualMethod::from_method(&v, TypeBase::Interface, TypeMode::Subclass, &mut errors);
    assert!(m.base == TypeBase::Interface);
    assert_eq!(
        messages(&errors),
        vec![
            (1, "Unknown tokens on virtual method".to_string()),
            (2, "Virtual method cannot be async, return a Future instead".to_string()),
            (3, "First argument required on virtual method, must be `self`, `&self` or the wrapper type".to_string()),
            (4, "First argument to interface virtual method must be the wrapper type".to_string()),
        ]
    );
}

#[test]
fn many_virtual_methods() {
    let good = VirtualInput { tokens: None, asyncness: None, inputs_span: 1, inputs_empty: false, receiver: None };
    let bad = VirtualInput { tokens: Some(2), asyncness: None, inputs_span: 3, inputs_empty: false, receiver: None };
    let mut errors = Errors::new();
    let ms = VirtualMethod::many_from_items(&vec![Some(good), None, Some(bad)], TypeBase::Class, TypeMode::Wrapper, &mut errors);
    assert_eq!(ms.len(), 2);
    assert_eq!(messages(&errors), vec![(2, "Unknown tokens on virtual method".to_string())]);
}
