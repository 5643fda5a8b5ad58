use gobject::property::{
    flags_tokens, PropertyFlags, PropertyName, PropertyPermission, PropertyStorage, CONSTRUCT_ONLY,
    EXPLICIT_NOTIFY, READABLE, WRITABLE,
};
use gobject::text::{decimal, str_eq};
use gobject::type_definition::{Concurrency, TypeBase, TypeDefinition, TypeMode, Visibility};
use gobject::util::{
    attr_is, extract_attr, extract_attrs, format_name, is_valid_name, require_empty, Attribute, Errors,
    GenericArgs,
};
use gobject::validations::{disallow, only_one};
use gobject::members::MemberInput;
fn no_members() -> MemberInput<u32> {
    MemberInput { fields: vec![], pod: false, blocks: vec![] }
}


fn attr(name: &str, item: u32) -> Attribute<u32> {
    Attribute { ident: Some(name.to_string()), item }
}

fn messages(e: &Errors<u32>) -> Vec<(u32, String)> {
    e.errors.iter().map(|d| (d.span, d.message.clone())).collect()
}

#[test]
fn case_conversions() {
    assert_eq!(format_name("my_property"), "my-property");
    assert_eq!(PropertyName::Custom { name: "my-property".to_string() }.field_name(), "my_property");
    let mut errors = Errors::new();
    let def = TypeDefinition::parse("my_type", &Visibility::Inherited, &None, TypeBase::Class, None, 0u32, no_members(), &mut errors);
    assert_eq!(def.name, "MyType");
}

#[test]
fn names() {
    assert!(is_valid_name("my-prop_2"));
    assert!(!is_valid_name("2prop"));
    assert!(!is_valid_name(""));
    assert!(!is_valid_name("a b"));
    assert_eq!(format_name("__my_field"), "my-field");
    assert_eq!(format_name("value"), "value");
}

#[test]
fn decimals_and_strings() {
    assert_eq!(decimal(0), "0");
    assert_eq!(decimal(18446744073709551615), "18446744073709551615");
    assert!(str_eq("abc", "abc"));
    assert!(!str_eq("abc", "abd"));
}

#[test]
fn errors_collect_in_order() {
    let mut e: Errors<u32> = Errors::new();
    assert!(e.is_empty());
    e.push_str(3, "first");
    e.push(1, "second".to_string());
    assert_eq!(messages(&e), vec![(3, "first".to_string()), (1, "second".to_string())]);
    assert!(!e.is_empty());
    assert_eq!(e.into_compile_errors().map(|v| v.len()), Some(2));
    let none: Errors<u32> = Errors::new();
    assert!(none.into_compile_errors().is_none());
}

#[test]
fn attribute_extraction() {
    let mut attrs = vec![attr("doc", 1), attr("signal", 2), attr("doc", 3), attr("signal", 4)];
    assert!(attr_is(&attrs[1], "signal"));
    let first = extract_attr(&mut attrs, "signal").unwrap();
    assert_eq!(first.item, 2);
    assert_eq!(attrs.iter().map(|a| a.item).collect::<Vec<_>>(), vec![1, 3, 4]);
    let docs = extract_attrs(&mut attrs, "doc").unwrap();
    assert_eq!(docs.iter().map(|a| a.item).collect::<Vec<_>>(), vec![1, 3]);
    assert_eq!(attrs.iter().map(|a| a.item).collect::<Vec<_>>(), vec![4]);
    assert!(extract_attrs(&mut attrs, "doc").is_none());
    assert!(extract_attr(&mut attrs, "missing").is_none());
}

#[test]
fn require_empty_reports_tokens() {
    let mut e: Errors<u32> = Errors::new();
    require_empty("is_a", true, 1, &mut e);
    assert!(e.is_empty());
    require_empty("is_a", false, 2, &mut e);
    assert_eq!(messages(&e), vec![(2, "Unknown tokens on #[is_a] attribute".to_string())]);
}

#[test]
fn generic_args_records_is_a() {
    let mut args = vec![None, Some(vec![attr("is_a", 0), attr("is_a", 1)]), Some(vec![attr("doc", 2)])];
    let g = GenericArgs::new(&mut args);
    assert!(g.contains(1));
    assert!(!g.contains(0));
    assert!(!g.contains(2));
    assert_eq!(args[1].as_ref().unwrap().len(), 1);
    assert_eq!(args[1].as_ref().unwrap()[0].item, 1);
    assert!(args[0].is_none());
    assert_eq!(args[2].as_ref().unwrap().len(), 1);
    assert_eq!(args[2].as_ref().unwrap()[0].item, 2);
}

#[test]
fn disallow_and_only_one() {
    let mut e: Errors<u32> = Errors::new();
    disallow("signal", &[("abstract", Some(4)), ("computed", None)], &mut e);
    assert_eq!(messages(&e), vec![(4, "`abstract` not allowed on signal".to_string())]);
    let mut e: Errors<u32> = Errors::new();
    only_one(&[("enum", Some(1)), ("flags", None), ("boxed", Some(3))], &mut e);
    let m = "Only one of `enum`, `flags`, `boxed` is allowed".to_string();
    assert_eq!(messages(&e), vec![(1, m.clone()), (3, m)]);
    let mut e: Errors<u32> = Errors::new();
    only_one(&[("enum", Some(1)), ("flags", None)], &mut e);
    assert!(e.is_empty());
}

#[test]
fn property_permissions() {
    assert!(matches!(PropertyPermission::from_string("()"), Ok(PropertyPermission::AllowNoMethod)));
    assert!(matches!(PropertyPermission::from_string("_"), Ok(PropertyPermission::AllowCustomDefault)));
    match PropertyPermission::from_string("Self::get_value") {
        Ok(PropertyPermission::AllowCustom { path, segments }) => {
            assert_eq!(path, "Self::get_value");
            assert_eq!(segments, vec!["Self".to_string(), "get_value".to_string()]);
        }
        _ => panic!("a path is a custom accessor"),
    }
    assert!(PropertyPermission::from_string("not a path").is_err());
    let mut p = PropertyPermission::from_word();
    p.normalize(true);
    assert!(matches!(p, PropertyPermission::AllowCustomDefault));
    assert!(!PropertyPermission::from_bool(false).is_allowed());
    assert!(!PropertyPermission::default().is_allowed());
}

#[test]
fn property_flags_expression() {
    let mut f = PropertyFlags::empty();
    assert_eq!(f.tokens("glib"), "glib::ParamFlags::empty()");
    f.set(READABLE, true);
    f.set(WRITABLE, true);
    f.set(EXPLICIT_NOTIFY, true);
    assert!(f.contains(READABLE | WRITABLE));
    assert_eq!(
        f.tokens("glib"),
        "glib::ParamFlags::READABLE | glib::ParamFlags::WRITABLE | glib::ParamFlags::EXPLICIT_NOTIFY"
    );
    f.set(WRITABLE, false);
    assert!(!f.contains(WRITABLE));
    assert_eq!(flags_tokens(CONSTRUCT_ONLY, "F"), "F::CONSTRUCT_ONLY");
}

#[test]
fn property_names_and_storage() {
    let n = PropertyName::Field { ident: "_my_value".to_string() };
    assert_eq!(n.to_string(), "my-value");
    assert_eq!(n.field_name(), "my_value");
    let c = PropertyName::Custom { name: "custom-name".to_string() };
    assert_eq!(c.field_name(), "custom_name");
    assert!(PropertyStorage::UnnamedField { index: 0 }.has_field());
    assert!(!PropertyStorage::Computed.has_field());
}

#[test]
fn syn_paths() {
    match PropertyPermission::from_string("a::b::c") {
        Ok(PropertyPermission::AllowCustom { path, segments }) => {
            assert_eq!(path, "a::b::c");
            assert_eq!(segments, vec!["a".to_string(), "b".to_string(), "c".to_string()]);
        }
        _ => panic!("expected a path"),
    }
    assert!(PropertyPermission::from_string("1 + 2").is_err());
    assert!(matches!(PropertyPermission::from_string("()"), Ok(PropertyPermission::AllowNoMethod)));
    assert!(matches!(PropertyPermission::from_string("_"), Ok(PropertyPermission::AllowCustomDefault)));
}

#[test]
fn type_modes() {
    assert!(TypeMode::for_item_type(Some(2)) == Some(TypeMode::Wrapper));
    assert!(TypeMode::for_item_type(Some(1)) == Some(TypeMode::Subclass));
    assert!(TypeMode::for_item_type(None).is_none());
    assert_eq!(Concurrency::SendSync.to_tokens(), " + Send + Sync");
    assert_eq!(Concurrency::Unbounded.to_tokens(), "");
}
