use gobject::property::{
    struct_options,
    collect_properties, Property, PropertyAttrs, PropertyField, PropertyName, PropertyOverride,
    PropertyPermission, PropertyStorage, PropertyType, EXPLICIT_NOTIFY, LAX_VALIDATION, READABLE,
    WRITABLE,
};
use gobject::type_definition::TypeBase;
use gobject::util::Errors;

fn attrs() -> PropertyAttrs<u32> {
    PropertyAttrs {
        ident: None,
        skip: None,
        get: None,
        set: None,
        borrow: None,
        construct: None,
        construct_only: None,
        lax_validation: None,
        user: [None; 8],
        explicit_notify: None,
        deprecated: None,
        notify: None,
        connect_notify: None,
        name: None,
        nick: None,
        blurb: None,
        enum_: None,
        flags: None,
        boxed: None,
        object: None,
        computed: None,
        storage: None,
        abstract_: None,
        override_class: None,
        override_iface: None,
        builder: None,
    }
}

fn named(field: &str) -> PropertyAttrs<u32> {
    let mut a = attrs();
    a.ident = Some((1, field.to_string()));
    a
}

fn messages(e: &Errors<u32>) -> Vec<(u32, String)> {
    e.errors.iter().map(|d| (d.span, d.message.clone())).collect()
}

fn validate(a: &PropertyAttrs<u32>, pod: bool, base: TypeBase) -> Vec<(u32, String)> {
    let mut e = Errors::new();
    a.validate(100, 0, pod, base, &mut e);
    messages(&e)
}

#[test]
fn valid_readable_property() {
    let mut a = named("value");
    a.get = Some((2, PropertyPermission::Allow));
    assert!(validate(&a, false, TypeBase::Class).is_empty());
}

#[test]
fn unreadable_unwritable_property() {
    let a = named("value");
    assert_eq!(validate(&a, false, TypeBase::Class), vec![(100, "Property must be readable or writable".to_string())]);
}

#[test]
fn tuple_field_needs_name() {
    let mut a = attrs();
    a.get = Some((2, PropertyPermission::Allow));
    let errs = validate(&a, false, TypeBase::Class);
    assert_eq!(errs[0], (100, "#[property(name = \"...\")] required for tuple struct properties".to_string()));
}

#[test]
fn invalid_custom_name() {
    let mut a = named("value");
    a.get = Some((2, PropertyPermission::Allow));
    a.name = Some((5, "1st".to_string()));
    assert_eq!(
        validate(&a, false, TypeBase::Class),
        vec![(
            5,
            "Invalid property name '1st'. Property names must start with an ASCII letter and only contain ASCII letters, numbers, '-' or '_'"
                .to_string()
        )]
    );
}

#[test]
fn exclusive_and_interface_options() {
    let mut a = named("value");
    a.get = Some((2, PropertyPermission::Allow));
    a.enum_ = Some(3);
    a.flags = Some(4);
    a.computed = Some(6);
    let errs = validate(&a, false, TypeBase::Interface);
    assert_eq!(
        errs,
        vec![
            (3, "Only one of `enum`, `flags`, `boxed`, `object` is allowed".to_string()),
            (4, "Only one of `enum`, `flags`, `boxed`, `object` is allowed".to_string()),
            (6, "`computed` not allowed on interface property".to_string()),
        ]
    );
}

#[test]
fn read_only_and_borrow_checks() {
    let mut a = named("value");
    a.get = Some((2, PropertyPermission::Deny));
    a.set = Some((7, PropertyPermission::Deny));
    a.construct = Some((8, true));
    a.borrow = Some(9);
    let errs = validate(&a, false, TypeBase::Class);
    assert_eq!(
        errs,
        vec![
            (100, "Property must be readable or writable".to_string()),
            (8, "`construct` not allowed on read-only property".to_string()),
            (9, "`borrow` not allowed on write-only property".to_string()),
        ]
    );
}

#[test]
fn overridden_property_options() {
    let mut a = named("value");
    a.get = Some((2, PropertyPermission::Allow));
    a.override_class = Some((3, "Parent".to_string()));
    a.nick = Some((4, "Value".to_string()));
    assert_eq!(validate(&a, false, TypeBase::Class), vec![(4, "`nick` not allowed on overridden property".to_string())]);
}

#[test]
fn normalize_in_plain_old_data() {
    let mut a = named("value");
    a.normalize(true, true, 1, 0);
    assert!(matches!(a.get, Some((1, PropertyPermission::Allow))));
    assert!(matches!(a.set, Some((1, PropertyPermission::Allow))));
    assert_eq!(a.lax_validation, Some((1, true)));
    assert_eq!(a.explicit_notify, Some((1, true)));
    let f = a.flags(true);
    assert_eq!(f.bits, READABLE | WRITABLE | LAX_VALIDATION | EXPLICIT_NOTIFY);
}

#[test]
fn normalize_skips_unmarked_fields() {
    let mut a = named("value");
    a.normalize(false, false, 1, 0);
    assert_eq!(a.skip, Some(0));
}

#[test]
fn computed_accessors_use_default_methods() {
    let mut a = named("value");
    a.computed = Some(2);
    a.get = Some((3, PropertyPermission::Allow));
    a.normalize(false, true, 1, 0);
    assert!(matches!(a.get, Some((3, PropertyPermission::AllowCustomDefault))));
}

#[test]
fn property_from_options() {
    let mut a = named("my_value");
    a.get = Some((2, PropertyPermission::AllowCustomDefault));
    a.set = Some((3, PropertyPermission::Allow));
    a.boxed = Some(4);
    a.nick = Some((5, "My value".to_string()));
    let mut e = Errors::new();
    let p: Property = Property::new(a, 1, 0, true, 0, false, TypeBase::Class, &mut e).unwrap();
    assert!(e.errors.is_empty());
    assert_eq!(p.name.to_string(), "my-value");
    assert!(matches!(p.special_type, PropertyType::Boxed));
    assert!(matches!(p.storage, PropertyStorage::NamedField { .. }));
    assert_eq!(p.nick, Some("My value".to_string()));
    assert!(p.notify && p.connect_notify && !p.borrow);
    assert_eq!(p.custom_method_path(false), Some("my_value".to_string()));
    assert_eq!(p.custom_method_path(true), None);
    assert_eq!(p.setter_name(), "set_my_value");
    assert!(!p.is_inherited() && !p.is_abstract() && !p.is_set_inline());
}

#[test]
fn unnamed_field_and_storage() {
    let mut a = attrs();
    a.name = Some((3, "count".to_string()));
    a.get = Some((2, PropertyPermission::Allow));
    assert!(matches!(a.storage(2, TypeBase::Class), PropertyStorage::UnnamedField { index: 2 }));
    assert!(matches!(a.storage(2, TypeBase::Interface), PropertyStorage::InterfaceAbstract));
    let b = attrs();
    match b.name(4) {
        PropertyName::Field { ident } => assert_eq!(ident, "UNNAMED4"),
        _ => panic!("an unnamed field is named after its index"),
    }
    let mut c = attrs();
    c.override_iface = Some((1, "Iface".to_string()));
    assert!(matches!(c.override_(), Some(PropertyOverride::Interface { .. })));
}

#[test]
fn duplicate_property_names() {
    let mut a = named("value");
    a.get = Some((2, PropertyPermission::Allow));
    let mut b = attrs();
    b.name = Some((7, "value".to_string()));
    b.get = Some((8, PropertyPermission::Allow));
    let fields = vec![
        PropertyField { attrs: a, span: 10, has_attr: true },
        PropertyField { attrs: b, span: 11, has_attr: true },
        PropertyField { attrs: named("ignored"), span: 12, has_attr: false },
    ];
    let mut e = Errors::new();
    let (props, kept) = collect_properties(fields, 0, false, TypeBase::Class, &mut e);
    assert_eq!(messages(&e), vec![(7, "Duplicate definition for property `value`".to_string())]);
    assert_eq!(props.len(), 2);
    assert_eq!(kept, vec![true, true, true]);
}

#[test]
fn properties_struct_options() {
    let mut e = Errors::new();
    assert!(struct_options(None, Some(1u32), Some(2), &mut e) == TypeBase::Interface);
    assert!(struct_options(None, None, None, &mut e) == TypeBase::Class);
    assert!(struct_options(Some(TypeBase::Class), Some(3), Some(4), &mut e) == TypeBase::Class);
    assert_eq!(messages(&e), vec![(1, "`final_type` not allowed here".to_string()), (4, "`interface` not allowed here".to_string())]);
}
