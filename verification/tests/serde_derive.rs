use gobject::serde_derive::{parent_field_name, plan_serde, GetterUse, SerdeAttrs, SerdeGetter, SerdeProp};

fn prop(field: &str, readable: bool, writable: bool) -> SerdeProp {
    SerdeProp {
        class_override: false,
        serde_skip: false,
        field_name: field.to_string(),
        readable,
        writable,
        getter: SerdeGetter::Method,
        has_getter_attr: false,
    }
}

#[test]
fn nothing_to_plan_without_a_direction() {
    let attrs = SerdeAttrs { serialize: false, deserialize: false, skip_parent: false, has_child_types: false };
    assert!(plan_serde(&attrs, "Thing", None, false, &vec![], true, true).is_none());
}

#[test]
fn serialized_properties_and_name() {
    let mut skipped = prop("parent", true, true);
    skipped.serde_skip = true;
    let mut overridden = prop("_parent", true, true);
    overridden.class_override = true;
    let props = vec![prop("count", true, false), skipped, overridden, prop("label", false, true)];
    let attrs = SerdeAttrs { serialize: true, deserialize: true, skip_parent: false, has_child_types: false };
    let plan = plan_serde(&attrs, "Widget", Some("My"), false, &props, true, true).unwrap();
    assert_eq!(plan.rename.as_deref(), Some("MyWidget"));
    assert_eq!(plan.serialized, vec![true, false, false, false]);
    assert_eq!(plan.deserialized, vec![false, false, false, true]);
    assert_eq!(plan.parent_name, "parent");
    assert!(plan.parent_field);
    assert!(matches!(plan.getters[0], Some(GetterUse::ExtTrait)));
    assert!(plan.getters[1].is_none() && plan.getters[2].is_none() && plan.getters[3].is_none());
    let plan = plan_serde(&SerdeAttrs { serialize: true, deserialize: false, skip_parent: false, has_child_types: false }, "Widget", None, true, &props, false, false).unwrap();
    assert!(!plan.parent_field);
    assert!(matches!(plan.getters[0], Some(GetterUse::Wrapper)));
    assert!(plan.rename.is_none());
    assert_eq!(plan.deserialized, vec![false, false, false, false]);
}

#[test]
fn parent_field_avoids_property_fields() {
    let props = vec![prop("parent", true, true), prop("_parent", true, true)];
    assert_eq!(parent_field_name(&props), "__parent");
}

#[test]
fn getters_of_serialized_properties() {
    let mut by_name = prop("a", true, true);
    by_name.getter = SerdeGetter::ByName;
    let mut custom = prop("b", true, true);
    custom.getter = SerdeGetter::Custom("Self::get_b".to_string());
    let mut given = prop("c", true, true);
    given.has_getter_attr = true;
    let attrs = SerdeAttrs { serialize: true, deserialize: false, skip_parent: true, has_child_types: false };
    let plan = plan_serde(&attrs, "Thing", None, false, &vec![by_name, custom, given], true, true).unwrap();
    assert!(!plan.parent_field);
    assert!(matches!(plan.getters[0], Some(GetterUse::ByName)));
    assert!(matches!(&plan.getters[1], Some(GetterUse::Custom(p)) if p == "Self::get_b"));
    assert!(plan.getters[2].is_none());
}
