use gobject::util::Errors;
use gobject::variant_derive::{
    parent_key, plan_variant, FieldRoles, FieldVariantAttrs, VariantAttrs, VariantProp,
};

fn no_attrs() -> FieldVariantAttrs<u32> {
    FieldVariantAttrs { skip: None, skip_to: None, skip_from: None, with: None, variant_type: None, variant_type_str: None, to: None, from: None }
}

fn prop(span: u32, getter: &str, readable: bool, writable: bool) -> VariantProp<u32> {
    VariantProp {
        span,
        class_override: false,
        attrs: no_attrs(),
        readable,
        writable,
        getter: getter.to_string(),
        renames: Vec::new(),
        aliases: Vec::new(),
    }
}

fn attrs(to: bool, from: bool, dict: bool) -> VariantAttrs<u32> {
    VariantAttrs { span: Some(1), to, from, dict, skip_parent: false, has_child_types: false }
}

fn messages(e: &Errors<u32>) -> Vec<(u32, String)> {
    e.errors.iter().map(|d| (d.span, d.message.clone())).collect()
}

#[test]
fn variant_needs_a_direction() {
    let mut errors = Errors::new();
    assert!(plan_variant(&attrs(false, false, false), &vec![], true, false, &mut errors).is_none());
    assert_eq!(messages(&errors), vec![(1, "Must have at least one of these attributes: `to`, `from`".to_string())]);
    let mut errors: Errors<u32> = Errors::new();
    let none = VariantAttrs { span: None, to: false, from: false, dict: false, skip_parent: false, has_child_types: true };
    assert!(plan_variant(&none, &vec![], true, false, &mut errors).is_none());
    assert!(errors.errors.is_empty());
}

#[test]
fn tuple_roles_and_mismatches() {
    let mut skipped = prop(3, "hidden", true, true);
    skipped.attrs.skip = Some(30);
    let mut override_ = prop(4, "inherited", true, true);
    override_.class_override = true;
    let props = vec![prop(2, "count", true, true), skipped, override_, prop(5, "label", true, false), prop(6, "size", true, true)];
    let mut errors = Errors::new();
    let plan = plan_variant(&attrs(true, true, false), &props, true, true, &mut errors).unwrap();
    assert!(plan.roles[0] == Some(FieldRoles { in_type: true, written: true, read_at: Some(1) }));
    assert!(plan.roles[1].is_none());
    assert!(plan.roles[2].is_none());
    assert!(plan.roles[3] == Some(FieldRoles { in_type: false, written: true, read_at: None }));
    assert!(plan.roles[4] == Some(FieldRoles { in_type: true, written: true, read_at: Some(3) }));
    assert!(plan.parent_name.is_none());
    assert!(!plan.tagged);
    assert_eq!(
        messages(&errors),
        vec![(5, "Property for variant differs in readability/writability. Try using #[variant(skip)] on the property, or #[variant(dict)] on the class".to_string())]
    );
}

#[test]
fn option_conflicts_are_reported() {
    let mut p = prop(2, "count", true, true);
    p.attrs.skip_to = Some(7);
    p.attrs.with = Some(8);
    p.attrs.from = Some(9);
    let mut errors = Errors::new();
    plan_variant(&attrs(true, false, true), &vec![p], false, false, &mut errors).unwrap();
    let m = messages(&errors);
    assert_eq!(m.len(), 2);
    assert_eq!(m[0].0, 8);
    assert_eq!(m[1].0, 9);
}

#[test]
fn dictionary_parent_key_avoids_taken_names() {
    let mut renamed = prop(2, "x", true, true);
    renamed.renames = vec!["parent".to_string()];
    let mut aliased = prop(3, "y", true, true);
    aliased.aliases = vec!["_parent".to_string()];
    let getter = prop(4, "__parent", true, true);
    let mut hidden = prop(5, "___parent", true, true);
    hidden.renames = vec!["other".to_string()];
    let props = vec![renamed, aliased, getter, hidden];
    assert_eq!(parent_key(&props), "___parent");
    let mut errors = Errors::new();
    let mut a = attrs(true, true, true);
    a.has_child_types = true;
    let plan = plan_variant(&a, &props, true, false, &mut errors).unwrap();
    assert_eq!(plan.parent_name.as_deref(), Some("___parent"));
    assert!(plan.tagged);
    assert!(errors.errors.is_empty());
    assert_eq!(parent_key::<u32>(&vec![]), "parent");
}
