use gobject::templates::{
    check_children, report_template_children, scan_template_ids, template_element_id,
    CallbackInput, FieldInput, FieldRef, TemplateCallback, TemplateCallbackAttrs, TemplateChild,
    TemplateChildAttrs, TemplateSource,
};
use gobject::type_definition::TypeMode;
use gobject::util::Errors;

fn messages(e: &Errors<u32>) -> Vec<(u32, String)> {
    e.errors.iter().map(|d| (d.span, d.message.clone())).collect()
}

fn child(id: &str, span: u32) -> TemplateChild<u32> {
    TemplateChild { id: id.to_string(), span, internal: false, field: FieldRef::Index(0) }
}

#[test]
fn field_binds_child_by_name_or_id() {
    let mut children = Vec::new();
    let mut errors = Errors::new();
    TemplateChild::from_field(
        FieldInput { ident: Some((1, "button".to_string())), span: 2 },
        0,
        TemplateChildAttrs { id: None, internal: true },
        &mut children,
        &mut errors,
    );
    TemplateChild::from_field(
        FieldInput { ident: None, span: 3 },
        1,
        TemplateChildAttrs { id: Some((4, "label".to_string())), internal: false },
        &mut children,
        &mut errors,
    );
    TemplateChild::from_field(
        FieldInput { ident: Some((5, "other".to_string())), span: 6 },
        2,
        TemplateChildAttrs { id: Some((7, "button".to_string())), internal: false },
        &mut children,
        &mut errors,
    );
    TemplateChild::from_field(FieldInput { ident: None, span: 8 }, 3, TemplateChildAttrs { id: None, internal: false }, &mut children, &mut errors);
    assert_eq!(children.len(), 3);
    assert_eq!(children[0].id, "button");
    assert!(children[0].internal);
    assert!(matches!(&children[0].field, FieldRef::Named(n) if n == "button"));
    assert!(matches!(children[1].field, FieldRef::Index(1)));
    assert_eq!(children[2].span, 7);
    assert_eq!(
        messages(&errors),
        vec![
            (7, "Duplicate template child with id `button`".to_string()),
            (8, "Unnamed field must have #[template_child(id = \"...\")]".to_string()),
        ]
    );
}

#[test]
fn callback_checks() {
    let mut callbacks = vec![TemplateCallback { name: "clicked".to_string(), rest_index: None, mode: TypeMode::Subclass, function: false }];
    let m = CallbackInput {
        ident: "on_click".to_string(),
        ident_span: 1,
        async_output: Some(2),
        receiver_mut: Some(3),
        rest: vec![None, Some((false, 4)), Some((true, 5))],
    };
    let attrs = TemplateCallbackAttrs { name: Some((6, "clicked".to_string())), function: None };
    let mut errors = Errors::new();
    TemplateCallback::from_method(&m, &attrs, TypeMode::Wrapper, true, &mut callbacks, &mut errors);
    assert_eq!(callbacks.len(), 2);
    assert_eq!(callbacks[1].name, "clicked");
    assert_eq!(callbacks[1].rest_index, Some(1));
    assert!(callbacks[1].function);
    assert_eq!(
        messages(&errors),
        vec![
            (6, "Duplicate template callback with name `clicked`".to_string()),
            (2, "Return value not allowed on async template callbacks".to_string()),
            (3, "Template callback receiver cannot be `&mut self`".to_string()),
            (4, "Unknown tokens on #[rest] attribute".to_string()),
        ]
    );
}

#[test]
fn element_ids() {
    let attrs = vec![None, Some((b"class".to_vec(), b"GtkBox".to_vec())), Some((b"id".to_vec(), b"main".to_vec()))];
    assert_eq!(template_element_id(&b"object".to_vec(), &attrs), Some("main".to_string()));
    assert_eq!(template_element_id(&b"template".to_vec(), &attrs), Some("main".to_string()));
    assert_eq!(template_element_id(&b"child".to_vec(), &attrs), None);
    let bad = vec![Some((b"id".to_vec(), vec![0xff]))];
    assert_eq!(template_element_id(&b"object".to_vec(), &bad), None);
}

#[test]
fn scanning_an_inline_template() {
    let xml = r#"<interface><template class="MyWidget" parent="GtkBox"><child><object class="GtkButton" id="button"/></child><object id="label"></object></template></interface>"#;
    let (ids, error) = scan_template_ids(xml);
    assert_eq!(ids, vec!["button".to_string(), "label".to_string()]);
    assert!(error.is_none());
    let (_, error) = scan_template_ids("<interface><object id=\"a\"></interface>");
    assert!(error.is_some());
}

#[test]
fn missing_children_are_reported_once() {
    let children = vec![child("a", 1), child("b", 2), child("a", 3), child("c", 4)];
    let mut errors = Errors::new();
    report_template_children(&children, &vec!["c".to_string()], Some((12, "Eof".to_string())), 9, &mut errors);
    assert_eq!(
        messages(&errors),
        vec![
            (9, "Failed reading template XML at position 12: Eof".to_string()),
            (3, "Template child with id `a` not found in template XML".to_string()),
            (2, "Template child with id `b` not found in template XML".to_string()),
        ]
    );
}

#[test]
fn check_children_reads_inline_templates_only() {
    let children = vec![child("button", 1), child("missing", 2)];
    let mut errors = Errors::new();
    let source = TemplateSource::String(5, "<interface><object id=\"button\"/></interface>".to_string());
    check_children(&source, &children, &mut errors);
    assert_eq!(messages(&errors), vec![(2, "Template child with id `missing` not found in template XML".to_string())]);
    let mut errors = Errors::new();
    check_children(&TemplateSource::File(5, "widget.ui".to_string()), &children, &mut errors);
    assert!(errors.errors.is_empty());
}
