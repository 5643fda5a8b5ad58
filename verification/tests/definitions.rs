use gobject::definitions::{ClassAttrs, ClassDefinition, ElementDefinition, InterfaceAttrs, InterfaceDefinition};
use gobject::type_definition::{Concurrency, ModuleItem, Visibility};
use gobject::util::Errors;
use gobject::members::MemberInput;
fn no_members() -> MemberInput<u32> {
    MemberInput { fields: vec![], pod: false, blocks: vec![] }
}


fn class_attrs() -> ClassAttrs<u32> {
    ClassAttrs {
        name: None,
        ns: None,
        class: None,
        ext_trait: None,
        impl_trait: None,
        impl_ext_trait: None,
        parent_trait: None,
        wrapper: None,
        abstract_: None,
        final_: None,
        extends: Vec::new(),
        implements: Vec::new(),
        inherits: Vec::new(),
        sync: false,
    }
}

fn items(name: &str) -> Option<Vec<ModuleItem>> {
    Some(vec![ModuleItem::Struct { ident: name.to_string(), vis: Visibility::Inherited, has_properties: false }])
}

fn messages(e: &Errors<u32>) -> Vec<(u32, String)> {
    e.errors.iter().map(|d| (d.span, d.message.clone())).collect()
}

#[test]
fn class_names_default_from_type_name() {
    let mut errors = Errors::new();
    let mut a = class_attrs();
    a.sync = true;
    a.implements = vec!["gio::ListModel".to_string()];
    let c = ClassDefinition::parse("imp", &Visibility::Public, &items("Counter"), a, no_members(), &vec![], 0, &mut errors);
    assert_eq!(c.inner.name, "Counter");
    assert!(c.inner.concurrency == Concurrency::SendSync);
    assert_eq!(c.class, "CounterClass");
    assert_eq!(c.ext_trait.as_deref(), Some("CounterExt"));
    assert_eq!(c.impl_trait.as_deref(), Some("CounterImpl"));
    assert_eq!(c.impl_ext_trait.as_deref(), Some("CounterImplExt"));
    assert!(c.wrapper);
    assert_eq!(c.implements, vec!["gio::ListModel".to_string()]);
    assert!(errors.errors.is_empty());
}

#[test]
fn final_class_has_no_traits_and_no_virtual_methods() {
    let mut errors = Errors::new();
    let mut a = class_attrs();
    a.final_ = Some(3);
    a.abstract_ = Some(2);
    a.class = Some("Klass".to_string());
    a.extends = vec![(9, "gtk::Widget".to_string())];
    let c = ClassDefinition::parse("imp", &Visibility::Public, &items("Thing"), a, no_members(), &vec![5, 6], 0, &mut errors);
    assert!(c.final_ && c.abstract_);
    assert_eq!(c.class, "Klass");
    assert!(c.ext_trait.is_none() && c.impl_trait.is_none() && c.impl_ext_trait.is_none());
    assert_eq!(c.extends, vec!["gtk::Widget".to_string()]);
    let m = messages(&errors);
    assert_eq!(m.len(), 4);
    assert_eq!(m[0].0, 2);
    assert_eq!(m[1].0, 3);
    assert_eq!(m[2], (5, "Virtual method not allowed on final class".to_string()));
    assert_eq!(m[3], (6, "Virtual method not allowed on final class".to_string()));
}

#[test]
fn derivable_class_extending_needs_parent_trait() {
    let mut errors = Errors::new();
    let mut a = class_attrs();
    a.extends = vec![(9, "gtk::Widget".to_string()), (10, "gtk::Buildable".to_string())];
    ClassDefinition::parse("imp", &Visibility::Public, &items("Thing"), a, no_members(), &vec![5], 0, &mut errors);
    assert_eq!(messages(&errors), vec![(9, "Derivable class must specify `parent_trait` when using `extends`".to_string())]);
}

#[test]
fn interface_names() {
    let mut errors = Errors::new();
    let a = InterfaceAttrs {
        name: Some("Shape".to_string()),
        ns: Some("Geo".to_string()),
        ext_trait: None,
        impl_trait: Some("ShapeImplementation".to_string()),
        impl_ext_trait: None,
        parent_trait: None,
        wrapper: Some(false),
        prerequisites: vec!["glib::Object".to_string()],
        sync: false,
    };
    let i = InterfaceDefinition::parse("shape", &Visibility::Public, &Some(vec![]), a, no_members(), 0, &mut errors);
    assert_eq!(i.inner.name, "Shape");
    assert_eq!(i.ext_trait, "ShapeExt");
    assert_eq!(i.impl_trait, "ShapeImplementation");
    assert_eq!(i.impl_ext_trait, "ShapeImplExt");
    assert!(!i.wrapper);
    assert_eq!(i.prerequisites, vec!["glib::Object".to_string()]);
    assert!(errors.errors.is_empty());
}

#[test]
fn element_extends_gstreamer_types() {
    let mut errors = Errors::new();
    let mut a = class_attrs();
    a.extends = vec![(9, "gst_base::BaseSrc".to_string())];
    let e = ElementDefinition::parse("imp", &Visibility::Public, &items("Source"), a, no_members(), "gobject", &vec![], 0, &mut errors);
    assert_eq!(
        e.class.extends,
        vec!["gst_base::BaseSrc".to_string(), "gobject::gst::Element".to_string(), "gobject::gst::Object".to_string()]
    );
    assert_eq!(e.class.parent_trait.as_deref(), Some("gobject::gst::subclass::prelude::GstObjectImpl"));
    assert_eq!(messages(&errors), vec![(9, "Derivable class must specify `parent_trait` when using `extends`".to_string())]);
    let mut a = class_attrs();
    a.parent_trait = Some("MyImpl".to_string());
    let e = ElementDefinition::parse("imp", &Visibility::Public, &items("Sink"), a, no_members(), "go", &vec![], 0, &mut errors);
    assert_eq!(e.class.parent_trait.as_deref(), Some("MyImpl"));
}
