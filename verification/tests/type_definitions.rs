use gobject::type_definition::{
    select_items, type_ident, type_visibility_of, ModuleItem, TypeBase, TypeDefinition, TypeMode,
    TypePath, Visibility,
};
use gobject::util::Errors;
use gobject::members::MemberInput;
fn no_members() -> MemberInput<u32> {
    MemberInput { fields: vec![], pod: false, blocks: vec![] }
}


fn path(segments: &[&str]) -> TypePath {
    TypePath { leading_colon: false, segments: segments.iter().map(|s| s.to_string()).collect() }
}

fn strukt(ident: &str, has_properties: bool) -> ModuleItem {
    ModuleItem::Struct { ident: ident.to_string(), vis: Visibility::Inherited, has_properties }
}

fn imp(segments: &[&str], has_methods: bool) -> ModuleItem {
    ModuleItem::Impl { is_trait: false, self_ty: Some(path(segments)), has_methods, methods: Vec::new() }
}

fn restricted(segments: &[&str]) -> Visibility {
    Visibility::Restricted {
        explicit_in: false,
        path: segments.iter().map(|s| s.to_string()).collect(),
    }
}

fn restricted_in(segments: &[&str]) -> Visibility {
    Visibility::Restricted {
        explicit_in: true,
        path: segments.iter().map(|s| s.to_string()).collect(),
    }
}

#[test]
fn type_ident_accepts_plain_and_super_paths() {
    assert_eq!(type_ident(&Some(path(&["Foo"]))), Some("Foo".to_string()));
    assert_eq!(type_ident(&Some(path(&["super", "Foo"]))), Some("Foo".to_string()));
    assert_eq!(type_ident(&Some(path(&["crate", "Foo"]))), None);
    assert_eq!(type_ident(&Some(path(&["a", "b", "Foo"]))), None);
    let rooted = TypePath { leading_colon: true, segments: vec!["Foo".to_string()] };
    assert_eq!(type_ident(&Some(rooted)), None);
    assert_eq!(type_ident(&None), None);
}

#[test]
fn named_selection_takes_matching_struct_and_impls() {
    let items = vec![
        strukt("Other", true),
        strukt("Foo", false),
        imp(&["Foo"], false),
        ModuleItem::Impl { is_trait: true, self_ty: Some(path(&["Foo"])), has_methods: false, methods: Vec::new() },
        imp(&["super", "Foo"], true),
        imp(&["Bar"], true),
        strukt("Foo", true),
    ];
    let sel = select_items(&items, Some("Foo".to_string()));
    assert_eq!(sel.name, Some("Foo".to_string()));
    assert_eq!(sel.properties, Some((1, false)));
    assert_eq!(sel.methods, vec![2, 4]);
}

#[test]
fn unnamed_selection_prefers_struct_with_properties() {
    let items = vec![
        strukt("First", false),
        imp(&["Second"], false),
        strukt("Second", true),
        imp(&["First"], true),
    ];
    let sel = select_items(&items, None);
    assert_eq!(sel.name, Some("Second".to_string()));
    assert_eq!(sel.properties, Some((2, true)));
    assert_eq!(sel.methods, vec![1]);
}

#[test]
fn unnamed_selection_falls_back_to_first_struct() {
    let items = vec![imp(&["A"], false), strukt("A", false), strukt("B", false)];
    let sel = select_items(&items, None);
    assert_eq!(sel.name, Some("A".to_string()));
    assert_eq!(sel.properties, Some((1, false)));
    assert_eq!(sel.methods, vec![0]);
}

#[test]
fn unnamed_selection_without_struct_reads_impl_with_methods_first() {
    let items = vec![
        imp(&["Foo"], false),
        ModuleItem::Other,
        imp(&["super", "Foo"], true),
        imp(&["Foo"], false),
        imp(&["Bar"], false),
    ];
    let sel = select_items(&items, None);
    assert_eq!(sel.name, Some("Foo".to_string()));
    assert_eq!(sel.properties, None);
    assert_eq!(sel.methods, vec![2, 0, 3]);
}

#[test]
fn unnamed_selection_without_anything() {
    let items = vec![
        ModuleItem::Other,
        ModuleItem::Impl { is_trait: false, self_ty: None, has_methods: true, methods: Vec::new() },
    ];
    let sel = select_items(&items, None);
    assert_eq!(sel.name, None);
    assert_eq!(sel.properties, None);
    assert!(sel.methods.is_empty());
}

fn view(v: &Visibility) -> String {
    match v {
        Visibility::Inherited => "".to_string(),
        Visibility::Public => "pub".to_string(),
        Visibility::Crate => "crate".to_string(),
        Visibility::Restricted { explicit_in, path } => {
            format!("pub({}{})", if *explicit_in { "in " } else { "" }, path.join("::"))
        }
    }
}

#[test]
fn private_struct_becomes_visible_to_parent() {
    let (vis, inner, strukt_vis) = type_visibility_of(&Visibility::Public, Some(&Visibility::Inherited));
    assert_eq!(view(&vis), "");
    assert_eq!(view(&inner), "pub(super)");
    assert_eq!(view(&strukt_vis.unwrap()), "pub(super)");
    let (vis, inner, _) = type_visibility_of(&Visibility::Public, Some(&restricted(&["self"])));
    assert_eq!(view(&vis), "");
    assert_eq!(view(&inner), "pub(super)");
}

#[test]
fn struct_visible_in_super_path() {
    let (vis, inner, strukt_vis) =
        type_visibility_of(&Visibility::Inherited, Some(&restricted_in(&["super", "super"])));
    assert_eq!(view(&vis), "pub(in super)");
    assert_eq!(view(&inner), "pub(in super::super)");
    assert_eq!(view(&strukt_vis.unwrap()), "pub(in super::super)");
    let (vis, inner, _) = type_visibility_of(&Visibility::Inherited, Some(&restricted(&["super"])));
    assert_eq!(view(&vis), "pub(super)");
    assert_eq!(view(&inner), "pub(super)");
    let (vis, inner, _) = type_visibility_of(&Visibility::Inherited, Some(&Visibility::Public));
    assert_eq!(view(&vis), "pub");
    assert_eq!(view(&inner), "pub");
}

#[test]
fn module_visibility_without_struct() {
    let (vis, inner, strukt_vis) = type_visibility_of(&Visibility::Inherited, None);
    assert_eq!(view(&vis), "");
    assert_eq!(view(&inner), "pub(super)");
    assert!(strukt_vis.is_none());
    let (vis, inner, _) = type_visibility_of(&restricted(&["super"]), None);
    assert_eq!(view(&vis), "pub(super)");
    assert_eq!(view(&inner), "pub(in super::super)");
    let (vis, inner, _) = type_visibility_of(&Visibility::Crate, None);
    assert_eq!(view(&vis), "crate");
    assert_eq!(view(&inner), "crate");
}

#[test]
fn parse_without_body_reports_error() {
    let mut errors = Errors::new();
    let def = TypeDefinition::parse("my_object", &Visibility::Public, &None, TypeBase::Class, None, 7u32, no_members(), &mut errors);
    assert_eq!(def.name, "MyObject");
    assert_eq!(errors.errors.len(), 1);
    assert_eq!(errors.errors[0].span, 7);
    assert_eq!(errors.errors[0].message, "Module must have a body to use the class macro");
    assert_eq!(view(&def.vis), "");
    assert_eq!(view(&def.inner_vis), "pub(super)");
    assert!(def.methods_item_indices.is_empty());
}

#[test]
fn parse_reads_items_and_modes() {
    let items = vec![
        ModuleItem::Struct { ident: "Obj".to_string(), vis: Visibility::Public, has_properties: true },
        imp(&["Obj"], true),
        imp(&["super", "Obj"], false),
    ];
    let mut errors = Errors::new();
    let def = TypeDefinition::parse("module", &Visibility::Inherited, &Some(items), TypeBase::Interface, None, 0u32, no_members(), &mut errors);
    assert!(errors.errors.is_empty());
    assert_eq!(def.name, "Obj");
    assert_eq!(def.properties_item_index, Some(0));
    assert!(def.properties_explicit);
    assert_eq!(view(&def.vis), "pub");
    assert_eq!(view(&def.inner_vis), "pub");
    assert_eq!(def.methods_item_indices, vec![1, 2]);
    assert!(def.method_modes == vec![TypeMode::Subclass, TypeMode::Wrapper]);
}

#[test]
fn parse_names_type_after_module_when_nothing_names_it() {
    let mut errors = Errors::new();
    let def = TypeDefinition::parse("fancy_widget", &Visibility::Inherited, &Some(vec![ModuleItem::Other]), TypeBase::Class, None, 0u32, no_members(), &mut errors);
    assert_eq!(def.name, "FancyWidget");
    assert!(def.properties_item_index.is_none());
    assert!(def.methods_item_indices.is_empty());
}

#[test]
fn finding_methods_by_mode() {
    let with_methods = |segments: &[&str], names: &[&str]| ModuleItem::Impl {
        is_trait: false,
        self_ty: Some(path(segments)),
        has_methods: false,
        methods: names.iter().map(|s| s.to_string()).collect(),
    };
    let items = vec![
        strukt("Obj", true),
        with_methods(&["Obj"], &["new", "init"]),
        with_methods(&["super", "Obj"], &["init", "frob"]),
        with_methods(&["Other"], &["frob"]),
    ];
    let mut errors = Errors::new();
    let def = TypeDefinition::parse("m", &Visibility::Inherited, &Some(rebuild(&items)), TypeBase::Class, None, 0u32, no_members(), &mut errors);
    assert_eq!(def.find_method(&items, TypeMode::Subclass, "init"), Some((1, 1)));
    assert_eq!(def.find_method(&items, TypeMode::Wrapper, "init"), Some((2, 0)));
    assert_eq!(def.find_method(&items, TypeMode::Subclass, "frob"), None);
    assert!(def.has_method(&items, TypeMode::Wrapper, "frob"));
    assert!(!def.has_method(&items, TypeMode::Wrapper, "new"));
}

fn rebuild(items: &[ModuleItem]) -> Vec<ModuleItem> {
    items
        .iter()
        .map(|it| match it {
            ModuleItem::Struct { ident, has_properties, .. } => {
                ModuleItem::Struct { ident: ident.clone(), vis: Visibility::Inherited, has_properties: *has_properties }
            }
            ModuleItem::Impl { is_trait, self_ty, has_methods, methods } => ModuleItem::Impl {
                is_trait: *is_trait,
                self_ty: self_ty.as_ref().map(|p| TypePath { leading_colon: p.leading_colon, segments: p.segments.clone() }),
                has_methods: *has_methods,
                methods: methods.clone(),
            },
            ModuleItem::Other => ModuleItem::Other,
        })
        .collect()
}
