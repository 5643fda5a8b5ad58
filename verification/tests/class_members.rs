use gobject::definitions::{ClassAttrs, ClassDefinition};
use gobject::members::{BlockInput, MemberInput};
use gobject::methods::VirtualInput;
use gobject::property::{PropertyAttrs, PropertyField, PropertyPermission};
use gobject::signal::{HandlerInput, SignalAttrs};
use gobject::type_definition::{ModuleItem, TypeMode, TypePath, Visibility};
use gobject::util::Errors;

fn class_attrs() -> ClassAttrs<u32> {
    ClassAttrs {
        name: None,
        ns: None,
        class: None,
        ext_trait: None,
        impl_trait: None,
        impl_ext_trait: None,
        parent_trait: None,
        wrapper: None,
        abstract_: None,
        final_: None,
        extends: Vec::new(),
        implements: Vec::new(),
        inherits: Vec::new(),
        sync: false,
    }
}

fn field(span: u32, ident: &str) -> PropertyAttrs<u32> {
    PropertyAttrs {
        ident: Some((span, ident.to_string())),
        skip: None,
        get: None,
        set: None,
        borrow: None,
        construct: None,
        construct_only: None,
        lax_validation: None,
        user: [None; 8],
        explicit_notify: None,
        deprecated: None,
        notify: None,
        connect_notify: None,
        name: None,
        nick: None,
        blurb: None,
        enum_: None,
        flags: None,
        boxed: None,
        object: None,
        computed: None,
        storage: None,
        abstract_: None,
        override_class: None,
        override_iface: None,
        builder: None,
    }
}

fn get_set(span: u32, ident: &str) -> PropertyAttrs<u32> {
    let mut a = field(span, ident);
    a.get = Some((span, PropertyPermission::Allow));
    a.set = Some((span, PropertyPermission::Allow));
    a
}

fn property(attrs: PropertyAttrs<u32>, span: u32) -> PropertyField<u32> {
    PropertyField { attrs, span, has_attr: true }
}

fn methods_impl(name: &str, has_methods: bool, methods: &[&str]) -> ModuleItem {
    ModuleItem::Impl {
        is_trait: false,
        self_ty: Some(TypePath { leading_colon: false, segments: vec![name.to_string()] }),
        has_methods,
        methods: methods.iter().map(|m| m.to_string()).collect(),
    }
}

fn messages(e: &Errors<u32>) -> Vec<(u32, String)> {
    e.errors.iter().map(|d| (d.span, d.message.clone())).collect()
}

#[test]
fn properties_properties() {
    let items = vec![
        ModuleItem::Other,
        ModuleItem::Struct { ident: "BasicProps".to_string(), vis: Visibility::Public, has_properties: true },
        ModuleItem::Struct { ident: "BasicPropsInner".to_string(), vis: Visibility::Inherited, has_properties: false },
        methods_impl(
            "BasicProps",
            true,
            &["constructed", "my_custom_accessors", "set_my_custom_accessors", "my_computed_prop", "set_my_computed_prop"],
        ),
    ];
    let mut fields = Vec::new();
    let mut readable = field(10, "readable_i32");
    readable.get = Some((10, PropertyPermission::Allow));
    fields.push(property(readable, 10));
    let mut writable = field(11, "writable_i32");
    writable.set = Some((11, PropertyPermission::Allow));
    fields.push(property(writable, 11));
    fields.push(property(get_set(12, "my_i32"), 12));
    let mut my_str = get_set(13, "my_str");
    my_str.borrow = Some(13);
    fields.push(property(my_str, 13));
    fields.push(property(get_set(14, "my_mutex"), 14));
    fields.push(property(get_set(15, "my_rw_lock"), 15));
    let mut attributed = get_set(16, "my_attributed");
    attributed.construct = Some((16, true));
    attributed.name = Some((16, "my-u8".to_string()));
    attributed.nick = Some((16, "My U8".to_string()));
    attributed.blurb = Some((16, "A uint8".to_string()));
    attributed.builder = Some(16);
    fields.push(property(attributed, 16));
    let mut construct_only = get_set(17, "my_construct_only");
    construct_only.construct_only = Some((17, true));
    construct_only.builder = Some(17);
    fields.push(property(construct_only, 17));
    for (span, ident, co) in [(18, "my_explicit", false), (19, "my_auto_set", false), (20, "my_auto_set_co", true)] {
        let mut a = get_set(span, ident);
        a.explicit_notify = Some((span, true));
        a.lax_validation = Some((span, true));
        if co {
            a.construct_only = Some((span, true));
        }
        fields.push(property(a, span));
    }
    let mut custom = field(21, "my_custom_accessors");
    custom.get = Some((21, PropertyPermission::AllowCustomDefault));
    custom.set = Some((21, PropertyPermission::AllowCustomDefault));
    custom.explicit_notify = Some((21, true));
    custom.lax_validation = Some((21, true));
    fields.push(property(custom, 21));
    let mut computed = get_set(22, "my_computed_prop");
    computed.computed = Some(22);
    computed.explicit_notify = Some((22, true));
    fields.push(property(computed, 22));
    let mut delegate = get_set(23, "my_delegate");
    delegate.storage = Some((23, "inner.my_bool".to_string()));
    fields.push(property(delegate, 23));
    let mut no_defaults = get_set(24, "my_no_defaults");
    no_defaults.notify = Some(false);
    no_defaults.connect_notify = Some(false);
    fields.push(property(no_defaults, 24));
    fields.push(PropertyField { attrs: field(25, "inner"), span: 25, has_attr: false });
    let members = MemberInput {
        fields,
        pod: false,
        blocks: vec![BlockInput { mode: TypeMode::Subclass, handlers: vec![], virtuals: vec![None, None, None, None, None] }],
    };
    let mut errors = Errors::new();
    let mut attrs = class_attrs();
    attrs.final_ = Some(1);
    let c = ClassDefinition::parse("basic", &Visibility::Inherited, &Some(items), attrs, members, &vec![], 0, &mut errors);
    assert_eq!(messages(&errors), vec![]);
    assert!(c.final_);
    assert!(c.ext_trait.is_none());
    assert_eq!(c.inner.name, "BasicProps");
    assert_eq!(c.inner.properties_item_index, Some(1));
    assert_eq!(c.inner.members.properties.len(), 15);
    assert_eq!(c.inner.members.kept_fields.len(), 16);
    assert!(c.inner.members.signals.is_empty());
    assert!(c.inner.members.virtual_methods.is_empty());
}

#[test]
fn virtual_methods_properties() {
    let items = vec![
        ModuleItem::Other,
        ModuleItem::Struct { ident: "ObjDerivable".to_string(), vis: Visibility::Public, has_properties: false },
        methods_impl("ObjDerivable", false, &["abc", "virtual_concat"]),
    ];
    let mut abstract_prop = get_set(10, "my_prop");
    abstract_prop.abstract_ = Some(10);
    let signal_attrs = SignalAttrs {
        run_first: false,
        run_last: false,
        run_cleanup: false,
        no_recurse: false,
        detailed: false,
        action: false,
        no_hooks: false,
        must_collect: false,
        deprecated: false,
        override_: false,
        connect: None,
        name: None,
    };
    let abc = HandlerInput { ident: "abc".to_string(), span: 20, attrs: signal_attrs, receiver: Some(21), has_body: true, has_output: true };
    let concat = VirtualInput { tokens: None, asyncness: None, inputs_span: 30, inputs_empty: false, receiver: Some(31) };
    let members = MemberInput {
        fields: vec![property(abstract_prop, 10)],
        pod: false,
        blocks: vec![BlockInput { mode: TypeMode::Subclass, handlers: vec![abc], virtuals: vec![None, Some(concat)] }],
    };
    let mut errors = Errors::new();
    let mut attrs = class_attrs();
    attrs.abstract_ = Some(1);
    let c = ClassDefinition::parse("obj_abstract", &Visibility::Inherited, &Some(items), attrs, members, &vec![30], 0, &mut errors);
    assert_eq!(messages(&errors), vec![]);
    assert!(c.abstract_ && !c.final_);
    assert_eq!(c.inner.name, "ObjDerivable");
    assert_eq!(c.ext_trait.as_deref(), Some("ObjDerivableExt"));
    assert_eq!(c.impl_trait.as_deref(), Some("ObjDerivableImpl"));
    assert_eq!(c.inner.members.properties.len(), 1);
    assert_eq!(c.inner.members.signals.len(), 1);
    assert_eq!(c.inner.members.signals[0].name, "abc");
    assert_eq!(c.inner.members.virtual_methods.len(), 1);
}

#[test]
fn members_report_duplicate_signals_across_blocks() {
    let signal_attrs = || SignalAttrs {
        run_first: false,
        run_last: false,
        run_cleanup: false,
        no_recurse: false,
        detailed: false,
        action: false,
        no_hooks: false,
        must_collect: false,
        deprecated: false,
        override_: false,
        connect: None,
        name: None,
    };
    let first = HandlerInput { ident: "changed".to_string(), span: 20, attrs: signal_attrs(), receiver: None, has_body: false, has_output: false };
    let second = HandlerInput { ident: "changed".to_string(), span: 40, attrs: signal_attrs(), receiver: None, has_body: false, has_output: false };
    let members = MemberInput {
        fields: vec![],
        pod: false,
        blocks: vec![
            BlockInput { mode: TypeMode::Subclass, handlers: vec![first], virtuals: vec![] },
            BlockInput { mode: TypeMode::Wrapper, handlers: vec![second], virtuals: vec![] },
        ],
    };
    let mut errors = Errors::new();
    let c = ClassDefinition::parse("thing", &Visibility::Inherited, &Some(vec![]), class_attrs(), members, &vec![], 0, &mut errors);
    assert_eq!(messages(&errors), vec![(40, "Duplicate definition for signal `changed`".to_string())]);
    assert_eq!(c.inner.members.signals.len(), 1);
}
