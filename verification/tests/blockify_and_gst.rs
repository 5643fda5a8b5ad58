use gobject::blockify::{
    apply_replacements, classify_macro, convert_closure, default_action, format_parse_error,
    item_replacements, CaptureError, CaptureKind, Closure, ClosureBody, ConvertError, DefaultAction,
    Replacement, StrongCapture, WeakCapture,
};
use gobject::gst::{
    check_pad_templates, pad_name_of, Direction, PadTemplate, PadTemplateError, PadTemplateItem,
    PadTemplates, Presence, Rank,
};

fn closure_body(inputs: Vec<&str>, body: &str) -> ClosureBody {
    ClosureBody::Closure {
        attrs: vec![],
        movability: None,
        asyncness: None,
        capture: None,
        inputs: inputs.into_iter().map(|s| Some(s.to_string())).collect(),
        output: None,
        body: Some(body.to_string()),
    }
}

fn weak(ident: &str, allow_none: bool) -> WeakCapture {
    WeakCapture { ident: ident.to_string(), from: None, allow_none }
}

#[test]
fn clone_with_strong_and_weak() {
    let c = Closure {
        watch: None,
        strong: vec![StrongCapture { ident: "label".to_string(), from: Some("self.label".to_string()) }],
        weak: vec![weak("obj", false)],
        action: None,
        body: closure_body(vec!["x"], "{ x }"),
    };
    assert_eq!(
        c.to_string(None, false),
        "|x, #[strong(self.label)] label, #[weak(or_return)] obj| { x }"
    );
}

#[test]
fn default_action_written_for_many_weaks() {
    let c = Closure {
        watch: None,
        strong: vec![],
        weak: vec![weak("a", false), weak("b", false), weak("c", true)],
        action: Some(DefaultAction::Panic),
        body: closure_body(vec![], "{}"),
    };
    assert_eq!(
        c.to_string(Some(false), false),
        "#[closure] #[default_panic] |#[weak] a, #[weak] b, #[weak(allow_none)] c| {}"
    );
}

#[test]
fn default_return_without_action() {
    let c = Closure {
        watch: Some(StrongCapture { ident: "w".to_string(), from: None }),
        strong: vec![],
        weak: vec![weak("a", false), weak("b", false)],
        action: None,
        body: closure_body(vec![], "{}"),
    };
    assert_eq!(
        c.to_string(Some(true), false),
        "#[default_return] |#[watch] w, #[weak] a, #[weak] b| {}"
    );
}

#[test]
fn async_block_and_return_value() {
    let c = Closure {
        watch: None,
        strong: vec![],
        weak: vec![weak("a", false)],
        action: Some(DefaultAction::Return { expr: Some("false".to_string()) }),
        body: ClosureBody::Async { attrs: vec!["#[allow(unused)]".to_string()], block: Some("async {}".to_string()) },
    };
    assert_eq!(c.to_string(None, false), "#[allow(unused)] move |#[weak(or_return false)] a| async {}");
}

#[test]
fn unsupported_bodies() {
    let c = Closure { watch: None, strong: vec![], weak: vec![], action: None, body: ClosureBody::Other };
    assert_eq!(convert_closure(&c, None, false), Err("Unsupported expression type".to_string()));
    let a = Closure {
        watch: None,
        strong: vec![],
        weak: vec![],
        action: None,
        body: ClosureBody::Async { attrs: vec![], block: Some("async {}".to_string()) },
    };
    assert_eq!(convert_closure(&a, Some(false), false), Err("Unsupported expression type".to_string()));
    assert_eq!(convert_closure(&a, None, false), Ok("move || async {}".to_string()));
}

#[test]
fn capture_keywords() {
    assert!(matches!(CaptureKind::from_keyword("weak-allow-none"), Ok(CaptureKind::WeakAllowNone)));
    assert_eq!(CaptureKind::from_keyword("soft").err(), Some("Unknown capture type".to_string()));
    assert!(matches!(default_action("default-panic", None), Ok(DefaultAction::Panic)));
    assert_eq!(default_action("default-maybe", None).err(), Some("Unknown keyword".to_string()));
    assert_eq!(classify_macro("glib::closure_local"), Some(Some(true)));
    assert_eq!(classify_macro("clone"), Some(None));
    assert_eq!(classify_macro("println"), None);
}

#[test]
fn duplicate_watch_capture() {
    let mut c = Closure { watch: None, strong: vec![], weak: vec![], action: None, body: ClosureBody::Other };
    assert!(c.add_capture(CaptureKind::Watch, "a".to_string(), None).is_ok());
    match c.add_capture(CaptureKind::Watch, "b".to_string(), None) {
        Err(CaptureError::DuplicateWatch { ident }) => assert_eq!(ident, "b"),
        _ => panic!("a second watch capture is refused"),
    }
    assert!(c.add_capture(CaptureKind::Strong, "s".to_string(), None).is_ok());
    assert_eq!(c.strong.len(), 1);
}

#[test]
fn replacements_applied_in_place() {
    let reps = vec![
        Replacement { start: 0, end: 0, text: "#[gobject::clone_block]\n".to_string() },
        Replacement { start: 4, end: 9, text: "X".to_string() },
        Replacement { start: 12, end: 14, text: "YY".to_string() },
    ];
    assert_eq!(apply_replacements("fn f() { a(); }", &reps), "#[gobject::clone_block]\nfn fXa()YY}");
    let items = item_replacements(7, vec![Replacement { start: 9, end: 10, text: "z".to_string() }]);
    assert_eq!(items.len(), 2);
    assert_eq!((items[0].start, items[0].end), (7, 7));
    assert_eq!(items[0].text, "#[gobject::clone_block]\n");
    assert!(item_replacements(7, vec![]).is_empty());
}

#[test]
fn parse_error_and_convert_error_messages() {
    assert_eq!(format_parse_error(3, 4, "expected `,`", "let x = y"), "3:4: expected `,`\nlet x = y\n    ^");
    let e = ConvertError::new("bad input".to_string(), "src/lib.rs".to_string());
    assert_eq!(e.to_string(), "Failed to convert src/lib.rs: bad input");
}

fn template(presence: Option<Presence>, direction: Option<Direction>, caps: Option<&str>) -> PadTemplate {
    PadTemplate { presence, direction, caps: caps.map(|c| c.to_string()), name: None }
}

fn item(ident: &str, t: PadTemplate, caps_error: Option<&str>) -> PadTemplateItem {
    PadTemplateItem::List { segments: 1, ident: ident.to_string(), template: Ok(t), caps_error: caps_error.map(|c| c.to_string()) }
}

#[test]
fn pad_templates_from_list() {
    let items = vec![
        item("src__u", template(Some(Presence::Request), None, Some("video/x-raw")), None),
        item("sink", template(Some(Presence::Always), None, None), None),
    ];
    let ts = PadTemplates::from_list(items).ok().unwrap();
    assert_eq!(ts.0.len(), 2);
    assert_eq!(ts.0[0].name, Some("src_%u".to_string()));
    assert!(ts.0[0].direction == Some(Direction::Src));
    assert!(ts.0[1].direction == Some(Direction::Sink));
    let d = ts.0[1].descriptor();
    assert_eq!((d.0.as_str(), d.1.as_str(), d.2, d.3), ("sink", "ANY", "gst::PadDirection::Sink", "gst::PadPresence::Always"));
    assert_eq!(check_pad_templates(true, &ts).is_some(), true);
    assert!(check_pad_templates(false, &ts).is_none());
    assert!(check_pad_templates(true, &PadTemplates::new(vec![])).is_none());
    assert!(PadTemplates::default().0.is_empty());
    assert!(check_pad_templates(true, &PadTemplates::default()).is_none());
}

#[test]
fn pad_template_errors() {
    let r = PadTemplates::from_list(vec![item("other", template(Some(Presence::Always), None, None), None)]);
    assert!(matches!(r, Err(PadTemplateError::Custom { message }) if message == "invalid 'value' for 'direction'"));
    let r = PadTemplates::from_list(vec![item("src", template(None, None, None), None)]);
    assert!(matches!(r, Err(PadTemplateError::MissingField { field }) if field == "presence"));
    let r = PadTemplates::from_list(vec![item("src", template(Some(Presence::Always), None, Some("bad")), Some("BoolError"))]);
    assert!(matches!(r, Err(PadTemplateError::Custom { message }) if message == "invalid 'caps': 'BoolError'"));
    let r = PadTemplates::from_list(vec![PadTemplateItem::Other]);
    assert!(matches!(r, Err(PadTemplateError::UnexpectedType { ty }) if ty == "non-word"));
    let r = PadTemplates::from_list(vec![PadTemplateItem::List {
        segments: 2,
        ident: "a".to_string(),
        template: Ok(template(None, None, None)),
        caps_error: None,
    }]);
    assert!(matches!(r, Err(PadTemplateError::UnknownField { field }) if field == "Expected 'pad_template'"));
}

#[test]
fn ranks_and_names() {
    assert!(Rank::from_name("primary") == Some(Rank::Primary));
    assert!(Rank::from_name("best").is_none());
    assert_eq!(Rank::Unranked.to_gst_toks(), "gst::Rank::None");
    assert_eq!(pad_name_of("sink___x"), "sink_%_x");
    assert!(Direction::default() == Direction::Src);
}
