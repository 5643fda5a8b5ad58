use gobject::blockify::{ClosureBody, DefaultAction};
use gobject::closure_syntax::parse_closure;

fn error_of(text: &str) -> (usize, String) {
    match parse_closure(text) {
        Ok(_) => panic!("expected a syntax error for {:?}", text),
        Err(e) => (e.at, e.message),
    }
}

#[test]
fn captures_in_order() {
    let c = parse_closure("@strong a, @weak self.obj as o, @weak-allow-none b => x").unwrap();
    assert_eq!(c.strong.len(), 1);
    assert_eq!(c.strong[0].ident, "a");
    assert_eq!(c.strong[0].from, None);
    assert_eq!(c.weak.len(), 2);
    assert_eq!(c.weak[0].ident, "o");
    assert_eq!(c.weak[0].from.as_deref(), Some("self.obj"));
    assert!(!c.weak[0].allow_none);
    assert_eq!(c.weak[1].ident, "b");
    assert!(c.weak[1].allow_none);
    assert!(c.watch.is_none());
    assert!(c.action.is_none());
    assert!(matches!(c.body, ClosureBody::Other));
}

#[test]
fn watch_and_spacing_and_comments() {
    let c = parse_closure(" @watch  self . label /* kept */ as l , // note\n @strong r#type => y").unwrap();
    let w = c.watch.unwrap();
    assert_eq!(w.ident, "l");
    assert_eq!(w.from.as_deref(), Some("self . label"));
    assert_eq!(c.strong[0].ident, "r#type");
}

#[test]
fn default_actions() {
    let c = parse_closure("@weak a => @default-return 5 + 1, async move { a }").unwrap();
    match c.action {
        Some(DefaultAction::Return { expr }) => assert_eq!(expr.as_deref(), Some("5 + 1")),
        _ => panic!("a default return"),
    }
    match c.body {
        ClosureBody::Async { attrs, block } => {
            assert!(attrs.is_empty());
            assert_eq!(block.as_deref(), Some("{ a }"));
        }
        _ => panic!("an async block"),
    }
    let c = parse_closure("@weak a => @default-panic, || ()").unwrap();
    assert!(matches!(c.action, Some(DefaultAction::Panic)));
}

#[test]
fn closure_body_parts() {
    let c = parse_closure("@weak w => move |a, b: u32| -> u32 { a + b }").unwrap();
    match c.body {
        ClosureBody::Closure { attrs, movability, asyncness, capture, inputs, output, body } => {
            assert!(attrs.is_empty());
            assert_eq!(movability, None);
            assert_eq!(asyncness, None);
            assert_eq!(capture.as_deref(), Some("move"));
            assert_eq!(inputs, vec![Some("a".to_string()), Some("b: u32".to_string())]);
            assert_eq!(output.as_deref(), Some("u32"));
            assert_eq!(body.as_deref(), Some("{ a + b }"));
        }
        _ => panic!("a closure"),
    }
}

#[test]
fn syntax_errors() {
    assert_eq!(error_of("@foo a => x"), (1, "Unknown capture type".to_string()));
    assert_eq!(error_of("@strong a.b => x"), (9, "unexpected token".to_string()));
    assert_eq!(error_of("@strong self => x"), (8, "expected identifier".to_string()));
    assert_eq!(error_of("@strong a x"), (10, "expected `,` or `=>`".to_string()));
    assert_eq!(error_of("@watch a, @watch b => x"), (17, "Duplicate `watch` capture".to_string()));
    assert_eq!(error_of("@weak a => @default-nothing, x"), (12, "Unknown keyword".to_string()));
    assert_eq!(error_of("@weak a => @default-panic x"), (26, "expected `,`".to_string()));
    assert_eq!(error_of("@strong => x"), (8, "expected identifier".to_string()));
    assert_eq!(error_of("@weak a =>"), (10, "expected expression".to_string()));
    assert_eq!(error_of("@weak a => x y"), (13, "unexpected token".to_string()));
    assert_eq!(error_of("@weak- => x"), (7, "expected identifier".to_string()));
    assert_eq!(error_of("@strong a- => x"), (9, "expected `,` or `=>`".to_string()));
}
