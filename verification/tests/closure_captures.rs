use gobject::closures::{
    is_simple_expr, ExprShape,
    extract_default_fail_action, extract_idents, get_captures, plan_async, plan_closure,
    plan_gclosure, required_arg_count, set_default_fail, take_rest, validate_captures, AttrArgs,
    Capture, CaptureList, FailAction, Ident, Kind, Mode, Param, Pat,
};
use gobject::util::{Attribute, Errors};

type Args = AttrArgs<u32, u32>;

fn args(span: u32) -> Args {
    AttrArgs {
        span,
        empty: Ok(()),
        source: Ok(None),
        weak: Ok((None, None)),
        ret: Ok(None),
        list_errors: Vec::new(),
        list: Ok(CaptureList { local: false, captures: Vec::new(), or: None }),
    }
}

fn attr(name: &str, item: Args) -> Attribute<Args> {
    Attribute { ident: Some(name.to_string()), item }
}

fn ident(span: u32, name: &str) -> Ident<u32> {
    Ident { span, name: name.to_string() }
}

fn param(span: u32, attrs: Vec<Attribute<Args>>, pat: Pat<u32>) -> Param<u32, u32> {
    Param { span, attrs: Some(attrs), pat }
}

fn messages(e: &Errors<u32>) -> Vec<(u32, String)> {
    e.errors.iter().map(|d| (d.span, d.message.clone())).collect()
}

fn names(c: &[Capture<u32, u32>]) -> Vec<Option<String>> {
    c.iter().map(|c| c.ident.as_ref().map(|i| i.name.clone())).collect()
}

fn strong(name: &str, span: u32) -> Capture<u32, u32> {
    Capture { kind: Kind::Strong, span, ident: Some(ident(span, name)), from: None, or: None }
}

#[test]
fn idents_of_nested_patterns() {
    let pat = Pat::Nested(vec![
        Pat::Ident(ident(1, "a")),
        Pat::Wild,
        Pat::Nested(vec![Pat::Ident(ident(2, "b")), Pat::Other]),
    ]);
    let mut out = vec!["x".to_string()];
    extract_idents(&pat, &mut out);
    assert_eq!(out, vec!["x", "a", "b"]);
}

#[test]
fn capture_parameters_are_taken_out() {
    let mut weak_args = args(30);
    weak_args.weak = Ok((Some(9), Some(FailAction::Panic)));
    let mut inputs = vec![
        param(1, vec![attr("strong", args(10))], Pat::Ident(ident(11, "a"))),
        param(2, vec![attr("other", args(20))], Pat::Ident(ident(21, "x"))),
        param(3, vec![attr("weak", weak_args), attr("doc", args(31))], Pat::Wild),
        param(4, vec![attr("watch", args(40))], Pat::Ident(ident(41, "w"))),
    ];
    let mut errors = Errors::new();
    let caps = get_captures(&mut inputs, Mode::Clone, &mut errors).unwrap();
    assert_eq!(caps.len(), 2);
    assert!(caps[0].kind == Kind::Strong);
    assert_eq!(names(&caps), vec![Some("a".to_string()), None]);
    assert!(caps[1].kind == Kind::Weak);
    assert_eq!(caps[1].from, Some(9));
    assert!(caps[1].or == Some(FailAction::Panic));
    assert_eq!(inputs.len(), 2);
    assert_eq!(inputs[0].span, 2);
    assert_eq!(inputs[1].span, 4);
    assert_eq!(
        messages(&errors),
        vec![(31, "Extra attributes not allowed on #[strong] or #[weak] or #[watch] capture".to_string())]
    );
}

#[test]
fn watch_is_a_capture_only_for_glib_closures() {
    let mut inputs = vec![param(4, vec![attr("watch", args(40))], Pat::Ident(ident(41, "w")))];
    let mut errors = Errors::new();
    let caps = get_captures(&mut inputs, Mode::Closure, &mut errors).unwrap();
    assert!(caps[0].kind == Kind::Watch);
    assert!(inputs.is_empty());
    assert!(errors.errors.is_empty());
}

#[test]
fn unnamed_capture_without_source_is_reported() {
    let mut bad = args(50);
    bad.source = Err((52, "expected expression".to_string()));
    let mut inputs = vec![
        param(5, vec![attr("strong", bad)], Pat::Nested(vec![])),
        param(6, vec![attr("weak", args(60))], Pat::Wild),
    ];
    let mut errors = Errors::new();
    let caps = get_captures(&mut inputs, Mode::Clone, &mut errors);
    assert!(caps.is_none());
    assert!(inputs.is_empty());
    assert_eq!(
        messages(&errors),
        vec![
            (52, "expected expression".to_string()),
            (5, "Pattern for captured variable must be an identifier".to_string()),
            (50, "capture must be named or provide a source expression using #[strong(...)]".to_string()),
            (60, "capture must be named or provide a source expression using #[weak(...)]".to_string()),
        ]
    );
}

#[test]
fn duplicate_names_and_watches_are_reported() {
    let captures = vec![
        strong("a", 1),
        Capture { kind: Kind::Watch, span: 2, ident: Some(ident(2, "w")), from: None, or: None },
        Capture { kind: Kind::Watch, span: 3, ident: Some(ident(3, "x")), from: None, or: None },
        strong("a", 4),
    ];
    let inputs = vec![param(9, vec![], Pat::Nested(vec![Pat::Ident(ident(8, "x"))]))];
    let mut errors = Errors::new();
    validate_captures(&captures, &inputs, &mut errors);
    assert_eq!(
        messages(&errors),
        vec![
            (3, "Only one #[watch] attribute is allowed on closure".to_string()),
            (3, "Identifier `x` is used more than once in this parameter list".to_string()),
            (4, "Identifier `a` is used more than once in this parameter list".to_string()),
        ]
    );
}

#[test]
fn default_actions_are_read_in_order() {
    let mut ret = args(3);
    ret.ret = Ok(Some(77));
    let mut attrs = vec![attr("default_return", ret), attr("inline", args(2)), attr("default_panic", args(1))];
    let mut action = None;
    let mut errors = Errors::new();
    extract_default_fail_action(&mut attrs, &mut action, &mut errors);
    assert!(action == Some(FailAction::Return(Some(77))));
    assert_eq!(attrs.len(), 1);
    assert_eq!(attrs[0].ident.as_deref(), Some("inline"));
    assert_eq!(messages(&errors), vec![(3, "Duplicate default action specified".to_string())]);
}

#[test]
fn unreadable_default_return_stops_reading() {
    let mut bad = args(5);
    bad.ret = Err((6, "expected expression".to_string()));
    let mut junk = args(7);
    junk.empty = Err((8, "unexpected token".to_string()));
    let mut attrs = vec![attr("default_return", bad), attr("default_return", args(9)), attr("default_allow_none", junk)];
    let mut action = Some(FailAction::Panic);
    let mut errors = Errors::new();
    extract_default_fail_action(&mut attrs, &mut action, &mut errors);
    assert!(action == Some(FailAction::AllowNone));
    assert_eq!(attrs.len(), 1);
    assert_eq!(attrs[0].item.span, 9);
    assert_eq!(
        messages(&errors),
        vec![
            (8, "unexpected token".to_string()),
            (7, "Duplicate default action specified".to_string()),
            (6, "expected expression".to_string()),
        ]
    );
}

#[test]
fn default_action_reaches_weak_captures_only() {
    let mut caps = vec![
        strong("a", 1),
        Capture { kind: Kind::Weak, span: 2, ident: Some(ident(2, "b")), from: None, or: None },
        Capture { kind: Kind::Weak, span: 3, ident: Some(ident(3, "c")), from: None, or: Some(FailAction::Panic) },
    ];
    set_default_fail(&mut caps, FailAction::AllowNone);
    assert!(caps[0].or.is_none());
    assert!(caps[1].or == Some(FailAction::AllowNone));
    assert!(caps[2].or == Some(FailAction::Panic));
}

#[test]
fn rest_parameter_drops_the_ones_after_it() {
    let mut rest = args(21);
    rest.empty = Err((22, "unexpected token".to_string()));
    let mut inputs = vec![
        param(1, vec![], Pat::Ident(ident(1, "a"))),
        param(2, vec![attr("rest", rest), attr("doc", args(23))], Pat::Ident(ident(2, "b"))),
        param(3, vec![], Pat::Wild),
        param(4, vec![], Pat::Ident(ident(4, "d"))),
    ];
    let mut errors = Errors::new();
    let r = take_rest(&mut inputs, &mut errors);
    assert_eq!(r, Some(1));
    assert_eq!(inputs.len(), 2);
    assert_eq!(inputs[1].attrs.as_ref().unwrap().len(), 1);
    assert_eq!(
        messages(&errors),
        vec![
            (22, "Unknown tokens on #[rest] attribute".to_string()),
            (3, "Arguments not allowed past #[rest] parameter".to_string()),
            (4, "Arguments not allowed past #[rest] parameter".to_string()),
        ]
    );
    assert_eq!(required_arg_count(&inputs, r), 1);
}

#[test]
fn required_arguments_skip_trailing_wildcards() {
    let inputs = vec![
        param(1, vec![], Pat::Wild),
        param(2, vec![], Pat::Ident(ident(2, "b"))),
        param(3, vec![], Pat::Wild),
    ];
    assert_eq!(required_arg_count(&inputs, None), 2);
    assert_eq!(required_arg_count(&inputs, Some(1)), 0);
    assert_eq!(required_arg_count(&Vec::<Param<u32, u32>>::new(), None), 0);
}

#[test]
fn gclosure_needs_closure_attribute_or_watch() {
    let mut errors = Errors::new();
    let inputs = vec![param(1, vec![attr("strong", args(10))], Pat::Ident(ident(1, "a")))];
    let plan = plan_gclosure(vec![attr("inline", args(0))], inputs, false, true, 0, &mut errors);
    assert!(plan.is_none());
    assert!(errors.errors.is_empty());
}

#[test]
fn gclosure_plan_reads_lists_and_parameters() {
    let mut list = args(5);
    list.list = Ok(CaptureList { local: true, captures: vec![strong("obj", 6)], or: Some((7, FailAction::Panic)) });
    let inputs = vec![
        param(1, vec![attr("weak", args(10))], Pat::Ident(ident(11, "w"))),
        param(2, vec![], Pat::Ident(ident(12, "x"))),
    ];
    let mut errors = Errors::new();
    let plan = plan_gclosure(vec![attr("closure", list)], inputs, true, false, 99, &mut errors).unwrap();
    assert!(plan.local);
    assert!(plan.mode == Mode::ClosureAsync);
    assert_eq!(names(&plan.captures), vec![Some("obj".to_string()), Some("w".to_string())]);
    assert!(plan.captures[1].or == Some(FailAction::Panic));
    assert_eq!(plan.inputs.len(), 1);
    assert_eq!(plan.rest_index, None);
    assert_eq!(plan.required_arg_count, 1);
    assert_eq!(
        messages(&errors),
        vec![(99, "Closure must be `move` to use #[watch] or #[strong] or #[weak]".to_string())]
    );
}

#[test]
fn gclosure_without_closure_attribute_is_local() {
    let inputs = vec![param(1, vec![attr("watch", args(10))], Pat::Ident(ident(11, "obj")))];
    let mut errors = Errors::new();
    let plan = plan_gclosure(vec![], inputs, false, true, 0, &mut errors).unwrap();
    assert!(plan.local);
    assert!(plan.mode == Mode::Closure);
    assert_eq!(plan.captures.len(), 1);
    assert!(errors.errors.is_empty());
}

#[test]
fn clone_closure_must_be_move() {
    let inputs = vec![param(1, vec![attr("strong", args(10))], Pat::Ident(ident(11, "a")))];
    let mut errors = Errors::new();
    let plan = plan_closure(vec![attr("default_allow_none", args(3))], inputs, false, 42, &mut errors).unwrap();
    assert_eq!(plan.captures.len(), 1);
    assert!(plan.attrs.is_empty());
    assert_eq!(
        messages(&errors),
        vec![(42, "Closure must be `move` to use #[strong] or #[weak]".to_string())]
    );
    let mut errors = Errors::new();
    assert!(plan_closure(vec![], vec![param(1, vec![], Pat::Wild)], true, 0, &mut errors).is_none());
}

#[test]
fn async_block_reads_clone_lists() {
    let mut first = args(1);
    first.list = Ok(CaptureList {
        local: false,
        captures: vec![Capture { kind: Kind::Weak, span: 2, ident: Some(ident(2, "a")), from: None, or: None }],
        or: Some((3, FailAction::AllowNone)),
    });
    let mut second = args(4);
    second.list_errors = vec![(5, "Duplicate default action specified".to_string())];
    second.list = Err((6, "expected `,`".to_string()));
    let mut errors = Errors::new();
    let plan = plan_async(vec![attr("clone", first), attr("clone", second)], true, 0, &mut errors).unwrap();
    assert!(plan.captures[0].or == Some(FailAction::AllowNone));
    assert_eq!(
        messages(&errors),
        vec![
            (5, "Duplicate default action specified".to_string()),
            (6, "expected `,`".to_string()),
        ]
    );
    let mut errors = Errors::new();
    assert!(plan_async::<u32, u32>(vec![], true, 0, &mut errors).is_none());
}

#[test]
fn simple_expressions() {
    let field = ExprShape::Field(Box::new(ExprShape::Path));
    assert!(is_simple_expr(&ExprShape::Reference(Box::new(field))));
    let index = ExprShape::Index(Box::new(ExprShape::Path), Box::new(ExprShape::Lit));
    assert!(is_simple_expr(&ExprShape::Cast(Box::new(index))));
    let call = ExprShape::Paren(Box::new(ExprShape::Other));
    assert!(!is_simple_expr(&call));
    assert!(!is_simple_expr(&ExprShape::Index(Box::new(ExprShape::Path), Box::new(ExprShape::Other))));
}
