use gobject::blockify::convert_closure;
use gobject::closure_syntax::parse_closure;
use gobject::convert::convert_source;

#[test]
fn converts_a_clone_call() {
    let src = "fn f() {\n    let c = clone!(@weak obj => move |x| { x });\n}\n";
    let rewritten = convert_closure(&parse_closure("@weak obj => move |x| { x }").unwrap(), None, false).unwrap();
    let expected = format!("#[gobject::clone_block]\nfn f() {{\n    let c = {};\n}}\n", rewritten);
    assert_eq!(convert_source(src, false), Ok(Some(expected)));
}

#[test]
fn nothing_to_convert() {
    assert_eq!(convert_source("fn f() { println!(\"x\"); }\n", false), Ok(None));
    assert_eq!(convert_source("", false), Ok(None));
}

#[test]
fn reports_argument_errors_where_they_are() {
    let src = "fn f() { clone!(@foo a => x); }";
    let expected = format!("1:17: Unknown capture type\n{}\n{}^\n", src, " ".repeat(17));
    assert_eq!(convert_source(src, false), Err(expected));
}

#[test]
fn reports_unsupported_bodies_at_the_call() {
    let src = "fn f() {\n  closure!(@weak a => x);\n}";
    let expected = "2:2: Unsupported expression type\n  closure!(@weak a => x);\n  ^\n".to_string();
    assert_eq!(convert_source(src, false), Err(expected));
}

#[test]
fn reports_parse_errors() {
    let r = convert_source("fn f( {", false);
    assert!(r.is_err());
    assert!(r.unwrap_err().starts_with("1:"));
}
