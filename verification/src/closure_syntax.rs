//! The argument syntax of `clone!` and `closure!`: captures `@kind path[.field]* [as ident]`
//! separated by `,` and ended by `=>`, then an optional default action
//! `@default-panic,` or `@default-return expr,`, then the body expression.
//!
//! The text is read as Rust tokens: whitespace and comments separate them. Where an
//! expression stands, how far it reaches is what `syn` parses there.
use vstd::prelude::*;
use vstd::string::StringExecFns;
use crate::blockify::{
    capture_kind, default_action, opt_view, CaptureError, CaptureKind, Closure, ClosureBody, DefaultAction,
    StrongCapture, WeakCapture,
};
use crate::text::str_eq;
use proc_macro2::fallback::{force, unforce};
use proc_macro2::{LineColumn, Span, TokenStream};
use syn::parse::{ParseStream, Parser};
use syn::spanned::Spanned;
use syn::{parse_str, Expr, ReturnType};

verus! {

/// A line and column of `proc_macro2`: the line counted from 1, the column in characters
/// counted from 0.
#[verifier::external_type_specification]
pub struct ExLineColumn(proc_macro2::LineColumn);

/// Where a part of an expression stands: its start and its end.
pub type TokenSpan = (LineColumn, LineColumn);

/// Parts of a closure expression that the rewriting needs, each by where it stands: its
/// attributes, `static`, `async`, `move` and the body.
pub struct ClosureParts {
    pub attrs: Vec<TokenSpan>,
    pub movability: Option<TokenSpan>,
    pub asyncness: Option<TokenSpan>,
    pub capture: Option<TokenSpan>,
    pub body: TokenSpan,
}

/// Where the expression (`syn::Expr`) that `syn` parses at the start of `text` ends, if
/// one can be parsed there. The positions in these names are those of proc-macro2's own
/// implementation (forced while the text is parsed): lines and columns within `text`.
pub uninterp spec fn rust_expr_end(text: Seq<char>) -> Option<LineColumn>;

/// Where the attributes and the block of `text` stand, when `syn` parses the whole of
/// `text` as an `async` block (`syn::Expr::Async`).
pub uninterp spec fn rust_async(text: Seq<char>) -> Option<(Seq<TokenSpan>, TokenSpan)>;

/// The parts of `text`, when `syn` parses the whole of `text` as a closure
/// (`syn::Expr::Closure`).
pub uninterp spec fn rust_closure(text: Seq<char>) -> Option<ClosureParts>;

/// Where each argument pattern and the return type of `text` stand, when `syn` parses the
/// whole of `text` as a closure.
pub uninterp spec fn rust_closure_signature(text: Seq<char>) -> Option<(Seq<TokenSpan>, Option<TokenSpan>)>;

/// `syn::parse::Parser::parse_str` with a parser that reads one `syn::Expr` and leaves the
/// rest: where the expression ends, or nothing where none can be read (or the text does
/// not split into Rust tokens). The text is parsed with proc-macro2's own implementation
/// forced (`proc_macro2::fallback::force`, undone by `unforce` after the parse), whose
/// positions are lines and columns within the text, whether or not the process runs a
/// procedural macro. The result is named `rust_expr_end`.
#[verifier::external_body]
fn expr_end(text: &str) -> (r: Option<LineColumn>)
    ensures
        r == rust_expr_end(text@),
{
    force();
    let parsed = (|i: ParseStream<'_>| {
        let e: Expr = i.parse()?;
        i.parse::<TokenStream>()?;
        Ok(e.span().end())
    }).parse_str(text);
    unforce();
    parsed.ok()
}

/// `syn::parse_str::<syn::Expr>`, with proc-macro2's own implementation forced as in
/// `expr_end`: where the attributes and the block stand, when the whole text is an
/// `async` block. The result is named `rust_async`.
#[verifier::external_body]
fn async_parts(text: &str) -> (r: Option<(Vec<TokenSpan>, TokenSpan)>)
    ensures
        match r {
            Some((attrs, block)) => rust_async(text@) == Some((attrs@, block)),
            None => rust_async(text@) is None,
        },
{
    let se = |s: Span| (s.start(), s.end());
    force();
    let parsed = parse_str(text);
    unforce();
    match parsed.ok()? {
        Expr::Async(a) => Some((a.attrs.iter().map(|x| se(x.span())).collect(), se(a.block.span()))),
        _ => None,
    }
}

/// `syn::parse_str::<syn::Expr>`, with proc-macro2's own implementation forced as in
/// `expr_end`: where the parts stand, when the whole text is a closure. The result is
/// named `rust_closure`.
#[verifier::external_body]
fn closure_parts(text: &str) -> (r: Option<ClosureParts>)
    ensures
        r == rust_closure(text@),
{
    let se = |s: Span| (s.start(), s.end());
    force();
    let parsed = parse_str(text);
    unforce();
    let Expr::Closure(c) = parsed.ok()? else { return None };
    Some(ClosureParts {
        attrs: c.attrs.iter().map(|x| se(x.span())).collect(),
        movability: c.movability.map(|x| se(x.span)),
        asyncness: c.asyncness.map(|x| se(x.span)),
        capture: c.capture.map(|x| se(x.span)),
        body: se(c.body.span()),
    })
}

/// `syn::parse_str::<syn::Expr>`, with proc-macro2's own implementation forced as in
/// `expr_end`: where the argument patterns and the return type stand, when the whole text
/// is a closure. The result is named `rust_closure_signature`.
#[verifier::external_body]
fn closure_signature(text: &str) -> (r: Option<(Vec<TokenSpan>, Option<TokenSpan>)>)
    ensures
        match r {
            Some((inputs, output)) => rust_closure_signature(text@) == Some((inputs@, output)),
            None => rust_closure_signature(text@) is None,
        },
{
    let se = |s: Span| (s.start(), s.end());
    force();
    let parsed = parse_str(text);
    unforce();
    let Expr::Closure(c) = parsed.ok()? else { return None };
    let output = match c.output { ReturnType::Type(_, t) => Some(se(t.span())), _ => None };
    Some((c.inputs.iter().map(|x| se(x.span())).collect(), output))
}

// ---------------------------------------------------------------------------------------
// Tokens

/// Whitespace between Rust tokens.
pub open spec fn rust_ws(c: char) -> bool {
    c == ' ' || c == '\t' || c == '\n' || c == '\r' || c == '\x0B' || c == '\x0C' || c == '\u{85}'
        || c == '\u{200E}' || c == '\u{200F}' || c == '\u{2028}' || c == '\u{2029}'
}

/// A character that can start an identifier: an ASCII letter, `_`, or a character beyond
/// ASCII that is no whitespace.
pub open spec fn ident_start(c: char) -> bool {
    ('a' <= c && c <= 'z') || ('A' <= c && c <= 'Z') || c == '_' || (c > '\x7f' && !rust_ws(c))
}

pub open spec fn ident_continue(c: char) -> bool {
    ident_start(c) || ('0' <= c && c <= '9')
}

/// `t` holds `a` and then `b` at `i`.
pub open spec fn pair(t: Seq<char>, i: int, a: char, b: char) -> bool {
    0 <= i && i + 1 < t.len() && t[i] == a && t[i + 1] == b
}

/// The position of the first token at or after `i`, skipping whitespace and comments;
/// `depth` is how many block comments are open, `line` whether a line comment is.
pub open spec fn skip_from(t: Seq<char>, i: int, depth: nat, line: bool) -> int
    decreases t.len() - i,
{
    if i < 0 || i >= t.len() {
        i
    } else if line {
        skip_from(t, i + 1, 0, t[i] != '\n')
    } else if depth > 0 {
        if pair(t, i, '*', '/') {
            skip_from(t, i + 2, (depth - 1) as nat, false)
        } else if pair(t, i, '/', '*') {
            skip_from(t, i + 2, depth + 1, false)
        } else {
            skip_from(t, i + 1, depth, false)
        }
    } else if rust_ws(t[i]) {
        skip_from(t, i + 1, 0, false)
    } else if pair(t, i, '/', '/') {
        skip_from(t, i + 2, 0, true)
    } else if pair(t, i, '/', '*') {
        skip_from(t, i + 2, 1, false)
    } else {
        i
    }
}

pub open spec fn skip(t: Seq<char>, i: int) -> int {
    skip_from(t, i, 0, false)
}

/// The end of the identifier characters from `i` on.
pub open spec fn ident_end(t: Seq<char>, i: int) -> int
    decreases t.len() - i,
{
    if 0 <= i < t.len() && ident_continue(t[i]) {
        ident_end(t, i + 1)
    } else {
        i
    }
}

/// The end of the identifier (or raw identifier `r#...`) at `i`, if one is there.
pub open spec fn ident_at(t: Seq<char>, i: int) -> Option<int> {
    if pair(t, i, 'r', '#') && i + 2 < t.len() && ident_start(t[i + 2]) {
        Some(ident_end(t, i + 3))
    } else if 0 <= i < t.len() && ident_start(t[i]) {
        Some(ident_end(t, i + 1))
    } else {
        None
    }
}

/// A word that `syn` does not take as an identifier.
pub open spec fn keyword(w: Seq<char>) -> bool {
    w == "_"@ || w == "abstract"@ || w == "as"@ || w == "become"@ || w == "box"@ || w == "break"@
        || w == "const"@ || w == "continue"@ || w == "crate"@ || w == "do"@ || w == "else"@
        || w == "enum"@ || w == "extern"@ || w == "false"@ || w == "final"@ || w == "fn"@
        || w == "for"@ || w == "if"@ || w == "impl"@ || w == "in"@ || w == "let"@ || w == "loop"@
        || w == "macro"@ || w == "match"@ || w == "mod"@ || w == "move"@ || w == "mut"@
        || w == "override"@ || w == "priv"@ || w == "pub"@ || w == "ref"@ || w == "return"@
        || w == "Self"@ || w == "self"@ || w == "static"@ || w == "struct"@ || w == "super"@
        || w == "trait"@ || w == "true"@ || w == "type"@ || w == "typeof"@ || w == "unsafe"@
        || w == "unsized"@ || w == "use"@ || w == "virtual"@ || w == "where"@ || w == "while"@
        || w == "yield"@
}

/// The keyword `as` stands at `i`.
pub open spec fn as_at(t: Seq<char>, i: int) -> bool {
    ident_at(t, i) == Some(i + 2) && pair(t, i, 'a', 's')
}

pub open spec fn expected_ident() -> Seq<char> {
    "expected identifier"@
}

/// The position that `line` and `col` (see `TokenSpan`) name in `t`, searching from `i`
/// at the start of a line; a column past the end of its line stands for the line's end.
pub open spec fn line_col_from(t: Seq<char>, i: int, line: nat, col: nat) -> Option<int>
    decreases t.len() - i, col,
{
    if i < 0 || line == 0 {
        None
    } else if line > 1 {
        if i >= t.len() {
            None
        } else if t[i] == '\n' {
            line_col_from(t, i + 1, (line - 1) as nat, col)
        } else {
            line_col_from(t, i + 1, line, col)
        }
    } else if col == 0 || i >= t.len() || t[i] == '\n' {
        Some(i)
    } else {
        line_col_from(t, i + 1, 1, (col - 1) as nat)
    }
}

pub open spec fn line_col(t: Seq<char>, p: LineColumn) -> Option<int> {
    line_col_from(t, 0, p.line as nat, p.column as nat)
}

/// How far the expression at the start of `t` reaches, in characters.
pub open spec fn expr_len(t: Seq<char>) -> Option<int> {
    match rust_expr_end(t) {
        Some(end) => line_col(t, end),
        None => None,
    }
}

/// The text that a span covers, where both its ends are found in `t` in order.
pub open spec fn span_text(t: Seq<char>, s: TokenSpan) -> Option<Seq<char>> {
    match (line_col(t, s.0), line_col(t, s.1)) {
        (Some(a), Some(b)) => if a <= b { Some(t.subrange(a, b)) } else { None },
        _ => None,
    }
}

pub proof fn lemma_skip_bounds(t: Seq<char>, i: int, depth: nat, line: bool)
    requires
        0 <= i <= t.len(),
    ensures
        i <= skip_from(t, i, depth, line) <= t.len(),
    decreases t.len() - i,
{
    if i < t.len() {
        if line {
            lemma_skip_bounds(t, i + 1, 0, t[i] != '\n');
        } else if depth > 0 {
            if pair(t, i, '*', '/') {
                lemma_skip_bounds(t, i + 2, (depth - 1) as nat, false);
            } else if pair(t, i, '/', '*') {
                lemma_skip_bounds(t, i + 2, depth + 1, false);
            } else {
                lemma_skip_bounds(t, i + 1, depth, false);
            }
        } else if rust_ws(t[i]) {
            lemma_skip_bounds(t, i + 1, 0, false);
        } else if pair(t, i, '/', '/') {
            lemma_skip_bounds(t, i + 2, 0, true);
        } else if pair(t, i, '/', '*') {
            lemma_skip_bounds(t, i + 2, 1, false);
        }
    }
}

pub proof fn lemma_ident_end_bounds(t: Seq<char>, i: int)
    requires
        0 <= i <= t.len(),
    ensures
        i <= ident_end(t, i) <= t.len(),
    decreases t.len() - i,
{
    if i < t.len() && ident_continue(t[i]) {
        lemma_ident_end_bounds(t, i + 1);
    }
}

pub proof fn lemma_ident_at_bounds(t: Seq<char>, i: int)
    requires
        ident_at(t, i) is Some,
    ensures
        i < ident_at(t, i)->Some_0 <= t.len(),
{
    if pair(t, i, 'r', '#') && i + 2 < t.len() && ident_start(t[i + 2]) {
        lemma_ident_end_bounds(t, i + 3);
    } else {
        lemma_ident_end_bounds(t, i + 1);
    }
}

/// A syntax error: where it is, and its message.
pub type SyntaxError = (int, Seq<char>);

/// The dashed keyword (`weak-allow-none`) that continues at `e` after the words `kw`:
/// the keyword and where it ends.
pub open spec fn dashed_rest(t: Seq<char>, e: int, kw: Seq<char>) -> Result<(Seq<char>, int), SyntaxError>
    decreases t.len() - e,
{
    if 0 <= e <= t.len() {
        let j = skip(t, e);
        if j < t.len() && t[j] == '-' {
            let k = skip(t, j + 1);
            match ident_at(t, k) {
                None => Err((k, expected_ident())),
                Some(e2) => {
                    proof {
                        lemma_skip_bounds(t, e, 0, false);
                        lemma_skip_bounds(t, j + 1, 0, false);
                        lemma_ident_at_bounds(t, k);
                    }
                    dashed_rest(t, e2, kw + "-"@ + t.subrange(k, e2))
                },
            }
        } else {
            Ok((kw, e))
        }
    } else {
        Ok((kw, e))
    }
}

/// The dashed keyword at `i`.
pub open spec fn dashed(t: Seq<char>, i: int) -> Result<(Seq<char>, int), SyntaxError> {
    match ident_at(t, i) {
        None => Err((i, expected_ident())),
        Some(e) => dashed_rest(t, e, t.subrange(i, e)),
    }
}

/// The end of a path of fields (`.b.c`) that continues at `e`.
pub open spec fn path_rest(t: Seq<char>, e: int) -> Result<int, SyntaxError>
    decreases t.len() - e,
{
    if 0 <= e <= t.len() {
        let j = skip(t, e);
        if j < t.len() && t[j] == '.' {
            let k = skip(t, j + 1);
            match ident_at(t, k) {
                None => Err((k, expected_ident())),
                Some(e2) => {
                    proof {
                        lemma_skip_bounds(t, e, 0, false);
                        lemma_skip_bounds(t, j + 1, 0, false);
                        lemma_ident_at_bounds(t, k);
                    }
                    path_rest(t, e2)
                },
            }
        } else {
            Ok(e)
        }
    } else {
        Ok(e)
    }
}

/// A capture: its kind, the identifier it binds, and the text of the expression it is
/// taken from when `as` names another identifier.
pub type CaptureText = (CaptureKind, Seq<char>, Option<Seq<char>>);

/// The capture after the `@` that ends at `p`: the capture, where it ends, and where its
/// identifier stands.
pub open spec fn capture(t: Seq<char>, p: int) -> Result<(CaptureText, int, int), SyntaxError> {
    let k0 = skip(t, p);
    match dashed(t, k0) {
        Err(e) => Err(e),
        Ok((kw, q)) => match capture_kind(kw) {
            None => Err((k0, "Unknown capture type"@)),
            Some(kind) => {
                let s = skip(t, q);
                match ident_at(t, s) {
                    None => Err((s, expected_ident())),
                    Some(e1) => match path_rest(t, e1) {
                        Err(e) => Err(e),
                        Ok(end) => {
                            let j = skip(t, end);
                            if as_at(t, j) {
                                let k = skip(t, j + 2);
                                match ident_at(t, k) {
                                    None => Err((k, expected_ident())),
                                    Some(e2) => if expr_len(t.subrange(s, end)) == Some(end - s) {
                                        Ok(((kind, t.subrange(k, e2), Some(t.subrange(s, end))), e2, k))
                                    } else {
                                        Err((s, "expected expression"@))
                                    },
                                }
                            } else if keyword(t.subrange(s, e1)) {
                                Err((s, expected_ident()))
                            } else if end != e1 {
                                Err((skip(t, e1), "unexpected token"@))
                            } else {
                                Ok(((kind, t.subrange(s, e1), None), e1, s))
                            }
                        },
                    },
                }
            },
        },
    }
}

/// Whether a `watch` capture is among `caps`.
pub open spec fn has_watch(caps: Seq<CaptureText>) -> bool {
    exists|i: int| 0 <= i < caps.len() && (#[trigger] caps[i]).0 is Watch
}

/// The captures from `i` on, after those in `caps`: all of them, and where the text after
/// them starts (after the `=>` that ends them, or where no `@` follows a `,`).
pub open spec fn captures_from(t: Seq<char>, i: int, caps: Seq<CaptureText>) -> Result<(Seq<CaptureText>, int), SyntaxError>
    decreases t.len() - i,
{
    if 0 <= i <= t.len() {
        let p = skip(t, i);
        if p < t.len() && t[p] == '@' {
            match capture(t, p + 1) {
                Err(e) => Err(e),
                Ok((cap, q, at)) => if cap.0 is Watch && has_watch(caps) {
                    Err((at, "Duplicate `watch` capture"@))
                } else {
                    let r = skip(t, q);
                    if r < t.len() && t[r] == ',' {
                        proof {
                            lemma_skip_bounds(t, i, 0, false);
                            lemma_capture_bounds(t, p + 1);
                            lemma_skip_bounds(t, q, 0, false);
                        }
                        captures_from(t, r + 1, caps.push(cap))
                    } else if pair(t, r, '=', '>') {
                        Ok((caps.push(cap), r + 2))
                    } else {
                        Err((r, "expected `,` or `=>`"@))
                    }
                },
            }
        } else {
            Ok((caps, p))
        }
    } else {
        Ok((caps, i))
    }
}

pub proof fn lemma_dashed_rest_bounds(t: Seq<char>, e: int, kw: Seq<char>)
    requires
        0 <= e <= t.len(),
    ensures
        dashed_rest(t, e, kw) matches Ok((_, q)) ==> e <= q <= t.len(),
    decreases t.len() - e,
{
    let j = skip(t, e);
    lemma_skip_bounds(t, e, 0, false);
    if j < t.len() && t[j] == '-' {
        let k = skip(t, j + 1);
        lemma_skip_bounds(t, j + 1, 0, false);
        if let Some(e2) = ident_at(t, k) {
            lemma_ident_at_bounds(t, k);
            lemma_dashed_rest_bounds(t, e2, kw + "-"@ + t.subrange(k, e2));
        }
    }
}

pub proof fn lemma_path_rest_bounds(t: Seq<char>, e: int)
    requires
        0 <= e <= t.len(),
    ensures
        path_rest(t, e) matches Ok(q) ==> e <= q <= t.len(),
    decreases t.len() - e,
{
    let j = skip(t, e);
    lemma_skip_bounds(t, e, 0, false);
    if j < t.len() && t[j] == '.' {
        let k = skip(t, j + 1);
        lemma_skip_bounds(t, j + 1, 0, false);
        if let Some(e2) = ident_at(t, k) {
            lemma_ident_at_bounds(t, k);
            lemma_path_rest_bounds(t, e2);
        }
    }
}

pub proof fn lemma_capture_bounds(t: Seq<char>, p: int)
    requires
        0 <= p <= t.len(),
    ensures
        capture(t, p) matches Ok((_, q, _)) ==> p < q <= t.len(),
{
    let k0 = skip(t, p);
    lemma_skip_bounds(t, p, 0, false);
    if let Some(e) = ident_at(t, k0) {
        lemma_ident_at_bounds(t, k0);
        lemma_dashed_rest_bounds(t, e, t.subrange(k0, e));
        if let Ok((kw, q)) = dashed(t, k0) {
            let s = skip(t, q);
            lemma_skip_bounds(t, q, 0, false);
            if let Some(e1) = ident_at(t, s) {
                lemma_ident_at_bounds(t, s);
                lemma_path_rest_bounds(t, e1);
                if let Ok(end) = path_rest(t, e1) {
                    let j = skip(t, end);
                    lemma_skip_bounds(t, end, 0, false);
                    if as_at(t, j) {
                        let k = skip(t, j + 2);
                        lemma_skip_bounds(t, j + 2, 0, false);
                        if ident_at(t, k) is Some {
                            lemma_ident_at_bounds(t, k);
                        }
                    }
                }
            }
        }
    }
}

pub proof fn lemma_line_col_bounds(t: Seq<char>, i: int, line: nat, col: nat)
    requires
        0 <= i <= t.len(),
    ensures
        line_col_from(t, i, line, col) matches Some(x) ==> i <= x <= t.len(),
    decreases t.len() - i, col,
{
    if line > 1 {
        if i < t.len() {
            if t[i] == '\n' {
                lemma_line_col_bounds(t, i + 1, (line - 1) as nat, col);
            } else {
                lemma_line_col_bounds(t, i + 1, line, col);
            }
        }
    } else if line == 1 && !(col == 0 || i >= t.len() || t[i] == '\n') {
        lemma_line_col_bounds(t, i + 1, 1, (col - 1) as nat);
    }
}

/// The default action as written: none, `default-panic` (`Some(None)`), or
/// `default-return` with the text of its expression.
pub type ActionText = Option<Option<Seq<char>>>;

/// The `,` that must follow a default action ending at `q`, and where the text after it
/// starts.
pub open spec fn after_comma(t: Seq<char>, q: int, action: ActionText) -> Result<(ActionText, int), SyntaxError> {
    let c = skip(t, q);
    if c < t.len() && t[c] == ',' {
        Ok((action, c + 1))
    } else {
        Err((c, "expected `,`"@))
    }
}

/// The default action, if one starts at `p`, and where the body starts.
pub open spec fn action_at(t: Seq<char>, p: int) -> Result<(ActionText, int), SyntaxError> {
    let a = skip(t, p);
    if a < t.len() && t[a] == '@' {
        let k0 = skip(t, a + 1);
        match dashed(t, k0) {
            Err(e) => Err(e),
            Ok((kw, q)) => if kw == "default-return"@ {
                let k = skip(t, q);
                match expr_len(t.subrange(k, t.len() as int)) {
                    None => Err((k, "expected expression"@)),
                    Some(n) => after_comma(t, k + n, Some(Some(t.subrange(k, k + n)))),
                }
            } else if kw == "default-panic"@ {
                after_comma(t, q, Some(None))
            } else {
                Err((k0, "Unknown keyword"@))
            },
        }
    } else {
        Ok((None, p))
    }
}

/// The body expression from `p` on, which must reach the end of the text: the text from
/// its start on.
pub open spec fn body_at(t: Seq<char>, p: int) -> Result<Seq<char>, SyntaxError> {
    let b = skip(t, p);
    let rest = t.subrange(b, t.len() as int);
    match expr_len(rest) {
        None => Err((b, "expected expression"@)),
        Some(n) => if skip(t, b + n) == t.len() {
            Ok(rest)
        } else {
            Err((skip(t, b + n), "unexpected token"@))
        },
    }
}

/// What the arguments of a macro call say: its captures in order, its default action,
/// and the text of its body (from the body's start on); or the first syntax error.
pub open spec fn grammar(t: Seq<char>) -> Result<(Seq<CaptureText>, ActionText, Seq<char>), SyntaxError> {
    match captures_from(t, 0, Seq::empty()) {
        Err(e) => Err(e),
        Ok((caps, p)) => match action_at(t, p) {
            Err(e) => Err(e),
            Ok((action, q)) => match body_at(t, q) {
                Err(e) => Err(e),
                Ok(rest) => Ok((caps, action, rest)),
            },
        },
    }
}

pub open spec fn syntax_error(t: Seq<char>) -> Option<SyntaxError> {
    match grammar(t) {
        Err(e) => Some(e),
        Ok(_) => None,
    }
}

pub open spec fn strong_view(c: StrongCapture) -> (Seq<char>, Option<Seq<char>>) {
    (c.ident@, opt_view(c.from))
}

pub open spec fn weak_view(c: WeakCapture) -> (Seq<char>, Option<Seq<char>>, bool) {
    (c.ident@, opt_view(c.from), c.allow_none)
}

/// The `strong` captures among `caps`, in order.
pub open spec fn strong_caps(caps: Seq<CaptureText>) -> Seq<(Seq<char>, Option<Seq<char>>)>
    decreases caps.len(),
{
    if caps.len() == 0 {
        Seq::empty()
    } else if caps.last().0 is Strong {
        strong_caps(caps.drop_last()).push((caps.last().1, caps.last().2))
    } else {
        strong_caps(caps.drop_last())
    }
}

/// The `weak` and `weak-allow-none` captures among `caps`, in order.
pub open spec fn weak_caps(caps: Seq<CaptureText>) -> Seq<(Seq<char>, Option<Seq<char>>, bool)>
    decreases caps.len(),
{
    if caps.len() == 0 {
        Seq::empty()
    } else if caps.last().0 is Weak {
        weak_caps(caps.drop_last()).push((caps.last().1, caps.last().2, false))
    } else if caps.last().0 is WeakAllowNone {
        weak_caps(caps.drop_last()).push((caps.last().1, caps.last().2, true))
    } else {
        weak_caps(caps.drop_last())
    }
}

/// The last `watch` capture among `caps`.
pub open spec fn watch_cap(caps: Seq<CaptureText>) -> Option<(Seq<char>, Option<Seq<char>>)>
    decreases caps.len(),
{
    if caps.len() == 0 {
        None
    } else if caps.last().0 is Watch {
        Some((caps.last().1, caps.last().2))
    } else {
        watch_cap(caps.drop_last())
    }
}

/// `c` holds the captures `caps`.
pub open spec fn captures_fit(c: Closure, caps: Seq<CaptureText>) -> bool {
    &&& c.strong@.map_values(|x: StrongCapture| strong_view(x)) == strong_caps(caps)
    &&& c.weak@.map_values(|x: WeakCapture| weak_view(x)) == weak_caps(caps)
    &&& match c.watch {
        Some(w) => watch_cap(caps) == Some(strong_view(w)),
        None => watch_cap(caps) is None,
    }
}

pub open spec fn action_fits(a: Option<DefaultAction>, m: ActionText) -> bool {
    match m {
        None => a is None,
        Some(None) => a matches Some(DefaultAction::Panic),
        Some(Some(e)) => a matches Some(DefaultAction::Return { expr: Some(x) }) && x@ == e,
    }
}

/// The texts of the spans of `spans` that are found in `t`, in order.
pub open spec fn found_texts(t: Seq<char>, spans: Seq<TokenSpan>) -> Seq<Seq<char>>
    decreases spans.len(),
{
    if spans.len() == 0 {
        Seq::empty()
    } else {
        match span_text(t, spans.last()) {
            Some(x) => found_texts(t, spans.drop_last()).push(x),
            None => found_texts(t, spans.drop_last()),
        }
    }
}

pub open spec fn opt_span_text(t: Seq<char>, s: Option<TokenSpan>) -> Option<Seq<char>> {
    match s {
        Some(x) => span_text(t, x),
        None => None,
    }
}

pub open spec fn texts_of(v: Seq<String>) -> Seq<Seq<char>> {
    v.map_values(|x: String| x@)
}

/// `b` is the body that `t` is: an `async` block, a closure (each with the texts of its
/// parts), or any other expression.
pub open spec fn body_fits(b: ClosureBody, t: Seq<char>) -> bool {
    match rust_async(t) {
        Some((attrs, block)) => b matches ClosureBody::Async { attrs: a, block: bl }
            && texts_of(a@) == found_texts(t, attrs) && opt_view(bl) == span_text(t, block),
        None => match rust_closure(t) {
            Some(p) => {
                let (inputs, output) = match rust_closure_signature(t) {
                    Some(sig) => sig,
                    None => (Seq::empty(), None),
                };
                b matches ClosureBody::Closure { attrs: a, movability: m, asyncness: y, capture: c, inputs: ins, output: o, body: bd }
                && texts_of(a@) == found_texts(t, p.attrs@)
                && opt_view(m) == opt_span_text(t, p.movability)
                && opt_view(y) == opt_span_text(t, p.asyncness)
                && opt_view(c) == opt_span_text(t, p.capture)
                && ins@.len() == inputs.len()
                && (forall|i: int| 0 <= i < inputs.len() ==> opt_view(#[trigger] ins@[i]) == span_text(t, inputs[i]))
                && opt_view(o) == opt_span_text(t, output)
                && opt_view(bd) == span_text(t, p.body)
            },
            None => b is Other,
        },
    }
}

/// `c` is what the arguments `t` of a macro call say.
pub open spec fn closure_grammar(t: Seq<char>, c: Closure) -> bool {
    match grammar(t) {
        Ok((caps, action, rest)) => captures_fit(c, caps) && action_fits(c.action, action) && body_fits(c.body, rest),
        Err(_) => false,
    }
}

// ---------------------------------------------------------------------------------------
// Reading

/// A syntax error in the arguments of a macro call: where it is (in characters from the
/// start of the arguments), and its message.
#[derive(Debug)]
pub struct ClosureSyntaxError {
    pub at: usize,
    pub message: String,
}

fn syntax_err(at: usize, message: &str) -> (e: ClosureSyntaxError)
    ensures
        e.at == at && e.message@ == message@,
{
    ClosureSyntaxError { at, message: message.to_owned() }
}

fn is_rust_ws(c: char) -> (r: bool)
    ensures
        r == rust_ws(c),
{
    c == ' ' || c == '\t' || c == '\n' || c == '\r' || c == '\x0B' || c == '\x0C' || c == '\u{85}'
        || c == '\u{200E}' || c == '\u{200F}' || c == '\u{2028}' || c == '\u{2029}'
}

fn is_ident_start(c: char) -> (r: bool)
    ensures
        r == ident_start(c),
{
    ('a' <= c && c <= 'z') || ('A' <= c && c <= 'Z') || c == '_' || (c > '\x7f' && !is_rust_ws(c))
}

fn is_ident_continue(c: char) -> (r: bool)
    ensures
        r == ident_continue(c),
{
    is_ident_start(c) || ('0' <= c && c <= '9')
}

fn is_pair(t: &str, n: usize, i: usize, a: char, b: char) -> (r: bool)
    requires
        n == t@.len(),
    ensures
        r == pair(t@, i as int, a, b),
{
    i < n && i + 1 < n && t.get_char(i) == a && t.get_char(i + 1) == b
}

fn skip_tokens(t: &str, n: usize, start: usize) -> (r: usize)
    requires
        n == t@.len(),
        start <= n,
    ensures
        r == skip(t@, start as int),
        start <= r <= n,
{
    let mut i = start;
    let mut depth: usize = 0;
    let mut line = false;
    while i < n
        invariant
            n == t@.len(),
            start <= i <= n,
            depth <= i,
            line ==> depth == 0,
            skip_from(t@, i as int, depth as nat, line) == skip(t@, start as int),
        decreases n - i,
    {
        let c = t.get_char(i);
        if line {
            line = c != '\n';
            i = i + 1;
        } else if depth > 0 {
            if is_pair(t, n, i, '*', '/') {
                depth = depth - 1;
                i = i + 2;
            } else if is_pair(t, n, i, '/', '*') {
                depth = depth + 1;
                i = i + 2;
            } else {
                i = i + 1;
            }
        } else if is_rust_ws(c) {
            i = i + 1;
        } else if is_pair(t, n, i, '/', '/') {
            line = true;
            i = i + 2;
        } else if is_pair(t, n, i, '/', '*') {
            depth = 1;
            i = i + 2;
        } else {
            return i;
        }
    }
    i
}

fn ident_end_of(t: &str, n: usize, start: usize) -> (r: usize)
    requires
        n == t@.len(),
        start <= n,
    ensures
        r == ident_end(t@, start as int),
        start <= r <= n,
{
    let mut i = start;
    while i < n && is_ident_continue(t.get_char(i))
        invariant
            n == t@.len(),
            start <= i <= n,
            ident_end(t@, i as int) == ident_end(t@, start as int),
        decreases n - i,
    {
        i = i + 1;
    }
    i
}

fn ident_at_of(t: &str, n: usize, i: usize) -> (r: Option<usize>)
    requires
        n == t@.len(),
        i <= n,
    ensures
        match r {
            Some(e) => ident_at(t@, i as int) == Some(e as int) && i < e <= n,
            None => ident_at(t@, i as int) is None,
        },
{
    if is_pair(t, n, i, 'r', '#') && i + 2 < n && is_ident_start(t.get_char(i + 2)) {
        Some(ident_end_of(t, n, i + 3))
    } else if i < n && is_ident_start(t.get_char(i)) {
        Some(ident_end_of(t, n, i + 1))
    } else {
        None
    }
}

fn dashed_of(t: &str, n: usize, i: usize) -> (r: Result<(String, usize), ClosureSyntaxError>)
    requires
        n == t@.len(),
        i <= n,
    ensures
        match dashed(t@, i as int) {
            Ok((kw, q)) => r matches Ok((k, q2)) && k@ == kw && q2 == q && q <= n,
            Err((at, m)) => r matches Err(e) && e.at == at && e.message@ == m && e.at <= n,
        },
{
    let e0 = match ident_at_of(t, n, i) {
        Some(e) => e,
        None => return Err(syntax_err(i, "expected identifier")),
    };
    let mut kw = t.substring_char(i, e0).to_owned();
    let mut e = e0;
    while true
        invariant
            n == t@.len(),
            i < e <= n,
            dashed(t@, i as int) == dashed_rest(t@, e as int, kw@),
        decreases n - e,
    {
        let j = skip_tokens(t, n, e);
        if j < n && t.get_char(j) == '-' {
            let k = skip_tokens(t, n, j + 1);
            match ident_at_of(t, n, k) {
                None => return Err(syntax_err(k, "expected identifier")),
                Some(e2) => {
                    let ghost before = kw@;
                    kw.append("-");
                    kw.append(t.substring_char(k, e2));
                    assert(kw@ == before + "-"@ + t@.subrange(k as int, e2 as int));
                    e = e2;
                },
            }
        } else {
            return Ok((kw, e));
        }
    }
    Ok((kw, e))
}

fn path_end_of(t: &str, n: usize, e1: usize) -> (r: Result<usize, ClosureSyntaxError>)
    requires
        n == t@.len(),
        e1 <= n,
    ensures
        match path_rest(t@, e1 as int) {
            Ok(q) => r == Ok::<usize, ClosureSyntaxError>(q as usize) && e1 <= q <= n,
            Err((at, m)) => r matches Err(e) && e.at == at && e.message@ == m && e.at <= n,
        },
{
    let mut e = e1;
    while true
        invariant
            n == t@.len(),
            e1 <= e <= n,
            path_rest(t@, e1 as int) == path_rest(t@, e as int),
        decreases n - e,
    {
        let j = skip_tokens(t, n, e);
        if j < n && t.get_char(j) == '.' {
            let k = skip_tokens(t, n, j + 1);
            match ident_at_of(t, n, k) {
                None => return Err(syntax_err(k, "expected identifier")),
                Some(e2) => {
                    e = e2;
                },
            }
        } else {
            return Ok(e);
        }
    }
    Ok(e)
}

fn is_keyword(w: &str) -> (r: bool)
    ensures
        r == keyword(w@),
{
    str_eq(w, "_") || str_eq(w, "abstract") || str_eq(w, "as") || str_eq(w, "become") || str_eq(w,
        "box") || str_eq(w, "break") || str_eq(w, "const") || str_eq(w, "continue") || str_eq(w, "crate") ||
        str_eq(w, "do") || str_eq(w, "else") || str_eq(w, "enum") || str_eq(w, "extern") || str_eq(w,
        "false") || str_eq(w, "final") || str_eq(w, "fn") || str_eq(w, "for") || str_eq(w, "if") ||
        str_eq(w, "impl") || str_eq(w, "in") || str_eq(w, "let") || str_eq(w, "loop") || str_eq(w, "macro")
        || str_eq(w, "match") || str_eq(w, "mod") || str_eq(w, "move") || str_eq(w, "mut") || str_eq(w,
        "override") || str_eq(w, "priv") || str_eq(w, "pub") || str_eq(w, "ref") || str_eq(w, "return") ||
        str_eq(w, "Self") || str_eq(w, "self") || str_eq(w, "static") || str_eq(w, "struct") || str_eq(w,
        "super") || str_eq(w, "trait") || str_eq(w, "true") || str_eq(w, "type") || str_eq(w, "typeof") ||
        str_eq(w, "unsafe") || str_eq(w, "unsized") || str_eq(w, "use") || str_eq(w, "virtual") || str_eq(w,
        "where") || str_eq(w, "while") || str_eq(w, "yield")
}

pub fn line_col_of(t: &str, n: usize, p: LineColumn) -> (r: Option<usize>)
    requires
        n == t@.len(),
    ensures
        match line_col(t@, p) {
            Some(x) => r == Some(x as usize) && 0 <= x <= n,
            None => r is None,
        },
{
    proof {
        lemma_line_col_bounds(t@, 0, p.line as nat, p.column as nat);
    }
    if p.line == 0 {
        return None;
    }
    let mut i: usize = 0;
    let mut line: usize = p.line;
    let mut col: usize = p.column;
    while i < n
        invariant
            n == t@.len(),
            i <= n,
            line >= 1,
            line_col_from(t@, i as int, line as nat, col as nat) == line_col(t@, p),
        decreases n - i, col,
    {
        let c = t.get_char(i);
        if line > 1 {
            if c == '\n' {
                line = line - 1;
            }
            i = i + 1;
        } else if col == 0 || c == '\n' {
            return Some(i);
        } else {
            col = col - 1;
            i = i + 1;
        }
    }
    if line > 1 {
        None
    } else {
        Some(i)
    }
}

fn expr_len_of(t: &str) -> (r: Option<usize>)
    ensures
        match expr_len(t@) {
            Some(x) => r == Some(x as usize) && 0 <= x <= t@.len(),
            None => r is None,
        },
{
    let n = t.unicode_len();
    match expr_end(t) {
        Some(end) => line_col_of(t, n, end),
        None => None,
    }
}

fn capture_of(t: &str, n: usize, p: usize) -> (r: Result<(CaptureKind, String, Option<String>, usize, usize), ClosureSyntaxError>)
    requires
        n == t@.len(),
        p <= n,
    ensures
        match capture(t@, p as int) {
            Ok(((kind, id, from), q, at)) => r matches Ok((k2, id2, from2, q2, at2)) && k2 == kind && id2@ == id
                && opt_view(from2) == from && q2 == q && at2 == at && p < q <= n,
            Err((at, m)) => r matches Err(e) && e.at == at && e.message@ == m && e.at <= n,
        },
{
    proof {
        lemma_capture_bounds(t@, p as int);
    }
    let k0 = skip_tokens(t, n, p);
    let (kw, q) = match dashed_of(t, n, k0) {
        Ok(x) => x,
        Err(e) => return Err(e),
    };
    let kind = match CaptureKind::from_keyword(kw.as_str()) {
        Ok(k) => k,
        Err(_) => return Err(syntax_err(k0, "Unknown capture type")),
    };
    let s = skip_tokens(t, n, q);
    let e1 = match ident_at_of(t, n, s) {
        Some(e1) => e1,
        None => return Err(syntax_err(s, "expected identifier")),
    };
    let end = match path_end_of(t, n, e1) {
        Ok(end) => end,
        Err(e) => return Err(e),
    };
    let j = skip_tokens(t, n, end);
    let is_as = match ident_at_of(t, n, j) {
        Some(e) => e - j == 2 && is_pair(t, n, j, 'a', 's'),
        None => false,
    };
    if is_as {
        let k = skip_tokens(t, n, j + 2);
        let e2 = match ident_at_of(t, n, k) {
            Some(e2) => e2,
            None => return Err(syntax_err(k, "expected identifier")),
        };
        let from = t.substring_char(s, end);
        match expr_len_of(from) {
            Some(m) => {
                if m == end - s {
                    return Ok((kind, t.substring_char(k, e2).to_owned(), Some(from.to_owned()), e2, k));
                }
            },
            None => {},
        }
        Err(syntax_err(s, "expected expression"))
    } else if is_keyword(t.substring_char(s, e1)) {
        Err(syntax_err(s, "expected identifier"))
    } else if end != e1 {
        Err(syntax_err(skip_tokens(t, n, e1), "unexpected token"))
    } else {
        Ok((kind, t.substring_char(s, e1).to_owned(), None, e1, s))
    }
}

fn span_text_of(t: &str, n: usize, sp: TokenSpan) -> (r: Option<String>)
    requires
        n == t@.len(),
    ensures
        opt_view(r) == span_text(t@, sp),
{
    let a = line_col_of(t, n, sp.0);
    let b = line_col_of(t, n, sp.1);
    match (a, b) {
        (Some(a), Some(b)) => if a <= b {
            Some(t.substring_char(a, b).to_owned())
        } else {
            None
        },
        _ => None,
    }
}

fn opt_span_text_of(t: &str, n: usize, sp: &Option<TokenSpan>) -> (r: Option<String>)
    requires
        n == t@.len(),
    ensures
        opt_view(r) == opt_span_text(t@, *sp),
{
    match sp {
        Some(x) => span_text_of(t, n, *x),
        None => None,
    }
}

fn found_texts_of(t: &str, n: usize, spans: &Vec<TokenSpan>) -> (r: Vec<String>)
    requires
        n == t@.len(),
    ensures
        texts_of(r@) == found_texts(t@, spans@),
{
    let mut out: Vec<String> = Vec::new();
    let mut i: usize = 0;
    while i < spans.len()
        invariant
            n == t@.len(),
            i <= spans@.len(),
            texts_of(out@) == found_texts(t@, spans@.subrange(0, i as int)),
        decreases spans.len() - i,
    {
        assert(spans@.subrange(0, i as int + 1).drop_last() =~= spans@.subrange(0, i as int));
        let ghost before = out@;
        match span_text_of(t, n, spans[i]) {
            Some(x) => {
                out.push(x);
                assert(texts_of(out@) =~= texts_of(before).push(out@.last()@));
            },
            None => {},
        }
        i = i + 1;
    }
    assert(spans@.subrange(0, spans@.len() as int) =~= spans@);
    out
}

/// The body that `t` is: see `body_fits`.
pub fn body_of(t: &str) -> (b: ClosureBody)
    ensures
        body_fits(b, t@),
{
    let n = t.unicode_len();
    if let Some((attrs, block)) = async_parts(t) {
        return ClosureBody::Async { attrs: found_texts_of(t, n, &attrs), block: span_text_of(t, n, block) };
    }
    match closure_parts(t) {
        Some(p) => {
            let (inputs, output) = match closure_signature(t) {
                Some(sig) => sig,
                None => (Vec::new(), None),
            };
            let mut ins: Vec<Option<String>> = Vec::new();
            let mut i: usize = 0;
            while i < inputs.len()
                invariant
                    n == t@.len(),
                    i <= inputs@.len(),
                    ins@.len() == i,
                    forall|k: int| 0 <= k < i ==> opt_view(#[trigger] ins@[k]) == span_text(t@, inputs@[k]),
                decreases inputs.len() - i,
            {
                ins.push(span_text_of(t, n, inputs[i]));
                i = i + 1;
            }
            ClosureBody::Closure {
                attrs: found_texts_of(t, n, &p.attrs),
                movability: opt_span_text_of(t, n, &p.movability),
                asyncness: opt_span_text_of(t, n, &p.asyncness),
                capture: opt_span_text_of(t, n, &p.capture),
                inputs: ins,
                output: opt_span_text_of(t, n, &output),
                body: span_text_of(t, n, p.body),
            }
        },
        None => ClosureBody::Other,
    }
}

proof fn lemma_push_capture(caps: Seq<CaptureText>, cap: CaptureText)
    ensures
        caps.push(cap).drop_last() == caps,
        has_watch(caps.push(cap)) == (has_watch(caps) || cap.0 is Watch),
{
    assert(caps.push(cap).drop_last() =~= caps);
    let all = caps.push(cap);
    if has_watch(caps) {
        let i = choose|i: int| 0 <= i < caps.len() && (#[trigger] caps[i]).0 is Watch;
        assert(all[i] == caps[i]);
    }
    if cap.0 is Watch {
        assert(all[caps.len() as int] == cap);
    }
    if has_watch(all) {
        let i = choose|i: int| 0 <= i < all.len() && (#[trigger] all[i]).0 is Watch;
        if i < caps.len() {
            assert(all[i] == caps[i]);
        }
    }
}

/// Reads the arguments of a `clone!` or `closure!` call: see `grammar`.
pub fn parse_closure(text: &str) -> (r: Result<Closure, ClosureSyntaxError>)
    ensures
        match r {
            Ok(c) => closure_grammar(text@, c),
            Err(e) => syntax_error(text@) == Some((e.at as int, e.message@)) && e.at <= text@.len(),
        },
{
    let t = text;
    let n = t.unicode_len();
    let mut closure = Closure { watch: None, strong: Vec::new(), weak: Vec::new(), action: None, body: ClosureBody::Other };
    let ghost mut caps: Seq<CaptureText> = Seq::empty();
    let mut i: usize = 0;
    let mut after: usize = 0;
    assert(closure.strong@.map_values(|x: StrongCapture| strong_view(x)) =~= strong_caps(caps));
    assert(closure.weak@.map_values(|x: WeakCapture| weak_view(x)) =~= weak_caps(caps));
    loop
        invariant_except_break
            captures_from(t@, 0, Seq::empty()) == captures_from(t@, i as int, caps),
        invariant
            t == text,
            n == t@.len(),
            i <= n,
            captures_fit(closure, caps),
            has_watch(caps) == closure.watch is Some,
            closure.action is None,
        ensures
            after <= n,
            captures_from(t@, 0, Seq::empty()) == Ok::<(Seq<CaptureText>, int), SyntaxError>((caps, after as int)),
        decreases n - i,
    {
        let p = skip_tokens(t, n, i);
        if p < n && t.get_char(p) == '@' {
            let (kind, ident, from, q, at) = match capture_of(t, n, p + 1) {
                Ok(x) => x,
                Err(e) => {
                    assert(captures_from(t@, i as int, caps) == Err::<(Seq<CaptureText>, int), SyntaxError>((e.at as int, e.message@)));
                    assert(syntax_error(text@) == Some((e.at as int, e.message@)));
                    return Err(e);
                },
            };
            let ghost cap: CaptureText = (kind, ident@, opt_view(from));
            let ghost old_strong = closure.strong@;
            let ghost old_weak = closure.weak@;
            proof {
                lemma_push_capture(caps, cap);
            }
            match closure.add_capture(kind, ident, from) {
                Ok(()) => {},
                Err(_) => {
                    let e = syntax_err(at, "Duplicate `watch` capture");
                    assert(captures_from(t@, i as int, caps) == Err::<(Seq<CaptureText>, int), SyntaxError>((e.at as int, e.message@)));
                    assert(syntax_error(text@) == Some((e.at as int, e.message@)));
                    return Err(e);
                },
            }
            assert(closure.strong@.map_values(|x: StrongCapture| strong_view(x)) =~= strong_caps(caps.push(cap))) by {
                if cap.0 is Strong {
                    assert(old_strong.push(closure.strong@.last()).map_values(|x: StrongCapture| strong_view(x))
                        =~= old_strong.map_values(|x: StrongCapture| strong_view(x)).push(strong_view(closure.strong@.last())));
                }
            }
            assert(closure.weak@.map_values(|x: WeakCapture| weak_view(x)) =~= weak_caps(caps.push(cap))) by {
                if cap.0 is Weak || cap.0 is WeakAllowNone {
                    assert(old_weak.push(closure.weak@.last()).map_values(|x: WeakCapture| weak_view(x))
                        =~= old_weak.map_values(|x: WeakCapture| weak_view(x)).push(weak_view(closure.weak@.last())));
                }
            }
            proof {
                caps = caps.push(cap);
            }
            let r = skip_tokens(t, n, q);
            let ghost prev = caps.drop_last();
            if r < n && t.get_char(r) == ',' {
                assert(captures_from(t@, i as int, prev) == captures_from(t@, r + 1, caps));
                i = r + 1;
            } else if is_pair(t, n, r, '=', '>') {
                assert(captures_from(t@, i as int, prev) == Ok::<(Seq<CaptureText>, int), SyntaxError>((caps, r + 2)));
                after = r + 2;
                break;
            } else {
                let e = syntax_err(r, "expected `,` or `=>`");
                assert(captures_from(t@, i as int, prev) == Err::<(Seq<CaptureText>, int), SyntaxError>((e.at as int, e.message@)));
                assert(syntax_error(text@) == Some((e.at as int, e.message@)));
                return Err(e);
            }
        } else {
            assert(captures_from(t@, i as int, caps) == Ok::<(Seq<CaptureText>, int), SyntaxError>((caps, p as int)));
            after = p;
            break;
        }
    }
    let body_start: usize;
    let ghost mut am: ActionText = None;
    let a = skip_tokens(t, n, after);
    if a < n && t.get_char(a) == '@' {
        let k0 = skip_tokens(t, n, a + 1);
        let (kw, q) = match dashed_of(t, n, k0) {
            Ok(x) => x,
            Err(e) => return Err(e),
        };
        let mut expr: Option<String> = None;
        let mut end = q;
        if str_eq(kw.as_str(), "default-return") {
            let k = skip_tokens(t, n, q);
            let rest = t.substring_char(k, n);
            match expr_len_of(rest) {
                Some(m) => {
                    expr = Some(t.substring_char(k, k + m).to_owned());
                    end = k + m;
                },
                None => return Err(syntax_err(k, "expected expression")),
            }
        }
        let ghost ev = opt_view(expr);
        let action = match default_action(kw.as_str(), expr) {
            Ok(x) => x,
            Err(_) => return Err(syntax_err(k0, "Unknown keyword")),
        };
        let c = skip_tokens(t, n, end);
        if c < n && t.get_char(c) == ',' {
            proof {
                am = if kw@ == "default-return"@ { Some(ev) } else { Some(None) };
            }
            closure.action = Some(action);
            assert(action_fits(closure.action, am)) by {
                reveal_strlit("default-return");
                reveal_strlit("default-panic");
                assert("default-return"@.len() != "default-panic"@.len());
            }
            body_start = c + 1;
        } else {
            return Err(syntax_err(c, "expected `,`"));
        }
    } else {
        body_start = after;
    }
    let b = skip_tokens(t, n, body_start);
    let rest = t.substring_char(b, n);
    let m = match expr_len_of(rest) {
        Some(m) => m,
        None => return Err(syntax_err(b, "expected expression")),
    };
    let z = skip_tokens(t, n, b + m);
    if z != n {
        return Err(syntax_err(z, "unexpected token"));
    }
    assert(action_at(t@, after as int) == Ok::<(ActionText, int), SyntaxError>((am, body_start as int)));
    assert(t@.subrange(b as int, n as int) == rest@);
    assert(body_at(t@, body_start as int) == Ok::<Seq<char>, SyntaxError>(rest@));
    closure.body = body_of(rest);
    assert(grammar(t@) == Ok::<(Seq<CaptureText>, ActionText, Seq<char>), SyntaxError>((caps, am, rest@)));
    Ok(closure)
}

} // verus!
