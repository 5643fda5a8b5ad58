//! Rewriting the `clone!` and `closure!` calls of a Rust source file: `syn` finds the
//! calls and the items they are in; each call's arguments are read and rewritten, and the
//! rewritten texts replace the calls, with a marker before each item that holds one.
use vstd::prelude::*;
use crate::blockify::{
    applied, apply_replacements, classify_macro, closure_text, convert_closure, format_parse_error, macro_kind, ordered,
    parse_error_text, splice, supported_body, Closure, ClosureBody, Replacement,
};
use crate::closure_syntax::{closure_grammar, line_col, line_col_of, parse_closure, syntax_error};
use vstd::string::StringExecFns;
use proc_macro2::LineColumn;
use proc_macro2::fallback::{force, unforce};
use quote::ToTokens;
use syn::spanned::Spanned;
use syn::visit::Visit;
use syn::{Expr, MacroDelimiter};

verus! {

/// A macro call in an expression, as `syn` finds it: the text of its path (its tokens
/// joined), where the call starts and ends, and where the delimited group of its
/// arguments starts and ends.
pub struct MacroCall {
    pub path: String,
    pub start: LineColumn,
    pub end: LineColumn,
    pub args_start: LineColumn,
    pub args_end: LineColumn,
}

/// An item of a file: where it starts, and the macro calls in its expressions, in the
/// order in which `syn`'s visitor meets them (the arguments of a macro call are not
/// looked into).
pub struct SourceItem {
    pub start: LineColumn,
    pub calls: Vec<MacroCall>,
}

/// What `syn` makes of a file: its items, or the error it stopped at (its line, counted
/// from 1, its column, and its message).
pub enum FileSyntax {
    Items(Vec<SourceItem>),
    Error { line: usize, column: usize, message: String },
}

/// What `syn::parse_str::<syn::File>` makes of `source`, with positions within `source`.
pub uninterp spec fn rust_file(source: Seq<char>) -> FileSyntax;

/// A `syn` expression, carried through as it is.
#[verifier::external_type_specification]
#[verifier::external_body]
pub struct ExExpr(syn::Expr);

/// Collects the macro calls of an item's expressions.
struct Collector {
    calls: Vec<MacroCall>,
}

impl<'ast> Visit<'ast> for Collector {
    /// `syn::visit::visit_expr`, but for a macro call, which is recorded and not entered.
    #[verifier::external_body]
    fn visit_expr(&mut self, e: &'ast Expr) {
        let Expr::Macro(m) = e else { return syn::visit::visit_expr(self, e) };
        let path = m.mac.path.to_token_stream().into_iter().map(|t| t.to_string()).collect::<Vec<_>>().join("");
        let group = match &m.mac.delimiter {
            MacroDelimiter::Paren(d) => d.span,
            MacroDelimiter::Brace(d) => d.span,
            MacroDelimiter::Bracket(d) => d.span,
        };
        let (start, end) = (e.span().start(), e.span().end());
        self.calls.push(MacroCall { path, start, end, args_start: group.start(), args_end: group.end() });
    }
}

/// `syn::parse_str::<syn::File>`, with proc-macro2's own implementation forced while the
/// text is parsed (`proc_macro2::fallback::force`, undone by `unforce`), so that positions
/// are lines and columns within the text: each item's start and the macro calls that
/// `syn::visit` meets in it, or the parse error. The result is named `rust_file`.
#[verifier::external_body]
pub fn file_syntax(source: &str) -> (r: FileSyntax)
    ensures
        r == rust_file(source@),
{
    force();
    let parsed = syn::parse_str::<syn::File>(source);
    unforce();
    match parsed {
        Err(e) => {
            let p = e.span().start();
            FileSyntax::Error { line: p.line, column: p.column, message: e.to_string() }
        },
        Ok(f) => FileSyntax::Items(f.items.iter().map(|it| {
            let mut c = Collector { calls: Vec::new() };
            c.visit_item(it);
            SourceItem { start: it.span().start(), calls: c.calls }
        }).collect()),
    }
}


// ---------------------------------------------------------------------------------------
// Specification

/// How many line breaks stand before character `off`.
pub open spec fn newlines_before(src: Seq<char>, off: int) -> nat
    decreases off,
{
    if off <= 0 || off > src.len() {
        0
    } else {
        newlines_before(src, off - 1) + if src[off - 1] == '\n' { 1nat } else { 0nat }
    }
}

/// Where the line that holds character `off` starts.
pub open spec fn line_start_before(src: Seq<char>, off: int) -> int
    decreases off,
{
    if off <= 0 || off > src.len() {
        0
    } else if src[off - 1] == '\n' {
        off
    } else {
        line_start_before(src, off - 1)
    }
}

/// The line (counted from 1) and column of character `off`.
pub open spec fn offset_position(src: Seq<char>, off: int) -> (int, int) {
    (1 + newlines_before(src, off) as int, off - line_start_before(src, off))
}

/// Where the line that starts at `i` ends: at its line break or at the end.
pub open spec fn line_end(src: Seq<char>, i: int) -> int
    decreases src.len() - i,
{
    if i < 0 || i >= src.len() || src[i] == '\n' {
        i
    } else {
        line_end(src, i + 1)
    }
}

pub proof fn lemma_line_end(src: Seq<char>, i: int)
    requires
        0 <= i <= src.len(),
    ensures
        i <= line_end(src, i) <= src.len(),
        line_end(src, i) < src.len() ==> src[line_end(src, i)] == '\n',
    decreases src.len() - i,
{
    if i < src.len() && src[i] != '\n' {
        lemma_line_end(src, i + 1);
    }
}

/// The text of line `n` (counted from 1) from the line that starts at `i` on, as
/// `str::lines` gives it (without its line break, or the `\r` before one); nothing for a
/// line that the text does not have.
pub open spec fn line_from(src: Seq<char>, i: int, n: int) -> Seq<char>
    decreases src.len() - i,
{
    if i < 0 || i >= src.len() || n < 1 {
        Seq::empty()
    } else {
        let e = line_end(src, i);
        proof {
            lemma_line_end(src, i);
        }
        if n == 1 {
            if e < src.len() && e > i && src[e - 1] == '\r' { src.subrange(i, e - 1) } else { src.subrange(i, e) }
        } else if e >= src.len() {
            Seq::empty()
        } else {
            line_from(src, e + 1, n - 1)
        }
    }
}

pub open spec fn line_text(src: Seq<char>, n: int) -> Seq<char> {
    line_from(src, 0, n)
}

/// The characters between the delimiters of a call's arguments, when both ends are found.
pub open spec fn args_range(src: Seq<char>, call: MacroCall) -> Option<(int, int)> {
    match (line_col(src, call.args_start), line_col(src, call.args_end)) {
        (Some(a), Some(b)) => if a < b { Some((a + 1, if b - 1 > a + 1 { b - 1 } else { a + 1 })) } else { None },
        _ => None,
    }
}

/// What converting one call gives: nothing, the replacement of the characters `start..end`
/// by a text, or an error at a line and column with a message.
pub type Outcome = Option<Result<(int, int, Seq<char>), (int, int, Seq<char>)>>;

pub open spec fn body_inputs(c: Closure) -> nat {
    match c.body {
        ClosureBody::Closure { inputs, .. } => inputs@.len(),
        _ => 0,
    }
}

/// A closure with more captures and arguments than the rewritten text can number.
pub open spec fn too_many(c: Closure) -> bool {
    c.strong@.len() + c.weak@.len() + 2 + body_inputs(c) > usize::MAX
}

/// What a call whose arguments read as `c` gives: an error at the call for too many
/// captures or for a body the macro does not take, else the call's characters replaced
/// by the rewritten text (nothing when the call's ends are not found).
pub open spec fn closure_outcome(src: Seq<char>, call: MacroCall, local: Option<bool>, preserve: bool, c: Closure, o: Outcome) -> bool {
    if too_many(c) {
        o == Some(Err::<(int, int, Seq<char>), (int, int, Seq<char>)>((call.start.line as int, call.start.column as int, "Too many captures"@)))
    } else if !supported_body(local, c.body) {
        o == Some(Err::<(int, int, Seq<char>), (int, int, Seq<char>)>((call.start.line as int, call.start.column as int, "Unsupported expression type"@)))
    } else {
        match (line_col(src, call.start), line_col(src, call.end)) {
            (Some(s), Some(e)) => o == Some(Ok::<(int, int, Seq<char>), (int, int, Seq<char>)>((s, e, closure_text(c, local, preserve)))),
            _ => o is None,
        }
    }
}

/// `o` is what converting `call` gives: a macro other than `clone!` and `closure!` (or one
/// whose arguments are not found) gives nothing; arguments that do not read give the
/// syntax error at its place in the file.
pub open spec fn call_outcome(src: Seq<char>, call: MacroCall, preserve: bool, o: Outcome) -> bool {
    match macro_kind(call.path@) {
        None => o is None,
        Some(local) => match args_range(src, call) {
            None => o is None,
            Some((a, b)) => {
                let text = src.subrange(a, b);
                match syntax_error(text) {
                    Some((at, m)) => o == Some(Err::<(int, int, Seq<char>), (int, int, Seq<char>)>((
                        offset_position(src, a + at).0, offset_position(src, a + at).1, m))),
                    None => exists|c: Closure| #[trigger] closure_grammar(text, c) && closure_outcome(src, call, local, preserve, c, o),
                }
            },
        },
    }
}

/// The replacements among outcomes, in order.
pub open spec fn replaced(os: Seq<Outcome>) -> Seq<(int, int, Seq<char>)>
    decreases os.len(),
{
    if os.len() == 0 {
        Seq::empty()
    } else {
        replaced(os.drop_last()) + match os.last() { Some(Ok(r)) => seq![r], _ => Seq::empty() }
    }
}

/// The errors among outcomes, in order.
pub open spec fn failed(os: Seq<Outcome>) -> Seq<(int, int, Seq<char>)>
    decreases os.len(),
{
    if os.len() == 0 {
        Seq::empty()
    } else {
        failed(os.drop_last()) + match os.last() { Some(Err(e)) => seq![e], _ => Seq::empty() }
    }
}

pub open spec fn marker() -> Seq<char> {
    "#[gobject::clone_block]\n"@
}

/// The replacements of one item: its calls', after the marker inserted at the item's
/// start when it has any and its start is found.
pub open spec fn item_replaced(src: Seq<char>, item: SourceItem, os: Seq<Outcome>) -> Seq<(int, int, Seq<char>)> {
    let found = replaced(os);
    match line_col(src, item.start) {
        Some(p) => if found.len() > 0 { seq![(p, p, marker())] + found } else { found },
        None => found,
    }
}

/// The replacements of the first `k` items.
pub open spec fn all_replaced(src: Seq<char>, items: Seq<SourceItem>, oss: Seq<Seq<Outcome>>, k: int) -> Seq<(int, int, Seq<char>)>
    decreases k,
{
    if k <= 0 {
        Seq::empty()
    } else {
        all_replaced(src, items, oss, k - 1) + item_replaced(src, items[k - 1], oss[k - 1])
    }
}

/// The errors of the first `k` items.
pub open spec fn all_failed(oss: Seq<Seq<Outcome>>, k: int) -> Seq<(int, int, Seq<char>)>
    decreases k,
{
    if k <= 0 {
        Seq::empty()
    } else {
        all_failed(oss, k - 1) + failed(oss[k - 1])
    }
}

/// `oss` are what the calls of each item give.
pub open spec fn outcomes_of(src: Seq<char>, items: Seq<SourceItem>, preserve: bool, oss: Seq<Seq<Outcome>>) -> bool {
    &&& oss.len() == items.len()
    &&& forall|i: int| 0 <= i < items.len() ==> {
        let os = #[trigger] oss[i];
        &&& os.len() == items[i].calls@.len()
        &&& forall|k: int| 0 <= k < os.len() ==> call_outcome(src, items[i].calls@[k], preserve, #[trigger] os[k])
    }
}

/// The report of the first `k` errors: each shown with its line, then a line break.
pub open spec fn report(src: Seq<char>, errs: Seq<(int, int, Seq<char>)>, k: int) -> Seq<char>
    decreases k,
{
    if k <= 0 {
        Seq::empty()
    } else {
        let (l, c, m) = errs[k - 1];
        report(src, errs, k - 1) + parse_error_text(l as nat, c as nat, m, line_text(src, l)) + "\n"@
    }
}

/// The replacements lie within `len` characters, in order, without overlapping.
pub open spec fn ordered_views(reps: Seq<(int, int, Seq<char>)>, len: nat) -> bool {
    &&& forall|i: int| 0 <= i < reps.len() ==> 0 <= (#[trigger] reps[i]).0 <= reps[i].1 <= len
    &&& forall|i: int, j: int| 0 <= i < j < reps.len() ==> (#[trigger] reps[i]).1 <= (#[trigger] reps[j]).0
}

/// The text with the replacements made from the last to the first.
pub open spec fn applied_views(s: Seq<char>, reps: Seq<(int, int, Seq<char>)>) -> Seq<char>
    decreases reps.len(),
{
    if reps.len() == 0 {
        s
    } else {
        let r = reps.last();
        applied_views(s.subrange(0, r.0) + r.2 + s.subrange(r.1, s.len() as int), reps.drop_last())
    }
}

/// `r` is what converting `src` gives, `fs` being what `syn` makes of it: the report of
/// the parse error; else the report of the calls' errors, when there is one; else nothing
/// when no call is rewritten; else an error for replacements that overlap; else the text
/// with each call replaced.
pub open spec fn converts(src: Seq<char>, fs: FileSyntax, preserve: bool, r: Result<Option<String>, String>) -> bool {
    match fs {
        FileSyntax::Error { line, column, message } =>
            r matches Err(m) && m@ == report(src, seq![(line as int, column as int, message@)], 1),
        FileSyntax::Items(items) => exists|oss: Seq<Seq<Outcome>>| #[trigger] outcomes_of(src, items@, preserve, oss) && {
            let errs = all_failed(oss, items@.len() as int);
            let reps = all_replaced(src, items@, oss, items@.len() as int);
            if errs.len() > 0 {
                r matches Err(m) && m@ == report(src, errs, errs.len() as int)
            } else if reps.len() == 0 {
                r matches Ok(None)
            } else if !ordered_views(reps, src.len()) {
                r matches Err(m) && m@ == "overlapping macro calls"@
            } else {
                r matches Ok(Some(t)) && t@ == applied_views(src, reps)
            }
        },
    }
}

// ---------------------------------------------------------------------------------------
// Converting

/// What converting one call gives.
pub enum CallResult {
    Skip,
    Replace(Replacement),
    Fail { line: usize, column: usize, message: String },
}

pub open spec fn outcome_of(r: CallResult) -> Outcome {
    match r {
        CallResult::Skip => None,
        CallResult::Replace(x) => Some(Ok((x.start as int, x.end as int, x.text@))),
        CallResult::Fail { line, column, message } => Some(Err((line as int, column as int, message@))),
    }
}

pub open spec fn rep_view(r: Replacement) -> (int, int, Seq<char>) {
    (r.start as int, r.end as int, r.text@)
}

pub open spec fn rep_views(reps: Seq<Replacement>) -> Seq<(int, int, Seq<char>)> {
    reps.map_values(|r: Replacement| rep_view(r))
}

fn position_of(src: &str, n: usize, off: usize) -> (r: (usize, usize))
    requires
        n == src@.len(),
        off <= n,
        n < usize::MAX,
    ensures
        r.0 as int == offset_position(src@, off as int).0,
        r.1 as int == offset_position(src@, off as int).1,
{
    let mut line: usize = 1;
    let mut start: usize = 0;
    let mut i: usize = 0;
    while i < off
        invariant
            n == src@.len(),
            off <= n < usize::MAX,
            i <= off,
            line as int == 1 + newlines_before(src@, i as int),
            line <= i + 1,
            start as int == line_start_before(src@, i as int),
            start <= i,
        decreases off - i,
    {
        if src.get_char(i) == '\n' {
            line = line + 1;
            start = i + 1;
        }
        i = i + 1;
    }
    (line, off - start)
}

fn line_text_of(src: &str, n: usize, line: usize) -> (r: String)
    requires
        n == src@.len(),
    ensures
        r@ == line_text(src@, line as int),
{
    let mut i: usize = 0;
    let mut k: usize = line;
    while i < n && k >= 1
        invariant
            n == src@.len(),
            i <= n,
            line_from(src@, i as int, k as int) == line_text(src@, line as int),
        decreases n - i,
    {
        let mut e = i;
        while e < n && src.get_char(e) != '\n'
            invariant
                n == src@.len(),
                i <= e <= n,
                line_end(src@, e as int) == line_end(src@, i as int),
            decreases n - e,
        {
            e = e + 1;
        }
        proof {
            lemma_line_end(src@, i as int);
        }
        if k == 1 {
            if e < n && e > i && src.get_char(e - 1) == '\r' {
                return src.substring_char(i, e - 1).to_owned();
            }
            return src.substring_char(i, e).to_owned();
        }
        if e >= n {
            return String::new();
        }
        i = e + 1;
        k = k - 1;
    }
    String::new()
}

fn inputs_of(c: &Closure) -> (r: usize)
    ensures
        r as nat == body_inputs(*c),
{
    match &c.body {
        ClosureBody::Closure { inputs, .. } => inputs.len(),
        _ => 0,
    }
}

fn error_at(line: usize, column: usize, message: &str) -> (r: CallResult)
    ensures
        outcome_of(r) == Some(Err::<(int, int, Seq<char>), (int, int, Seq<char>)>((line as int, column as int, message@))),
{
    CallResult::Fail { line, column, message: message.to_owned() }
}

/// Converts one call: see `call_outcome`.
pub fn convert_call(src: &str, call: &MacroCall, preserve: bool) -> (r: CallResult)
    requires
        src@.len() < usize::MAX,
    ensures
        call_outcome(src@, *call, preserve, outcome_of(r)),
{
    let n = src.unicode_len();
    let local = match classify_macro(call.path.as_str()) {
        Some(l) => l,
        None => return CallResult::Skip,
    };
    let (a, b) = match (line_col_of(src, n, call.args_start), line_col_of(src, n, call.args_end)) {
        (Some(a), Some(b)) => {
            if a < b {
                (a + 1, if b - 1 > a + 1 { b - 1 } else { a + 1 })
            } else {
                return CallResult::Skip;
            }
        },
        _ => return CallResult::Skip,
    };
    let text = src.substring_char(a, b);
    let c = match parse_closure(text) {
        Ok(c) => c,
        Err(e) => {
            let (line, column) = position_of(src, n, a + e.at);
            return CallResult::Fail { line, column, message: e.message };
        },
    };
    let inputs = inputs_of(&c);
    if (c.strong.len() as u128) + (c.weak.len() as u128) + 2 + (inputs as u128) > (usize::MAX as u128) {
        let r = error_at(call.start.line, call.start.column, "Too many captures");
        assert(closure_outcome(src@, *call, local, preserve, c, outcome_of(r)));
        return r;
    }
    let r = match convert_closure(&c, local, preserve) {
        Err(m) => CallResult::Fail { line: call.start.line, column: call.start.column, message: m },
        Ok(t) => match (line_col_of(src, n, call.start), line_col_of(src, n, call.end)) {
            (Some(s), Some(e)) => CallResult::Replace(Replacement { start: s, end: e, text: t }),
            _ => CallResult::Skip,
        },
    };
    assert(closure_outcome(src@, *call, local, preserve, c, outcome_of(r)));
    r
}

proof fn lemma_applied_views(s: Seq<char>, reps: Seq<Replacement>)
    ensures
        applied(s, reps) == applied_views(s, rep_views(reps)),
    decreases reps.len(),
{
    if reps.len() > 0 {
        assert(rep_views(reps).drop_last() =~= rep_views(reps.drop_last()));
        lemma_applied_views(splice(s, reps.last()), reps.drop_last());
    }
}

fn is_ordered(reps: &Vec<Replacement>, len: usize) -> (r: bool)
    ensures
        r == ordered_views(rep_views(reps@), len as nat),
        r == ordered(reps@, len as nat),
{
    let ghost v = rep_views(reps@);
    let mut k: usize = 0;
    while k < reps.len()
        invariant
            k <= reps@.len(),
            v == rep_views(reps@),
            forall|i: int| 0 <= i < k ==> (#[trigger] reps@[i]).start <= reps@[i].end <= len,
            forall|i: int, j: int| 0 <= i < j < k ==> (#[trigger] reps@[i]).end <= (#[trigger] reps@[j]).start,
        decreases reps.len() - k,
    {
        let r = &reps[k];
        if !(r.start <= r.end && r.end <= len) {
            assert(!(0 <= v[k as int].0 <= v[k as int].1 <= len));
            return false;
        }
        if k > 0 && reps[k - 1].end > r.start {
            assert(!(v[k - 1].1 <= v[k as int].0));
            return false;
        }
        assert forall|i: int| 0 <= i < k implies (#[trigger] reps@[i]).end <= reps@[k as int].start by {
            if i < k - 1 {
                assert(reps@[i].end <= reps@[k - 1].start);
            }
        }
        k = k + 1;
    }
    true
}

/// Converts the calls of `source`, `fs` being what `syn` makes of it: see `converts`.
pub fn convert_calls(source: &str, fs: FileSyntax, preserve: bool) -> (r: Result<Option<String>, String>)
    requires
        source@.len() < usize::MAX,
    ensures
        converts(source@, fs, preserve, r),
{
    let n = source.unicode_len();
    let items = match fs {
        FileSyntax::Error { line, column, message } => {
            let lt = line_text_of(source, n, line);
            let mut m = format_parse_error(line as u64, column as u64, message.as_str(), lt.as_str());
            m.append("\n");
            let ghost one = seq![(line as int, column as int, message@)];
            assert(one[0] == (line as int, column as int, message@));
            assert(report(source@, one, 0) == Seq::<char>::empty());
            assert(m@ =~= report(source@, one, 1));
            return Err(m);
        },
        FileSyntax::Items(items) => items,
    };
    let ghost all = items@;
    let mut reps: Vec<Replacement> = Vec::new();
    let mut errs: Vec<(usize, usize, String)> = Vec::new();
    let ghost mut oss: Seq<Seq<Outcome>> = Seq::empty();
    let mut i: usize = 0;
    while i < items.len()
        invariant
            n == source@.len() < usize::MAX,
            all == items@,
            i <= items@.len(),
            oss.len() == i,
            forall|q: int| 0 <= q < i ==> {
                let os = #[trigger] oss[q];
                &&& os.len() == items@[q].calls@.len()
                &&& forall|k: int| 0 <= k < os.len() ==> call_outcome(source@, items@[q].calls@[k], preserve, #[trigger] os[k])
            },
            rep_views(reps@) == all_replaced(source@, items@, oss, i as int),
            errs@.map_values(|e: (usize, usize, String)| (e.0 as int, e.1 as int, e.2@)) == all_failed(oss, i as int),
        decreases items.len() - i,
    {
        let item = &items[i];
        let mut found: Vec<Replacement> = Vec::new();
        let ghost mut os: Seq<Outcome> = Seq::empty();
        let ghost errs0 = errs@.map_values(|e: (usize, usize, String)| (e.0 as int, e.1 as int, e.2@));
        let mut k: usize = 0;
        while k < item.calls.len()
            invariant
                n == source@.len() < usize::MAX,
                k <= item.calls@.len(),
                os.len() == k,
                forall|q: int| 0 <= q < k ==> call_outcome(source@, item.calls@[q], preserve, #[trigger] os[q]),
                rep_views(found@) == replaced(os),
                errs@.map_values(|e: (usize, usize, String)| (e.0 as int, e.1 as int, e.2@)) == errs0 + failed(os),
            decreases item.calls.len() - k,
        {
            let r = convert_call(source, &item.calls[k], preserve);
            let ghost o = outcome_of(r);
            let ghost fb = found@;
            let ghost eb = errs@;
            match r {
                CallResult::Skip => {},
                CallResult::Replace(x) => {
                    found.push(x);
                },
                CallResult::Fail { line, column, message } => {
                    let ghost ev = (line as int, column as int, message@);
                    errs.push((line, column, message));
                    assert(errs@.map_values(|e: (usize, usize, String)| (e.0 as int, e.1 as int, e.2@))
                        =~= eb.map_values(|e: (usize, usize, String)| (e.0 as int, e.1 as int, e.2@)).push(ev));
                },
            }
            proof {
                let os2 = os.push(o);
                assert(os2.drop_last() =~= os);
                assert(rep_views(found@) =~= replaced(os2));
                assert(errs@.map_values(|e: (usize, usize, String)| (e.0 as int, e.1 as int, e.2@)) =~= errs0 + failed(os2));
                os = os2;
            }
            k = k + 1;
        }
        let ghost before = rep_views(reps@);
        match line_col_of(source, n, item.start) {
            Some(p) => {
                if found.len() > 0 {
                    reps.push(Replacement { start: p, end: p, text: "#[gobject::clone_block]\n".to_owned() });
                }
            },
            None => {},
        }
        let ghost mid = rep_views(reps@);
        reps.append(&mut found);
        proof {
            let oss2 = oss.push(os);
            assert(oss2.drop_last() =~= oss);
            lemma_all_replaced_prefix(source@, items@, oss, oss2, i as int);
            lemma_all_failed_prefix(oss, oss2, i as int);
            assert(rep_views(reps@) =~= all_replaced(source@, items@, oss2, i as int + 1));
            assert(oss2[i as int] == os);
            oss = oss2;
        }
        i = i + 1;
    }
    proof {
        assert(outcomes_of(source@, items@, preserve, oss));
    }
    if errs.len() > 0 {
        let ghost ev = errs@.map_values(|e: (usize, usize, String)| (e.0 as int, e.1 as int, e.2@));
        let mut m = String::new();
        let mut q: usize = 0;
        while q < errs.len()
            invariant
                n == source@.len(),
                q <= errs@.len(),
                ev == errs@.map_values(|e: (usize, usize, String)| (e.0 as int, e.1 as int, e.2@)),
                m@ == report(source@, ev, q as int),
            decreases errs.len() - q,
        {
            let (l, c, msg) = &errs[q];
            let lt = line_text_of(source, n, *l);
            let t = format_parse_error(*l as u64, *c as u64, msg.as_str(), lt.as_str());
            m.append(t.as_str());
            m.append("\n");
            assert(m@ =~= report(source@, ev, q as int + 1));
            q = q + 1;
        }
        return Err(m);
    }
    if reps.len() == 0 {
        return Ok(None);
    }
    if !is_ordered(&reps, n) {
        return Err("overlapping macro calls".to_owned());
    }
    let out = apply_replacements(source, &reps);
    proof {
        lemma_applied_views(source@, reps@);
    }
    Ok(Some(out))
}

proof fn lemma_all_replaced_prefix(src: Seq<char>, items: Seq<SourceItem>, oss: Seq<Seq<Outcome>>, oss2: Seq<Seq<Outcome>>, q: int)
    requires
        0 <= q <= oss.len(),
        oss.len() <= oss2.len(),
        forall|j: int| 0 <= j < oss.len() ==> oss2[j] == oss[j],
    ensures
        all_replaced(src, items, oss2, q) == all_replaced(src, items, oss, q),
    decreases q,
{
    if q > 0 {
        lemma_all_replaced_prefix(src, items, oss, oss2, q - 1);
    }
}

proof fn lemma_all_failed_prefix(oss: Seq<Seq<Outcome>>, oss2: Seq<Seq<Outcome>>, q: int)
    requires
        0 <= q <= oss.len(),
        oss.len() <= oss2.len(),
        forall|j: int| 0 <= j < oss.len() ==> oss2[j] == oss[j],
    ensures
        all_failed(oss2, q) == all_failed(oss, q),
    decreases q,
{
    if q > 0 {
        lemma_all_failed_prefix(oss, oss2, q - 1);
    }
}

/// Converts the `clone!` and `closure!` calls of a Rust source file: `syn` reads the file
/// (see `rust_file`), and the calls are converted as `converts` says.
pub fn convert_source(source: &str, preserve: bool) -> (r: Result<Option<String>, String>)
    requires
        source@.len() < usize::MAX,
    ensures
        converts(source@, rust_file(source@), preserve, r),
{
    let fs = file_syntax(source);
    convert_calls(source, fs, preserve)
}
} // verus!
