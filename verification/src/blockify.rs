//! Rewriting `clone!` and `closure!` macro calls into the attribute syntax of
//! `#[gobject::clone_block]`.
//!
//! A parsed macro call is given as the source text of each of its parts; a part whose
//! text could not be found in the source is `None`, and is left out of the output.
use vstd::prelude::*;
use vstd::string::StringExecFns;
use crate::text::str_eq;

verus! {

/// A capture that keeps a strong reference: `@strong a.b as c` (or `@watch`).
pub struct StrongCapture {
    pub ident: String,
    /// The text of the expression captured from, when it is not the identifier itself.
    pub from: Option<String>,
}

/// A capture that keeps a weak reference: `@weak a.b as c`, `@weak-allow-none c`.
pub struct WeakCapture {
    pub ident: String,
    pub from: Option<String>,
    pub allow_none: bool,
}

/// What a closure does when a weak capture is gone: panic, or return a value (whose text
/// is given when found).
pub enum DefaultAction {
    Panic,
    Return { expr: Option<String> },
}

/// The body of the macro: an `async` block, a closure, or anything else.
pub enum ClosureBody {
    Async { attrs: Vec<String>, block: Option<String> },
    Closure {
        attrs: Vec<String>,
        movability: Option<String>,
        asyncness: Option<String>,
        capture: Option<String>,
        /// The text of each argument pattern, in order.
        inputs: Vec<Option<String>>,
        /// The text of the return type, when one is written.
        output: Option<String>,
        body: Option<String>,
    },
    Other,
}

/// A parsed `clone!` or `closure!` call.
pub struct Closure {
    pub watch: Option<StrongCapture>,
    pub strong: Vec<StrongCapture>,
    pub weak: Vec<WeakCapture>,
    pub action: Option<DefaultAction>,
    pub body: ClosureBody,
}

/// The kinds of capture that the macros take.
pub enum CaptureKind {
    Strong,
    Watch,
    Weak,
    WeakAllowNone,
}

// ---------------------------------------------------------------------------------------
// Specification

/// `"("`, `s` and `")"`, or nothing for no text.
pub open spec fn parenthesized(s: Option<Seq<char>>) -> Seq<char> {
    match s {
        Some(t) => "("@ + t + ")"@,
        None => Seq::empty(),
    }
}

pub open spec fn opt_view(s: Option<String>) -> Option<Seq<char>> {
    match s {
        Some(t) => Some(t@),
        None => None,
    }
}

/// A strong capture as an argument attribute: `#[name(from)] ident`.
pub open spec fn strong_text(c: StrongCapture, name: Seq<char>) -> Seq<char> {
    "#["@ + name + parenthesized(opt_view(c.from)) + "] "@ + c.ident@
}

/// The words inside a weak capture's attribute: its origin, then `extra`, separated by a
/// space.
pub open spec fn weak_words(from: Option<Seq<char>>, extra: Option<Seq<char>>) -> Seq<char> {
    match (from, extra) {
        (Some(f), Some(e)) => f + " "@ + e,
        (Some(f), None) => f,
        (None, Some(e)) => e,
        (None, None) => Seq::empty(),
    }
}

/// A weak capture as an argument attribute: `#[weak(from extra)] ident`.
pub open spec fn weak_text(c: WeakCapture, extra: Option<Seq<char>>) -> Seq<char> {
    let w = weak_words(opt_view(c.from), extra);
    "#[weak"@ + (if w.len() == 0 { Seq::empty() } else { "("@ + w + ")"@ }) + "] "@ + c.ident@
}

/// Each text followed by a space.
pub open spec fn spaced(items: Seq<String>) -> Seq<char>
    decreases items.len(),
{
    if items.len() == 0 {
        Seq::empty()
    } else {
        spaced(items.drop_last()) + items.last()@ + " "@
    }
}

/// The number of weak captures that have a default action.
pub open spec fn default_weaks(weak: Seq<WeakCapture>) -> nat
    decreases weak.len(),
{
    if weak.len() == 0 {
        0
    } else {
        default_weaks(weak.drop_last()) + if weak.last().allow_none { 0nat } else { 1nat }
    }
}

/// The attribute for the closure's default action, and whether it was written.
pub open spec fn default_attr(c: Closure, preserve_default: bool) -> (Seq<char>, bool) {
    if preserve_default || default_weaks(c.weak@) > 1 {
        match c.action {
            Some(DefaultAction::Panic) => ("#[default_panic] "@, true),
            Some(DefaultAction::Return { expr }) => match expr {
                Some(e) => ("#[default_return("@ + e@ + ")] "@, true),
                None => (Seq::empty(), false),
            },
            None => if !preserve_default { ("#[default_return] "@, true) } else { (Seq::empty(), false) },
        }
    } else {
        (Seq::empty(), false)
    }
}

/// The attribute that marks a `closure!` (`Some(local)`) call.
pub open spec fn local_attr(c: Closure, local: Option<bool>) -> Seq<char> {
    match local {
        Some(true) => if c.watch is None { "#[closure(local)] "@ } else { Seq::empty() },
        Some(false) => "#[closure] "@,
        None => Seq::empty(),
    }
}

/// The closure's argument patterns, each followed by `", "` but the last argument.
pub open spec fn inputs_text(inputs: Seq<Option<String>>, n: int) -> Seq<char>
    decreases n,
{
    if n <= 0 {
        Seq::empty()
    } else {
        inputs_text(inputs, n - 1) + match inputs[n - 1] {
            Some(t) => t@ + if n - 1 != inputs.len() - 1 { ", "@ } else { Seq::empty() },
            None => Seq::empty(),
        }
    }
}

/// Text followed by a space, or nothing.
pub open spec fn word(s: Option<String>) -> Seq<char> {
    match s {
        Some(t) => t@ + " "@,
        None => Seq::empty(),
    }
}

/// The head of the closure up to its argument list, and how many arguments it has.
pub open spec fn head_text(body: ClosureBody) -> (Seq<char>, nat) {
    match body {
        ClosureBody::Async { .. } => ("move |"@, 0),
        ClosureBody::Closure { movability, asyncness, capture, inputs, .. } =>
            (word(movability) + word(asyncness) + word(capture) + "|"@ + inputs_text(inputs@, inputs@.len() as int), inputs@.len()),
        ClosureBody::Other => (Seq::empty(), 0),
    }
}

/// An argument after `count` others: preceded by `", "` when there are any.
pub open spec fn argument(count: nat, text: Seq<char>) -> Seq<char> {
    if count > 0 { ", "@ + text } else { text }
}

/// The strong captures as arguments, after `count` others.
pub open spec fn strong_args(strong: Seq<StrongCapture>, count: nat) -> Seq<char>
    decreases strong.len(),
{
    if strong.len() == 0 {
        Seq::empty()
    } else {
        strong_args(strong.drop_last(), count) + argument(count + (strong.len() - 1) as nat, strong_text(strong.last(), "strong"@))
    }
}

/// The words added to a weak capture: `allow_none` when a default is written for the
/// closure, the capture's own default action otherwise.
pub open spec fn weak_extra(w: WeakCapture, action: Option<DefaultAction>, has_default: bool) -> Option<Seq<char>> {
    if w.allow_none && has_default {
        Some("allow_none"@)
    } else if !w.allow_none && !has_default {
        match action {
            Some(DefaultAction::Panic) => Some("or_panic"@),
            Some(DefaultAction::Return { expr }) => match expr {
                Some(e) => Some("or_return "@ + e@),
                None => Some("or_return"@),
            },
            None => Some("or_return"@),
        }
    } else {
        None
    }
}

/// The weak captures as arguments, after `count` others.
pub open spec fn weak_args(weak: Seq<WeakCapture>, count: nat, action: Option<DefaultAction>, has_default: bool) -> Seq<char>
    decreases weak.len(),
{
    if weak.len() == 0 {
        Seq::empty()
    } else {
        weak_args(weak.drop_last(), count, action, has_default)
            + argument(count + (weak.len() - 1) as nat, weak_text(weak.last(), weak_extra(weak.last(), action, has_default)))
    }
}

/// What follows the argument list.
pub open spec fn tail_text(body: ClosureBody) -> Seq<char> {
    match body {
        ClosureBody::Async { block, .. } => match block { Some(b) => b@, None => Seq::empty() },
        ClosureBody::Closure { output, body, .. } =>
            (match output { Some(t) => "-> "@ + t@ + " "@, None => Seq::empty() })
            + match body { Some(b) => b@, None => Seq::empty() },
        ClosureBody::Other => Seq::empty(),
    }
}

pub open spec fn body_attrs(body: ClosureBody) -> Seq<String> {
    match body {
        ClosureBody::Async { attrs, .. } => attrs@,
        ClosureBody::Closure { attrs, .. } => attrs@,
        ClosureBody::Other => Seq::empty(),
    }
}

/// The closure written with attributes on its arguments.
pub open spec fn closure_text(c: Closure, local: Option<bool>, preserve_default: bool) -> Seq<char> {
    if c.body is Other {
        Seq::empty()
    } else {
        let (default, has_default) = default_attr(c, preserve_default);
        let (head, n) = head_text(c.body);
        let after_watch = if c.watch is Some { n + 1 } else { n };
        spaced(body_attrs(c.body)) + local_attr(c, local) + default + head
            + (match c.watch { Some(w) => argument(n, strong_text(w, "watch"@)), None => Seq::empty() })
            + strong_args(c.strong@, after_watch)
            + weak_args(c.weak@, after_watch + c.strong@.len(), c.action, has_default)
            + "| "@ + tail_text(c.body)
    }
}

/// What follows the closure's attributes and its `closure!` attribute in its rewriting.
spec fn closure_rest(c: Closure, preserve_default: bool) -> Seq<char> {
    let (default, has_default) = default_attr(c, preserve_default);
    let (head, n) = head_text(c.body);
    let after_watch = if c.watch is Some { n + 1 } else { n };
    default + head
        + (match c.watch { Some(w) => argument(n, strong_text(w, "watch"@)), None => Seq::empty() })
        + strong_args(c.strong@, after_watch)
        + weak_args(c.weak@, after_watch + c.strong@.len(), c.action, has_default)
        + "| "@ + tail_text(c.body)
}

proof fn lemma_closure_text_split(c: Closure, local: Option<bool>, preserve_default: bool)
    requires
        !(c.body is Other),
    ensures
        closure_text(c, local, preserve_default)
            == spaced(body_attrs(c.body)) + local_attr(c, local) + closure_rest(c, preserve_default),
{
    let (default, has_default) = default_attr(c, preserve_default);
    let (head, n) = head_text(c.body);
    let after_watch = if c.watch is Some { n + 1 } else { n };
    let w = match c.watch { Some(w) => argument(n, strong_text(w, "watch"@)), None => Seq::empty() };
    let sa = strong_args(c.strong@, after_watch);
    let wa = weak_args(c.weak@, after_watch + c.strong@.len(), c.action, has_default);
    let t = "| "@ + tail_text(c.body);
    let x = spaced(body_attrs(c.body)) + local_attr(c, local);
    assert(closure_text(c, local, preserve_default) == x + default + head + w + sa + wa + "| "@ + tail_text(c.body));
    assert(x + default + head + w + sa + wa + "| "@ + tail_text(c.body) =~= x + (default + head + w + sa + wa + "| "@ + tail_text(c.body)));
}

/// A `closure!` call is rewritten as its `clone!` rewriting with one attribute more, placed
/// after the closure's own attributes: `#[closure] ` for a `closure!` call, and
/// `#[closure(local)] ` for a `closure_local!` call without a watch capture (with one, the
/// local call is rewritten as a `clone!` one). So local and non-local calls without a
/// watch capture are told apart in the rewritten text.
pub proof fn local_closures_marked(c: Closure, preserve_default: bool)
    requires
        !(c.body is Other),
    ensures
        ({
            let base = closure_text(c, None, preserve_default);
            let k = spaced(body_attrs(c.body)).len() as int;
            &&& 0 <= k <= base.len()
            &&& closure_text(c, Some(false), preserve_default)
                == base.subrange(0, k) + "#[closure] "@ + base.subrange(k, base.len() as int)
            &&& c.watch is None ==> closure_text(c, Some(true), preserve_default)
                == base.subrange(0, k) + "#[closure(local)] "@ + base.subrange(k, base.len() as int)
            &&& c.watch is Some ==> closure_text(c, Some(true), preserve_default) == base
        }),
{
    let attrs = spaced(body_attrs(c.body));
    let rest = closure_rest(c, preserve_default);
    lemma_closure_text_split(c, None, preserve_default);
    lemma_closure_text_split(c, Some(false), preserve_default);
    lemma_closure_text_split(c, Some(true), preserve_default);
    let base = closure_text(c, None, preserve_default);
    let k = attrs.len() as int;
    assert(base =~= attrs + rest);
    assert(base.subrange(0, k) =~= attrs);
    assert(base.subrange(k, base.len() as int) =~= rest);
}

// ---------------------------------------------------------------------------------------
// Implementation

fn append_opt(out: &mut String, s: &Option<String>)
    ensures
        final(out)@ == old(out)@ + match *s { Some(t) => t@, None => Seq::<char>::empty() },
{
    match s {
        Some(t) => out.append(t.as_str()),
        None => {
            assert(out@ =~= old(out)@ + Seq::<char>::empty());
        },
    }
}

fn append_word(out: &mut String, s: &Option<String>)
    ensures
        final(out)@ == old(out)@ + word(*s),
{
    match s {
        Some(t) => {
            out.append(t.as_str());
            out.append(" ");
        },
        None => {
            assert(out@ =~= old(out)@ + word(*s));
        },
    }
}

impl StrongCapture {
    /// The capture as an argument attribute named `name` (`strong` or `watch`).
    pub fn to_string(&self, name: &str) -> (r: String)
        ensures
            r@ == strong_text(*self, name@),
    {
        let mut out = "#[".to_owned();
        out.append(name);
        match &self.from {
            Some(f) => {
                out.append("(");
                out.append(f.as_str());
                out.append(")");
            },
            None => {},
        }
        out.append("] ");
        out.append(self.ident.as_str());
        out
    }
}

impl WeakCapture {
    /// The capture as a `#[weak]` argument attribute, with `extra` words after its origin.
    pub fn to_string(&self, extra: Option<&str>) -> (r: String)
        ensures
            r@ == weak_text(*self, match extra { Some(e) => Some(e@), None => None::<Seq<char>> }),
    {
        let mut words = String::new();
        match &self.from {
            Some(f) => words.append(f.as_str()),
            None => {},
        }
        match extra {
            Some(e) => {
                if self.from.is_some() {
                    words.append(" ");
                }
                words.append(e);
            },
            None => {},
        }
        let mut out = "#[weak".to_owned();
        if words.unicode_len() > 0 {
            out.append("(");
            out.append(words.as_str());
            out.append(")");
        }
        out.append("] ");
        out.append(self.ident.as_str());
        out
    }
}

fn count_default_weaks(weak: &Vec<WeakCapture>) -> (r: usize)
    ensures
        r == default_weaks(weak@),
{
    let mut n: usize = 0;
    let mut i: usize = 0;
    while i < weak.len()
        invariant
            i <= weak@.len(),
            n == default_weaks(weak@.subrange(0, i as int)),
            n <= i,
        decreases weak.len() - i,
    {
        assert(weak@.subrange(0, i as int + 1).drop_last() =~= weak@.subrange(0, i as int));
        if !weak[i].allow_none {
            n = n + 1;
        }
        i = i + 1;
    }
    assert(weak@.subrange(0, weak@.len() as int) =~= weak@);
    n
}

impl Closure {
    fn write_default(&self, out: &mut String, preserve_default: bool) -> (has_default: bool)
        ensures
            final(out)@ == old(out)@ + default_attr(*self, preserve_default).0,
            has_default == default_attr(*self, preserve_default).1,
    {
        let mut has_default = false;
        if preserve_default || count_default_weaks(&self.weak) > 1 {
            match &self.action {
                Some(DefaultAction::Panic) => {
                    out.append("#[default_panic] ");
                    has_default = true;
                },
                Some(DefaultAction::Return { expr }) => {
                    match expr {
                        Some(e) => {
                            out.append("#[default_return(");
                            out.append(e.as_str());
                            out.append(")] ");
                            has_default = true;
                        },
                        None => {},
                    }
                },
                None => {
                    if !preserve_default {
                        out.append("#[default_return] ");
                        has_default = true;
                    }
                },
            }
        }
        assert(out@ =~= old(out)@ + default_attr(*self, preserve_default).0);
        has_default
    }

    fn write_head(&self, out: &mut String) -> (count: usize)
        ensures
            final(out)@ == old(out)@ + head_text(self.body).0,
            count == head_text(self.body).1,
    {
        match &self.body {
            ClosureBody::Async { .. } => {
                out.append("move |");
                0
            },
            ClosureBody::Closure { movability, asyncness, capture, inputs, .. } => {
                let ghost start = out@;
                append_word(out, movability);
                append_word(out, asyncness);
                append_word(out, capture);
                out.append("|");
                let ghost before_inputs = out@;
                let n = inputs.len();
                let mut i: usize = 0;
                while i < n
                    invariant
                        n == inputs@.len(),
                        i <= n,
                        out@ == before_inputs + inputs_text(inputs@, i as int),
                    decreases n - i,
                {
                    match &inputs[i] {
                        Some(t) => {
                            out.append(t.as_str());
                            if i != n - 1 {
                                out.append(", ");
                            }
                        },
                        None => {},
                    }
                    assert(out@ =~= before_inputs + inputs_text(inputs@, i as int + 1));
                    i = i + 1;
                }
                assert(out@ =~= start + head_text(self.body).0);
                n
            },
            ClosureBody::Other => {
                assert(out@ =~= old(out)@ + head_text(self.body).0);
                0
            },
        }
    }

    fn write_captures(&self, out: &mut String, count: usize, has_default: bool)
        requires
            count + self.strong@.len() + self.weak@.len() + 1 <= usize::MAX,
        ensures
            final(out)@ == old(out)@
                + strong_args(self.strong@, count as nat)
                + weak_args(self.weak@, (count + self.strong@.len()) as nat, self.action, has_default),
    {
        let ghost start = out@;
        let mut i: usize = 0;
        while i < self.strong.len()
            invariant
                i <= self.strong@.len(),
                count + self.strong@.len() + self.weak@.len() + 1 <= usize::MAX,
                out@ == start + strong_args(self.strong@.subrange(0, i as int), count as nat),
            decreases self.strong.len() - i,
        {
            assert(self.strong@.subrange(0, i as int + 1).drop_last() =~= self.strong@.subrange(0, i as int));
            if count + i > 0 {
                out.append(", ");
            }
            let s = self.strong[i].to_string("strong");
            out.append(s.as_str());
            assert(out@ =~= start + strong_args(self.strong@.subrange(0, i as int + 1), count as nat));
            i = i + 1;
        }
        assert(self.strong@.subrange(0, self.strong@.len() as int) =~= self.strong@);
        let ghost mid = out@;
        let base = count + self.strong.len();
        let mut j: usize = 0;
        while j < self.weak.len()
            invariant
                j <= self.weak@.len(),
                base == count + self.strong@.len(),
                base + self.weak@.len() + 1 <= usize::MAX,
                out@ == mid + weak_args(self.weak@.subrange(0, j as int), base as nat, self.action, has_default),
            decreases self.weak.len() - j,
        {
            assert(self.weak@.subrange(0, j as int + 1).drop_last() =~= self.weak@.subrange(0, j as int));
            let w = &self.weak[j];
            let arg = if w.allow_none && has_default {
                w.to_string(Some("allow_none"))
            } else if !w.allow_none && !has_default {
                match &self.action {
                    Some(DefaultAction::Panic) => w.to_string(Some("or_panic")),
                    Some(DefaultAction::Return { expr }) => {
                        let mut extra = "or_return".to_owned();
                        match expr {
                            Some(e) => {
                                extra.append(" ");
                                extra.append(e.as_str());
                                proof {
                                    reveal_strlit("or_return");
                                    reveal_strlit(" ");
                                    reveal_strlit("or_return ");
                                    assert(extra@ =~= "or_return "@ + e@);
                                }
                            },
                            None => {},
                        }
                        w.to_string(Some(extra.as_str()))
                    },
                    None => w.to_string(Some("or_return")),
                }
            } else {
                w.to_string(None)
            };
            assert(arg@ == weak_text(*w, weak_extra(*w, self.action, has_default)));
            if base + j > 0 {
                out.append(", ");
            }
            out.append(arg.as_str());
            assert(out@ =~= mid + weak_args(self.weak@.subrange(0, j as int + 1), base as nat, self.action, has_default));
            j = j + 1;
        }
        assert(self.weak@.subrange(0, self.weak@.len() as int) =~= self.weak@);
    }

    fn write_attrs(&self, out: &mut String)
        ensures
            final(out)@ == old(out)@ + spaced(body_attrs(self.body)),
    {
        let ghost start = out@;
        match &self.body {
            ClosureBody::Async { attrs, .. } | ClosureBody::Closure { attrs, .. } => {
                let mut i: usize = 0;
                while i < attrs.len()
                    invariant
                        i <= attrs@.len(),
                        attrs@ == body_attrs(self.body),
                        out@ == start + spaced(attrs@.subrange(0, i as int)),
                    decreases attrs.len() - i,
                {
                    assert(attrs@.subrange(0, i as int + 1).drop_last() =~= attrs@.subrange(0, i as int));
                    out.append(attrs[i].as_str());
                    out.append(" ");
                    assert(out@ =~= start + spaced(attrs@.subrange(0, i as int + 1)));
                    i = i + 1;
                }
                assert(attrs@.subrange(0, attrs@.len() as int) =~= attrs@);
            },
            ClosureBody::Other => {
                assert(out@ =~= start + spaced(body_attrs(self.body)));
            },
        }
    }

    fn write_local(&self, out: &mut String, local: Option<bool>)
        ensures
            final(out)@ == old(out)@ + local_attr(*self, local),
    {
        match local {
            Some(true) => {
                if self.watch.is_none() {
                    out.append("#[closure(local)] ");
                }
            },
            Some(false) => out.append("#[closure] "),
            None => {},
        }
        assert(out@ =~= old(out)@ + local_attr(*self, local));
    }

    fn write_watch(&self, out: &mut String, n: usize) -> (count: usize)
        requires
            n < usize::MAX,
        ensures
            final(out)@ == old(out)@ + match self.watch {
                Some(w) => argument(n as nat, strong_text(w, "watch"@)),
                None => Seq::empty(),
            },
            count == if self.watch is Some { n + 1 } else { n as int },
    {
        match &self.watch {
            Some(w) => {
                if n > 0 {
                    out.append(", ");
                }
                let s = w.to_string("watch");
                out.append(s.as_str());
                n + 1
            },
            None => {
                assert(out@ =~= old(out)@ + Seq::<char>::empty());
                n
            },
        }
    }

    fn write_tail(&self, out: &mut String)
        ensures
            final(out)@ == old(out)@ + tail_text(self.body),
    {
        match &self.body {
            ClosureBody::Async { block, .. } => append_opt(out, block),
            ClosureBody::Closure { output, body, .. } => {
                let ghost start = out@;
                match output {
                    Some(t) => {
                        out.append("-> ");
                        out.append(t.as_str());
                        out.append(" ");
                    },
                    None => {},
                }
                append_opt(out, body);
                assert(out@ =~= start + tail_text(self.body));
            },
            ClosureBody::Other => {
                assert(out@ =~= old(out)@ + tail_text(self.body));
            },
        }
    }

    /// The closure with its captures written as argument attributes: `local` tells a
    /// `closure!` call (local or not) from a `clone!` one (`None`), and `preserve_default`
    /// keeps the default action as written.
    pub fn to_string(&self, local: Option<bool>, preserve_default: bool) -> (r: String)
        requires
            self.strong@.len() + self.weak@.len() + 2 <= usize::MAX - match self.body {
                ClosureBody::Closure { inputs, .. } => inputs@.len(),
                _ => 0,
            },
        ensures
            r@ == closure_text(*self, local, preserve_default),
    {
        if matches!(self.body, ClosureBody::Other) {
            return String::new();
        }
        let mut out = String::new();
        self.write_attrs(&mut out);
        let ghost p1 = out@;
        self.write_local(&mut out, local);
        let ghost p2 = out@;
        let has_default = self.write_default(&mut out, preserve_default);
        let ghost p3 = out@;
        let n = self.write_head(&mut out);
        let ghost p4 = out@;
        let count = self.write_watch(&mut out, n);
        let ghost p5 = out@;
        self.write_captures(&mut out, count, has_default);
        let ghost p6 = out@;
        out.append("| ");
        self.write_tail(&mut out);
        proof {
            let (default, hd) = default_attr(*self, preserve_default);
            let (head, hn) = head_text(self.body);
            assert(hd == has_default && hn == n);
            assert(out@ =~= closure_text(*self, local, preserve_default));
        }
        out
    }
}

/// The kind of capture that a dashed keyword after `@` names.
pub open spec fn capture_kind(keyword: Seq<char>) -> Option<CaptureKind> {
    if keyword == "strong"@ { Some(CaptureKind::Strong) }
    else if keyword == "watch"@ { Some(CaptureKind::Watch) }
    else if keyword == "weak"@ { Some(CaptureKind::Weak) }
    else if keyword == "weak-allow-none"@ { Some(CaptureKind::WeakAllowNone) }
    else { None }
}

impl CaptureKind {
    /// The capture kind of a keyword; any other keyword is refused with
    /// "Unknown capture type".
    pub fn from_keyword(keyword: &str) -> (r: Result<CaptureKind, String>)
        ensures
            match capture_kind(keyword@) {
                Some(k) => r == Ok::<CaptureKind, String>(k),
                None => r matches Err(m) && m@ == "Unknown capture type"@,
            },
    {
        if str_eq(keyword, "strong") {
            Ok(CaptureKind::Strong)
        } else if str_eq(keyword, "watch") {
            Ok(CaptureKind::Watch)
        } else if str_eq(keyword, "weak") {
            Ok(CaptureKind::Weak)
        } else if str_eq(keyword, "weak-allow-none") {
            Ok(CaptureKind::WeakAllowNone)
        } else {
            Err("Unknown capture type".to_owned())
        }
    }
}

/// The error of a closure whose captures cannot be read.
pub enum CaptureError {
    /// A second `@watch` capture, at its identifier.
    DuplicateWatch { ident: String },
}

impl Closure {
    /// Adds a capture of kind `kind`; a second `watch` capture is refused.
    pub fn add_capture(&mut self, kind: CaptureKind, ident: String, from: Option<String>) -> (r: Result<(), CaptureError>)
        ensures
            match kind {
                CaptureKind::Strong => r is Ok && final(self).strong@ == old(self).strong@.push(StrongCapture { ident, from })
                    && final(self).watch == old(self).watch && final(self).weak == old(self).weak,
                CaptureKind::Watch => if old(self).watch is None {
                    r is Ok && final(self).watch == Some(StrongCapture { ident, from })
                        && final(self).strong == old(self).strong && final(self).weak == old(self).weak
                } else {
                    r matches Err(CaptureError::DuplicateWatch { ident: i }) && i@ == ident@ && *final(self) == *old(self)
                },
                CaptureKind::Weak => r is Ok && final(self).weak@ == old(self).weak@.push(WeakCapture { ident, from, allow_none: false })
                    && final(self).watch == old(self).watch && final(self).strong == old(self).strong,
                CaptureKind::WeakAllowNone => r is Ok && final(self).weak@ == old(self).weak@.push(WeakCapture { ident, from, allow_none: true })
                    && final(self).watch == old(self).watch && final(self).strong == old(self).strong,
            },
            final(self).action == old(self).action,
            final(self).body == old(self).body,
    {
        match kind {
            CaptureKind::Strong => {
                self.strong.push(StrongCapture { ident, from });
                Ok(())
            },
            CaptureKind::Watch => {
                if self.watch.is_none() {
                    self.watch = Some(StrongCapture { ident, from });
                    Ok(())
                } else {
                    Err(CaptureError::DuplicateWatch { ident })
                }
            },
            CaptureKind::Weak => {
                self.weak.push(WeakCapture { ident, from, allow_none: false });
                Ok(())
            },
            CaptureKind::WeakAllowNone => {
                self.weak.push(WeakCapture { ident, from, allow_none: true });
                Ok(())
            },
        }
    }
}

/// The default action that a dashed keyword after the captures names: `default-panic`,
/// or `default-return` with the text of its expression; any other keyword is refused with
/// "Unknown keyword".
pub fn default_action(keyword: &str, expr: Option<String>) -> (r: Result<DefaultAction, String>)
    ensures
        if keyword@ == "default-panic"@ {
            r matches Ok(DefaultAction::Panic)
        } else if keyword@ == "default-return"@ {
            r matches Ok(DefaultAction::Return { expr: e }) && e == expr
        } else {
            r matches Err(m) && m@ == "Unknown keyword"@
        },
{
    if str_eq(keyword, "default-panic") {
        Ok(DefaultAction::Panic)
    } else if str_eq(keyword, "default-return") {
        Ok(DefaultAction::Return { expr })
    } else {
        Err("Unknown keyword".to_owned())
    }
}

/// How a macro's path is rewritten: `clone!` (`Some(None)`), `closure!` (`Some(Some(false))`),
/// `closure_local!` (`Some(Some(true))`), with or without the `glib::` prefix; other macros
/// are left alone.
pub open spec fn macro_kind(path: Seq<char>) -> Option<Option<bool>> {
    if path == "clone"@ || path == "glib::clone"@ { Some(None) }
    else if path == "closure"@ || path == "glib::closure"@ { Some(Some(false)) }
    else if path == "closure_local"@ || path == "glib::closure_local"@ { Some(Some(true)) }
    else { None }
}

pub fn classify_macro(path: &str) -> (r: Option<Option<bool>>)
    ensures
        r == macro_kind(path@),
{
    if str_eq(path, "clone") || str_eq(path, "glib::clone") {
        Some(None)
    } else if str_eq(path, "closure") || str_eq(path, "glib::closure") {
        Some(Some(false))
    } else if str_eq(path, "closure_local") || str_eq(path, "glib::closure_local") {
        Some(Some(true))
    } else {
        None
    }
}

/// Whether a macro of kind `local` may have `body`: `clone!` takes a closure or an `async`
/// block, `closure!` a closure only.
pub open spec fn supported_body(local: Option<bool>, body: ClosureBody) -> bool {
    match local {
        None => body is Closure || body is Async,
        Some(_) => body is Closure,
    }
}

/// The rewritten text of a parsed macro call, or the error "Unsupported expression type"
/// for a body the macro does not take.
pub fn convert_closure(c: &Closure, local: Option<bool>, preserve_default: bool) -> (r: Result<String, String>)
    requires
        c.strong@.len() + c.weak@.len() + 2 <= usize::MAX - match c.body {
            ClosureBody::Closure { inputs, .. } => inputs@.len(),
            _ => 0,
        },
    ensures
        if supported_body(local, c.body) {
            r matches Ok(s) && s@ == closure_text(*c, local, preserve_default)
        } else {
            r matches Err(m) && m@ == "Unsupported expression type"@
        },
{
    let ok = match local {
        None => matches!(c.body, ClosureBody::Closure { .. } | ClosureBody::Async { .. }),
        Some(_) => matches!(c.body, ClosureBody::Closure { .. }),
    };
    if ok {
        Ok(c.to_string(local, preserve_default))
    } else {
        Err("Unsupported expression type".to_owned())
    }
}

/// The error for one file that could not be converted.
pub struct ConvertError {
    pub source: String,
    pub path: String,
}

impl ConvertError {
    pub fn new(source: String, path: String) -> (e: ConvertError)
        ensures
            e.source@ == source@,
            e.path@ == path@,
    {
        ConvertError { source, path }
    }

    /// The error's message: `Failed to convert {path}: {source}`.
    pub fn to_string(&self) -> (r: String)
        ensures
            r@ == "Failed to convert "@ + self.path@ + ": "@ + self.source@,
    {
        let mut m = "Failed to convert ".to_owned();
        m.append(self.path.as_str());
        m.append(": ");
        m.append(self.source.as_str());
        m
    }
}

} // verus!

verus! {

// ---------------------------------------------------------------------------------------
// Rewriting the source

/// The characters `start..end` of a text replaced by `text`. Positions are character
/// positions.
pub struct Replacement {
    pub start: usize,
    pub end: usize,
    pub text: String,
}

/// `s` with the characters `r.start..r.end` replaced by `r.text`.
pub open spec fn splice(s: Seq<char>, r: Replacement) -> Seq<char> {
    s.subrange(0, r.start as int) + r.text@ + s.subrange(r.end as int, s.len() as int)
}

/// The replacements applied to `s` from the last to the first, as the tool applies them.
pub open spec fn applied(s: Seq<char>, reps: Seq<Replacement>) -> Seq<char>
    decreases reps.len(),
{
    if reps.len() == 0 {
        s
    } else {
        applied(splice(s, reps.last()), reps.drop_last())
    }
}

/// The replacements lie within `len` characters, in order, without overlapping.
pub open spec fn ordered(reps: Seq<Replacement>, len: nat) -> bool {
    &&& forall|i: int| 0 <= i < reps.len() ==> (#[trigger] reps[i]).start <= reps[i].end <= len
    &&& forall|i: int, j: int| 0 <= i < j < reps.len() ==> (#[trigger] reps[i]).end <= (#[trigger] reps[j]).start
}

/// The text between the replacements kept, each replacement's text in its place.
pub open spec fn stitched(s: Seq<char>, reps: Seq<Replacement>) -> Seq<char>
    decreases reps.len(),
{
    if reps.len() == 0 {
        s
    } else {
        let r = reps.last();
        stitched(s.subrange(0, r.start as int), reps.drop_last()) + r.text@ + s.subrange(r.end as int, s.len() as int)
    }
}

proof fn lemma_applied_prefix(p: Seq<char>, q: Seq<char>, reps: Seq<Replacement>)
    requires
        ordered(reps, p.len()),
    ensures
        applied(p + q, reps) == applied(p, reps) + q,
    decreases reps.len(),
{
    if reps.len() > 0 {
        let r = reps.last();
        let rest = reps.drop_last();
        assert(splice(p + q, r) =~= splice(p, r) + q);
        assert forall|i: int| 0 <= i < rest.len() implies (#[trigger] rest[i]).start <= rest[i].end <= splice(p, r).len() by {
            assert(rest[i] == reps[i]);
            assert(reps[i].end <= reps[reps.len() - 1].start);
        }
        assert forall|i: int, j: int| 0 <= i < j < rest.len() implies (#[trigger] rest[i]).end <= (#[trigger] rest[j]).start by {
            assert(rest[i] == reps[i] && rest[j] == reps[j]);
        }
        lemma_applied_prefix(splice(p, r), q, rest);
    }
}

/// Applied from the last to the first, ordered replacements each land where they were
/// meant: the result is the kept text with each replacement's text in its place.
pub proof fn applied_in_place(s: Seq<char>, reps: Seq<Replacement>)
    requires
        ordered(reps, s.len()),
    ensures
        applied(s, reps) == stitched(s, reps),
    decreases reps.len(),
{
    if reps.len() > 0 {
        let r = reps.last();
        let rest = reps.drop_last();
        let prefix = s.subrange(0, r.start as int);
        let suffix = r.text@ + s.subrange(r.end as int, s.len() as int);
        assert(splice(s, r) =~= prefix + suffix);
        assert forall|i: int| 0 <= i < rest.len() implies (#[trigger] rest[i]).start <= rest[i].end <= prefix.len() by {
            assert(rest[i] == reps[i]);
            assert(reps[i].end <= reps[reps.len() - 1].start);
        }
        assert forall|i: int, j: int| 0 <= i < j < rest.len() implies (#[trigger] rest[i]).end <= (#[trigger] rest[j]).start by {
            assert(rest[i] == reps[i] && rest[j] == reps[j]);
        }
        lemma_applied_prefix(prefix, suffix, rest);
        applied_in_place(prefix, rest);
        assert(stitched(s, reps) =~= stitched(prefix, rest) + suffix);
    }
}

/// Applies the replacements from the last to the first; each must lie within the text as
/// it stands when its turn comes.
pub fn apply_replacements(source: &str, reps: &Vec<Replacement>) -> (r: String)
    requires
        ordered(reps@, source@.len()),
    ensures
        r@ == applied(source@, reps@),
        r@ == stitched(source@, reps@),
{
    proof {
        applied_in_place(source@, reps@);
    }
    let mut out = source.to_owned();
    let mut i = reps.len();
    assert(reps@.subrange(0, i as int) =~= reps@);
    while i > 0
        invariant
            i <= reps@.len(),
            ordered(reps@, source@.len()),
            applied(out@, reps@.subrange(0, i as int)) == applied(source@, reps@),
            forall|k: int| 0 <= k < i ==> (#[trigger] reps@[k]).end <= out@.len(),
        decreases i,
    {
        let r = &reps[i - 1];
        assert(reps@.subrange(0, i as int).last() == reps@[i - 1]);
        assert(reps@.subrange(0, i as int).drop_last() =~= reps@.subrange(0, i as int - 1));
        let ghost before = out@;
        let head = out.as_str().substring_char(0, r.start);
        let tail = out.as_str().substring_char(r.end, out.unicode_len());
        let mut next = head.to_owned();
        next.append(r.text.as_str());
        next.append(tail);
        assert(next@ =~= splice(before, *r));
        assert forall|k: int| 0 <= k < i - 1 implies (#[trigger] reps@[k]).end <= next@.len() by {
            assert(reps@[k].end <= reps@[i - 1].start);
        }
        out = next;
        i = i - 1;
    }
    assert(reps@.subrange(0, 0) =~= Seq::<Replacement>::empty());
    out
}

/// The attribute placed before an item whose macros were rewritten.
pub open spec fn clone_block_marker() -> Seq<char> {
    "#[gobject::clone_block]\n"@
}

/// The replacements for one item that starts at `start`: when it has any, the marker is
/// inserted at its start, before them.
pub fn item_replacements(start: usize, reps: Vec<Replacement>) -> (r: Vec<Replacement>)
    ensures
        reps@.len() == 0 ==> r@ == reps@,
        reps@.len() > 0 ==> r@.len() == reps@.len() + 1 && r@.drop_first() == reps@
            && r@[0].start == start && r@[0].end == start && r@[0].text@ == clone_block_marker(),
{
    if reps.len() == 0 {
        return reps;
    }
    let mut out: Vec<Replacement> = Vec::new();
    out.push(Replacement { start, end: start, text: "#[gobject::clone_block]\n".to_owned() });
    let ghost first = out@;
    let n = reps.len();
    let mut rest = reps;
    let ghost all = rest@;
    let mut moved: Vec<Replacement> = Vec::new();
    let mut i: usize = 0;
    while rest.len() > 0
        invariant
            i <= all.len(),
            all.len() == n,
            rest@ == all.subrange(i as int, all.len() as int),
            out@ == first + all.subrange(0, i as int),
            first.len() == 1,
        decreases rest.len(),
    {
        let r = rest.remove(0);
        out.push(r);
        assert(out@ =~= first + all.subrange(0, i as int + 1));
        i = i + 1;
    }
    assert(out@.drop_first() =~= all);
    out
}

/// `n` spaces.
pub open spec fn spaces(n: nat) -> Seq<char>
    decreases n,
{
    if n == 0 { Seq::empty() } else { spaces((n - 1) as nat).push(' ') }
}

/// How a parse error is shown: its position, its message, the line it is on, and a caret
/// under the column.
pub open spec fn parse_error_text(line: nat, column: nat, message: Seq<char>, line_text: Seq<char>) -> Seq<char> {
    crate::text::decimal_spec(line) + ":"@ + crate::text::decimal_spec(column) + ": "@ + message + "\n"@
        + line_text + "\n"@ + spaces(column) + "^"@
}

/// Formats a parse error at `line` and `column` (counted from zero).
pub fn format_parse_error(line: u64, column: u64, message: &str, line_text: &str) -> (r: String)
    ensures
        r@ == parse_error_text(line as nat, column as nat, message@, line_text@),
{
    let mut out = crate::text::decimal(line);
    out.append(":");
    crate::text::append_decimal(&mut out, column);
    out.append(": ");
    out.append(message);
    out.append("\n");
    out.append(line_text);
    out.append("\n");
    let ghost before = out@;
    let mut k: u64 = 0;
    while k < column
        invariant
            k <= column,
            out@ == before + spaces(k as nat),
        decreases column - k,
    {
        out.append(" ");
        proof {
            reveal_strlit(" ");
        }
        assert(out@ =~= before + spaces(k as nat + 1));
        k = k + 1;
    }
    out.append("^");
    out
}

} // verus!
