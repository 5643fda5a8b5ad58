//! Signals declared with `#[signal]` handlers and `#[accumulator]` functions.
use vstd::prelude::*;
use vstd::string::StringExecFns;
use crate::case::{shouty_snake_case, to_shouty_snake_case};
use crate::property::join;
use crate::text::str_eq;
use crate::type_definition::{TypeBase, TypeMode};
use crate::util::{format_name, format_name_spec, is_valid_name, valid_name, Errors};

verus! {

pub const RUN_FIRST: u32 = 1;
pub const RUN_LAST: u32 = 2;
pub const RUN_CLEANUP: u32 = 4;
pub const NO_RECURSE: u32 = 8;
pub const DETAILED: u32 = 16;
pub const ACTION: u32 = 32;
pub const NO_HOOKS: u32 = 64;
pub const MUST_COLLECT: u32 = 128;
pub const DEPRECATED: u32 = 256;

/// The flags written in a `#[signal(...)]` attribute.
pub struct SignalAttrs {
    pub run_first: bool,
    pub run_last: bool,
    pub run_cleanup: bool,
    pub no_recurse: bool,
    pub detailed: bool,
    pub action: bool,
    pub no_hooks: bool,
    pub must_collect: bool,
    pub deprecated: bool,
    pub override_: bool,
    pub connect: Option<bool>,
    pub name: Option<String>,
}

/// The GLib signal flags that the attribute's words give.
pub open spec fn attr_flags(a: SignalAttrs) -> u32 {
    (if a.run_first { RUN_FIRST } else { 0 })
        | (if a.run_last { RUN_LAST } else { 0 })
        | (if a.run_cleanup { RUN_CLEANUP } else { 0 })
        | (if a.no_recurse { NO_RECURSE } else { 0 })
        | (if a.detailed { DETAILED } else { 0 })
        | (if a.action { ACTION } else { 0 })
        | (if a.no_hooks { NO_HOOKS } else { 0 })
        | (if a.must_collect { MUST_COLLECT } else { 0 })
        | (if a.deprecated { DEPRECATED } else { 0 })
}

impl SignalAttrs {
    pub fn flags(&self) -> (r: u32)
        ensures
            r == attr_flags(*self),
    {
        (if self.run_first { RUN_FIRST } else { 0 })
            | (if self.run_last { RUN_LAST } else { 0 })
            | (if self.run_cleanup { RUN_CLEANUP } else { 0 })
            | (if self.no_recurse { NO_RECURSE } else { 0 })
            | (if self.detailed { DETAILED } else { 0 })
            | (if self.action { ACTION } else { 0 })
            | (if self.no_hooks { NO_HOOKS } else { 0 })
            | (if self.must_collect { MUST_COLLECT } else { 0 })
            | (if self.deprecated { DEPRECATED } else { 0 })
    }
}

/// The name of the signal flag whose only bit is `bit`.
pub open spec fn signal_flag_name(bit: int) -> Option<Seq<char>> {
    if bit == 0 { Some("RUN_FIRST"@) }
    else if bit == 1 { Some("RUN_LAST"@) }
    else if bit == 2 { Some("RUN_CLEANUP"@) }
    else if bit == 3 { Some("NO_RECURSE"@) }
    else if bit == 4 { Some("DETAILED"@) }
    else if bit == 5 { Some("ACTION"@) }
    else if bit == 6 { Some("NO_HOOKS"@) }
    else if bit == 7 { Some("MUST_COLLECT"@) }
    else if bit == 8 { Some("DEPRECATED"@) }
    else { None }
}

fn signal_flag_name_exec(bit: u32) -> (r: Option<&'static str>)
    ensures
        match signal_flag_name(bit as int) {
            Some(n) => r matches Some(s) && s@ == n,
            None => r is None,
        },
{
    if bit == 0 { Some("RUN_FIRST") }
    else if bit == 1 { Some("RUN_LAST") }
    else if bit == 2 { Some("RUN_CLEANUP") }
    else if bit == 3 { Some("NO_RECURSE") }
    else if bit == 4 { Some("DETAILED") }
    else if bit == 5 { Some("ACTION") }
    else if bit == 6 { Some("NO_HOOKS") }
    else if bit == 7 { Some("MUST_COLLECT") }
    else if bit == 8 { Some("DEPRECATED") }
    else { None }
}

/// The paths of the signal flags set in `bits` among the lowest `n` bits, lowest first.
pub open spec fn signal_flag_paths(bits: u32, n: int, prefix: Seq<char>) -> Seq<Seq<char>>
    decreases n,
{
    if n <= 0 {
        Seq::empty()
    } else {
        let prev = signal_flag_paths(bits, n - 1, prefix);
        match signal_flag_name(n - 1) {
            Some(name) => if (bits >> ((n - 1) as u32)) & 1 == 1 { prev.push(prefix + name) } else { prev },
            None => prev,
        }
    }
}

/// The Rust expression for signal flags under the crate path `glib`.
pub open spec fn signal_flags_expression(bits: u32, glib: Seq<char>) -> Seq<char> {
    let paths = signal_flag_paths(bits, 9, glib + "::SignalFlags::"@);
    if paths.len() == 0 {
        glib + "::SignalFlags::empty()"@
    } else {
        join(paths, " | "@)
    }
}

/// The flags as a Rust expression: the named flags or-ed together, lowest bit first, or
/// `empty()` for none.
pub fn signal_flags_tokens(bits: u32, glib: &str) -> (r: String)
    ensures
        r@ == signal_flags_expression(bits, glib@),
{
    let mut prefix = glib.to_owned();
    prefix.append("::SignalFlags::");
    let mut out = String::new();
    let mut count: usize = 0;
    let mut i: u32 = 0;
    while i < 9
        invariant
            i <= 9,
            prefix@ == glib@ + "::SignalFlags::"@,
            count as int == signal_flag_paths(bits, i as int, prefix@).len(),
            count <= i,
            count == 0 ==> out@.len() == 0,
            count > 0 ==> out@ == join(signal_flag_paths(bits, i as int, prefix@), " | "@),
        decreases 9 - i,
    {
        if let Some(name) = signal_flag_name_exec(i) {
            if (bits >> i) & 1 == 1 {
                let ghost prev = signal_flag_paths(bits, i as int, prefix@);
                if count > 0 {
                    out.append(" | ");
                }
                out.append(prefix.as_str());
                out.append(name);
                proof {
                    let next = signal_flag_paths(bits, i as int + 1, prefix@);
                    assert(next == prev.push(prefix@ + name@));
                    assert(next.drop_last() =~= prev);
                    assert(out@ =~= join(next, " | "@));
                }
                count = count + 1;
            }
        }
        i = i + 1;
    }
    if count == 0 {
        let mut e = glib.to_owned();
        e.append("::SignalFlags::empty()");
        e
    } else {
        out
    }
}

/// A signal of a type: its handler's definition and its accumulator, as far as they were
/// found.
pub struct Signal {
    pub ident: String,
    pub name: String,
    pub flags: u32,
    pub connect: bool,
    pub override_: bool,
    /// The handler's definition was found; whether it declares a return type.
    pub sig: Option<bool>,
    /// The handler has a body (a class handler).
    pub handler: bool,
    /// The accumulator was found.
    pub accumulator: bool,
    pub mode: TypeMode,
}

/// A method marked `#[signal]`, at `span`.
pub struct HandlerInput<S> {
    pub ident: String,
    pub span: S,
    pub attrs: SignalAttrs,
    /// Where its receiver is, when it has one.
    pub receiver: Option<S>,
    pub has_body: bool,
    pub has_output: bool,
}

/// A function marked `#[accumulator]`, at `span`.
pub struct AccumulatorInput<S> {
    pub ident: String,
    pub span: S,
    /// The signal named in `#[accumulator(signal = "...")]`.
    pub signal: Option<String>,
    pub inputs: usize,
    pub receiver: Option<S>,
    /// Where its return type is (or would be).
    pub output_span: S,
    pub has_output: bool,
}

/// The index of the first signal named `name`.
pub open spec fn first_named(signals: Seq<Signal>, name: Seq<char>, i: int) -> bool {
    &&& 0 <= i < signals.len()
    &&& signals[i].name@ == name
    &&& forall|j: int| 0 <= j < i ==> (#[trigger] signals[j]).name@ != name
}

pub open spec fn has_named(signals: Seq<Signal>, name: Seq<char>) -> bool {
    exists|i: int| 0 <= i < signals.len() && (#[trigger] signals[i]).name@ == name
}

fn position(signals: &Vec<Signal>, name: &str) -> (r: Option<usize>)
    ensures
        match r {
            Some(i) => first_named(signals@, name@, i as int),
            None => !has_named(signals@, name@),
        },
{
    let mut i: usize = 0;
    while i < signals.len()
        invariant
            i <= signals@.len(),
            forall|j: int| 0 <= j < i ==> (#[trigger] signals@[j]).name@ != name@,
        decreases signals.len() - i,
    {
        if str_eq(signals[i].name.as_str(), name) {
            return Some(i);
        }
        i = i + 1;
    }
    None
}

/// The name of a signal: the one written, or the method's identifier made a name.
pub open spec fn signal_name(written: Option<String>, ident: Seq<char>) -> Seq<char> {
    match written {
        Some(n) => n@,
        None => format_name_spec(ident),
    }
}

pub open spec fn interface_handler_message() -> Seq<char> {
    "First argument to interface signal handler must be the wrapper type"@
}

pub open spec fn invalid_signal_name_message(name: Seq<char>) -> Seq<char> {
    "Invalid signal name '"@ + name
        + "'. Signal names must start with an ASCII letter and only contain ASCII letters, numbers, '-' or '_'"@
}

pub open spec fn duplicate_signal_message(name: Seq<char>) -> Seq<char> {
    "Duplicate definition for signal `"@ + name + "`"@
}

pub open spec fn duplicate_accumulator_message(name: Seq<char>) -> Seq<char> {
    "Duplicate definition for accumulator on signal definition `"@ + name + "`"@
}

/// The signal that an entry for `name` starts as.
pub open spec fn fresh(s: Signal, ident: Seq<char>, name: Seq<char>, mode: TypeMode) -> bool {
    &&& s.ident@ == ident
    &&& s.name@ == name
    &&& s.flags == 0
    &&& !s.connect
    &&& !s.override_
    &&& s.sig is None
    &&& !s.handler
    &&& !s.accumulator
    &&& s.mode == mode
}

/// `signals` after an entry for `name` was found or added: `before` with its first entry for
/// `name`, or a fresh one pushed at the end, at index `i`.
pub open spec fn entry_for(before: Seq<Signal>, after: Seq<Signal>, name: Seq<char>, ident: Seq<char>, mode: TypeMode, i: int) -> bool {
    &&& if has_named(before, name) {
        first_named(before, name, i) && after.len() == before.len()
    } else {
        i == before.len() && after.len() == before.len() + 1
    }
    &&& forall|j: int| 0 <= j < before.len() && j != i ==> after[j] == before[j]
}

/// The entry for `name`, found or added.
fn entry(signals: &mut Vec<Signal>, name: &String, ident: &String, mode: TypeMode) -> (i: usize)
    ensures
        entry_for(old(signals)@, final(signals)@, name@, ident@, mode, i as int),
        final(signals)@[i as int].name@ == name@,
        !has_named(old(signals)@, name@) ==> fresh(final(signals)@[i as int], ident@, name@, mode),
        has_named(old(signals)@, name@) ==> final(signals)@[i as int] == old(signals)@[i as int],
{
    match position(signals, name.as_str()) {
        Some(i) => i,
        None => {
            signals.push(Signal {
                ident: ident.clone(),
                name: name.clone(),
                flags: 0,
                connect: false,
                override_: false,
                sig: None,
                handler: false,
                accumulator: false,
                mode,
            });
            signals.len() - 1
        },
    }
}

/// The errors that a `#[signal]` handler gives, in order.
pub open spec fn handler_errors<S>(h: HandlerInput<S>, before: Seq<Signal>, base: TypeBase, mode: TypeMode) -> Seq<(S, Seq<char>)> {
    let name = signal_name(h.attrs.name, h.ident@);
    let e_receiver = if mode is Subclass && base is Interface && h.receiver is Some {
        seq![(h.receiver->Some_0, interface_handler_message())]
    } else {
        Seq::empty()
    };
    let e_name = if !valid_name(name) { seq![(h.span, invalid_signal_name_message(name))] } else { Seq::empty() };
    let e_dup = if has_named(before, name) && before[choose|i: int| first_named(before, name, i)].sig is Some {
        seq![(h.span, duplicate_signal_message(name))]
    } else {
        Seq::empty()
    };
    let e_override = if base is Interface && h.attrs.override_ {
        seq![(h.span, "`override` not allowed on interface signal"@)]
    } else {
        Seq::empty()
    };
    e_receiver + e_name + e_dup + e_override
}

/// The first entry for a name is the one that `choose` picks.
proof fn lemma_first_named_unique(before: Seq<Signal>, name: Seq<char>, i: int)
    ensures
        has_named(before, name) && first_named(before, name, i) ==> (choose|k: int| first_named(before, name, k)) == i,
{
    if has_named(before, name) && first_named(before, name, i) {
        let k = choose|k: int| first_named(before, name, k);
        assert(first_named(before, name, k));
        if k < i {
            assert(before[k].name@ == name);
        } else if i < k {
            assert(before[i].name@ == name);
        }
    }
}

/// Reports the receiver of an interface's handler and an invalid name; gives the name.
fn handler_name<S: Copy>(h: &HandlerInput<S>, base: TypeBase, mode: TypeMode, errors: &mut Errors<S>) -> (name: String)
    ensures
        name@ == signal_name(h.attrs.name, h.ident@),
        final(errors)@ == old(errors)@
            + (if mode is Subclass && base is Interface && h.receiver is Some {
                seq![(h.receiver->Some_0, interface_handler_message())]
            } else {
                Seq::empty()
            })
            + (if !valid_name(name@) { seq![(h.span, invalid_signal_name_message(name@))] } else { Seq::empty() }),
{
    let ghost start = errors@;
    if matches!(mode, TypeMode::Subclass) && matches!(base, TypeBase::Interface) {
        if let Some(r) = h.receiver {
            errors.push_str(r, "First argument to interface signal handler must be the wrapper type");
        }
    }
    let ghost mid = errors@;
    let name = match &h.attrs.name {
        Some(n) => n.clone(),
        None => format_name(h.ident.as_str()),
    };
    if !is_valid_name(name.as_str()) {
        let mut m = "Invalid signal name '".to_owned();
        m.append(name.as_str());
        m.append("'. Signal names must start with an ASCII letter and only contain ASCII letters, numbers, '-' or '_'");
        errors.push(h.span, m);
    }
    assert(errors@ =~= start
        + (if mode is Subclass && base is Interface && h.receiver is Some {
            seq![(h.receiver->Some_0, interface_handler_message())]
        } else {
            Seq::empty()
        })
        + (if !valid_name(name@) { seq![(h.span, invalid_signal_name_message(name@))] } else { Seq::empty() }));
    name
}

/// Gives entry `i` a handler's definition.
fn set_definition(signals: &mut Vec<Signal>, i: usize, flags: u32, connect: bool, override_: bool, has_output: bool, has_body: bool)
    requires
        i < old(signals)@.len(),
    ensures
        final(signals)@.len() == old(signals)@.len(),
        forall|j: int| 0 <= j < old(signals)@.len() && j != i ==> final(signals)@[j] == old(signals)@[j],
        final(signals)@[i as int].ident == old(signals)@[i as int].ident,
        final(signals)@[i as int].name == old(signals)@[i as int].name,
        final(signals)@[i as int].mode == old(signals)@[i as int].mode,
        final(signals)@[i as int].accumulator == old(signals)@[i as int].accumulator,
        final(signals)@[i as int].flags == flags,
        final(signals)@[i as int].connect == connect,
        final(signals)@[i as int].override_ == override_,
        final(signals)@[i as int].sig == Some(has_output),
        final(signals)@[i as int].handler == has_body,
{
    let mut s = signals.remove(i);
    s.flags = flags;
    s.connect = connect;
    s.override_ = override_;
    s.sig = Some(has_output);
    s.handler = has_body;
    signals.insert(i, s);
}

impl Signal {
    /// Records a `#[signal]` handler: its signal's entry gets the flags and definition.
    pub fn from_handler<S: Copy>(h: HandlerInput<S>, base: TypeBase, mode: TypeMode, signals: &mut Vec<Signal>, errors: &mut Errors<S>)
        ensures
            final(errors)@ == old(errors)@ + handler_errors(h, old(signals)@, base, mode),
            exists|i: int| {
                &&& #[trigger] entry_for(old(signals)@, final(signals)@, signal_name(h.attrs.name, h.ident@), h.ident@, mode, i)
                &&& final(signals)@[i].name@ == signal_name(h.attrs.name, h.ident@)
                &&& final(signals)@[i].flags == attr_flags(h.attrs)
                &&& final(signals)@[i].connect == match h.attrs.connect { Some(b) => b, None => true }
                &&& final(signals)@[i].override_ == (h.attrs.override_ && !(base is Interface))
                &&& final(signals)@[i].sig == Some(h.has_output)
                &&& final(signals)@[i].handler == h.has_body
                &&& final(signals)@[i].accumulator == (has_named(old(signals)@, signal_name(h.attrs.name, h.ident@))
                    && old(signals)@[i].accumulator)
                &&& if has_named(old(signals)@, signal_name(h.attrs.name, h.ident@)) {
                    final(signals)@[i].ident == old(signals)@[i].ident && final(signals)@[i].mode == old(signals)@[i].mode
                } else {
                    final(signals)@[i].ident@ == h.ident@ && final(signals)@[i].mode == mode
                }
            },
    {
        let ghost start = errors@;
        let ghost before = signals@;
        let name = handler_name(&h, base, mode, errors);
        let ghost after_name = errors@;
        let i = entry(signals, &name, &h.ident, mode);
        if signals[i].sig.is_some() {
            let mut m = "Duplicate definition for signal `".to_owned();
            m.append(name.as_str());
            m.append("`");
            errors.push(h.span, m);
        }
        let interface = matches!(base, TypeBase::Interface);
        if interface && h.attrs.override_ {
            errors.push_str(h.span, "`override` not allowed on interface signal");
        }
        let connect = match h.attrs.connect { Some(b) => b, None => true };
        set_definition(signals, i, h.attrs.flags(), connect, h.attrs.override_ && !interface, h.has_output, h.has_body);
        proof {
            lemma_first_named_unique(before, name@, i as int);
            assert(errors@ =~= start + handler_errors(h, before, base, mode));
            assert(entry_for(before, signals@, name@, h.ident@, mode, i as int));
        }
    }

    /// Records an `#[accumulator]` function for the signal it names.
    pub fn from_accumulator<S: Copy>(a: AccumulatorInput<S>, mode: TypeMode, signals: &mut Vec<Signal>, errors: &mut Errors<S>)
        ensures
            final(errors)@ == old(errors)@ + accumulator_errors(a, old(signals)@),
            exists|i: int| {
                &&& #[trigger] entry_for(old(signals)@, final(signals)@, signal_name(a.signal, a.ident@), a.ident@, mode, i)
                &&& final(signals)@[i].name@ == signal_name(a.signal, a.ident@)
                &&& final(signals)@[i].accumulator
                &&& has_named(old(signals)@, signal_name(a.signal, a.ident@)) ==> {
                    let o = old(signals)@[i];
                    let n = final(signals)@[i];
                    n.ident == o.ident && n.flags == o.flags && n.connect == o.connect && n.override_ == o.override_
                        && n.sig == o.sig && n.handler == o.handler && n.mode == o.mode
                }
                &&& !has_named(old(signals)@, signal_name(a.signal, a.ident@)) ==> {
                    let n = final(signals)@[i];
                    n.ident@ == a.ident@ && n.flags == 0 && !n.connect && !n.override_ && n.sig is None && !n.handler && n.mode == mode
                }
            },
    {
        let ghost start = errors@;
        let ghost before = signals@;
        if !(2 <= a.inputs && a.inputs <= 3) {
            errors.push_str(a.output_span, "Accumulator must have 2 or 3 arguments");
        }
        if let Some(r) = a.receiver {
            errors.push_str(r, "Receiver argument not allowed on accumulator");
        }
        if !a.has_output {
            errors.push_str(a.output_span, "Accumulator must have return type");
        }
        let name = match &a.signal {
            Some(n) => n.clone(),
            None => format_name(a.ident.as_str()),
        };
        let i = entry(signals, &name, &a.ident, mode);
        if signals[i].accumulator {
            let mut m = "Duplicate definition for accumulator on signal definition `".to_owned();
            m.append(name.as_str());
            m.append("`");
            errors.push(a.span, m);
        }
        let mut s = signals.remove(i);
        s.accumulator = true;
        signals.insert(i, s);
        proof {
            lemma_first_named_unique(before, name@, i as int);
            assert(errors@ =~= start + accumulator_errors(a, before));
            assert(entry_for(before, signals@, name@, a.ident@, mode, i as int));
        }
    }
}

/// The errors that an `#[accumulator]` function gives, in order.
pub open spec fn accumulator_errors<S>(a: AccumulatorInput<S>, before: Seq<Signal>) -> Seq<(S, Seq<char>)> {
    let name = signal_name(a.signal, a.ident@);
    (if !(2 <= a.inputs <= 3) { seq![(a.output_span, "Accumulator must have 2 or 3 arguments"@)] } else { Seq::empty() })
        + (match a.receiver { Some(r) => seq![(r, "Receiver argument not allowed on accumulator"@)], None => Seq::empty() })
        + (if !a.has_output { seq![(a.output_span, "Accumulator must have return type"@)] } else { Seq::empty() })
        + (if has_named(before, name) && before[choose|i: int| first_named(before, name, i)].accumulator {
            seq![(a.span, duplicate_accumulator_message(name))]
        } else {
            Seq::empty()
        })
}

/// The errors of one signal once every handler and accumulator was recorded; `at` is
/// where the signal's definition (or, without one, its accumulator) is.
pub open spec fn signal_errors<S>(s: Signal, at: S) -> Seq<(S, Seq<char>)> {
    (match s.sig {
        Some(has_output) => if s.accumulator && !has_output {
            seq![(at, "Signal with accumulator must have return type"@)]
        } else {
            Seq::empty()
        },
        None => seq![(at, "No definition for signal `"@ + s.name@ + "`"@)],
    }) + if s.accumulator && s.override_ {
        seq![(at, "Accumulator not allowed on overriden signal"@)]
    } else {
        Seq::empty()
    }
}

pub open spec fn all_signal_errors<S>(signals: Seq<Signal>, spans: Seq<S>, n: int) -> Seq<(S, Seq<char>)>
    decreases n,
{
    if n <= 0 {
        Seq::empty()
    } else {
        all_signal_errors(signals, spans, n - 1) + signal_errors(signals[n - 1], spans[n - 1])
    }
}

/// Checks every signal: a signal with an accumulator must return a value, every
/// accumulator must have its signal, and an overriding signal has no accumulator.
/// `spans[i]` is where signal `i` is reported.
pub fn validate_many<S: Copy>(signals: &Vec<Signal>, spans: &Vec<S>, errors: &mut Errors<S>)
    requires
        spans@.len() == signals@.len(),
    ensures
        final(errors)@ == old(errors)@ + all_signal_errors(signals@, spans@, signals@.len() as int),
{
    let ghost start = errors@;
    let mut i: usize = 0;
    while i < signals.len()
        invariant
            i <= signals@.len(),
            spans@.len() == signals@.len(),
            errors@ == start + all_signal_errors(signals@, spans@, i as int),
        decreases signals.len() - i,
    {
        let s = &signals[i];
        let at = spans[i];
        match s.sig {
            Some(has_output) => {
                if s.accumulator && !has_output {
                    errors.push_str(at, "Signal with accumulator must have return type");
                }
            },
            None => {
                let mut m = "No definition for signal `".to_owned();
                m.append(s.name.as_str());
                m.append("`");
                errors.push(at, m);
            },
        }
        if s.accumulator && s.override_ {
            errors.push_str(at, "Accumulator not allowed on overriden signal");
        }
        assert(errors@ =~= start + all_signal_errors(signals@, spans@, i as int + 1));
        i = i + 1;
    }
}

impl Signal {
    /// The name of the static cell that holds the signal's id: `SIGNAL_` and the name in
    /// SHOUTY_SNAKE_CASE.
    pub fn signal_id_cell_ident(&self) -> (r: String)
        ensures
            r@ == "SIGNAL_"@ + shouty_snake_case(self.name@),
    {
        let mut r = "SIGNAL_".to_owned();
        let n = to_shouty_snake_case(self.name.as_str());
        r.append(n.as_str());
        r
    }

    /// The flags as a Rust expression under the crate path `glib`.
    pub fn flags_tokens(&self, glib: &str) -> (r: String)
        ensures
            r@ == signal_flags_expression(self.flags, glib@),
    {
        signal_flags_tokens(self.flags, glib)
    }
}

/// Signal names are unique among the recorded signals: recording a handler or an
/// accumulator adds an entry only for a name that has none.
pub proof fn entries_stay_unique(before: Seq<Signal>, after: Seq<Signal>, name: Seq<char>, ident: Seq<char>, mode: TypeMode, i: int)
    requires
        forall|a: int, b: int| 0 <= a < b < before.len() ==> (#[trigger] before[a]).name@ != (#[trigger] before[b]).name@,
        entry_for(before, after, name, ident, mode, i),
        after[i].name@ == name,
    ensures
        forall|a: int, b: int| 0 <= a < b < after.len() ==> (#[trigger] after[a]).name@ != (#[trigger] after[b]).name@,
{
    assert forall|a: int, b: int| 0 <= a < b < after.len() implies (#[trigger] after[a]).name@ != (#[trigger] after[b]).name@ by {
        if a != i && b != i {
            assert(after[a] == before[a] && after[b] == before[b]);
        } else if a == i {
            assert(after[b] == before[b]);
            if has_named(before, name) {
                assert(before[i].name@ == name);
            } else {
                assert(b < before.len() ==> before[b].name@ != name);
            }
        } else {
            assert(after[a] == before[a]);
            if has_named(before, name) {
                assert(before[i].name@ == name);
            } else {
                assert(a < before.len() ==> before[a].name@ != name);
            }
        }
    }
}

proof fn lemma_nine_bits(b0: bool, b1: bool, b2: bool, b3: bool, b4: bool, b5: bool, b6: bool, b7: bool, b8: bool, f: u32)
    by (bit_vector)
    requires
        f == (if b0 { 1u32 } else { 0u32 }) | (if b1 { 2u32 } else { 0u32 }) | (if b2 { 4u32 } else { 0u32 })
            | (if b3 { 8u32 } else { 0u32 }) | (if b4 { 16u32 } else { 0u32 }) | (if b5 { 32u32 } else { 0u32 })
            | (if b6 { 64u32 } else { 0u32 }) | (if b7 { 128u32 } else { 0u32 }) | (if b8 { 256u32 } else { 0u32 }),
    ensures
        (f & 1u32 != 0u32) == b0,
        (f & 2u32 != 0u32) == b1,
        (f & 4u32 != 0u32) == b2,
        (f & 8u32 != 0u32) == b3,
        (f & 16u32 != 0u32) == b4,
        (f & 32u32 != 0u32) == b5,
        (f & 64u32 != 0u32) == b6,
        (f & 128u32 != 0u32) == b7,
        (f & 256u32 != 0u32) == b8,
        f & !511u32 == 0u32,
{
}

/// Each of GLib's signal flag bits (run first 1, run last 2, run cleanup 4, no recurse 8,
/// detailed 16, action 32, no hooks 64, must collect 128, deprecated 256) is set in a
/// signal's flags exactly when its own word is written in `#[signal(...)]`, and no other
/// bit is set.
pub proof fn signal_flags_follow_words(a: SignalAttrs)
    ensures
        (attr_flags(a) & 1u32 != 0u32) == a.run_first,
        (attr_flags(a) & 2u32 != 0u32) == a.run_last,
        (attr_flags(a) & 4u32 != 0u32) == a.run_cleanup,
        (attr_flags(a) & 8u32 != 0u32) == a.no_recurse,
        (attr_flags(a) & 16u32 != 0u32) == a.detailed,
        (attr_flags(a) & 32u32 != 0u32) == a.action,
        (attr_flags(a) & 64u32 != 0u32) == a.no_hooks,
        (attr_flags(a) & 128u32 != 0u32) == a.must_collect,
        (attr_flags(a) & 256u32 != 0u32) == a.deprecated,
        attr_flags(a) & !511u32 == 0u32,
{
    lemma_nine_bits(a.run_first, a.run_last, a.run_cleanup, a.no_recurse, a.detailed, a.action, a.no_hooks,
        a.must_collect, a.deprecated, attr_flags(a));
}

} // verus!
