//! Checks on which attribute options may be combined.
//!
//! An option is a pair of its name and, when it was written, its source position.
use vstd::prelude::*;
use vstd::string::StringExecFns;
use crate::util::Errors;

verus! {

/// The position of an optional value, when it is present.
pub fn check_spanned<S: Copy>(value: Option<S>) -> (r: Option<S>)
    ensures
        r == value,
{
    value
}

/// The position of a flag, when it is set.
pub fn check_flag<S: Copy>(present: bool, span: S) -> (r: Option<S>)
    ensures
        r == if present { Some(span) } else { None::<S> },
{
    if present { Some(span) } else { None }
}

/// The position of an optional boolean, when it was given (whatever its value).
pub fn check_bool<S: Copy>(value: Option<bool>, span: S) -> (r: Option<S>)
    ensures
        r == if value is Some { Some(span) } else { None::<S> },
{
    if value.is_some() { Some(span) } else { None }
}

/// The message for an option that is not allowed on a kind of item.
pub open spec fn not_allowed_message(attr: Seq<char>, what: Seq<char>) -> Seq<char> {
    "`"@ + attr + "` not allowed on "@ + what
}

/// The errors that `disallow` reports: one for each option that was written, in order.
pub open spec fn disallow_errors<S>(what: Seq<char>, flags: Seq<(&str, Option<S>)>) -> Seq<(S, Seq<char>)>
    decreases flags.len(),
{
    if flags.len() == 0 {
        Seq::empty()
    } else {
        let prev = disallow_errors(what, flags.drop_last());
        match flags.last().1 {
            Some(span) => prev.push((span, not_allowed_message(flags.last().0@, what))),
            None => prev,
        }
    }
}

/// Reports each option of `flags` that was written, as not allowed on `what`.
pub fn disallow<S: Copy>(what: &str, flags: &[(&str, Option<S>)], errors: &mut Errors<S>)
    ensures
        final(errors)@ == old(errors)@ + disallow_errors(what@, flags@),
{
    let mut i: usize = 0;
    while i < flags.len()
        invariant
            i <= flags@.len(),
            errors@ == old(errors)@ + disallow_errors(what@, flags@.subrange(0, i as int)),
        decreases flags.len() - i,
    {
        let (attr, span) = flags[i];
        assert(flags@.subrange(0, i as int + 1).drop_last() =~= flags@.subrange(0, i as int));
        if let Some(span) = span {
            let mut m = "`".to_owned();
            m.append(attr);
            m.append("` not allowed on ");
            m.append(what);
            errors.push(span, m);
            assert(errors@ =~= old(errors)@ + disallow_errors(what@, flags@.subrange(0, i as int + 1)));
        } else {
            assert(errors@ =~= old(errors)@ + disallow_errors(what@, flags@.subrange(0, i as int + 1)));
        }
        i = i + 1;
    }
    assert(flags@.subrange(0, flags@.len() as int) =~= flags@);
}

/// The positions of the options that were written, in order.
pub open spec fn present_spans<S>(flags: Seq<(&str, Option<S>)>) -> Seq<S>
    decreases flags.len(),
{
    if flags.len() == 0 {
        Seq::empty()
    } else {
        let prev = present_spans(flags.drop_last());
        match flags.last().1 {
            Some(span) => prev.push(span),
            None => prev,
        }
    }
}

/// The names of all the options, each in backquotes, separated by `, `.
pub open spec fn quoted_names<S>(flags: Seq<(&str, Option<S>)>) -> Seq<char>
    decreases flags.len(),
{
    if flags.len() == 0 {
        Seq::empty()
    } else if flags.len() == 1 {
        "`"@ + flags[0].0@ + "`"@
    } else {
        quoted_names(flags.drop_last()) + ", "@ + "`"@ + flags.last().0@ + "`"@
    }
}

/// The message for options of which at most one may be written.
pub open spec fn only_one_message(names: Seq<char>) -> Seq<char> {
    "Only one of "@ + names + " is allowed"@
}

/// The errors that `only_one` reports: when more than one option was written, one at each
/// of them.
pub open spec fn only_one_errors<S>(flags: Seq<(&str, Option<S>)>) -> Seq<(S, Seq<char>)> {
    let spans = present_spans(flags);
    if spans.len() > 1 {
        spans.map_values(|s: S| (s, only_one_message(quoted_names(flags))))
    } else {
        Seq::empty()
    }
}

fn present_list<S: Copy>(flags: &[(&str, Option<S>)]) -> (r: Vec<S>)
    ensures
        r@ == present_spans(flags@),
{
    let mut r: Vec<S> = Vec::new();
    let mut i: usize = 0;
    while i < flags.len()
        invariant
            i <= flags@.len(),
            r@ == present_spans(flags@.subrange(0, i as int)),
        decreases flags.len() - i,
    {
        assert(flags@.subrange(0, i as int + 1).drop_last() =~= flags@.subrange(0, i as int));
        if let Some(span) = flags[i].1 {
            r.push(span);
        }
        i = i + 1;
    }
    assert(flags@.subrange(0, flags@.len() as int) =~= flags@);
    r
}

fn names_of<S: Copy>(flags: &[(&str, Option<S>)]) -> (r: String)
    ensures
        r@ == quoted_names(flags@),
{
    let mut r = String::new();
    let mut i: usize = 0;
    while i < flags.len()
        invariant
            i <= flags@.len(),
            r@ == quoted_names(flags@.subrange(0, i as int)),
        decreases flags.len() - i,
    {
        assert(flags@.subrange(0, i as int + 1).drop_last() =~= flags@.subrange(0, i as int));
        if i > 0 {
            r.append(", ");
        }
        r.append("`");
        r.append(flags[i].0);
        r.append("`");
        proof {
            let s = flags@.subrange(0, i as int + 1);
            if i == 0 {
                assert(s[0] == flags@[0]);
                assert(r@ =~= quoted_names(s));
            } else {
                assert(r@ =~= quoted_names(s));
            }
        }
        i = i + 1;
    }
    assert(flags@.subrange(0, flags@.len() as int) =~= flags@);
    r
}

/// Reports, at each of them, options of `flags` written together when at most one may be.
pub fn only_one<S: Copy>(flags: &[(&str, Option<S>)], errors: &mut Errors<S>)
    ensures
        final(errors)@ == old(errors)@ + only_one_errors(flags@),
{
    let spans = present_list(flags);
    if spans.len() > 1 {
        let names = names_of(flags);
        let mut i: usize = 0;
        while i < spans.len()
            invariant
                i <= spans@.len(),
                spans@ == present_spans(flags@),
                names@ == quoted_names(flags@),
                errors@ == old(errors)@ + spans@.subrange(0, i as int).map_values(
                    |s: S| (s, only_one_message(quoted_names(flags@)))),
            decreases spans.len() - i,
        {
            let mut m = "Only one of ".to_owned();
            m.append(names.as_str());
            m.append(" is allowed");
            errors.push(spans[i], m);
            assert(spans@.subrange(0, i as int + 1).map_values(|s: S| (s, only_one_message(quoted_names(flags@))))
                =~= spans@.subrange(0, i as int).map_values(|s: S| (s, only_one_message(quoted_names(flags@))))
                .push((spans@[i as int], only_one_message(quoted_names(flags@)))));
            assert(errors@ =~= old(errors)@ + spans@.subrange(0, i as int + 1).map_values(
                    |s: S| (s, only_one_message(quoted_names(flags@)))));
            i = i + 1;
        }
        assert(spans@.subrange(0, spans@.len() as int) =~= spans@);
    } else {
        assert(errors@ =~= old(errors)@ + only_one_errors(flags@));
    }
}

} // verus!
