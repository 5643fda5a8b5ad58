//! The members of a type definition: the properties of its properties struct, and the
//! signals and virtual methods of the `impl` blocks that hold its methods.
use vstd::prelude::*;
use crate::methods::{virtual_count, virtuals_errors, VirtualInput, VirtualMethod};
use crate::property::{collect_errors, collect_properties, keeps_field, name_text, properties_of, property_names, Property, PropertyField};
use crate::signal::{
    attr_flags, duplicate_signal_message, entry_for, first_named, handler_errors, has_named, interface_handler_message,
    invalid_signal_name_message, signal_name, HandlerInput, Signal,
};
use crate::type_definition::{TypeBase, TypeMode};
use crate::util::{valid_name, Errors};

verus! {

/// An `impl` block that holds methods, as its members are read: the mode it addresses,
/// its methods marked `#[signal]`, and its methods in order, those marked `#[virt]` given.
pub struct BlockInput<S> {
    pub mode: TypeMode,
    pub handlers: Vec<HandlerInput<S>>,
    pub virtuals: Vec<Option<VirtualInput<S>>>,
}

/// What the members of a type are read from: the fields of its properties struct (none
/// when it has no such struct), whether that struct is plain data, and its method blocks
/// in the order in which they are read.
pub struct MemberInput<S> {
    pub fields: Vec<PropertyField<S>>,
    pub pod: bool,
    pub blocks: Vec<BlockInput<S>>,
}

/// The members of a type.
pub struct TypeMembers {
    pub properties: Vec<Property>,
    /// For each field of the properties struct, whether the struct keeps it.
    pub kept_fields: Vec<bool>,
    pub signals: Vec<Signal>,
    pub virtual_methods: Vec<VirtualMethod>,
}

/// The names of the signals, each once and in order, after the first `k` handlers of a
/// block when `names` were known before it.
pub open spec fn names_after<S>(hs: Seq<HandlerInput<S>>, names: Seq<Seq<char>>, k: int) -> Seq<Seq<char>>
    decreases k,
{
    if k <= 0 {
        names
    } else {
        let prev = names_after(hs, names, k - 1);
        let n = signal_name(hs[k - 1].attrs.name, hs[k - 1].ident@);
        if prev.contains(n) { prev } else { prev.push(n) }
    }
}

/// The errors of a handler when `seen` tells whether its signal was defined before.
pub open spec fn handler_errors_seen<S>(h: HandlerInput<S>, base: TypeBase, mode: TypeMode, seen: bool) -> Seq<(S, Seq<char>)> {
    let name = signal_name(h.attrs.name, h.ident@);
    (if mode is Subclass && base is Interface && h.receiver is Some {
        seq![(h.receiver->Some_0, interface_handler_message())]
    } else {
        Seq::empty()
    }) + (if !valid_name(name) { seq![(h.span, invalid_signal_name_message(name))] } else { Seq::empty() })
        + (if seen { seq![(h.span, duplicate_signal_message(name))] } else { Seq::empty() })
        + (if base is Interface && h.attrs.override_ {
            seq![(h.span, "`override` not allowed on interface signal"@)]
        } else {
            Seq::empty()
        })
}

/// The errors of the first `k` handlers of a block when `names` were known before it.
pub open spec fn handlers_errors<S>(hs: Seq<HandlerInput<S>>, base: TypeBase, mode: TypeMode, names: Seq<Seq<char>>, k: int)
    -> Seq<(S, Seq<char>)>
    decreases k,
{
    if k <= 0 {
        Seq::empty()
    } else {
        handlers_errors(hs, base, mode, names, k - 1) + handler_errors_seen(hs[k - 1], base, mode,
            names_after(hs, names, k - 1).contains(signal_name(hs[k - 1].attrs.name, hs[k - 1].ident@)))
    }
}

/// The names of the signals after the first `k` blocks.
pub open spec fn blocks_names<S>(blocks: Seq<BlockInput<S>>, k: int) -> Seq<Seq<char>>
    decreases k,
{
    if k <= 0 {
        Seq::empty()
    } else {
        let b = blocks[k - 1];
        names_after(b.handlers@, blocks_names(blocks, k - 1), b.handlers@.len() as int)
    }
}

/// The errors of the first `k` blocks: for each, its signals' and then its virtual
/// methods'.
pub open spec fn blocks_errors<S>(blocks: Seq<BlockInput<S>>, base: TypeBase, k: int) -> Seq<(S, Seq<char>)>
    decreases k,
{
    if k <= 0 {
        Seq::empty()
    } else {
        let b = blocks[k - 1];
        blocks_errors(blocks, base, k - 1)
            + handlers_errors(b.handlers@, base, b.mode, blocks_names(blocks, k - 1), b.handlers@.len() as int)
            + virtuals_errors(b.virtuals@, base, b.mode, b.virtuals@.len() as int)
    }
}

/// How many virtual methods the first `k` blocks declare.
pub open spec fn blocks_virtuals<S>(blocks: Seq<BlockInput<S>>, k: int) -> int
    decreases k,
{
    if k <= 0 {
        0
    } else {
        let b = blocks[k - 1];
        blocks_virtuals(blocks, k - 1) + virtual_count(b.virtuals@, b.virtuals@.len() as int)
    }
}

/// A signal as plain values: the name of its method, its name, its flags, whether it gets
/// a connect method, whether it overrides, its definition (whether it returns a value)
/// once found, whether it has a class handler, whether it has an accumulator, and the mode
/// it is written in.
pub type SignalView = (Seq<char>, Seq<char>, u32, bool, bool, Option<bool>, bool, bool, TypeMode);

pub open spec fn signal_view(s: Signal) -> SignalView {
    (s.ident@, s.name@, s.flags, s.connect, s.override_, s.sig, s.handler, s.accumulator, s.mode)
}

/// The signal that handler `h` defines, keeping the method name, mode and accumulator of
/// its entry.
pub open spec fn defined_by<S>(h: HandlerInput<S>, base: TypeBase, ident: Seq<char>, mode: TypeMode, accumulator: bool) -> SignalView {
    (ident, signal_name(h.attrs.name, h.ident@), attr_flags(h.attrs), match h.attrs.connect { Some(b) => b, None => true },
        h.attrs.override_ && !(base is Interface), Some(h.has_output), h.has_body, accumulator, mode)
}

/// The first signal named `name`.
pub open spec fn first_view(vs: Seq<SignalView>, name: Seq<char>, j: int) -> bool {
    &&& 0 <= j < vs.len()
    &&& vs[j].1 == name
    &&& forall|i: int| 0 <= i < j ==> (#[trigger] vs[i]).1 != name
}

/// The signals after handler `h` (written in `mode`): the first entry of its signal takes
/// its definition, or a new entry is added for it.
pub open spec fn after_handler<S>(vs: Seq<SignalView>, h: HandlerInput<S>, base: TypeBase, mode: TypeMode) -> Seq<SignalView> {
    let name = signal_name(h.attrs.name, h.ident@);
    if exists|j: int| first_view(vs, name, j) {
        let j = choose|j: int| first_view(vs, name, j);
        vs.update(j, defined_by(h, base, vs[j].0, vs[j].8, vs[j].7))
    } else {
        vs.push(defined_by(h, base, h.ident@, mode, false))
    }
}

/// The signals after the first `k` handlers of a block.
pub open spec fn handlers_views<S>(hs: Seq<HandlerInput<S>>, base: TypeBase, mode: TypeMode, vs: Seq<SignalView>, k: int) -> Seq<SignalView>
    decreases k,
{
    if k <= 0 {
        vs
    } else {
        after_handler(handlers_views(hs, base, mode, vs, k - 1), hs[k - 1], base, mode)
    }
}

/// The signals after the first `k` blocks.
pub open spec fn blocks_views<S>(blocks: Seq<BlockInput<S>>, base: TypeBase, k: int) -> Seq<SignalView>
    decreases k,
{
    if k <= 0 {
        Seq::empty()
    } else {
        let b = blocks[k - 1];
        handlers_views(b.handlers@, base, b.mode, blocks_views(blocks, base, k - 1), b.handlers@.len() as int)
    }
}

/// The virtual methods of the first `k` blocks: one of the type's base and the block's
/// mode for each method marked `#[virt]`.
pub open spec fn blocks_virtual_methods<S>(blocks: Seq<BlockInput<S>>, base: TypeBase, k: int) -> Seq<VirtualMethod>
    decreases k,
{
    if k <= 0 {
        Seq::empty()
    } else {
        let b = blocks[k - 1];
        blocks_virtual_methods(blocks, base, k - 1)
            + Seq::new(virtual_count(b.virtuals@, b.virtuals@.len() as int) as nat, |i: int| VirtualMethod { base, mode: b.mode })
    }
}

pub open spec fn signal_names(signals: Seq<Signal>) -> Seq<Seq<char>> {
    signals.map_values(|s: Signal| s.name@)
}

/// `r` are the members that reading `m` for a type of base `base` gives; `before` and
/// `after` are the errors before and after the reading.
pub open spec fn reads_members<S>(m: MemberInput<S>, base: TypeBase, call_site: S, before: Seq<(S, Seq<char>)>,
    after: Seq<(S, Seq<char>)>, r: TypeMembers) -> bool
{
    &&& after == before + collect_errors(m.fields@, m.fields@.len() as int, call_site, m.pod, base)
        + blocks_errors(m.blocks@, base, m.blocks@.len() as int)
    &&& r.properties@.map_values(|p: Property| name_text(p.name)) == property_names(m.fields@, m.fields@.len() as int, m.pod, call_site)
    &&& properties_of(r.properties@, m.fields@, m.fields@.len() as int, m.pod, call_site, base)
    &&& r.kept_fields@.len() == m.fields@.len()
    &&& forall|i: int| 0 <= i < m.fields@.len() ==> r.kept_fields@[i] == keeps_field(#[trigger] m.fields@[i], m.pod, call_site, base)
    &&& signal_names(r.signals@) == blocks_names(m.blocks@, m.blocks@.len() as int)
    &&& r.signals@.map_values(|s: Signal| signal_view(s)) == blocks_views(m.blocks@, base, m.blocks@.len() as int)
    &&& r.virtual_methods@ == blocks_virtual_methods(m.blocks@, base, m.blocks@.len() as int)
    &&& r.virtual_methods@.len() == blocks_virtuals(m.blocks@, m.blocks@.len() as int)
}

proof fn lemma_has_named_names(signals: Seq<Signal>, name: Seq<char>)
    ensures
        has_named(signals, name) == signal_names(signals).contains(name),
{
    if has_named(signals, name) {
        let i = choose|i: int| 0 <= i < signals.len() && (#[trigger] signals[i]).name@ == name;
        assert(signal_names(signals)[i] == name);
    }
    if signal_names(signals).contains(name) {
        let i = choose|i: int| 0 <= i < signal_names(signals).len() && signal_names(signals)[i] == name;
        assert(signals[i].name@ == name);
    }
}

proof fn lemma_first_named_exists(signals: Seq<Signal>, name: Seq<char>, k: int)
    requires
        0 < k <= signals.len(),
        exists|w: int| 0 <= w < k && (#[trigger] signals[w]).name@ == name,
    ensures
        exists|i: int| first_named(signals, name, i),
    decreases k,
{
    if exists|w: int| 0 <= w < k - 1 && (#[trigger] signals[w]).name@ == name {
        lemma_first_named_exists(signals, name, k - 1);
    } else {
        assert(first_named(signals, name, k - 1));
    }
}

/// Reads the signals of one block's handlers into `signals`.
fn read_handlers<S: Copy>(hs: Vec<HandlerInput<S>>, base: TypeBase, mode: TypeMode, signals: &mut Vec<Signal>,
    errors: &mut Errors<S>)
    requires
        forall|j: int| 0 <= j < old(signals)@.len() ==> (#[trigger] old(signals)@[j]).sig is Some,
    ensures
        forall|j: int| 0 <= j < final(signals)@.len() ==> (#[trigger] final(signals)@[j]).sig is Some,
        signal_names(final(signals)@) == names_after(hs@, signal_names(old(signals)@), hs@.len() as int),
        final(signals)@.map_values(|s: Signal| signal_view(s))
            == handlers_views(hs@, base, mode, old(signals)@.map_values(|s: Signal| signal_view(s)), hs@.len() as int),
        final(errors)@ == old(errors)@ + handlers_errors(hs@, base, mode, signal_names(old(signals)@), hs@.len() as int),
{
    let ghost all = hs@;
    let ghost names0 = signal_names(signals@);
    let ghost views0 = signals@.map_values(|s: Signal| signal_view(s));
    let ghost start = errors@;
    let n = hs.len();
    let mut rest = hs;
    let mut i: usize = 0;
    while rest.len() > 0
        invariant
            n == all.len(),
            i <= n,
            rest@ == all.subrange(i as int, n as int),
            forall|j: int| 0 <= j < signals@.len() ==> (#[trigger] signals@[j]).sig is Some,
            signal_names(signals@) == names_after(all, names0, i as int),
            signals@.map_values(|s: Signal| signal_view(s)) == handlers_views(all, base, mode, views0, i as int),
            errors@ == start + handlers_errors(all, base, mode, names0, i as int),
        decreases rest.len(),
    {
        let h = rest.remove(0);
        assert(h == all[i as int]);
        let ghost before = signals@;
        let ghost e_before = errors@;
        let ghost name = signal_name(h.attrs.name, h.ident@);
        proof {
            lemma_has_named_names(before, name);
            if has_named(before, name) {
                let w = choose|w: int| 0 <= w < before.len() && (#[trigger] before[w]).name@ == name;
                lemma_first_named_exists(before, name, w + 1);
            }
        }
        assert(handler_errors(h, before, base, mode) == handler_errors_seen(h, base, mode, names_after(all, names0, i as int).contains(name)));
        Signal::from_handler(h, base, mode, signals, errors);
        proof {
            let k = choose|k: int| #[trigger] entry_for(before, signals@, name, all[i as int].ident@, mode, k)
                && signals@[k].name@ == name && signals@[k].sig is Some;
            if has_named(before, name) {
                assert(signal_names(signals@) =~= signal_names(before)) by {
                    assert forall|j: int| 0 <= j < signals@.len() implies signal_names(signals@)[j] == signal_names(before)[j] by {
                        if j != k {
                            assert(signals@[j] == before[j]);
                        }
                    }
                }
            } else {
                assert(signal_names(signals@) =~= signal_names(before).push(name)) by {
                    assert forall|j: int| 0 <= j < before.len() implies signal_names(signals@)[j] == signal_names(before)[j] by {
                        assert(signals@[j] == before[j]);
                    }
                }
            }
            assert forall|j: int| 0 <= j < signals@.len() implies (#[trigger] signals@[j]).sig is Some by {
                if j != k {
                    assert(signals@[j] == before[j]);
                }
            }
            let vb = before.map_values(|s: Signal| signal_view(s));
            let va = signals@.map_values(|s: Signal| signal_view(s));
            if has_named(before, name) {
                assert(first_view(vb, name, k));
                assert(exists|j: int| first_view(vb, name, j));
                let c = choose|j: int| first_view(vb, name, j);
                if c < k {
                    assert(vb[c].1 == before[c].name@);
                } else if c > k {
                    assert(vb[k].1 == name);
                }
                assert(va =~= vb.update(k, defined_by(h, base, vb[k].0, vb[k].8, vb[k].7))) by {
                    assert forall|j: int| 0 <= j < va.len() && j != k implies va[j] == vb[j] by {
                        assert(signals@[j] == before[j]);
                    }
                }
            } else {
                assert forall|j: int| !first_view(vb, name, j) by {
                    if first_view(vb, name, j) {
                        assert(before[j].name@ == name);
                    }
                }
                assert(va =~= vb.push(defined_by(h, base, h.ident@, mode, false))) by {
                    assert forall|j: int| 0 <= j < vb.len() implies va[j] == vb[j] by {
                        assert(signals@[j] == before[j]);
                    }
                }
            }
            assert(va == after_handler(vb, h, base, mode));
        }
        i = i + 1;
        assert(errors@ =~= start + handlers_errors(all, base, mode, names0, i as int));
    }
}

/// Reads the members of a type: the properties of its fields, then, block by block, the
/// signals of its handlers and its virtual methods.
pub fn read_members<S: Copy>(m: MemberInput<S>, base: TypeBase, call_site: S, errors: &mut Errors<S>) -> (r: TypeMembers)
    ensures
        reads_members(m, base, call_site, old(errors)@, final(errors)@, r),
{
    let ghost start = errors@;
    let MemberInput { fields, pod, blocks } = m;
    let (properties, kept_fields) = collect_properties(fields, call_site, pod, base, errors);
    let ghost mid = errors@;
    let ghost all = blocks@;
    let n = blocks.len();
    let mut rest = blocks;
    let mut signals: Vec<Signal> = Vec::new();
    let mut virtual_methods: Vec<VirtualMethod> = Vec::new();
    let mut i: usize = 0;
    assert(signal_names(signals@) =~= blocks_names(all, 0));
    assert(signals@.map_values(|s: Signal| signal_view(s)) =~= blocks_views(all, base, 0));
    assert(virtual_methods@ =~= blocks_virtual_methods(all, base, 0));
    while rest.len() > 0
        invariant
            n == all.len(),
            i <= n,
            rest@ == all.subrange(i as int, n as int),
            forall|j: int| 0 <= j < signals@.len() ==> (#[trigger] signals@[j]).sig is Some,
            signal_names(signals@) == blocks_names(all, i as int),
            signals@.map_values(|s: Signal| signal_view(s)) == blocks_views(all, base, i as int),
            virtual_methods@ == blocks_virtual_methods(all, base, i as int),
            virtual_methods@.len() == blocks_virtuals(all, i as int),
            errors@ == mid + blocks_errors(all, base, i as int),
        decreases rest.len(),
    {
        let b = rest.remove(0);
        assert(b == all[i as int]);
        let BlockInput { mode, handlers, virtuals } = b;
        read_handlers(handlers, base, mode, &mut signals, errors);
        let ghost vbefore = virtual_methods@;
        let mut vs = VirtualMethod::many_from_items(&virtuals, base, mode, errors);
        let ghost vnew = vs@;
        virtual_methods.append(&mut vs);
        assert(vnew =~= Seq::new(virtual_count(virtuals@, virtuals@.len() as int) as nat, |q: int| VirtualMethod { base, mode }));
        assert(virtual_methods@ =~= blocks_virtual_methods(all, base, i as int + 1));
        i = i + 1;
        assert(errors@ =~= mid + blocks_errors(all, base, i as int));
    }
    assert(errors@ =~= start + collect_errors(m.fields@, m.fields@.len() as int, call_site, m.pod, base)
        + blocks_errors(m.blocks@, base, m.blocks@.len() as int));
    TypeMembers { properties, kept_fields, signals, virtual_methods }
}

} // verus!
