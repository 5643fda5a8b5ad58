//! Converting an object's properties to and from a GLib variant: which properties take
//! part and in which role, what is wrong with their options, and the name under which a
//! dictionary holds the parent class's values.
use vstd::prelude::*;
use vstd::string::StringExecFns;
use crate::text::{contains_name, lemma_push_contains, str_eq};
use crate::util::Errors;
use crate::validations::{only_one, only_one_errors};

verus! {

/// Where each option of a property's `#[variant(...)]` attribute is written, when it is.
#[derive(Clone, Copy)]
pub struct FieldVariantAttrs<S> {
    pub skip: Option<S>,
    pub skip_to: Option<S>,
    pub skip_from: Option<S>,
    pub with: Option<S>,
    pub variant_type: Option<S>,
    pub variant_type_str: Option<S>,
    pub to: Option<S>,
    pub from: Option<S>,
}

/// The options that exclude each other: `skip` with `skip_to` or `skip_from`, `with` with
/// `to` or `from`, and `variant_type` with `variant_type_str`.
pub open spec fn field_attr_errors<S>(a: FieldVariantAttrs<S>) -> Seq<(S, Seq<char>)> {
    only_one_errors(seq![("skip", a.skip), ("skip_to", a.skip_to)])
        + only_one_errors(seq![("skip", a.skip), ("skip_from", a.skip_from)])
        + only_one_errors(seq![("with", a.with), ("to", a.to)])
        + only_one_errors(seq![("with", a.with), ("from", a.from)])
        + only_one_errors(seq![("variant_type", a.variant_type), ("variant_type_str", a.variant_type_str)])
}

impl<S: Copy> FieldVariantAttrs<S> {
    /// Reports options that exclude each other.
    pub fn validate(&self, errors: &mut Errors<S>)
        ensures
            final(errors)@ == old(errors)@ + field_attr_errors(*self),
    {
        let ghost start = errors@;
        only_one(&[("skip", self.skip), ("skip_to", self.skip_to)], errors);
        only_one(&[("skip", self.skip), ("skip_from", self.skip_from)], errors);
        only_one(&[("with", self.with), ("to", self.to)], errors);
        only_one(&[("with", self.with), ("from", self.from)], errors);
        only_one(&[("variant_type", self.variant_type), ("variant_type_str", self.variant_type_str)], errors);
        assert(errors@ =~= start + field_attr_errors(*self));
    }
}

/// What `#[variant(...)]` on the struct says: where it is written (nothing when there is
/// none), whether the type converts to and from variants, whether it does so as a
/// dictionary, whether the parent's values are left out, and whether child types are
/// listed.
pub struct VariantAttrs<S> {
    pub span: Option<S>,
    pub to: bool,
    pub from: bool,
    pub dict: bool,
    pub skip_parent: bool,
    pub has_child_types: bool,
}

/// A property as the variant conversion reads it: where it is, whether it overrides a
/// class property, its `#[variant(...)]` options, whether it can be read and written, the
/// name of its getter, and the names its `#[serde(rename = ...)]` and
/// `#[serde(alias = ...)]` attributes give it.
pub struct VariantProp<S> {
    pub span: S,
    pub class_override: bool,
    pub attrs: FieldVariantAttrs<S>,
    pub readable: bool,
    pub writable: bool,
    pub getter: String,
    pub renames: Vec<String>,
    pub aliases: Vec<String>,
}

/// The part a property plays: whether its type is part of the tuple type, whether it is
/// written to the variant, and at which child of the tuple it is read from.
#[derive(PartialEq, Eq, Structural, Clone, Copy)]
pub struct FieldRoles {
    pub in_type: bool,
    pub written: bool,
    pub read_at: Option<usize>,
}

/// How a type converts to and from variants: the part each property plays (nothing for
/// one that takes no part), the key of the parent's values in a dictionary, and whether
/// the variant is a pair of a type name and a value, for a type that lists child types.
pub struct VariantPlan {
    pub roles: Vec<Option<FieldRoles>>,
    pub parent_name: Option<String>,
    pub tagged: bool,
}

pub open spec fn needs_direction_message() -> Seq<char> {
    "Must have at least one of these attributes: `to`, `from`"@
}

pub open spec fn mismatch_message() -> Seq<char> {
    "Property for variant differs in readability/writability. Try using #[variant(skip)] on the property, or #[variant(dict)] on the class"@
}

/// A property takes part unless it overrides a class property or is skipped.
pub open spec fn takes_part<S>(p: VariantProp<S>) -> bool {
    !p.class_override && p.attrs.skip is None
}

pub open spec fn is_written<S>(p: VariantProp<S>) -> bool {
    p.readable && p.attrs.skip_to is None
}

pub open spec fn is_read<S>(p: VariantProp<S>) -> bool {
    p.writable && p.attrs.skip_from is None
}

pub open spec fn strings(v: Seq<String>) -> Seq<Seq<char>> {
    v.map_values(|s: String| s@)
}

/// The name `n` is taken by a property: it renames or aliases the property to `n`, or,
/// without a rename, its getter is called `n`.
pub open spec fn name_taken<S>(p: VariantProp<S>, n: Seq<char>) -> bool {
    strings(p.renames@).contains(n) || strings(p.aliases@).contains(n) || (p.renames@.len() == 0 && p.getter@ == n)
}

/// `parent` with `k` underscores before it.
pub open spec fn underscored(k: nat) -> Seq<char> {
    Seq::new(k, |i: int| '_') + "parent"@
}

/// Some property of the first `n` that take part takes the name.
pub open spec fn any_taken<S>(props: Seq<VariantProp<S>>, name: Seq<char>) -> bool {
    exists|i: int| 0 <= i < props.len() && takes_part(props[i]) && name_taken(#[trigger] props[i], name)
}

/// Errors about the options of the properties that take part, then, for a tuple that is
/// both written and read, each of them that can only be written or only be read.
pub open spec fn props_errors<S>(props: Seq<VariantProp<S>>, attrs: VariantAttrs<S>, k: int) -> Seq<(S, Seq<char>)>
    decreases k,
{
    if k <= 0 {
        Seq::empty()
    } else {
        let p = props[k - 1];
        props_errors(props, attrs, k - 1) + if takes_part(p) { field_attr_errors(p.attrs) } else { Seq::empty() }
    }
}

pub open spec fn mismatch_errors<S>(props: Seq<VariantProp<S>>, k: int) -> Seq<(S, Seq<char>)>
    decreases k,
{
    if k <= 0 {
        Seq::empty()
    } else {
        let p = props[k - 1];
        mismatch_errors(props, k - 1) + if takes_part(p) && is_written(p) != is_read(p) {
            seq![(p.span, mismatch_message())]
        } else {
            Seq::empty()
        }
    }
}

/// The part that property `i` plays; the child it is read at counts the parent's values
/// (when there are any) and every property before it that takes part.
pub open spec fn roles_of<S>(props: Seq<VariantProp<S>>, i: int, start: int) -> Option<FieldRoles> {
    let p = props[i];
    if !takes_part(p) {
        None
    } else {
        Some(FieldRoles {
            in_type: is_written(p) && is_read(p),
            written: is_written(p),
            read_at: if is_read(p) { Some((parts_before(props, i) + start) as usize) } else { None },
        })
    }
}

/// How many of the properties before `i` take part.
pub open spec fn parts_before<S>(props: Seq<VariantProp<S>>, i: int) -> int
    decreases i,
{
    if i <= 0 {
        0
    } else {
        parts_before(props, i - 1) + if takes_part(props[i - 1]) { 1int } else { 0int }
    }
}


pub open spec fn seq_max_len(v: Seq<Seq<char>>) -> nat
    decreases v.len(),
{
    if v.len() == 0 {
        0
    } else {
        let m = seq_max_len(v.drop_last());
        if v.last().len() > m { v.last().len() } else { m }
    }
}

pub open spec fn prop_max_len<S>(p: VariantProp<S>) -> nat {
    let a = seq_max_len(strings(p.renames@));
    let b = seq_max_len(strings(p.aliases@));
    let c = p.getter@.len();
    let ab = if a > b { a } else { b };
    if ab > c { ab } else { c }
}

pub open spec fn props_max_len<S>(props: Seq<VariantProp<S>>, k: int) -> nat
    decreases k,
{
    if k <= 0 {
        0
    } else {
        let m = props_max_len(props, k - 1);
        let l = prop_max_len(props[k - 1]);
        if l > m { l } else { m }
    }
}

proof fn lemma_seq_max_len(v: Seq<Seq<char>>, n: Seq<char>)
    requires
        v.contains(n),
    ensures
        n.len() <= seq_max_len(v),
    decreases v.len(),
{
    if v.last() != n {
        let i = choose|i: int| 0 <= i < v.len() && v[i] == n;
        assert(v.drop_last()[i] == n);
        lemma_seq_max_len(v.drop_last(), n);
    }
}

proof fn lemma_props_max_len<S>(props: Seq<VariantProp<S>>, k: int, i: int)
    requires
        0 <= i < k <= props.len(),
    ensures
        prop_max_len(props[i]) <= props_max_len(props, k),
    decreases k,
{
    if i < k - 1 {
        lemma_props_max_len(props, k - 1, i);
    }
}

/// A name some property takes is no longer than the longest of their names.
proof fn lemma_taken_bounded<S>(props: Seq<VariantProp<S>>, n: Seq<char>)
    requires
        any_taken(props, n),
    ensures
        n.len() <= props_max_len(props, props.len() as int),
{
    let i = choose|i: int| 0 <= i < props.len() && takes_part(props[i]) && name_taken(#[trigger] props[i], n);
    let p = props[i];
    lemma_props_max_len(props, props.len() as int, i);
    if strings(p.renames@).contains(n) {
        lemma_seq_max_len(strings(p.renames@), n);
    } else if strings(p.aliases@).contains(n) {
        lemma_seq_max_len(strings(p.aliases@), n);
    }
}

fn strings_contain(v: &Vec<String>, n: &str) -> (r: bool)
    ensures
        r == strings(v@).contains(n@),
{
    contains_name(v, n)
}

fn name_is_taken<S: Copy>(props: &Vec<VariantProp<S>>, n: &str) -> (r: bool)
    ensures
        r == any_taken(props@, n@),
{
    let mut i: usize = 0;
    while i < props.len()
        invariant
            i <= props@.len(),
            forall|j: int| 0 <= j < i ==> !(takes_part(props@[j]) && name_taken(#[trigger] props@[j], n@)),
        decreases props.len() - i,
    {
        let p = &props[i];
        if !p.class_override && p.attrs.skip.is_none() {
            if strings_contain(&p.renames, n) || strings_contain(&p.aliases, n)
                || (p.renames.len() == 0 && str_eq(p.getter.as_str(), n)) {
                assert(takes_part(props@[i as int]) && name_taken(props@[i as int], n@));
                return true;
            }
        }
        i = i + 1;
    }
    false
}

/// The key of the parent's values in a dictionary: `parent`, with as few underscores
/// before it as leave it a name no property takes.
pub fn parent_key<S: Copy>(props: &Vec<VariantProp<S>>) -> (r: String)
    ensures
        exists|k: nat| {
            &&& r@ == underscored(k)
            &&& !any_taken(props@, underscored(k))
            &&& forall|j: nat| j < k ==> any_taken(props@, #[trigger] underscored(j))
        },
{
    let mut name = "parent".to_string();
    let ghost mut k: nat = 0;
    let ghost bound = props_max_len(props@, props@.len() as int);
    proof {
        assert(underscored(0) =~= "parent"@);
    }
    while name_is_taken(props, name.as_str())
        invariant
            name@ == underscored(k),
            bound == props_max_len(props@, props@.len() as int),
            forall|j: nat| j < k ==> any_taken(props@, #[trigger] underscored(j)),
        decreases bound - k,
    {
        proof {
            lemma_taken_bounded(props@, underscored(k));
            reveal_strlit("parent");
        }
        let mut next = "_".to_string();
        next.append(name.as_str());
        proof {
            reveal_strlit("_");
            assert(next@ =~= underscored(k + 1));
            k = k + 1;
        }
        name = next;
    }
    name
}

pub open spec fn plan_errors<S>(attrs: VariantAttrs<S>, props: Seq<VariantProp<S>>) -> Seq<(S, Seq<char>)> {
    if !attrs.to && !attrs.from {
        match attrs.span {
            Some(s) => seq![(s, needs_direction_message())],
            None => Seq::empty(),
        }
    } else {
        props_errors(props, attrs, props.len() as int) + if !attrs.dict && attrs.to && attrs.from {
            mismatch_errors(props, props.len() as int)
        } else {
            Seq::empty()
        }
    }
}

/// Plans a type's conversion to and from variants from its `#[variant(...)]` attribute
/// and its properties; `has_parent` tells whether the type has a parent class whose
/// values come along. A type that converts neither way gives nothing.
pub fn plan_variant<S: Copy>(attrs: &VariantAttrs<S>, props: &Vec<VariantProp<S>>, has_parent: bool, final_: bool,
    errors: &mut Errors<S>) -> (r: Option<VariantPlan>)
    ensures
        final(errors)@ == old(errors)@ + plan_errors(*attrs, props@),
        match r {
            None => !attrs.to && !attrs.from,
            Some(plan) => {
                let start: int = if has_parent && !attrs.skip_parent { 1 } else { 0 };
                &&& attrs.to || attrs.from
                &&& plan.roles@.len() == props@.len()
                &&& forall|i: int| 0 <= i < props@.len() ==> #[trigger] plan.roles@[i] == roles_of(props@, i, start)
                &&& plan.tagged == (!final_ && attrs.has_child_types)
                &&& match plan.parent_name {
                    Some(n) => attrs.dict && has_parent && !attrs.skip_parent && exists|k: nat| {
                        &&& n@ == underscored(k)
                        &&& !any_taken(props@, underscored(k))
                        &&& forall|j: nat| j < k ==> any_taken(props@, #[trigger] underscored(j))
                    },
                    None => !(attrs.dict && has_parent && !attrs.skip_parent),
                }
            },
        },
{
    let ghost start_errors = errors@;
    if !attrs.to && !attrs.from {
        match attrs.span {
            Some(s) => errors.push_str(s, "Must have at least one of these attributes: `to`, `from`"),
            None => {},
        }
        return None;
    }
    let mut i: usize = 0;
    while i < props.len()
        invariant
            i <= props@.len(),
            errors@ == start_errors + props_errors(props@, *attrs, i as int),
        decreases props.len() - i,
    {
        let p = &props[i];
        if !p.class_override && p.attrs.skip.is_none() {
            p.attrs.validate(errors);
        }
        i = i + 1;
    }
    if !attrs.dict && attrs.to && attrs.from {
        let ghost mid = errors@;
        let mut i: usize = 0;
        while i < props.len()
            invariant
                i <= props@.len(),
                errors@ == mid + mismatch_errors(props@, i as int),
            decreases props.len() - i,
        {
            let p = &props[i];
            if !p.class_override && p.attrs.skip.is_none() {
                let has_to = p.readable && p.attrs.skip_to.is_none();
                let has_from = p.writable && p.attrs.skip_from.is_none();
                if has_to != has_from {
                    errors.push_str(p.span, "Property for variant differs in readability/writability. \
                        Try using #[variant(skip)] on the property, \
                        or #[variant(dict)] on the class");
                }
            }
            i = i + 1;
        }
    }
    assert(errors@ =~= start_errors + plan_errors(*attrs, props@));
    let start: usize = if has_parent && !attrs.skip_parent { 1 } else { 0 };
    let mut roles: Vec<Option<FieldRoles>> = Vec::new();
    let mut count: usize = 0;
    let mut i: usize = 0;
    while i < props.len()
        invariant
            i <= props@.len(),
            count == parts_before(props@, i as int),
            count <= i,
            start <= 1,
            start == if has_parent && !attrs.skip_parent { 1int } else { 0int },
            roles@.len() == i,
            forall|j: int| 0 <= j < i ==> #[trigger] roles@[j] == roles_of(props@, j, start as int),
        decreases props.len() - i,
    {
        let p = &props[i];
        if !p.class_override && p.attrs.skip.is_none() {
            let written = p.readable && p.attrs.skip_to.is_none();
            let read = p.writable && p.attrs.skip_from.is_none();
            roles.push(Some(FieldRoles {
                in_type: written && read,
                written,
                read_at: if read { Some(count + start) } else { None },
            }));
            count = count + 1;
        } else {
            roles.push(None);
        }
        i = i + 1;
    }
    let parent_name = if attrs.dict && has_parent && !attrs.skip_parent {
        Some(parent_key(props))
    } else {
        None
    };
    Some(VariantPlan { roles, parent_name, tagged: !final_ && attrs.has_child_types })
}

} // verus!
