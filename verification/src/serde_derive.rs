//! Serializing an object's properties with serde: the name the type is serialized under,
//! the properties that take part, and the field name of the parent class's values.
use vstd::prelude::*;
use vstd::string::StringExecFns;
use crate::text::str_eq;
use crate::variant_derive::underscored;

verus! {

/// What `#[gobject_serde(...)]` asks for.
pub struct SerdeAttrs {
    pub serialize: bool,
    pub deserialize: bool,
    pub skip_parent: bool,
    pub has_child_types: bool,
}

/// How a readable property is read: through its generated getter method, by its name
/// (when it is readable without a method), or through a method given by its path.
pub enum SerdeGetter {
    Method,
    ByName,
    Custom(String),
}

/// A property as serializing reads it: whether it overrides a class property, whether a
/// `#[serde(skip)]` leaves it out, the name of its field, whether it can be read and
/// written, how it is read, and whether its field already names a getter in
/// `#[serde(getter = ...)]`.
pub struct SerdeProp {
    pub class_override: bool,
    pub serde_skip: bool,
    pub field_name: String,
    pub readable: bool,
    pub writable: bool,
    pub getter: SerdeGetter,
    pub has_getter_attr: bool,
}

/// The getter that serializing a property is given: the method of the extension trait,
/// the method of the wrapper type (a final class has no extension trait), a generated
/// function that reads the property by name, or the method that the property names.
pub enum GetterUse {
    ExtTrait,
    Wrapper,
    ByName,
    Custom(String),
}

/// `g` is the getter that serializing property `p` is given, when it is serialized and
/// its field names no getter of its own.
pub open spec fn getter_fits(g: Option<GetterUse>, p: SerdeProp, serialized: bool, has_ext_trait: bool) -> bool {
    if serialized && !p.has_getter_attr {
        match p.getter {
            SerdeGetter::Method => g == Some(if has_ext_trait { GetterUse::ExtTrait } else { GetterUse::Wrapper }),
            SerdeGetter::ByName => g == Some(GetterUse::ByName),
            SerdeGetter::Custom(path) => g matches Some(GetterUse::Custom(q)) && q@ == path@,
        }
    } else {
        g is None
    }
}

/// How a type is serialized: the name it is serialized under, when the struct gives none
/// of its own, which properties are serialized and deserialized, the getter each
/// serialized property is given, whether the parent's values are written as a field, and
/// that field's name.
pub struct SerdePlan {
    pub rename: Option<String>,
    pub serialized: Vec<bool>,
    pub deserialized: Vec<bool>,
    pub getters: Vec<Option<GetterUse>>,
    pub parent_field: bool,
    pub parent_name: String,
}

pub open spec fn serde_part(p: SerdeProp) -> bool {
    !p.class_override && !p.serde_skip
}

/// Some property that takes part has a field named `n`.
pub open spec fn field_taken(props: Seq<SerdeProp>, n: Seq<char>) -> bool {
    exists|i: int| 0 <= i < props.len() && serde_part(props[i]) && (#[trigger] props[i]).field_name@ == n
}

/// The name a type is serialized under: its namespace, when it has one, then its name.
pub open spec fn gtype_name(ns: Option<Seq<char>>, name: Seq<char>) -> Seq<char> {
    match ns {
        Some(n) => n + name,
        None => name,
    }
}

fn field_is_taken(props: &Vec<SerdeProp>, n: &str) -> (r: bool)
    ensures
        r == field_taken(props@, n@),
{
    let mut i: usize = 0;
    while i < props.len()
        invariant
            i <= props@.len(),
            forall|j: int| 0 <= j < i ==> !(serde_part(props@[j]) && (#[trigger] props@[j]).field_name@ == n@),
        decreases props.len() - i,
    {
        let p = &props[i];
        if !p.class_override && !p.serde_skip && str_eq(p.field_name.as_str(), n) {
            return true;
        }
        i = i + 1;
    }
    false
}

pub open spec fn longest_field(props: Seq<SerdeProp>, k: int) -> nat
    decreases k,
{
    if k <= 0 {
        0
    } else {
        let m = longest_field(props, k - 1);
        let l = props[k - 1].field_name@.len();
        if l > m { l } else { m }
    }
}

proof fn lemma_longest_field(props: Seq<SerdeProp>, k: int, i: int)
    requires
        0 <= i < k <= props.len(),
    ensures
        props[i].field_name@.len() <= longest_field(props, k),
    decreases k,
{
    if i < k - 1 {
        lemma_longest_field(props, k - 1, i);
    }
}

/// The field name of the parent's values: `parent`, with as few underscores before it as
/// leave it a name no serialized property's field has.
pub fn parent_field_name(props: &Vec<SerdeProp>) -> (r: String)
    ensures
        exists|k: nat| {
            &&& r@ == underscored(k)
            &&& !field_taken(props@, underscored(k))
            &&& forall|j: nat| j < k ==> field_taken(props@, #[trigger] underscored(j))
        },
{
    let mut name = "parent".to_string();
    let ghost mut k: nat = 0;
    let ghost bound = longest_field(props@, props@.len() as int);
    proof {
        reveal_strlit("parent");
        assert(underscored(0) =~= "parent"@);
    }
    while field_is_taken(props, name.as_str())
        invariant
            name@ == underscored(k),
            bound == longest_field(props@, props@.len() as int),
            forall|j: nat| j < k ==> field_taken(props@, #[trigger] underscored(j)),
        decreases bound - k,
    {
        proof {
            let i = choose|i: int| 0 <= i < props@.len() && serde_part(props@[i]) && (#[trigger] props@[i]).field_name@ == underscored(k);
            lemma_longest_field(props@, props@.len() as int, i);
            reveal_strlit("parent");
        }
        let mut next = "_".to_string();
        next.append(name.as_str());
        proof {
            reveal_strlit("_");
            assert(next@ =~= underscored(k + 1));
            k = k + 1;
        }
        name = next;
    }
    name
}

/// Plans a type's serialization from `#[gobject_serde(...)]`, its name and namespace,
/// whether its struct already names the type in a `#[serde(rename = ...)]`, its
/// properties, whether it has a parent type, and whether it has an extension trait. A type
/// that is neither serialized nor deserialized gives nothing.
pub fn plan_serde(attrs: &SerdeAttrs, name: &str, ns: Option<&str>, has_rename: bool, props: &Vec<SerdeProp>,
    has_parent: bool, has_ext_trait: bool) -> (r: Option<SerdePlan>)
    ensures
        match r {
            None => !attrs.serialize && !attrs.deserialize,
            Some(plan) => {
                &&& attrs.serialize || attrs.deserialize
                &&& match plan.rename {
                    Some(n) => !has_rename && n@ == gtype_name(match ns { Some(x) => Some(x@), None => None }, name@),
                    None => has_rename,
                }
                &&& plan.serialized@.len() == props@.len()
                &&& plan.deserialized@.len() == props@.len()
                &&& forall|i: int| 0 <= i < props@.len() ==> {
                    &&& #[trigger] plan.serialized@[i] == (attrs.serialize && serde_part(props@[i]) && props@[i].readable)
                    &&& plan.deserialized@[i] == (attrs.deserialize && serde_part(props@[i]) && props@[i].writable)
                }
                &&& plan.getters@.len() == props@.len()
                &&& forall|i: int| 0 <= i < props@.len() ==>
                    getter_fits(#[trigger] plan.getters@[i], props@[i], plan.serialized@[i], has_ext_trait)
                &&& plan.parent_field == (!attrs.skip_parent && has_parent)
                &&& exists|k: nat| {
                    &&& plan.parent_name@ == underscored(k)
                    &&& !field_taken(props@, underscored(k))
                    &&& forall|j: nat| j < k ==> field_taken(props@, #[trigger] underscored(j))
                }
            },
        },
{
    if !attrs.serialize && !attrs.deserialize {
        return None;
    }
    let rename = if has_rename {
        None
    } else {
        match ns {
            Some(n) => {
                let mut r = n.to_owned();
                r.append(name);
                Some(r)
            },
            None => Some(name.to_owned()),
        }
    };
    let mut serialized: Vec<bool> = Vec::new();
    let mut deserialized: Vec<bool> = Vec::new();
    let mut i: usize = 0;
    while i < props.len()
        invariant
            i <= props@.len(),
            serialized@.len() == i,
            deserialized@.len() == i,
            forall|j: int| 0 <= j < i ==> #[trigger] serialized@[j] == (attrs.serialize && serde_part(props@[j]) && props@[j].readable),
            forall|j: int| 0 <= j < i ==> #[trigger] deserialized@[j] == (attrs.deserialize && serde_part(props@[j]) && props@[j].writable),
        decreases props.len() - i,
    {
        let p = &props[i];
        let part = !p.class_override && !p.serde_skip;
        serialized.push(attrs.serialize && part && p.readable);
        deserialized.push(attrs.deserialize && part && p.writable);
        i = i + 1;
    }
    assert forall|j: int| 0 <= j < props@.len() implies {
        &&& #[trigger] serialized@[j] == (attrs.serialize && serde_part(props@[j]) && props@[j].readable)
        &&& deserialized@[j] == (attrs.deserialize && serde_part(props@[j]) && props@[j].writable)
    } by {
        assert(deserialized@[j] == (attrs.deserialize && serde_part(props@[j]) && props@[j].writable));
    }
    let mut getters: Vec<Option<GetterUse>> = Vec::new();
    let mut i: usize = 0;
    while i < props.len()
        invariant
            i <= props@.len(),
            serialized@.len() == props@.len(),
            getters@.len() == i,
            forall|j: int| 0 <= j < i ==> getter_fits(#[trigger] getters@[j], props@[j], serialized@[j], has_ext_trait),
        decreases props.len() - i,
    {
        let p = &props[i];
        let g = if serialized[i] && !p.has_getter_attr {
            match &p.getter {
                SerdeGetter::Method => Some(if has_ext_trait { GetterUse::ExtTrait } else { GetterUse::Wrapper }),
                SerdeGetter::ByName => Some(GetterUse::ByName),
                SerdeGetter::Custom(path) => Some(GetterUse::Custom(path.clone())),
            }
        } else {
            None
        };
        getters.push(g);
        i = i + 1;
    }
    let parent_name = parent_field_name(props);
    Some(SerdePlan { rename, serialized, deserialized, getters, parent_field: !attrs.skip_parent && has_parent, parent_name })
}

} // verus!
