//! Properties declared with `#[property(...)]`: permissions, flags, storage, and the
//! checks on which options go together.
use vstd::prelude::*;
use vstd::string::StringExecFns;
use crate::case::{snake_case, to_snake_case};
use crate::syntax::{parse_path, syn_path};
use crate::text::{append_decimal, contains_name, decimal_spec, str_eq};
use crate::type_definition::TypeBase;
use crate::util::{format_name, format_name_spec, is_valid_name, valid_name, Errors};
use crate::validations::{disallow, disallow_errors, only_one, only_one_errors};

verus! {

/// Whether, and how, a property may be read (or written).
pub enum PropertyPermission {
    Deny,
    Allow,
    /// Allowed, with no accessor method generated (`"()"`).
    AllowNoMethod,
    /// Allowed through a method named after the property (`"_"`).
    AllowCustomDefault,
    /// Allowed through the function at `path`, whose segment identifiers are `segments`.
    AllowCustom { path: String, segments: Vec<String> },
}

impl PropertyPermission {
    /// The permission that a bare `get` or `set` gives.
    pub fn from_word() -> (p: Self)
        ensures
            p is Allow,
    {
        PropertyPermission::Allow
    }

    /// `get = true` allows, `get = false` denies.
    pub fn from_bool(allow: bool) -> (p: Self)
        ensures
            if allow { p is Allow } else { p is Deny },
    {
        if allow { PropertyPermission::Allow } else { PropertyPermission::Deny }
    }

    /// `"()"` allows without a method, `"_"` through the default method, anything else
    /// through the function that the string names, which must parse as a path.
    pub fn from_string(value: &str) -> (r: Result<Self, String>)
        ensures
            value@ == "()"@ ==> r matches Ok(PropertyPermission::AllowNoMethod),
            value@ == "_"@ ==> r matches Ok(PropertyPermission::AllowCustomDefault),
            value@ != "()"@ && value@ != "_"@ ==> match syn_path(value@) {
                Ok(segs) => r matches Ok(PropertyPermission::AllowCustom { path, segments })
                    && path@ == value@ && segments@.map_values(|x: String| x@) == segs,
                Err(msg) => r matches Err(m) && m@ == msg,
            },
    {
        proof {
            reveal_strlit("()");
            reveal_strlit("_");
            assert("()"@.len() != "_"@.len());
        }
        if str_eq(value, "()") {
            return Ok(PropertyPermission::AllowNoMethod);
        }
        if str_eq(value, "_") {
            return Ok(PropertyPermission::AllowCustomDefault);
        }
        match parse_path(value) {
            Ok(segments) => Ok(PropertyPermission::AllowCustom { path: value.to_owned(), segments }),
            Err(m) => Err(m),
        }
    }

    /// A computed property reads and writes through its default methods.
    pub fn normalize(&mut self, computed: bool)
        ensures
            *final(self) == normalized_permission(*old(self), computed),
    {
        if computed && matches!(self, PropertyPermission::Allow) {
            *self = PropertyPermission::AllowCustomDefault;
        }
    }

    pub fn is_allowed(&self) -> (r: bool)
        ensures
            r == !(self is Deny),
    {
        !matches!(self, PropertyPermission::Deny)
    }
}

impl Default for PropertyPermission {
    fn default() -> (p: Self)
        ensures
            p is Deny,
    {
        PropertyPermission::Deny
    }
}

/// What `normalize` makes of a permission.
pub open spec fn normalized_permission(p: PropertyPermission, computed: bool) -> PropertyPermission {
    if computed && p is Allow { PropertyPermission::AllowCustomDefault } else { p }
}

pub open spec fn allowed(p: Option<PropertyPermission>) -> bool {
    p matches Some(q) && !(q is Deny)
}

/// The GLib parameter flags of a property, as the bits of `GParamFlags`.
pub struct PropertyFlags {
    pub bits: u32,
}

pub const READABLE: u32 = 1;
pub const WRITABLE: u32 = 2;
pub const CONSTRUCT: u32 = 4;
pub const CONSTRUCT_ONLY: u32 = 8;
pub const LAX_VALIDATION: u32 = 16;
pub const USER_1: u32 = 256;
pub const USER_2: u32 = 1024;
pub const USER_3: u32 = 2048;
pub const USER_4: u32 = 4096;
pub const USER_5: u32 = 8192;
pub const USER_6: u32 = 16384;
pub const USER_7: u32 = 32768;
pub const USER_8: u32 = 65536;
pub const EXPLICIT_NOTIFY: u32 = 1073741824;
pub const DEPRECATED: u32 = 2147483648;

/// The name of the flag whose only bit is `bit`, when there is one.
pub open spec fn flag_name(bit: int) -> Option<Seq<char>> {
    if bit == 0 { Some("READABLE"@) }
    else if bit == 1 { Some("WRITABLE"@) }
    else if bit == 2 { Some("CONSTRUCT"@) }
    else if bit == 3 { Some("CONSTRUCT_ONLY"@) }
    else if bit == 4 { Some("LAX_VALIDATION"@) }
    else if bit == 8 { Some("USER_1"@) }
    else if bit == 10 { Some("USER_2"@) }
    else if bit == 11 { Some("USER_3"@) }
    else if bit == 12 { Some("USER_4"@) }
    else if bit == 13 { Some("USER_5"@) }
    else if bit == 14 { Some("USER_6"@) }
    else if bit == 15 { Some("USER_7"@) }
    else if bit == 16 { Some("USER_8"@) }
    else if bit == 30 { Some("EXPLICIT_NOTIFY"@) }
    else if bit == 31 { Some("DEPRECATED"@) }
    else { None }
}

fn flag_name_exec(bit: u32) -> (r: Option<&'static str>)
    requires
        bit < 32,
    ensures
        match flag_name(bit as int) {
            Some(n) => r matches Some(s) && s@ == n,
            None => r is None,
        },
{
    if bit == 0 { Some("READABLE") }
    else if bit == 1 { Some("WRITABLE") }
    else if bit == 2 { Some("CONSTRUCT") }
    else if bit == 3 { Some("CONSTRUCT_ONLY") }
    else if bit == 4 { Some("LAX_VALIDATION") }
    else if bit == 8 { Some("USER_1") }
    else if bit == 10 { Some("USER_2") }
    else if bit == 11 { Some("USER_3") }
    else if bit == 12 { Some("USER_4") }
    else if bit == 13 { Some("USER_5") }
    else if bit == 14 { Some("USER_6") }
    else if bit == 15 { Some("USER_7") }
    else if bit == 16 { Some("USER_8") }
    else if bit == 30 { Some("EXPLICIT_NOTIFY") }
    else if bit == 31 { Some("DEPRECATED") }
    else { None }
}

/// Whether bit `i` of `bits` is set.
pub open spec fn bit_set(bits: u32, i: int) -> bool {
    (bits >> (i as u32)) & 1 == 1
}

/// The paths of the named flags set in `bits` among the lowest `n` bits, lowest first.
pub open spec fn flag_paths(bits: u32, n: int, prefix: Seq<char>) -> Seq<Seq<char>>
    decreases n,
{
    if n <= 0 {
        Seq::empty()
    } else {
        let prev = flag_paths(bits, n - 1, prefix);
        match flag_name(n - 1) {
            Some(name) => if bit_set(bits, n - 1) { prev.push(prefix + name) } else { prev },
            None => prev,
        }
    }
}

/// The elements of `parts`, separated by `sep`.
pub open spec fn join(parts: Seq<Seq<char>>, sep: Seq<char>) -> Seq<char>
    decreases parts.len(),
{
    if parts.len() == 0 {
        Seq::empty()
    } else if parts.len() == 1 {
        parts[0]
    } else {
        join(parts.drop_last(), sep) + sep + parts.last()
    }
}

/// The Rust expression that names a set of flags of the GLib type at `flags_path`: the
/// named flags or-ed together, lowest bit first, or `empty()` for none.
pub open spec fn flags_expression(bits: u32, flags_path: Seq<char>) -> Seq<char> {
    let paths = flag_paths(bits, 32, flags_path + "::"@);
    if paths.len() == 0 {
        flags_path + "::empty()"@
    } else {
        join(paths, " | "@)
    }
}

/// Writes the flags expression for the named flags set in `bits`, at the type
/// `flags_path`; shared with signal flags through `name_of`.
pub fn flags_tokens(bits: u32, flags_path: &str) -> (r: String)
    ensures
        r@ == flags_expression(bits, flags_path@),
{
    let mut prefix = flags_path.to_owned();
    prefix.append("::");
    let mut out = String::new();
    let mut count: usize = 0;
    let mut i: u32 = 0;
    while i < 32
        invariant
            i <= 32,
            prefix@ == flags_path@ + "::"@,
            count as int == flag_paths(bits, i as int, prefix@).len(),
            count <= i,
            count == 0 ==> out@.len() == 0,
            count > 0 ==> out@ == join(flag_paths(bits, i as int, prefix@), " | "@),
        decreases 32 - i,
    {
        if let Some(name) = flag_name_exec(i) {
            if (bits >> i) & 1 == 1 {
                let ghost prev = flag_paths(bits, i as int, prefix@);
                if count > 0 {
                    out.append(" | ");
                }
                out.append(prefix.as_str());
                out.append(name);
                proof {
                    let next = flag_paths(bits, i as int + 1, prefix@);
                    assert(next == prev.push(prefix@ + name@));
                    assert(next.drop_last() =~= prev);
                    if count == 0 {
                        assert(out@ =~= join(next, " | "@));
                    } else {
                        assert(out@ =~= join(next, " | "@));
                    }
                }
                count = count + 1;
            }
        }
        i = i + 1;
    }
    if count == 0 {
        let mut e = flags_path.to_owned();
        e.append("::empty()");
        e
    } else {
        out
    }
}

impl PropertyFlags {
    pub fn empty() -> (f: Self)
        ensures
            f.bits == 0,
    {
        PropertyFlags { bits: 0 }
    }

    /// Sets or clears the bits of `flag`.
    pub fn set(&mut self, flag: u32, value: bool)
        ensures
            final(self).bits == if value { old(self).bits | flag } else { old(self).bits & !flag },
    {
        if value {
            self.bits = self.bits | flag;
        } else {
            self.bits = self.bits & !flag;
        }
    }

    pub fn contains(&self, flag: u32) -> (r: bool)
        ensures
            r == (self.bits & flag == flag),
    {
        self.bits & flag == flag
    }

    /// The Rust expression for these flags, as `glib::ParamFlags` under the crate path `glib`.
    pub fn tokens(&self, glib: &str) -> (r: String)
        ensures
            r@ == flags_expression(self.bits, glib@ + "::ParamFlags"@),
    {
        let mut path = glib.to_owned();
        path.append("::ParamFlags");
        flags_tokens(self.bits, path.as_str())
    }
}

/// The kind of GLib parameter spec that a property is built with.
pub enum PropertyType {
    Unspecified,
    Enum,
    Flags,
    Boxed,
    Object,
}

/// Where a property keeps its value.
pub enum PropertyStorage {
    NamedField { ident: String },
    UnnamedField { index: usize },
    InterfaceAbstract,
    Abstract,
    Computed,
    /// Delegated to the expression written in `storage = "..."`.
    Delegate { expr: String },
}

impl PropertyStorage {
    pub fn has_field(&self) -> (r: bool)
        ensures
            r == (self is NamedField || self is UnnamedField),
    {
        matches!(self, PropertyStorage::NamedField { .. } | PropertyStorage::UnnamedField { .. })
    }
}

/// The name of a property: the field's identifier, or a custom name.
pub enum PropertyName {
    Field { ident: String },
    Custom { name: String },
}

/// The property name as text: a field identifier through `format_name`, a custom name as is.
pub open spec fn name_text(n: PropertyName) -> Seq<char> {
    match n {
        PropertyName::Field { ident } => format_name_spec(ident@),
        PropertyName::Custom { name } => name@,
    }
}

impl PropertyName {
    pub fn to_string(&self) -> (r: String)
        ensures
            r@ == name_text(*self),
    {
        match self {
            PropertyName::Field { ident } => format_name(ident.as_str()),
            PropertyName::Custom { name } => name.clone(),
        }
    }

    /// The identifier that accessor methods are named after: the name in snake_case.
    pub fn field_name(&self) -> (r: String)
        ensures
            r@ == snake_case(name_text(*self)),
    {
        let n = self.to_string();
        to_snake_case(n.as_str())
    }
}

/// The parent type whose property a property overrides.
pub enum PropertyOverride {
    Interface { path: String },
    Class { path: String },
}

/// The options of a `#[property(...)]` attribute on one field, each with the source
/// position where it was written. Numbered user flags are `user[0]` to `user[7]`.
pub struct PropertyAttrs<S> {
    /// The field's identifier, for a named field.
    pub ident: Option<(S, String)>,
    pub skip: Option<S>,
    pub get: Option<(S, PropertyPermission)>,
    pub set: Option<(S, PropertyPermission)>,
    pub borrow: Option<S>,
    pub construct: Option<(S, bool)>,
    pub construct_only: Option<(S, bool)>,
    pub lax_validation: Option<(S, bool)>,
    pub user: [Option<(S, bool)>; 8],
    pub explicit_notify: Option<(S, bool)>,
    pub deprecated: Option<(S, bool)>,
    pub notify: Option<bool>,
    pub connect_notify: Option<bool>,
    pub name: Option<(S, String)>,
    pub nick: Option<(S, String)>,
    pub blurb: Option<(S, String)>,
    pub enum_: Option<S>,
    pub flags: Option<S>,
    pub boxed: Option<S>,
    pub object: Option<S>,
    pub computed: Option<S>,
    pub storage: Option<(S, String)>,
    pub abstract_: Option<S>,
    pub override_class: Option<(S, String)>,
    pub override_iface: Option<(S, String)>,
    /// Where the `builder(...)` options were written, when there is at least one.
    pub builder: Option<S>,
}

pub open spec fn span_of<S, T>(o: Option<(S, T)>) -> Option<S> {
    match o {
        Some((s, _)) => Some(s),
        None => None,
    }
}

pub open spec fn perm_of<S>(o: Option<(S, PropertyPermission)>) -> Option<PropertyPermission> {
    match o {
        Some((_, p)) => Some(p),
        None => None,
    }
}

pub open spec fn bool_of<S>(o: Option<(S, bool)>) -> bool {
    o matches Some((_, b)) && b
}

fn spanned<S: Copy, T>(o: &Option<(S, T)>) -> (r: Option<S>)
    ensures
        r == span_of(*o),
{
    match o {
        Some((s, _)) => Some(*s),
        None => None,
    }
}

fn flag_value<S: Copy>(o: &Option<(S, bool)>) -> (r: bool)
    ensures
        r == bool_of(*o),
{
    match o {
        Some((_, b)) => *b,
        None => false,
    }
}

/// The text of the name that a property's options give it (`index` numbers unnamed fields).
pub open spec fn name_of_attrs<S>(a: PropertyAttrs<S>, index: nat) -> Seq<char> {
    match a.name {
        Some((_, n)) => n@,
        None => match a.ident {
            Some((_, id)) => format_name_spec(id@),
            None => format_name_spec("UNNAMED"@ + decimal_spec(index)),
        },
    }
}

/// Where the name of a property was written: the custom name, else the field's identifier.
pub open spec fn name_span<S>(a: PropertyAttrs<S>, call_site: S) -> S {
    match a.name {
        Some((s, _)) => s,
        None => match a.ident {
            Some((s, _)) => s,
            None => call_site,
        },
    }
}

pub open spec fn invalid_name_message(name: Seq<char>) -> Seq<char> {
    "Invalid property name '"@ + name
        + "'. Property names must start with an ASCII letter and only contain ASCII letters, numbers, '-' or '_'"@
}

pub open spec fn tuple_name_message() -> Seq<char> {
    "#[property(name = \"...\")] required for tuple struct properties"@
}

pub open spec fn readable_message() -> Seq<char> {
    "Property must be readable or writable"@
}

pub open spec fn borrow_message(what: Seq<char>) -> Seq<char> {
    "`borrow` not allowed on "@ + what + " property"@
}

/// Where a property is marked write-only: its `get` denies; or, without `get`, outside a
/// plain-old-data struct, at the field.
pub open spec fn write_only_span<S>(a: PropertyAttrs<S>, pod: bool, call_site: S) -> Option<S> {
    match a.get {
        Some((s, p)) => if p is Deny { Some(s) } else { None },
        None => if !pod {
            Some(match a.ident { Some((s, _)) => s, None => call_site })
        } else {
            None
        },
    }
}

/// Where an accessor was declared without a method (`"()"`).
pub open spec fn no_method_span<S>(o: Option<(S, PropertyPermission)>) -> Option<S> {
    match o {
        Some((s, p)) => if p is AllowNoMethod { Some(s) } else { None },
        None => None,
    }
}

/// The errors of the `borrow` checks: one, at `borrow`, for each incompatible option written.
pub open spec fn borrow_errors<S>(borrow: S, checks: Seq<(&str, Option<S>)>) -> Seq<(S, Seq<char>)>
    decreases checks.len(),
{
    if checks.len() == 0 {
        Seq::empty()
    } else {
        let prev = borrow_errors(borrow, checks.drop_last());
        match checks.last().1 {
            Some(_) => prev.push((borrow, borrow_message(checks.last().0@))),
            None => prev,
        }
    }
}

/// The options that an overridden property may not have.
pub open spec fn overridden_flags<S>(a: PropertyAttrs<S>) -> Seq<(&'static str, Option<S>)> {
    seq![
        ("storage", span_of(a.storage)),
        ("abstract", a.abstract_),
        ("get = \"()\"", no_method_span(a.get)),
        ("set = \"()\"", no_method_span(a.set)),
        ("nick", span_of(a.nick)),
        ("blurb", span_of(a.blurb)),
        ("builder", a.builder),
        ("construct", span_of(a.construct)),
        ("construct_only", span_of(a.construct_only)),
        ("lax_validation", span_of(a.lax_validation)),
        ("user_1", span_of(a.user[0])),
        ("user_2", span_of(a.user[1])),
        ("user_3", span_of(a.user[2])),
        ("user_4", span_of(a.user[3])),
        ("user_5", span_of(a.user[4])),
        ("user_6", span_of(a.user[5])),
        ("user_7", span_of(a.user[6])),
        ("user_8", span_of(a.user[7])),
        ("explicit_notify", span_of(a.explicit_notify)),
        ("deprecated", span_of(a.deprecated)),
    ]
}

/// The error for a tuple struct field without a custom name.
pub open spec fn tuple_errors<S>(a: PropertyAttrs<S>, field: S) -> Seq<(S, Seq<char>)> {
    if a.skip is None && a.ident is None && a.name is None {
        seq![(field, tuple_name_message())]
    } else {
        Seq::empty()
    }
}

/// The error for a name that GLib does not accept.
pub open spec fn name_errors<S>(a: PropertyAttrs<S>, call_site: S) -> Seq<(S, Seq<char>)> {
    let name = name_of_attrs(a, 0);
    if !valid_name(name) {
        seq![(name_span(a, call_site), invalid_name_message(name))]
    } else {
        Seq::empty()
    }
}

/// The error for a property that can be neither read nor written.
pub open spec fn access_errors<S>(a: PropertyAttrs<S>, field: S) -> Seq<(S, Seq<char>)> {
    if a.skip is None && !allowed(perm_of(a.get)) && !allowed(perm_of(a.set)) {
        seq![(field, readable_message())]
    } else {
        Seq::empty()
    }
}

/// The errors for options of which at most one may be written: the parameter kind, the
/// overridden parent, the storage.
pub open spec fn exclusive_errors<S>(a: PropertyAttrs<S>) -> Seq<(S, Seq<char>)> {
    only_one_errors(seq![("enum", a.enum_), ("flags", a.flags), ("boxed", a.boxed), ("object", a.object)])
        + only_one_errors(seq![("override_class", span_of(a.override_class)), ("override_iface", span_of(a.override_iface))])
        + only_one_errors(seq![("storage", span_of(a.storage)), ("abstract", a.abstract_), ("computed", a.computed)])
}

/// The errors for options that an interface's property may not have.
pub open spec fn interface_errors<S>(a: PropertyAttrs<S>, base: TypeBase) -> Seq<(S, Seq<char>)> {
    if base is Interface {
        disallow_errors("interface property"@, seq![
            ("storage", span_of(a.storage)),
            ("abstract", a.abstract_),
            ("computed", a.computed),
            ("get = \"()\"", no_method_span(a.get)),
            ("set = \"()\"", no_method_span(a.set)),
        ])
    } else {
        Seq::empty()
    }
}

/// The errors for options that an overriding property may not have.
pub open spec fn overridden_errors<S>(a: PropertyAttrs<S>) -> Seq<(S, Seq<char>)> {
    if a.override_class is Some || a.override_iface is Some {
        disallow_errors("overridden property"@, overridden_flags(a))
    } else {
        Seq::empty()
    }
}

/// The errors for construction options on a property that cannot be written.
pub open spec fn read_only_errors<S>(a: PropertyAttrs<S>) -> Seq<(S, Seq<char>)> {
    if perm_of(a.set) matches Some(PropertyPermission::Deny) {
        disallow_errors("read-only property"@, seq![("construct", span_of(a.construct)), ("construct_only", span_of(a.construct_only))])
    } else {
        Seq::empty()
    }
}

/// The options with which `borrow` cannot go, each with where it holds.
pub open spec fn borrow_checks<S>(a: PropertyAttrs<S>, field: S, call_site: S, pod: bool, base: TypeBase) -> Seq<(&'static str, Option<S>)> {
    seq![
        ("interface", if base is Interface { Some(field) } else { None::<S> }),
        ("write-only", write_only_span(a, pod, call_site)),
        ("abstract", a.abstract_),
        ("computed", a.computed),
    ]
}

/// The errors for `borrow` where the value cannot be borrowed.
pub open spec fn borrow_errors_of<S>(a: PropertyAttrs<S>, field: S, call_site: S, pod: bool, base: TypeBase) -> Seq<(S, Seq<char>)> {
    match a.borrow {
        Some(b) => borrow_errors(b, borrow_checks(a, field, call_site, pod, base)),
        None => Seq::empty(),
    }
}

/// Every error that the checks on a property's options report, in the order reported.
pub open spec fn validate_errors<S>(a: PropertyAttrs<S>, field: S, call_site: S, pod: bool, base: TypeBase)
    -> Seq<(S, Seq<char>)>
{
    tuple_errors(a, field) + name_errors(a, call_site) + access_errors(a, field) + exclusive_errors(a)
        + interface_errors(a, base) + overridden_errors(a) + read_only_errors(a)
        + borrow_errors_of(a, field, call_site, pod, base)
}

/// The GLib flags that a property's options give it.
pub open spec fn flags_of_attrs<S>(a: PropertyAttrs<S>, pod: bool) -> u32 {
    let readable = match a.get { Some((_, p)) => !(p is Deny), None => pod };
    let writable = match a.set { Some((_, p)) => !(p is Deny), None => pod };
    (if readable { READABLE } else { 0 })
        | (if writable { WRITABLE } else { 0 })
        | (if bool_of(a.construct) { CONSTRUCT } else { 0 })
        | (if bool_of(a.construct_only) { CONSTRUCT_ONLY } else { 0 })
        | (if bool_of(a.lax_validation) { LAX_VALIDATION } else { 0 })
        | (if bool_of(a.user[0]) { USER_1 } else { 0 })
        | (if bool_of(a.user[1]) { USER_2 } else { 0 })
        | (if bool_of(a.user[2]) { USER_3 } else { 0 })
        | (if bool_of(a.user[3]) { USER_4 } else { 0 })
        | (if bool_of(a.user[4]) { USER_5 } else { 0 })
        | (if bool_of(a.user[5]) { USER_6 } else { 0 })
        | (if bool_of(a.user[6]) { USER_7 } else { 0 })
        | (if bool_of(a.user[7]) { USER_8 } else { 0 })
        | (if bool_of(a.explicit_notify) { EXPLICIT_NOTIFY } else { 0 })
        | (if bool_of(a.deprecated) { DEPRECATED } else { 0 })
}

/// The kind of parameter spec that a property's options ask for: the first of `enum`,
/// `flags`, `boxed`, `object` that was written.
pub open spec fn special_type_of<S>(a: PropertyAttrs<S>) -> PropertyType {
    if a.enum_ is Some { PropertyType::Enum }
    else if a.flags is Some { PropertyType::Flags }
    else if a.boxed is Some { PropertyType::Boxed }
    else if a.object is Some { PropertyType::Object }
    else { PropertyType::Unspecified }
}

fn permission_allowed<S: Copy>(o: &Option<(S, PropertyPermission)>, default: bool) -> (r: bool)
    ensures
        r == match *o { Some((_, p)) => !(p is Deny), None => default },
{
    match o {
        Some((_, p)) => p.is_allowed(),
        None => default,
    }
}

fn no_method<S: Copy>(o: &Option<(S, PropertyPermission)>) -> (r: Option<S>)
    ensures
        r == no_method_span(*o),
{
    match o {
        Some((s, PropertyPermission::AllowNoMethod)) => Some(*s),
        _ => None,
    }
}

/// `st` is where the options place the property at field `index`: an interface's
/// properties are abstract; then `computed`, `abstract`, `storage`, the named field, the
/// unnamed one.
pub open spec fn storage_matches<S>(a: PropertyAttrs<S>, index: usize, base: TypeBase, st: PropertyStorage) -> bool {
    if base is Interface { st is InterfaceAbstract }
    else if a.computed is Some { st is Computed }
    else if a.abstract_ is Some { st is Abstract }
    else if a.storage is Some { st matches PropertyStorage::Delegate { expr } && expr@ == a.storage->Some_0.1@ }
    else if a.ident is Some { st matches PropertyStorage::NamedField { ident } && ident@ == a.ident->Some_0.1@ }
    else { st == PropertyStorage::UnnamedField { index } }
}

/// What `normalize` makes of a field's options. In a plain-old-data struct, a missing
/// accessor is allowed, and a property that overrides nothing gets `lax_validation` and
/// `explicit_notify` unless written; outside one, a field without `#[property]`
/// (`has_attr` false) is skipped. A computed property's allowed accessors become its
/// default methods. `field` is where implicit options are placed.
pub open spec fn normalized<S>(a: PropertyAttrs<S>, pod: bool, has_attr: bool, field: S, call_site: S) -> PropertyAttrs<S> {
    let computed = a.computed is Some;
    let plain = a.override_class is None && a.override_iface is None;
    let get = if pod && a.get is None { Some((field, PropertyPermission::Allow)) } else { a.get };
    let set = if pod && a.set is None { Some((field, PropertyPermission::Allow)) } else { a.set };
    PropertyAttrs {
        get: match get { Some((s, p)) => Some((s, normalized_permission(p, computed))), None => None },
        set: match set { Some((s, p)) => Some((s, normalized_permission(p, computed))), None => None },
        lax_validation: if pod && plain && a.lax_validation is None { Some((field, true)) } else { a.lax_validation },
        explicit_notify: if pod && plain && a.explicit_notify is None { Some((field, true)) } else { a.explicit_notify },
        skip: if !pod && !has_attr { Some(call_site) } else { a.skip },
        ..a
    }
}

impl<S: Copy> PropertyAttrs<S> {
    /// The name of the property at field `index`: the custom name, the field's
    /// identifier, or `UNNAMED` and the index for an unnamed field.
    pub fn name(&self, index: usize) -> (n: PropertyName)
        ensures
            name_text(n) == name_of_attrs(*self, index as nat),
    {
        match &self.name {
            Some((_, n)) => PropertyName::Custom { name: n.clone() },
            None => match &self.ident {
                Some((_, id)) => PropertyName::Field { ident: id.clone() },
                None => {
                    let mut id = "UNNAMED".to_owned();
                    append_decimal(&mut id, index as u64);
                    PropertyName::Field { ident: id }
                },
            },
        }
    }

    pub fn special_type(&self) -> (t: PropertyType)
        ensures
            t == special_type_of(*self),
    {
        if self.enum_.is_some() {
            PropertyType::Enum
        } else if self.flags.is_some() {
            PropertyType::Flags
        } else if self.boxed.is_some() {
            PropertyType::Boxed
        } else if self.object.is_some() {
            PropertyType::Object
        } else {
            PropertyType::Unspecified
        }
    }

    /// Where the property at field `index` keeps its value: an interface's properties are
    /// abstract; then `computed`, `abstract`, `storage`, the named field, the unnamed one.
    pub fn storage(&self, index: usize, base: TypeBase) -> (st: PropertyStorage)
        ensures
            storage_matches(*self, index, base, st),
    {
        if matches!(base, TypeBase::Interface) {
            PropertyStorage::InterfaceAbstract
        } else if self.computed.is_some() {
            PropertyStorage::Computed
        } else if self.abstract_.is_some() {
            PropertyStorage::Abstract
        } else if let Some((_, e)) = &self.storage {
            PropertyStorage::Delegate { expr: e.clone() }
        } else if let Some((_, id)) = &self.ident {
            PropertyStorage::NamedField { ident: id.clone() }
        } else {
            PropertyStorage::UnnamedField { index }
        }
    }

    /// The parent property that this one overrides: the class's when both are written.
    pub fn override_(&self) -> (o: Option<PropertyOverride>)
        ensures
            match self.override_class {
                Some((_, c)) => o matches Some(PropertyOverride::Class { path }) && path@ == c@,
                None => match self.override_iface {
                    Some((_, i)) => o matches Some(PropertyOverride::Interface { path }) && path@ == i@,
                    None => o is None,
                },
            },
    {
        match &self.override_class {
            Some((_, c)) => Some(PropertyOverride::Class { path: c.clone() }),
            None => match &self.override_iface {
                Some((_, i)) => Some(PropertyOverride::Interface { path: i.clone() }),
                None => None,
            },
        }
    }

    /// The GLib flags of the property; in a plain-old-data struct, an accessor that was not
    /// written is allowed.
    pub fn flags(&self, pod: bool) -> (f: PropertyFlags)
        ensures
            f.bits == flags_of_attrs(*self, pod),
    {
        let readable = permission_allowed(&self.get, pod);
        let writable = permission_allowed(&self.set, pod);
        let bits = (if readable { READABLE } else { 0 })
            | (if writable { WRITABLE } else { 0 })
            | (if flag_value(&self.construct) { CONSTRUCT } else { 0 })
            | (if flag_value(&self.construct_only) { CONSTRUCT_ONLY } else { 0 })
            | (if flag_value(&self.lax_validation) { LAX_VALIDATION } else { 0 })
            | (if flag_value(&self.user[0]) { USER_1 } else { 0 })
            | (if flag_value(&self.user[1]) { USER_2 } else { 0 })
            | (if flag_value(&self.user[2]) { USER_3 } else { 0 })
            | (if flag_value(&self.user[3]) { USER_4 } else { 0 })
            | (if flag_value(&self.user[4]) { USER_5 } else { 0 })
            | (if flag_value(&self.user[5]) { USER_6 } else { 0 })
            | (if flag_value(&self.user[6]) { USER_7 } else { 0 })
            | (if flag_value(&self.user[7]) { USER_8 } else { 0 })
            | (if flag_value(&self.explicit_notify) { EXPLICIT_NOTIFY } else { 0 })
            | (if flag_value(&self.deprecated) { DEPRECATED } else { 0 });
        PropertyFlags { bits }
    }

    /// Fills in what the options leave implicit: see `normalized`.
    pub fn normalize(&mut self, pod: bool, has_attr: bool, field: S, call_site: S)
        ensures
            *final(self) == normalized(*old(self), pod, has_attr, field, call_site),
    {
        if pod {
            if self.get.is_none() {
                self.get = Some((field, PropertyPermission::Allow));
            }
            if self.set.is_none() {
                self.set = Some((field, PropertyPermission::Allow));
            }
            if self.override_class.is_none() && self.override_iface.is_none() {
                if self.lax_validation.is_none() {
                    self.lax_validation = Some((field, true));
                }
                if self.explicit_notify.is_none() {
                    self.explicit_notify = Some((field, true));
                }
            }
        } else if !has_attr {
            self.skip = Some(call_site);
        }
        let computed = self.computed.is_some();
        let get = self.get.take();
        self.get = match get {
            Some((s, mut p)) => {
                p.normalize(computed);
                Some((s, p))
            },
            None => None,
        };
        let set = self.set.take();
        self.set = match set {
            Some((s, mut p)) => {
                p.normalize(computed);
                Some((s, p))
            },
            None => None,
        };
    }
}

impl<S: Copy> PropertyAttrs<S> {
    fn check_tuple(&self, field: S, errors: &mut Errors<S>)
        ensures
            final(errors)@ == old(errors)@ + tuple_errors(*self, field),
    {
        if self.skip.is_none() && self.ident.is_none() && self.name.is_none() {
            errors.push_str(field, "#[property(name = \"...\")] required for tuple struct properties");
        }
        assert(errors@ =~= old(errors)@ + tuple_errors(*self, field));
    }

    fn check_name(&self, call_site: S, errors: &mut Errors<S>)
        ensures
            final(errors)@ == old(errors)@ + name_errors(*self, call_site),
    {
        let name = self.name(0).to_string();
        if !is_valid_name(name.as_str()) {
            let span = match &self.name {
                Some((s, _)) => *s,
                None => match &self.ident {
                    Some((s, _)) => *s,
                    None => call_site,
                },
            };
            let mut m = "Invalid property name '".to_owned();
            m.append(name.as_str());
            m.append("'. Property names must start with an ASCII letter and only contain ASCII letters, numbers, '-' or '_'");
            errors.push(span, m);
        }
        assert(errors@ =~= old(errors)@ + name_errors(*self, call_site));
    }

    fn check_access(&self, field: S, errors: &mut Errors<S>)
        ensures
            final(errors)@ == old(errors)@ + access_errors(*self, field),
    {
        if self.skip.is_none() && !permission_allowed(&self.get, false) && !permission_allowed(&self.set, false) {
            errors.push_str(field, "Property must be readable or writable");
        }
        assert(errors@ =~= old(errors)@ + access_errors(*self, field));
    }

    fn check_exclusive(&self, errors: &mut Errors<S>)
        ensures
            final(errors)@ == old(errors)@ + exclusive_errors(*self),
    {
        let ghost start = errors@;
        let kinds = vec![("enum", self.enum_), ("flags", self.flags), ("boxed", self.boxed), ("object", self.object)];
        assert(kinds@ =~= seq![("enum", self.enum_), ("flags", self.flags), ("boxed", self.boxed), ("object", self.object)]);
        only_one(kinds.as_slice(), errors);
        let overrides = vec![("override_class", spanned(&self.override_class)), ("override_iface", spanned(&self.override_iface))];
        assert(overrides@ =~= seq![("override_class", span_of(self.override_class)), ("override_iface", span_of(self.override_iface))]);
        only_one(overrides.as_slice(), errors);
        let storages = vec![("storage", spanned(&self.storage)), ("abstract", self.abstract_), ("computed", self.computed)];
        assert(storages@ =~= seq![("storage", span_of(self.storage)), ("abstract", self.abstract_), ("computed", self.computed)]);
        only_one(storages.as_slice(), errors);
        assert(errors@ =~= start + exclusive_errors(*self));
    }

    fn check_interface(&self, base: TypeBase, errors: &mut Errors<S>)
        ensures
            final(errors)@ == old(errors)@ + interface_errors(*self, base),
    {
        if matches!(base, TypeBase::Interface) {
            let flags = vec![
                ("storage", spanned(&self.storage)),
                ("abstract", self.abstract_),
                ("computed", self.computed),
                ("get = \"()\"", no_method(&self.get)),
                ("set = \"()\"", no_method(&self.set)),
            ];
            assert(flags@ =~= seq![
                ("storage", span_of(self.storage)),
                ("abstract", self.abstract_),
                ("computed", self.computed),
                ("get = \"()\"", no_method_span(self.get)),
                ("set = \"()\"", no_method_span(self.set)),
            ]);
            disallow("interface property", flags.as_slice(), errors);
        }
        assert(errors@ =~= old(errors)@ + interface_errors(*self, base));
    }

    fn check_overridden(&self, errors: &mut Errors<S>)
        ensures
            final(errors)@ == old(errors)@ + overridden_errors(*self),
    {
        if self.override_class.is_some() || self.override_iface.is_some() {
            let flags = vec![
                ("storage", spanned(&self.storage)),
                ("abstract", self.abstract_),
                ("get = \"()\"", no_method(&self.get)),
                ("set = \"()\"", no_method(&self.set)),
                ("nick", spanned(&self.nick)),
                ("blurb", spanned(&self.blurb)),
                ("builder", self.builder),
                ("construct", spanned(&self.construct)),
                ("construct_only", spanned(&self.construct_only)),
                ("lax_validation", spanned(&self.lax_validation)),
                ("user_1", spanned(&self.user[0])),
                ("user_2", spanned(&self.user[1])),
                ("user_3", spanned(&self.user[2])),
                ("user_4", spanned(&self.user[3])),
                ("user_5", spanned(&self.user[4])),
                ("user_6", spanned(&self.user[5])),
                ("user_7", spanned(&self.user[6])),
                ("user_8", spanned(&self.user[7])),
                ("explicit_notify", spanned(&self.explicit_notify)),
                ("deprecated", spanned(&self.deprecated)),
            ];
            assert(flags@ =~= overridden_flags(*self));
            disallow("overridden property", flags.as_slice(), errors);
        }
        assert(errors@ =~= old(errors)@ + overridden_errors(*self));
    }

    fn check_read_only(&self, errors: &mut Errors<S>)
        ensures
            final(errors)@ == old(errors)@ + read_only_errors(*self),
    {
        if matches!(&self.set, Some((_, PropertyPermission::Deny))) {
            let flags = vec![("construct", spanned(&self.construct)), ("construct_only", spanned(&self.construct_only))];
            assert(flags@ =~= seq![("construct", span_of(self.construct)), ("construct_only", span_of(self.construct_only))]);
            disallow("read-only property", flags.as_slice(), errors);
        }
        assert(errors@ =~= old(errors)@ + read_only_errors(*self));
    }

    fn check_borrow(&self, field: S, call_site: S, pod: bool, base: TypeBase, errors: &mut Errors<S>)
        ensures
            final(errors)@ == old(errors)@ + borrow_errors_of(*self, field, call_site, pod, base),
    {
        let ghost start = errors@;
        if let Some(b) = self.borrow {
            let interface = if matches!(base, TypeBase::Interface) { Some(field) } else { None };
            let write_only = match &self.get {
                Some((s, p)) => if p.is_allowed() { None } else { Some(*s) },
                None => if !pod {
                    Some(match &self.ident { Some((s, _)) => *s, None => call_site })
                } else {
                    None
                },
            };
            let checks = vec![("interface", interface), ("write-only", write_only), ("abstract", self.abstract_), ("computed", self.computed)];
            let ghost expected = borrow_checks(*self, field, call_site, pod, base);
            assert(checks@ =~= expected);
            let mut i: usize = 0;
            while i < checks.len()
                invariant
                    i <= checks@.len(),
                    checks@ == expected,
                    errors@ == start + borrow_errors(b, expected.subrange(0, i as int)),
                decreases checks.len() - i,
            {
                assert(expected.subrange(0, i as int + 1).drop_last() =~= expected.subrange(0, i as int));
                let (attr, fail) = checks[i];
                if fail.is_some() {
                    let mut m = "`borrow` not allowed on ".to_owned();
                    m.append(attr);
                    m.append(" property");
                    errors.push(b, m);
                }
                assert(errors@ =~= start + borrow_errors(b, expected.subrange(0, i as int + 1)));
                i = i + 1;
            }
            assert(expected.subrange(0, 4) =~= expected);
        }
        assert(errors@ =~= start + borrow_errors_of(*self, field, call_site, pod, base));
    }

    /// Checks the options of the property at `field` together, reporting each problem in
    /// `errors`; `call_site` stands for positions that were not written, `pod` tells a
    /// plain-old-data struct, `base` whether the type is an interface.
    pub fn validate(&self, field: S, call_site: S, pod: bool, base: TypeBase, errors: &mut Errors<S>)
        ensures
            final(errors)@ == old(errors)@ + validate_errors(*self, field, call_site, pod, base),
    {
        let ghost start = errors@;
        self.check_tuple(field, errors);
        self.check_name(call_site, errors);
        self.check_access(field, errors);
        self.check_exclusive(errors);
        self.check_interface(base, errors);
        self.check_overridden(errors);
        self.check_read_only(errors);
        self.check_borrow(field, call_site, pod, base, errors);
        assert(errors@ =~= start + validate_errors(*self, field, call_site, pod, base));
    }
}

/// A property, as the code generators use it.
pub struct Property {
    pub name: PropertyName,
    pub special_type: PropertyType,
    pub storage: PropertyStorage,
    pub override_: Option<PropertyOverride>,
    pub get: PropertyPermission,
    pub set: PropertyPermission,
    pub borrow: bool,
    pub notify: bool,
    pub connect_notify: bool,
    pub nick: Option<String>,
    pub blurb: Option<String>,
    pub flags: PropertyFlags,
}

/// The permission written for an accessor, or `Deny`.
pub open spec fn permission_or_deny<S>(o: Option<(S, PropertyPermission)>) -> PropertyPermission {
    match o {
        Some((_, p)) => p,
        None => PropertyPermission::Deny,
    }
}

/// The text of an optional string option.
pub open spec fn text_of<S>(o: Option<(S, String)>) -> Option<Seq<char>> {
    match o {
        Some((_, t)) => Some(t@),
        None => None,
    }
}

/// `p` is the property that the (normalized) options `a` of field `index` describe.
pub open spec fn describes<S>(p: Property, a: PropertyAttrs<S>, index: usize, pod: bool, base: TypeBase) -> bool {
    &&& name_text(p.name) == name_of_attrs(a, index as nat)
    &&& p.special_type == special_type_of(a)
    &&& storage_matches(a, index, base, p.storage)
    &&& match a.override_class {
        Some((_, c)) => p.override_ matches Some(PropertyOverride::Class { path }) && path@ == c@,
        None => match a.override_iface {
            Some((_, i)) => p.override_ matches Some(PropertyOverride::Interface { path }) && path@ == i@,
            None => p.override_ is None,
        },
    }
    &&& p.get == permission_or_deny(a.get)
    &&& p.set == permission_or_deny(a.set)
    &&& p.borrow == (a.borrow is Some)
    &&& p.notify == match a.notify { Some(b) => b, None => true }
    &&& p.connect_notify == match a.connect_notify { Some(b) => b, None => true }
    &&& (match p.nick { Some(t) => Some(t@), None => None::<Seq<char>> }) == text_of(a.nick)
    &&& (match p.blurb { Some(t) => Some(t@), None => None::<Seq<char>> }) == text_of(a.blurb)
    &&& p.flags.bits == flags_of_attrs(a, pod)
}

fn take_text<S>(o: Option<(S, String)>) -> (r: Option<String>)
    ensures
        (match r { Some(t) => Some(t@), None => None::<Seq<char>> }) == text_of(o),
{
    match o {
        Some((_, t)) => Some(t),
        None => None,
    }
}

fn take_permission<S>(o: Option<(S, PropertyPermission)>) -> (r: PropertyPermission)
    ensures
        r == permission_or_deny(o),
{
    match o {
        Some((_, p)) => p,
        None => PropertyPermission::Deny,
    }
}

impl Property {
    /// Normalizes and checks the options of field `index` (at `field`), and gives the
    /// property they describe, or nothing for a skipped field.
    pub fn new<S: Copy>(attrs: PropertyAttrs<S>, field: S, call_site: S, has_attr: bool, index: usize, pod: bool,
        base: TypeBase, errors: &mut Errors<S>) -> (r: Option<Property>)
        ensures
            ({
                let n = normalized(attrs, pod, has_attr, field, call_site);
                &&& final(errors)@ == old(errors)@ + validate_errors(n, field, call_site, pod, base)
                &&& match r {
                    Some(p) => n.skip is None && describes(p, n, index, pod, base),
                    None => n.skip is Some,
                }
            }),
    {
        let mut attrs = attrs;
        attrs.normalize(pod, has_attr, field, call_site);
        attrs.validate(field, call_site, pod, base, errors);
        if attrs.skip.is_some() {
            return None;
        }
        let flags = attrs.flags(pod);
        let name = attrs.name(index);
        let special_type = attrs.special_type();
        let storage = attrs.storage(index, base);
        let override_ = attrs.override_();
        let borrow = attrs.borrow.is_some();
        let notify = match attrs.notify { Some(b) => b, None => true };
        let connect_notify = match attrs.connect_notify { Some(b) => b, None => true };
        let PropertyAttrs { get, set, nick, blurb, .. } = attrs;
        Some(Property {
            name,
            special_type,
            storage,
            override_,
            get: take_permission(get),
            set: take_permission(set),
            borrow,
            notify,
            connect_notify,
            nick: take_text(nick),
            blurb: take_text(blurb),
            flags,
        })
    }

    /// The method that implements an accessor (`set` for the setter), when it is one
    /// method of the implementation: the default accessor, named after the property, or
    /// a custom one given by a path of one segment.
    pub fn custom_method_path(&self, set: bool) -> (r: Option<String>)
        ensures
            match if set { self.set } else { self.get } {
                PropertyPermission::AllowCustomDefault => r matches Some(m)
                    && m@ == if set { "set_"@ + snake_case(name_text(self.name)) } else { snake_case(name_text(self.name)) },
                PropertyPermission::AllowCustom { segments, .. } => if segments@.len() == 1 {
                    r matches Some(m) && m@ == segments@[0]@
                } else {
                    r is None
                },
                _ => r is None,
            },
    {
        let perm = if set { &self.set } else { &self.get };
        match perm {
            PropertyPermission::AllowCustomDefault => {
                let name = self.name.field_name();
                if set {
                    let mut m = "set_".to_owned();
                    m.append(name.as_str());
                    Some(m)
                } else {
                    Some(name)
                }
            },
            PropertyPermission::AllowCustom { segments, .. } => {
                if segments.len() == 1 {
                    Some(segments[0].clone())
                } else {
                    None
                }
            },
            _ => None,
        }
    }

    /// The name of the generated setter: `set_` and the property's name in snake_case.
    pub fn setter_name(&self) -> (r: String)
        ensures
            r@ == "set_"@ + snake_case(name_text(self.name)),
    {
        let mut m = "set_".to_owned();
        let name = self.name.field_name();
        m.append(name.as_str());
        m
    }

    /// A property that overrides a parent's.
    pub fn is_inherited(&self) -> (r: bool)
        ensures
            r == self.override_ is Some,
    {
        self.override_.is_some()
    }

    /// A property whose value the type does not keep.
    pub fn is_abstract(&self) -> (r: bool)
        ensures
            r == (self.storage is Abstract || self.storage is InterfaceAbstract),
    {
        matches!(self.storage, PropertyStorage::Abstract | PropertyStorage::InterfaceAbstract)
    }

    /// A property with lax validation is set without the checks of `GObject`.
    pub fn is_set_inline(&self) -> (r: bool)
        ensures
            r == (self.flags.bits & LAX_VALIDATION == LAX_VALIDATION),
    {
        self.flags.contains(LAX_VALIDATION)
    }
}

/// One field of a struct that derives properties: its options, where it is, and whether
/// it carries a `#[property]` attribute.
pub struct PropertyField<S> {
    pub attrs: PropertyAttrs<S>,
    pub span: S,
    pub has_attr: bool,
}

/// The options of a field once normalized.
pub open spec fn field_options<S>(f: PropertyField<S>, pod: bool, call_site: S) -> PropertyAttrs<S> {
    normalized(f.attrs, pod, f.has_attr, f.span, call_site)
}

/// The names of the properties among the first `i` fields, in order.
pub open spec fn property_names<S>(fields: Seq<PropertyField<S>>, i: int, pod: bool, call_site: S) -> Seq<Seq<char>>
    decreases i,
{
    if i <= 0 {
        Seq::empty()
    } else {
        let prev = property_names(fields, i - 1, pod, call_site);
        let n = field_options(fields[i - 1], pod, call_site);
        if n.skip is None { prev.push(name_of_attrs(n, (i - 1) as nat)) } else { prev }
    }
}

/// The indices of the fields among the first `i` that give a property, in order.
pub open spec fn property_fields<S>(fields: Seq<PropertyField<S>>, i: int, pod: bool, call_site: S) -> Seq<int>
    decreases i,
{
    if i <= 0 {
        Seq::empty()
    } else {
        let prev = property_fields(fields, i - 1, pod, call_site);
        if field_options(fields[i - 1], pod, call_site).skip is None { prev.push(i - 1) } else { prev }
    }
}

/// `props` are the properties that the first `i` fields give, each the one its field's
/// normalized options describe.
pub open spec fn properties_of<S>(props: Seq<Property>, fields: Seq<PropertyField<S>>, i: int, pod: bool, call_site: S,
    base: TypeBase) -> bool
{
    let idx = property_fields(fields, i, pod, call_site);
    &&& props.len() == idx.len()
    &&& forall|j: int| 0 <= j < props.len() ==> {
        let k = #[trigger] idx[j];
        0 <= k < i && describes(props[j], field_options(fields[k], pod, call_site), k as usize, pod, base)
    }
}

pub open spec fn duplicate_message(name: Seq<char>) -> Seq<char> {
    "Duplicate definition for property `"@ + name + "`"@
}

/// The errors reported for field `i`: its own checks, then a duplicate name.
pub open spec fn field_errors<S>(fields: Seq<PropertyField<S>>, i: int, call_site: S, pod: bool, base: TypeBase) -> Seq<(S, Seq<char>)> {
    let n = field_options(fields[i], pod, call_site);
    let name = name_of_attrs(n, i as nat);
    validate_errors(n, fields[i].span, call_site, pod, base) + if n.skip is None
        && property_names(fields, i, pod, call_site).contains(name) {
        seq![(name_span(n, call_site), duplicate_message(name))]
    } else {
        Seq::empty()
    }
}

/// The errors reported for the first `i` fields.
pub open spec fn collect_errors<S>(fields: Seq<PropertyField<S>>, i: int, call_site: S, pod: bool, base: TypeBase) -> Seq<(S, Seq<char>)>
    decreases i,
{
    if i <= 0 {
        Seq::empty()
    } else {
        collect_errors(fields, i - 1, call_site, pod, base) + field_errors(fields, i - 1, call_site, pod, base)
    }
}

/// Whether the struct keeps field `f`: a skipped field, or a property stored in it.
pub open spec fn keeps_field<S>(f: PropertyField<S>, pod: bool, call_site: S, base: TypeBase) -> bool {
    let n = field_options(f, pod, call_site);
    n.skip is Some || (!(base is Interface) && n.computed is None && n.abstract_ is None && n.storage is None)
}

/// The properties of a struct's fields, in order, with whether each field is kept. Each
/// field is normalized and checked; a property named like an earlier one is reported.
#[verifier::rlimit(80)]
pub fn collect_properties<S: Copy>(fields: Vec<PropertyField<S>>, call_site: S, pod: bool, base: TypeBase,
    errors: &mut Errors<S>) -> (r: (Vec<Property>, Vec<bool>))
    ensures
        final(errors)@ == old(errors)@ + collect_errors(fields@, fields@.len() as int, call_site, pod, base),
        r.0@.map_values(|p: Property| name_text(p.name)) == property_names(fields@, fields@.len() as int, pod, call_site),
        properties_of(r.0@, fields@, fields@.len() as int, pod, call_site, base),
        r.1@.len() == fields@.len(),
        forall|i: int| 0 <= i < fields@.len() ==> r.1@[i] == keeps_field(#[trigger] fields@[i], pod, call_site, base),
{
    let ghost all = fields@;
    let ghost start = errors@;
    let n = fields.len();
    let mut rest = fields;
    let mut properties: Vec<Property> = Vec::new();
    let mut names: Vec<String> = Vec::new();
    let mut kept: Vec<bool> = Vec::new();
    let mut i: usize = 0;
    while rest.len() > 0
        invariant
            n == all.len(),
            i <= n,
            rest@ == all.subrange(i as int, n as int),
            errors@ == start + collect_errors(all, i as int, call_site, pod, base),
            names@.map_values(|x: String| x@) == property_names(all, i as int, pod, call_site),
            properties@.map_values(|p: Property| name_text(p.name)) == property_names(all, i as int, pod, call_site),
            properties_of(properties@, all, i as int, pod, call_site, base),
            kept@.len() == i,
            forall|k: int| 0 <= k < i ==> kept@[k] == keeps_field(#[trigger] all[k], pod, call_site, base),
        decreases rest.len(),
    {
        let f = rest.remove(0);
        assert(f == all[i as int]);
        let ghost opts = field_options(f, pod, call_site);
        let ghost before = errors@;
        let span = match &f.attrs.name {
            Some((s, _)) => *s,
            None => match &f.attrs.ident {
                Some((s, _)) => *s,
                None => call_site,
            },
        };
        let prop = Property::new(f.attrs, f.span, call_site, f.has_attr, i, pod, base, errors);
        match prop {
            Some(p) => {
                let name = p.name.to_string();
                if contains_name(&names, name.as_str()) {
                    let mut m = "Duplicate definition for property `".to_owned();
                    m.append(name.as_str());
                    m.append("`");
                    errors.push(span, m);
                }
                kept.push(p.storage.has_field());
                let ghost pnames = properties@.map_values(|q: Property| name_text(q.name));
                let ghost pbefore = properties@;
                names.push(name);
                properties.push(p);
                assert(properties@.map_values(|q: Property| name_text(q.name)) =~= pnames.push(name_text(p.name)));
                proof {
                    let idx = property_fields(all, i as int + 1, pod, call_site);
                    assert(idx == property_fields(all, i as int, pod, call_site).push(i as int));
                    assert forall|j: int| 0 <= j < properties@.len() implies {
                        let k = #[trigger] idx[j];
                        0 <= k < i + 1 && describes(properties@[j], field_options(all[k], pod, call_site), k as usize, pod, base)
                    } by {
                        if j < pbefore.len() {
                            assert(properties@[j] == pbefore[j]);
                            assert(idx[j] == property_fields(all, i as int, pod, call_site)[j]);
                        }
                    }
                }
            },
            None => {
                kept.push(true);
                assert(property_fields(all, i as int + 1, pod, call_site) == property_fields(all, i as int, pod, call_site));
            },
        }
        assert(errors@ =~= start + collect_errors(all, i as int + 1, call_site, pod, base));
        i = i + 1;
    }
    (properties, kept)
}

/// When collecting a struct's properties reports no error, no two of them share a name.
pub proof fn properties_distinct_without_errors<S>(fields: Seq<PropertyField<S>>, i: int, call_site: S, pod: bool, base: TypeBase)
    requires
        0 <= i <= fields.len(),
        collect_errors(fields, i, call_site, pod, base).len() == 0,
    ensures
        property_names(fields, i, pod, call_site).no_duplicates(),
    decreases i,
{
    if i > 0 {
        let prev = collect_errors(fields, i - 1, call_site, pod, base);
        let own = field_errors(fields, i - 1, call_site, pod, base);
        assert(prev.len() + own.len() == 0);
        properties_distinct_without_errors(fields, i - 1, call_site, pod, base);
        let n = field_options(fields[i - 1], pod, call_site);
        let names = property_names(fields, i - 1, pod, call_site);
        if n.skip is None {
            let name = name_of_attrs(n, (i - 1) as nat);
            assert(!names.contains(name));
            let next = names.push(name);
            assert forall|a: int, b: int| 0 <= a < next.len() && 0 <= b < next.len() && a != b
                implies next[a] != next[b] by {
                if a == names.len() as int {
                    assert(names[b] == next[b]);
                } else if b == names.len() as int {
                    assert(names[a] == next[a]);
                }
            }
        }
    }
}


/// The base a properties struct's properties belong to: the one of the definition it is
/// read in, else an interface when the struct says `interface`, else a class.
pub open spec fn struct_base<S>(base: Option<TypeBase>, interface: Option<S>) -> TypeBase {
    match base {
        Some(b) => b,
        None => if interface is Some { TypeBase::Interface } else { TypeBase::Class },
    }
}

/// The errors about the options of `#[properties(...)]`: `final_type` only counts inside a
/// definition, `interface` only outside one.
pub open spec fn struct_option_errors<S>(base: Option<TypeBase>, final_type: Option<S>, interface: Option<S>) -> Seq<(S, Seq<char>)> {
    match base {
        None => match final_type {
            Some(s) => seq![(s, "`final_type` not allowed here"@)],
            None => Seq::empty(),
        },
        Some(_) => match interface {
            Some(s) => seq![(s, "`interface` not allowed here"@)],
            None => Seq::empty(),
        },
    }
}

/// Checks the options of a properties struct (`final_type` and `interface`, with where
/// they are written) and gives the base its properties belong to.
pub fn struct_options<S: Copy>(base: Option<TypeBase>, final_type: Option<S>, interface: Option<S>, errors: &mut Errors<S>) -> (r: TypeBase)
    ensures
        final(errors)@ == old(errors)@ + struct_option_errors(base, final_type, interface),
        r == struct_base(base, interface),
{
    match base {
        None => {
            if let Some(s) = final_type {
                errors.push_str(s, "`final_type` not allowed here");
            }
        },
        Some(_) => {
            if let Some(s) = interface {
                errors.push_str(s, "`interface` not allowed here");
            }
        },
    }
    match base {
        Some(b) => b,
        None => if interface.is_some() { TypeBase::Interface } else { TypeBase::Class },
    }
}

proof fn lemma_param_bits(r: bool, w: bool, c: bool, co: bool, lax: bool, u1: bool, u2: bool, u3: bool, u4: bool,
    u5: bool, u6: bool, u7: bool, u8: bool, en: bool, dep: bool, f: u32)
    by (bit_vector)
    requires
        f == (if r { 1u32 } else { 0u32 }) | (if w { 2u32 } else { 0u32 }) | (if c { 4u32 } else { 0u32 })
            | (if co { 8u32 } else { 0u32 }) | (if lax { 16u32 } else { 0u32 }) | (if u1 { 256u32 } else { 0u32 })
            | (if u2 { 1024u32 } else { 0u32 }) | (if u3 { 2048u32 } else { 0u32 }) | (if u4 { 4096u32 } else { 0u32 })
            | (if u5 { 8192u32 } else { 0u32 }) | (if u6 { 16384u32 } else { 0u32 }) | (if u7 { 32768u32 } else { 0u32 })
            | (if u8 { 65536u32 } else { 0u32 }) | (if en { 1073741824u32 } else { 0u32 })
            | (if dep { 2147483648u32 } else { 0u32 }),
    ensures
        (f & 1u32 != 0u32) == r,
        (f & 2u32 != 0u32) == w,
        (f & 4u32 != 0u32) == c,
        (f & 8u32 != 0u32) == co,
        (f & 16u32 != 0u32) == lax,
        (f & 256u32 != 0u32) == u1,
        (f & 1024u32 != 0u32) == u2,
        (f & 2048u32 != 0u32) == u3,
        (f & 4096u32 != 0u32) == u4,
        (f & 8192u32 != 0u32) == u5,
        (f & 16384u32 != 0u32) == u6,
        (f & 32768u32 != 0u32) == u7,
        (f & 65536u32 != 0u32) == u8,
        (f & 1073741824u32 != 0u32) == en,
        (f & 2147483648u32 != 0u32) == dep,
{
}

/// Each of GLib's parameter flag bits is set in a property's flags exactly when its
/// option asks for it: readable (1) when `get` is allowed (or, without `get`, for plain
/// data), writable (2) likewise for `set`, construct (4) exactly when `construct` is
/// written true, construct-only (8) exactly when `construct_only` is, lax validation (16),
/// the user flags (256, 1024, ..., 65536), explicit notify (1 << 30) and deprecated
/// (1 << 31) each for its own option.
#[verifier::rlimit(60)]
pub proof fn property_flags_follow_options<S>(a: PropertyAttrs<S>, pod: bool)
    ensures
        (flags_of_attrs(a, pod) & 1u32 != 0u32) == match a.get { Some((_, p)) => !(p is Deny), None => pod },
        (flags_of_attrs(a, pod) & 2u32 != 0u32) == match a.set { Some((_, p)) => !(p is Deny), None => pod },
        (flags_of_attrs(a, pod) & 4u32 != 0u32) == bool_of(a.construct),
        (flags_of_attrs(a, pod) & 8u32 != 0u32) == bool_of(a.construct_only),
        (flags_of_attrs(a, pod) & 16u32 != 0u32) == bool_of(a.lax_validation),
        (flags_of_attrs(a, pod) & 256u32 != 0u32) == bool_of(a.user[0]),
        (flags_of_attrs(a, pod) & 1024u32 != 0u32) == bool_of(a.user[1]),
        (flags_of_attrs(a, pod) & 2048u32 != 0u32) == bool_of(a.user[2]),
        (flags_of_attrs(a, pod) & 4096u32 != 0u32) == bool_of(a.user[3]),
        (flags_of_attrs(a, pod) & 8192u32 != 0u32) == bool_of(a.user[4]),
        (flags_of_attrs(a, pod) & 16384u32 != 0u32) == bool_of(a.user[5]),
        (flags_of_attrs(a, pod) & 32768u32 != 0u32) == bool_of(a.user[6]),
        (flags_of_attrs(a, pod) & 65536u32 != 0u32) == bool_of(a.user[7]),
        (flags_of_attrs(a, pod) & 1073741824u32 != 0u32) == bool_of(a.explicit_notify),
        (flags_of_attrs(a, pod) & 2147483648u32 != 0u32) == bool_of(a.deprecated),
{
    let r = match a.get { Some((_, p)) => !(p is Deny), None => pod };
    let w = match a.set { Some((_, p)) => !(p is Deny), None => pod };
    let f = flags_of_attrs(a, pod);
    assert(f == (if r { 1u32 } else { 0u32 }) | (if w { 2u32 } else { 0u32 }) | (if bool_of(a.construct) { 4u32 } else { 0u32 })
        | (if bool_of(a.construct_only) { 8u32 } else { 0u32 }) | (if bool_of(a.lax_validation) { 16u32 } else { 0u32 })
        | (if bool_of(a.user[0]) { 256u32 } else { 0u32 }) | (if bool_of(a.user[1]) { 1024u32 } else { 0u32 })
        | (if bool_of(a.user[2]) { 2048u32 } else { 0u32 }) | (if bool_of(a.user[3]) { 4096u32 } else { 0u32 })
        | (if bool_of(a.user[4]) { 8192u32 } else { 0u32 }) | (if bool_of(a.user[5]) { 16384u32 } else { 0u32 })
        | (if bool_of(a.user[6]) { 32768u32 } else { 0u32 }) | (if bool_of(a.user[7]) { 65536u32 } else { 0u32 })
        | (if bool_of(a.explicit_notify) { 1073741824u32 } else { 0u32 })
        | (if bool_of(a.deprecated) { 2147483648u32 } else { 0u32 }));
    lemma_param_bits(r, w, bool_of(a.construct), bool_of(a.construct_only), bool_of(a.lax_validation),
        bool_of(a.user[0]), bool_of(a.user[1]), bool_of(a.user[2]), bool_of(a.user[3]),
        bool_of(a.user[4]), bool_of(a.user[5]), bool_of(a.user[6]), bool_of(a.user[7]),
        bool_of(a.explicit_notify), bool_of(a.deprecated), f);
}

} // verus!
