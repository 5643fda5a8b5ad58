//! GStreamer elements: ranks, pad templates and the checks on them.
use vstd::prelude::*;
use vstd::string::StringExecFns;
use crate::text::{push_char, starts_with, str_eq};

verus! {

/// The rank of an element factory.
#[derive(PartialEq, Eq, Structural, Clone, Copy)]
pub enum Rank {
    /// `gst::Rank::None`.
    Unranked,
    Marginal,
    Secondary,
    Primary,
}

/// When a pad of a template exists.
#[derive(PartialEq, Eq, Structural, Clone, Copy)]
pub enum Presence {
    Always,
    Sometimes,
    Request,
}

/// Whether a pad produces (`Src`) or consumes (`Sink`) data.
#[derive(PartialEq, Eq, Structural, Clone, Copy)]
pub enum Direction {
    Src,
    Sink,
}

/// A pad template as written in `pad_templates(...)`.
pub struct PadTemplate {
    pub presence: Option<Presence>,
    pub direction: Option<Direction>,
    pub caps: Option<String>,
    pub name: Option<String>,
}

/// The pad templates of an element.
pub struct PadTemplates(pub Vec<PadTemplate>);

impl PadTemplates {
    pub fn new(templates: Vec<PadTemplate>) -> (r: PadTemplates)
        ensures
            r.0 == templates,
    {
        PadTemplates(templates)
    }
}

impl Default for PadTemplates {
    /// No pad template.
    fn default() -> (r: PadTemplates)
        ensures
            r.0@.len() == 0,
    {
        PadTemplates(Vec::new())
    }
}

/// The name of a rank in the attribute (`rank = "primary"`).
pub open spec fn rank_named(name: Seq<char>) -> Option<Rank> {
    if name == "none"@ { Some(Rank::Unranked) }
    else if name == "marginal"@ { Some(Rank::Marginal) }
    else if name == "secondary"@ { Some(Rank::Secondary) }
    else if name == "primary"@ { Some(Rank::Primary) }
    else { None }
}

/// The Rust path of a rank.
pub open spec fn rank_path(r: Rank) -> Seq<char> {
    match r {
        Rank::Unranked => "gst::Rank::None"@,
        Rank::Marginal => "gst::Rank::Marginal"@,
        Rank::Secondary => "gst::Rank::Secondary"@,
        Rank::Primary => "gst::Rank::Primary"@,
    }
}

impl Rank {
    pub fn from_name(name: &str) -> (r: Option<Rank>)
        ensures
            r == rank_named(name@),
    {
        if str_eq(name, "none") { Some(Rank::Unranked) }
        else if str_eq(name, "marginal") { Some(Rank::Marginal) }
        else if str_eq(name, "secondary") { Some(Rank::Secondary) }
        else if str_eq(name, "primary") { Some(Rank::Primary) }
        else { None }
    }

    pub fn to_gst_toks(&self) -> (r: &'static str)
        ensures
            r@ == rank_path(*self),
    {
        match self {
            Rank::Unranked => "gst::Rank::None",
            Rank::Marginal => "gst::Rank::Marginal",
            Rank::Secondary => "gst::Rank::Secondary",
            Rank::Primary => "gst::Rank::Primary",
        }
    }
}

impl Default for Direction {
    fn default() -> (d: Self)
        ensures
            d == Direction::Src,
    {
        Direction::Src
    }
}

/// The name of a pad template from the list item's identifier: every `__` becomes `_%`,
/// read from the left (so the `%` of a pad name pattern can be written in an identifier).
pub open spec fn pad_name(s: Seq<char>) -> Seq<char>
    decreases s.len(),
{
    if s.len() < 2 {
        s
    } else if s[0] == '_' && s[1] == '_' {
        seq!['_', '%'] + pad_name(s.skip(2))
    } else {
        seq![s[0]] + pad_name(s.skip(1))
    }
}

proof fn lemma_pad_name_step(s: Seq<char>, i: int)
    requires
        0 <= i <= s.len(),
    ensures
        i + 2 <= s.len() && s[i] == '_' && s[i + 1] == '_' ==> pad_name(s.skip(i)) == seq!['_', '%'] + pad_name(s.skip(i + 2)),
        i + 2 <= s.len() && !(s[i] == '_' && s[i + 1] == '_') ==> pad_name(s.skip(i)) == seq![s[i]] + pad_name(s.skip(i + 1)),
        i + 1 == s.len() ==> pad_name(s.skip(i)) == seq![s[i]],
        i == s.len() ==> pad_name(s.skip(i)) == Seq::<char>::empty(),
{
    let t = s.skip(i);
    if i + 2 <= s.len() {
        assert(t[0] == s[i] && t[1] == s[i + 1]);
        assert(t.skip(2) =~= s.skip(i + 2));
        assert(t.skip(1) =~= s.skip(i + 1));
    } else if i + 1 == s.len() {
        assert(t =~= seq![s[i]]);
    } else {
        assert(t =~= Seq::<char>::empty());
    }
}

/// Replaces each `__` of `ident`, from the left, by `_%`.
pub fn pad_name_of(ident: &str) -> (r: String)
    ensures
        r@ == pad_name(ident@),
{
    let n = ident.unicode_len();
    let ghost s = ident@;
    let mut out = String::new();
    let mut i: usize = 0;
    assert(s.skip(0) =~= s);
    assert(out@ + pad_name(s.skip(0)) =~= pad_name(s));
    while i < n
        invariant
            n == s.len(),
            s == ident@,
            i <= n,
            out@ + pad_name(s.skip(i as int)) == pad_name(s),
        decreases n - i,
    {
        proof {
            lemma_pad_name_step(s, i as int);
        }
        let c = ident.get_char(i);
        if c == '_' && i + 1 < n && ident.get_char(i + 1) == '_' {
            let ghost before = out@;
            push_char(&mut out, '_');
            push_char(&mut out, '%');
            assert(out@ =~= before + seq!['_', '%']);
            proof {
                assert(before + pad_name(s.skip(i as int)) == pad_name(s));
                assert((before + seq!['_', '%']) + pad_name(s.skip(i as int + 2)) =~= before + (seq!['_', '%'] + pad_name(s.skip(i as int + 2))));
            }
            i = i + 2;
        } else {
            let ghost before = out@;
            push_char(&mut out, c);
            proof {
                if i + 1 < n {
                    assert((before + seq![c]) + pad_name(s.skip(i as int + 1)) =~= before + (seq![c] + pad_name(s.skip(i as int + 1))));
                } else {
                    lemma_pad_name_step(s, i as int + 1);
                    assert(out@ =~= before + seq![c]);
                    assert(out@ + pad_name(s.skip(i as int + 1)) =~= before + seq![c]);
                }
            }
            i = i + 1;
        }
    }
    proof {
        lemma_pad_name_step(s, n as int);
        assert(out@ =~= out@ + pad_name(s.skip(n as int)));
    }
    out
}

/// Why the pad templates of an element cannot be read; each is reported at the item.
pub enum PadTemplateError {
    /// `unknown field` errors: the item's path has more than one segment ("Expected
    /// 'pad_template'"), or it gives its own `name`.
    UnknownField { field: String },
    /// The direction cannot be told from the name, or the caps do not parse.
    Custom { message: String },
    /// `presence` is missing.
    MissingField { field: String },
    /// The item is not a list.
    UnexpectedType { ty: String },
    /// The options inside the item could not be read; the error as it was given.
    Nested { message: String },
}

/// One item of `pad_templates(...)`, as parsed: a list item whose path has `segments`
/// segments, the first named `ident`, with its options read into a template (or the
/// error from reading them), and, when caps are given, the error from parsing them
/// (`None` when they parse); or something that is not a list.
pub enum PadTemplateItem {
    List { segments: usize, ident: String, template: Result<PadTemplate, String>, caps_error: Option<String> },
    Other,
}

/// The direction that a template named `name` has by default.
pub open spec fn default_direction(name: Seq<char>) -> Option<Direction> {
    if name.len() >= 3 && name.subrange(0, 3) == "src"@ {
        Some(Direction::Src)
    } else if name.len() >= 4 && name.subrange(0, 4) == "sink"@ {
        Some(Direction::Sink)
    } else {
        None
    }
}

/// What reading one item gives: the completed template, or its error.
pub open spec fn item_outcome(item: PadTemplateItem) -> Result<(Seq<char>, Direction, Presence, Option<Seq<char>>), PadTemplateErrorKind> {
    match item {
        PadTemplateItem::Other => Err(PadTemplateErrorKind::UnexpectedType),
        PadTemplateItem::List { segments, ident, template, caps_error } => if segments != 1 {
            Err(PadTemplateErrorKind::NotPadTemplate)
        } else {
            match template {
                Err(m) => Err(PadTemplateErrorKind::Nested(m@)),
                Ok(t) => if t.name is Some {
                    Err(PadTemplateErrorKind::NameGiven)
                } else {
                    let direction = match t.direction { Some(d) => Some(d), None => default_direction(ident@) };
                    match direction {
                        None => Err(PadTemplateErrorKind::BadDirection),
                        Some(d) => if t.caps is Some && caps_error is Some {
                            Err(PadTemplateErrorKind::BadCaps(caps_error->Some_0@))
                        } else {
                            match t.presence {
                                None => Err(PadTemplateErrorKind::NoPresence),
                                Some(p) => Ok((pad_name(ident@), d, p, match t.caps { Some(c) => Some(c@), None => None })),
                            }
                        },
                    }
                },
            }
        },
    }
}

/// The errors of `item_outcome`, by what went wrong.
pub enum PadTemplateErrorKind {
    UnexpectedType,
    NotPadTemplate,
    Nested(Seq<char>),
    NameGiven,
    BadDirection,
    BadCaps(Seq<char>),
    NoPresence,
}

/// `e` is the error reported for `kind`.
pub open spec fn reports(e: PadTemplateError, kind: PadTemplateErrorKind) -> bool {
    match kind {
        PadTemplateErrorKind::UnexpectedType => e matches PadTemplateError::UnexpectedType { ty } && ty@ == "non-word"@,
        PadTemplateErrorKind::NotPadTemplate => e matches PadTemplateError::UnknownField { field } && field@ == "Expected 'pad_template'"@,
        PadTemplateErrorKind::Nested(m) => e matches PadTemplateError::Nested { message } && message@ == m,
        PadTemplateErrorKind::NameGiven => e matches PadTemplateError::UnknownField { field } && field@ == "name"@,
        PadTemplateErrorKind::BadDirection => e matches PadTemplateError::Custom { message } && message@ == "invalid 'value' for 'direction'"@,
        PadTemplateErrorKind::BadCaps(c) => e matches PadTemplateError::Custom { message } && message@ == "invalid 'caps': '"@ + c + "'"@,
        PadTemplateErrorKind::NoPresence => e matches PadTemplateError::MissingField { field } && field@ == "presence"@,
    }
}

/// `t` is the completed template `(name, direction, presence, caps)`.
pub open spec fn completes(t: PadTemplate, o: (Seq<char>, Direction, Presence, Option<Seq<char>>)) -> bool {
    &&& t.name matches Some(n) && n@ == o.0
    &&& t.direction == Some(o.1)
    &&& t.presence == Some(o.2)
    &&& (match t.caps { Some(c) => Some(c@), None => None::<Seq<char>> }) == o.3
}

/// `t` is the template that `item` gives.
pub open spec fn template_of(item: PadTemplateItem, t: PadTemplate) -> bool {
    item_outcome(item) matches Ok(o) && completes(t, o)
}

/// `e` is the error of the first item that cannot be read.
pub open spec fn list_error(items: Seq<PadTemplateItem>, e: PadTemplateError) -> bool {
    exists|i: int| #[trigger] first_bad_item(items, i) && reports(e, item_outcome(items[i])->Err_0)
}

/// The first item that cannot be read.
pub open spec fn first_bad_item(items: Seq<PadTemplateItem>, i: int) -> bool {
    &&& 0 <= i < items.len()
    &&& item_outcome(items[i]) is Err
    &&& forall|j: int| 0 <= j < i ==> (#[trigger] item_outcome(items[j])) is Ok
}

fn read_item(item: PadTemplateItem) -> (r: Result<PadTemplate, PadTemplateError>)
    ensures
        match item_outcome(item) {
            Ok(o) => r matches Ok(t) && completes(t, o),
            Err(k) => r matches Err(e) && reports(e, k),
        },
{
    proof {
        reveal_strlit("src");
        reveal_strlit("sink");
    }
    match item {
        PadTemplateItem::Other => Err(PadTemplateError::UnexpectedType { ty: "non-word".to_owned() }),
        PadTemplateItem::List { segments, ident, template, caps_error } => {
            if segments != 1 {
                return Err(PadTemplateError::UnknownField { field: "Expected 'pad_template'".to_owned() });
            }
            let mut t = match template {
                Err(m) => return Err(PadTemplateError::Nested { message: m }),
                Ok(t) => t,
            };
            if t.name.is_some() {
                return Err(PadTemplateError::UnknownField { field: "name".to_owned() });
            }
            let name = pad_name_of(ident.as_str());
            if t.direction.is_none() {
                if starts_with(ident.as_str(), "src") {
                    t.direction = Some(Direction::Src);
                } else if starts_with(ident.as_str(), "sink") {
                    t.direction = Some(Direction::Sink);
                } else {
                    return Err(PadTemplateError::Custom { message: "invalid 'value' for 'direction'".to_owned() });
                }
            }
            if t.caps.is_some() {
                match caps_error {
                    Some(err) => {
                        let mut message = "invalid 'caps': '".to_owned();
                        message.append(err.as_str());
                        message.append("'");
                        return Err(PadTemplateError::Custom { message });
                    },
                    None => {},
                }
            }
            if t.presence.is_none() {
                return Err(PadTemplateError::MissingField { field: "presence".to_owned() });
            }
            t.name = Some(name);
            Ok(t)
        },
    }
}

impl PadTemplates {
    /// Reads the items of `pad_templates(...)`, in order, up to the first that fails.
    pub fn from_list(items: Vec<PadTemplateItem>) -> (r: Result<PadTemplates, PadTemplateError>)
        ensures
            match r {
                Ok(ts) => ts.0@.len() == items@.len() && forall|i: int| 0 <= i < items@.len() ==>
                    template_of(#[trigger] items@[i], ts.0@[i]),
                Err(e) => list_error(items@, e),
            },
    {
        let ghost all = items@;
        let n = items.len();
        let mut rest = items;
        let mut templates: Vec<PadTemplate> = Vec::new();
        let mut i: usize = 0;
        while rest.len() > 0
            invariant
                n == all.len(),
                all == items@,
                i <= n,
                rest@ == all.subrange(i as int, n as int),
                templates@.len() == i,
                forall|k: int| 0 <= k < i ==> template_of(#[trigger] all[k], templates@[k]),
            decreases rest.len(),
        {
            let item = rest.remove(0);
            assert(item == all[i as int]);
            match read_item(item) {
                Ok(t) => templates.push(t),
                Err(e) => {
                    assert(first_bad_item(all, i as int));
                    assert(reports(e, item_outcome(all[i as int])->Err_0));
                    assert(list_error(all, e));
                    return Err(e);
                },
            }
            i = i + 1;
        }
        Ok(PadTemplates(templates))
    }

    pub fn is_empty(&self) -> (r: bool)
        ensures
            r == (self.0@.len() == 0),
    {
        self.0.len() == 0
    }
}

/// The error for an element that both lists pad templates and implements `pad_templates`.
pub open spec fn both_pad_templates_message() -> Seq<char> {
    "Using `pad_templates` attribute macro and implementing `ElementImp::pad_templates()` at the same time is not supported."@
}

/// Whether an element can take its pad templates from the attribute: an element that
/// implements `pad_templates` itself may list none.
pub fn check_pad_templates(has_method: bool, templates: &PadTemplates) -> (r: Option<String>)
    ensures
        match r {
            Some(m) => has_method && templates.0@.len() > 0 && m@ == both_pad_templates_message(),
            None => !(has_method && templates.0@.len() > 0),
        },
{
    if has_method && !templates.is_empty() {
        Some("Using `pad_templates` attribute macro and implementing `ElementImp::pad_templates()` at the same time is not supported.".to_owned())
    } else {
        None
    }
}

/// The Rust path of a pad direction.
pub open spec fn direction_path(d: Direction) -> Seq<char> {
    match d {
        Direction::Src => "gst::PadDirection::Src"@,
        Direction::Sink => "gst::PadDirection::Sink"@,
    }
}

/// The Rust path of a pad presence.
pub open spec fn presence_path(p: Presence) -> Seq<char> {
    match p {
        Presence::Always => "gst::PadPresence::Always"@,
        Presence::Sometimes => "gst::PadPresence::Sometimes"@,
        Presence::Request => "gst::PadPresence::Request"@,
    }
}

impl PadTemplate {
    /// What registering the template takes: its name, its caps (`ANY` when none are given),
    /// and the paths of its direction and presence.
    pub fn descriptor(&self) -> (r: (String, String, &'static str, &'static str))
        requires
            self.name is Some,
            self.direction is Some,
            self.presence is Some,
        ensures
            r.0@ == self.name->Some_0@,
            r.1@ == match self.caps { Some(c) => c@, None => "ANY"@ },
            r.2@ == direction_path(self.direction->Some_0),
            r.3@ == presence_path(self.presence->Some_0),
    {
        let name = match &self.name { Some(n) => n.clone(), None => String::new() };
        let caps = match &self.caps { Some(c) => c.clone(), None => "ANY".to_owned() };
        let direction = match self.direction {
            Some(Direction::Src) => "gst::PadDirection::Src",
            _ => "gst::PadDirection::Sink",
        };
        let presence = match self.presence {
            Some(Presence::Always) => "gst::PadPresence::Always",
            Some(Presence::Sometimes) => "gst::PadPresence::Sometimes",
            _ => "gst::PadPresence::Request",
        };
        (name, caps, direction, presence)
    }
}

/// A pad template's presence is registered as GStreamer's presence of the same name:
/// `gst::PadPresence::Always` exactly for `Always`, `Sometimes` exactly for `Sometimes`,
/// `Request` exactly for `Request`; so different presences are registered differently.
pub proof fn presence_paths_name_their_presence(p: Presence, q: Presence)
    ensures
        (presence_path(p) == "gst::PadPresence::Always"@) == (p == Presence::Always),
        (presence_path(p) == "gst::PadPresence::Sometimes"@) == (p == Presence::Sometimes),
        (presence_path(p) == "gst::PadPresence::Request"@) == (p == Presence::Request),
        (presence_path(p) == presence_path(q)) == (p == q),
{
    reveal_strlit("gst::PadPresence::Always");
    reveal_strlit("gst::PadPresence::Sometimes");
    reveal_strlit("gst::PadPresence::Request");
    assert("gst::PadPresence::Always"@.len() != "gst::PadPresence::Sometimes"@.len());
    assert("gst::PadPresence::Always"@.len() != "gst::PadPresence::Request"@.len());
    assert("gst::PadPresence::Sometimes"@.len() != "gst::PadPresence::Request"@.len());
}

/// A pad template's direction is registered as GStreamer's direction of the same name:
/// `gst::PadDirection::Src` exactly for `Src`, `Sink` exactly for `Sink`.
pub proof fn direction_paths_name_their_direction(d: Direction)
    ensures
        (direction_path(d) == "gst::PadDirection::Src"@) == (d == Direction::Src),
        (direction_path(d) == "gst::PadDirection::Sink"@) == (d == Direction::Sink),
{
    reveal_strlit("gst::PadDirection::Src");
    reveal_strlit("gst::PadDirection::Sink");
    assert("gst::PadDirection::Src"@.len() != "gst::PadDirection::Sink"@.len());
}

} // verus!
