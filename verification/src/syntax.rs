//! Parsing of Rust syntax written inside attribute strings, done by the `syn` crate.
use vstd::prelude::*;

verus! {

/// What `syn` makes of `s` as a path: the identifiers of its segments, in order, or the
/// message of the error it gives when `s` is not a path.
pub uninterp spec fn syn_path(s: Seq<char>) -> Result<Seq<Seq<char>>, Seq<char>>;

/// `syn::parse_str::<syn::Path>`: on success the identifiers of the path's segments, in
/// order; on failure the error's message.
#[verifier::external_body]
pub(crate) fn parse_path(s: &str) -> (r: Result<Vec<String>, String>)
    ensures
        match r {
            Ok(segs) => syn_path(s@) == Ok::<Seq<Seq<char>>, Seq<char>>(segs@.map_values(|x: String| x@)),
            Err(m) => syn_path(s@) == Err::<Seq<Seq<char>>, Seq<char>>(m@),
        },
{
    match syn::parse_str::<syn::Path>(s) {
        Ok(p) => Ok(p.segments.iter().map(|seg| seg.ident.to_string()).collect()),
        Err(e) => Err(e.to_string()),
    }
}

} // verus!
