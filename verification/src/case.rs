//! Case conversions, done by the `heck` crate.
use vstd::prelude::*;

verus! {

/// What `heck` makes of a string in kebab-case (`ToKebabCase`).
pub uninterp spec fn kebab_case(s: Seq<char>) -> Seq<char>;

/// What `heck` makes of a string in snake_case (`ToSnakeCase`).
pub uninterp spec fn snake_case(s: Seq<char>) -> Seq<char>;

/// What `heck` makes of a string in SHOUTY_SNAKE_CASE (`ToShoutySnakeCase`).
pub uninterp spec fn shouty_snake_case(s: Seq<char>) -> Seq<char>;

/// What `heck` makes of a string in UpperCamelCase (`ToUpperCamelCase`).
pub uninterp spec fn upper_camel_case(s: Seq<char>) -> Seq<char>;

/// `heck::ToKebabCase::to_kebab_case`: the result is `kebab_case` of the argument.
#[verifier::external_body]
pub(crate) fn to_kebab_case(s: &str) -> (r: String)
    ensures
        r@ == kebab_case(s@),
{
    heck::ToKebabCase::to_kebab_case(s)
}

/// `heck::ToSnakeCase::to_snake_case`: the result is `snake_case` of the argument.
#[verifier::external_body]
pub(crate) fn to_snake_case(s: &str) -> (r: String)
    ensures
        r@ == snake_case(s@),
{
    heck::ToSnakeCase::to_snake_case(s)
}

/// `heck::ToShoutySnakeCase::to_shouty_snake_case`: the result is `shouty_snake_case` of
/// the argument.
#[verifier::external_body]
pub(crate) fn to_shouty_snake_case(s: &str) -> (r: String)
    ensures
        r@ == shouty_snake_case(s@),
{
    heck::ToShoutySnakeCase::to_shouty_snake_case(s)
}

/// `heck::ToUpperCamelCase::to_upper_camel_case`: the result is `upper_camel_case` of
/// the argument.
#[verifier::external_body]
pub(crate) fn to_upper_camel_case(s: &str) -> (r: String)
    ensures
        r@ == upper_camel_case(s@),
{
    heck::ToUpperCamelCase::to_upper_camel_case(s)
}

} // verus!
