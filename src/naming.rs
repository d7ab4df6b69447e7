//! Naming conventions and identifier validity, from `convert_case` and `syn`.
use convert_case::{Case, Casing};
use vstd::prelude::*;

verus! {

/// The type-naming (Pascal case) form of a name, as `convert_case` computes it.
pub uninterp spec fn pascal_of(s: Seq<char>) -> Seq<char>;

/// The field-naming (snake case) form of a name, as `convert_case` computes it.
pub uninterp spec fn snake_of(s: Seq<char>) -> Seq<char>;

/// Whether `syn` accepts the text as one identifier.
pub uninterp spec fn ident_ok(s: Seq<char>) -> bool;

/// Relies on convert_case's `Casing::to_case` with `Case::Pascal`: the result
/// depends on the text alone.
#[verifier::external_body]
pub(crate) fn to_pascal(s: &str) -> (r: String)
    ensures
        r@ == pascal_of(s@),
{
    s.to_case(Case::Pascal)
}

/// Relies on convert_case's `Casing::to_case` with `Case::Snake`: the result
/// depends on the text alone.
#[verifier::external_body]
pub(crate) fn to_snake(s: &str) -> (r: String)
    ensures
        r@ == snake_of(s@),
{
    s.to_case(Case::Snake)
}

/// Relies on `syn::parse_str::<syn::Ident>`: whether the text parses as an
/// identifier depends on the text alone.
#[verifier::external_body]
pub(crate) fn is_ident(s: &str) -> (r: bool)
    ensures
        r == ident_ok(s@),
{
    syn::parse_str::<syn::Ident>(s).is_ok()
}

} // verus!
