//! Grammar checks delegated to the host-language parser.
//!
//! The directive's value may be any expression of the host language, and the
//! assembler's type constraints must be well-formed where-clause predicates.
//! Whether a given text belongs to those grammars is decided by syn; the
//! names below stand for those two judgements.

use vstd::prelude::*;

verus! {

/// Whether the text parses as one expression of the host language.
pub uninterp spec fn expr_ok(s: Seq<char>) -> bool;

/// Relies on syn::parse_str::<syn::Expr>: it accepts exactly the texts that
/// form a Rust expression, and the outcome depends on the text alone.
#[verifier::external_body]
pub(crate) fn check_expr(s: &str) -> (r: bool)
    ensures
        r == expr_ok(s@),
{
    syn::parse_str::<syn::Expr>(s).is_ok()
}

/// Whether the text parses as one where-clause predicate of the host language.
pub uninterp spec fn where_predicate_ok(s: Seq<char>) -> bool;

/// Relies on syn::parse_str::<syn::WherePredicate>: it accepts exactly the
/// texts that form one where-clause predicate, and the outcome depends on
/// the text alone.
#[verifier::external_body]
pub(crate) fn check_where_predicate(s: &str) -> (r: bool)
    ensures
        r == where_predicate_ok(s@),
{
    syn::parse_str::<syn::WherePredicate>(s).is_ok()
}

} // verus!
