//! The value of an integer literal, as `syn` reads it.

use vstd::prelude::*;

verus! {

/// The value that `syn` gives the integer literal written as `text`, where it
/// fits a `usize`; `None` where `text` is no integer literal or its value
/// does not fit.
pub uninterp spec fn int_literal_value(text: Seq<char>) -> Option<usize>;

/// Reads `text` as one integer literal with `syn::parse_str::<syn::LitInt>` and
/// takes its value with `syn::LitInt::base10_parse::<usize>`. The contract
/// only names the outcome: it depends on `text` alone, and `None` stands for
/// a failure of either call.
#[verifier::external_body]
pub(crate) fn parse_int_literal(text: &str) -> (r: Option<usize>)
    ensures
        r == int_literal_value(text@),
{
    match syn::parse_str::<syn::LitInt>(text) {
        Ok(lit) => match lit.base10_parse::<usize>() {
            Ok(n) => Some(n),
            Err(_) => None,
        },
        Err(_) => None,
    }
}

} // verus!
