//! Addresses of remote services.
//!
//! Addresses are resolved by the `url` crate. What it answers is not proved
//! here: the items of this file state what is taken on trust.

use vstd::prelude::*;

verus! {

/// The error of the `url` crate, `url::ParseError`, carried through as it is.
#[verifier::external_type_specification]
#[verifier::external_body]
pub struct ExParseError(url::ParseError);

/// The address that `reference` names when it is read relative to the
/// address `base`, as the `url` crate resolves and writes it; `None` where
/// `base` is no absolute address or `reference` cannot be resolved.
pub uninterp spec fn joined_url(base: Seq<char>, reference: Seq<char>) -> Option<Seq<char>>;

/// Resolves `reference` relative to `base`: `url::Url::parse` on `base`, then
/// `url::Url::join`, then the written form of the result. The contract only
/// names the answer, and says that there is none exactly where the crate
/// reports an error.
#[verifier::external_body]
pub(crate) fn join_url(base: &str, reference: &str) -> (r: Result<String, url::ParseError>)
    ensures
        r is Ok <==> joined_url(base@, reference@) is Some,
        r matches Ok(address) ==> joined_url(base@, reference@) == Some(address@),
{
    match url::Url::parse(base) {
        Ok(parsed) => match parsed.join(reference) {
            Ok(joined) => Ok(String::from(joined)),
            Err(error) => Err(error),
        },
        Err(error) => Err(error),
    }
}

} // verus!
