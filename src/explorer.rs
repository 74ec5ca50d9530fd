//! Following proxy contracts to the contract whose ABI is wanted.
//!
//! A block explorer reports, for a contract address, its verified source and,
//! for a proxy, the address of its implementation. The lookup asks for the
//! source of an address, then either takes that contract's ABI or moves on to
//! the implementation, up to a fixed number of lookups.
use vstd::prelude::*;

use alloy_primitives::Address;

verus! {

#[verifier::external_type_specification]
#[verifier::external_body]
pub struct ExAddress(alloy_primitives::Address);

/// How many source lookups one ABI fetch makes at most.
pub const MAX_PROXY_REDIRECTS: usize = 3;

/// What the explorer answered for one address.
pub enum SourceAnswer {
    /// The answer held no source item.
    NoItem,
    /// The contract is a proxy for the contract at this address.
    Proxy(Address),
    /// The contract is no proxy: its ABI is the one wanted.
    Contract,
}

/// Why a fetch gave up.
#[derive(Debug, PartialEq, Eq, Structural)]
pub enum FetchError {
    NoItem,
    TooManyRedirects,
}

/// What the fetch does after an answer.
pub enum FetchAction {
    /// Look up the source at this address next.
    Lookup(Address),
    /// Take the ABI of the contract just looked up.
    UseAbi,
    /// Give up.
    Fail(FetchError),
}

impl FetchError {
    /// The message shown for the error.
    pub fn message(&self) -> (r: &'static str)
        ensures
            *self == FetchError::NoItem ==> r@ == "No item found"@,
            *self == FetchError::TooManyRedirects ==> r@ == "ABI not found after 3 redirects"@,
    {
        match self {
            FetchError::NoItem => "No item found",
            FetchError::TooManyRedirects => "ABI not found after 3 redirects",
        }
    }
}

/// Decides the next step after the answer to lookup number `lookups_done`:
/// a missing item fails, a contract ends the fetch, and a proxy is followed
/// while lookups remain.
pub fn after_answer(lookups_done: usize, answer: SourceAnswer) -> (r: FetchAction)
    requires
        1 <= lookups_done <= MAX_PROXY_REDIRECTS,
    ensures
        answer is NoItem ==> r matches FetchAction::Fail(FetchError::NoItem),
        answer is Contract ==> r is UseAbi,
        answer is Proxy && lookups_done < MAX_PROXY_REDIRECTS ==> r == FetchAction::Lookup(
            answer->Proxy_0,
        ),
        answer is Proxy && lookups_done == MAX_PROXY_REDIRECTS ==> r matches FetchAction::Fail(
            FetchError::TooManyRedirects,
        ),
{
    match answer {
        SourceAnswer::NoItem => FetchAction::Fail(FetchError::NoItem),
        SourceAnswer::Contract => FetchAction::UseAbi,
        SourceAnswer::Proxy(next) => if lookups_done < MAX_PROXY_REDIRECTS {
            FetchAction::Lookup(next)
        } else {
            FetchAction::Fail(FetchError::TooManyRedirects)
        },
    }
}

} // verus!
