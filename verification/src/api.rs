//! Address validation through the host.

use vstd::prelude::*;
use cosmwasm_std::StdError;
use crate::env::Addr;
use crate::host::{addr_validate, maybe_addr, Deps};

verus! {

/// Has the host validate `human`. Where the host accepts it, the address
/// holds the same text.
pub fn validate(deps: &Deps, human: &str) -> (r: Result<Addr, StdError>)
    ensures
        r matches Ok(addr) ==> addr@ == human@,
{
    accepted(addr_validate(deps, human))
}

/// Has the host validate `human`, where there is one. Where there is none,
/// the host is not asked, and there is no address.
pub fn validate_maybe(deps: &Deps, human: Option<String>) -> (r: Result<Option<Addr>, StdError>)
    ensures
        r matches Ok(found) ==> found.deep_view() == human.deep_view(),
        human is None ==> (r matches Ok(found) && found is None),
{
    accepted_maybe(maybe_addr(deps, human))
}

/// The address that the host's answer stands for: the text that the host
/// accepted, as an address, or the host's error.
pub fn accepted(answer: Result<String, StdError>) -> (r: Result<Addr, StdError>)
    ensures
        match answer {
            Ok(text) => r matches Ok(addr) && addr@ == text@,
            Err(e) => r == Err::<Addr, StdError>(e),
        },
{
    match answer {
        Ok(text) => Ok(Addr::unchecked(text.as_str())),
        Err(e) => Err(e),
    }
}

/// The address that the host's answer stands for, where it holds a text:
/// that text as an address, or none, or the host's error.
pub fn accepted_maybe(answer: Result<Option<String>, StdError>) -> (r: Result<
    Option<Addr>,
    StdError,
>)
    ensures
        match answer {
            Ok(found) => r matches Ok(addr) && addr.deep_view() == found.deep_view(),
            Err(e) => r == Err::<Option<Addr>, StdError>(e),
        },
{
    match answer {
        Ok(Some(text)) => Ok(Some(Addr::unchecked(text.as_str()))),
        Ok(None) => Ok(None),
        Err(e) => Err(e),
    }
}

} // verus!
