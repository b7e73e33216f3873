//! The host's side of a call: its handles, its errors, and address validation.
//!
//! Nothing in this file is proved. Each item states what the host's crates
//! document or show in their source.

use vstd::prelude::*;
use cosmwasm_std::{CosmosMsg, Empty, StdError};

verus! {

/// The error type of `cosmwasm_std`, carried through unopened.
#[verifier::external_type_specification]
#[verifier::external_body]
pub struct ExStdError(StdError);

/// The type that stands for "no custom message" in `CosmosMsg`.
#[verifier::external_type_specification]
#[verifier::external_body]
pub struct ExEmpty(Empty);

/// A message for the host to dispatch, carried through unopened.
#[verifier::external_type_specification]
#[verifier::external_body]
#[verifier::reject_recursive_types(T)]
pub struct ExCosmosMsg<T>(CosmosMsg<T>);

/// The host's store and address validation, for a command.
///
/// Holds `cosmwasm_std::DepsMut`, whose generic declaration Verus does not take.
#[verifier::external_body]
pub struct DepsMut<'a> {
    pub inner: cosmwasm_std::DepsMut<'a>,
}

/// The host's store and address validation, for a query.
///
/// Holds `cosmwasm_std::Deps`, whose generic declaration Verus does not take.
#[verifier::external_body]
pub struct Deps<'a> {
    pub inner: cosmwasm_std::Deps<'a>,
}

/// The read-only handle that `DepsMut::as_ref` gives for a handle.
pub uninterp spec fn deps_ref(deps: DepsMut) -> Deps;

/// `cosmwasm_std::DepsMut::as_ref`: the same store and validation, read-only.
#[verifier::external_body]
pub(crate) fn as_ref<'a>(deps: &'a DepsMut) -> (r: Deps<'a>)
    ensures
        r == deps_ref(*deps),
{
    Deps { inner: deps.inner.as_ref() }
}

/// `cosmwasm_std::Api::addr_validate`: where the host accepts `human`, the
/// address it returns holds the same text as `human`.
#[verifier::external_body]
pub(crate) fn addr_validate(deps: &Deps, human: &str) -> (r: Result<String, StdError>)
    ensures
        r matches Ok(text) ==> text@ == human@,
{
    deps.inner.api.addr_validate(human).map(String::from)
}

/// `cw_utils::maybe_addr`: validates `human` where there is one. Where there
/// is none, it gives none back and does not ask the host.
#[verifier::external_body]
pub(crate) fn maybe_addr(deps: &Deps, human: Option<String>) -> (r: Result<Option<String>, StdError>)
    ensures
        r matches Ok(found) ==> found.deep_view() == human.deep_view(),
        human is None ==> r is Ok,
{
    Ok(cw_utils::maybe_addr(deps.inner.api, human)?.map(String::from))
}

/// The error that `StdError::not_found` makes of a description.
pub uninterp spec fn not_found_error(kind: Seq<char>) -> StdError;

/// `cosmwasm_std::StdError::not_found`.
#[verifier::external_body]
pub(crate) fn not_found(kind: String) -> (r: StdError)
    ensures
        r == not_found_error(kind@),
{
    StdError::not_found(kind)
}

/// The error that `StdError::generic_err` makes of a message.
pub uninterp spec fn generic_error(msg: Seq<char>) -> StdError;

/// `cosmwasm_std::StdError::generic_err`.
#[verifier::external_body]
pub(crate) fn generic_err(msg: &str) -> (r: StdError)
    ensures
        r == generic_error(msg@),
{
    StdError::generic_err(msg)
}

/// The message that `Cw721ReceiveMsg::into_cosmos_msg` makes: a call of
/// `contract` that tells it of a token it received.
pub uninterp spec fn receive_nft_msg(
    sender: Seq<char>,
    token_id: Seq<char>,
    payload: Seq<u8>,
    contract: Seq<char>,
) -> CosmosMsg;

/// `cw721::Cw721ReceiveMsg::into_cosmos_msg`: it fails on nothing but the
/// encoding of the notice, and the encoding writes every text and payload, so
/// it succeeds.
#[verifier::external_body]
pub(crate) fn receive_nft(
    sender: String,
    token_id: String,
    payload: Vec<u8>,
    contract: String,
) -> (r: Result<CosmosMsg, StdError>)
    ensures
        r is Ok,
        r matches Ok(msg) ==> msg == receive_nft_msg(sender@, token_id@, payload@, contract@),
{
    let msg = cw721::Cw721ReceiveMsg { sender, token_id, msg: cosmwasm_std::Binary(payload) };
    msg.into_cosmos_msg(contract)
}

} // verus!
