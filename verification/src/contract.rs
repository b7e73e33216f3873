//! The commands of the ledger: setting up the collection, minting,
//! transferring, and granting and taking back the right to transfer.
//!
//! Each command reads what it needs from the host's store, has the host
//! validate the addresses it was given, lets the rules decide, and writes
//! what they gave.

use vstd::prelude::*;
use crate::api::validate;
use crate::command::{
    approve,
    approve_all,
    approve_all_spec,
    approve_spec,
    authorize,
    authorize_spec,
    log,
    mint,
    mint_spec,
    revoke,
    revoke_all,
    revoke_all_spec,
    revoke_spec,
    same_check,
    send,
    send_spec,
    set_up,
    set_up_spec,
    transfer,
    transfer_spec,
};
use crate::env::{
    decimal,
    decimal_text,
    BlockInfo,
    CoinView,
    Env,
    Expiration,
    MessageInfo,
    Response,
    ResponseView,
};
use crate::error::{ContractError, ErrorView};
use crate::host::{
    as_ref,
    generic_error,
    not_found_error,
    receive_nft,
    receive_nft_msg,
    Deps,
    DepsMut,
};
use crate::msg::{ExecuteMsg, InstantiateMsg, MintMsg};
use crate::query::{config_missing, query_config, query_tokens, token_missing};
use crate::state::{
    has_operator,
    ledger,
    ledger_mut,
    lemma_ledger_ext,
    load_operator,
    remove_operator,
    save_config,
    save_operator,
    save_token,
    Ledger,
};
use crate::storage::set_contract_version;

verus! {

/// The name under which the contract records its version.
pub const CONTRACT_NAME: &'static str = "crates.io:simple-nft";

/// The version that the contract records.
pub const CONTRACT_VERSION: &'static str = "0.1.0";

/// What the rules give for a command where the host does its part: the
/// ledger and the response after it, or the error that rejects it.
pub type Outcome = Result<(Ledger, ResponseView), ErrorView>;

/// The result and the store are what `expected` says: on success the new
/// ledger and the response, on rejection the error and the ledger as it was.
pub open spec fn agrees(
    r: Result<Response, ContractError>,
    before: Ledger,
    after: Ledger,
    expected: Outcome,
) -> bool {
    match expected {
        Ok((ledger, response)) => after == ledger && (r matches Ok(resp) && resp.deep_view()
            == response),
        Err(e) => after == before && (r matches Err(err) && err.deep_view() == e),
    }
}

/// The host failed the command, and nothing was written.
pub open spec fn host_failed(
    r: Result<Response, ContractError>,
    before: Ledger,
    after: Ledger,
) -> bool {
    r matches Err(ContractError::Std(_)) && after == before
}

/// How a command ends. Unless the host fails it, it ends as the rules say.
/// Where the rules find a record missing, it ends so whatever the host does.
/// A command that fails leaves the ledger as it was.
pub open spec fn follows(
    r: Result<Response, ContractError>,
    before: Ledger,
    after: Ledger,
    expected: Outcome,
) -> bool {
    &&& agrees(r, before, after, expected) || host_failed(r, before, after)
    &&& expected matches Err(ErrorView::Std(_)) ==> agrees(r, before, after, expected)
    &&& r is Err ==> after == before
}

/// What setting up the collection gives: the configuration with `sender` as
/// minter and no token issued, unless the name or the symbol is empty.
pub open spec fn instantiate_outcome(
    before: Ledger,
    sender: Seq<char>,
    name: Seq<char>,
    symbol: Seq<char>,
) -> Outcome {
    match set_up_spec(name, symbol, Ok(sender)) {
        Err(e) => Err(e),
        Ok(config) => Ok((before.with_config(config), log(seq![]))),
    }
}

/// Sets up the collection, with the sender as its minter.
pub fn instantiate(deps: &mut DepsMut, _env: Env, info: MessageInfo, msg: InstantiateMsg) -> (r:
    Result<Response, ContractError>)
    ensures
        follows(
            r,
            ledger_mut(*old(deps)),
            ledger_mut(*final(deps)),
            instantiate_outcome(ledger_mut(*old(deps)), info.sender@, msg.name@, msg.symbol@),
        ),
        instantiate_outcome(ledger_mut(*old(deps)), info.sender@, msg.name@, msg.symbol@) is Err
            ==> agrees(
            r,
            ledger_mut(*old(deps)),
            ledger_mut(*final(deps)),
            instantiate_outcome(ledger_mut(*old(deps)), info.sender@, msg.name@, msg.symbol@),
        ),
{
    let minter = validate(&as_ref(deps), info.sender.as_str());
    let config = match set_up(msg, minter) {
        Ok(config) => config,
        Err(e) => {
            return Err(e);
        },
    };
    let versioned = set_contract_version(deps, CONTRACT_NAME, CONTRACT_VERSION);
    proof {
        lemma_ledger_ext(ledger_mut(*deps), ledger_mut(*old(deps)));
    }
    match versioned {
        Ok(()) => {},
        Err(e) => {
            return Err(ContractError::Std(e));
        },
    }
    match save_config(deps, &config) {
        Ok(()) => {},
        Err(e) => {
            return Err(ContractError::Std(e));
        },
    }
    Ok(Response::default())
}

/// What a mint gives: the next token id goes to `owner`, and the count of
/// issued tokens goes up by one. Only the minter may mint, the price names at
/// least one coin and no amount of zero, and token ids end at `u64::MAX`.
pub open spec fn mint_outcome(
    before: Ledger,
    sender: Seq<char>,
    owner: Seq<char>,
    token_uri: Option<Seq<char>>,
    price: Seq<CoinView>,
) -> Outcome {
    match before.config {
        None => Err(ErrorView::Std(generic_error(config_missing()))),
        Some(config) => match mint_spec(config, sender, Ok(owner), token_uri, price) {
            Err(e) => Err(e),
            Ok((config, token, response)) => Ok(
                (before.with_token(token.token_id, token).with_config(config), response),
            ),
        },
    }
}

/// Issues a new token to `msg.owner`.
pub fn handle_mint(deps: &mut DepsMut, _env: Env, info: MessageInfo, msg: MintMsg) -> (r: Result<
    Response,
    ContractError,
>)
    ensures
        follows(
            r,
            ledger_mut(*old(deps)),
            ledger_mut(*final(deps)),
            mint_outcome(
                ledger_mut(*old(deps)),
                info.sender@,
                msg.owner@,
                msg.token_uri.deep_view(),
                msg.price.deep_view(),
            ),
        ),
        r is Err ==> ledger_mut(*final(deps)) == ledger_mut(*old(deps)),
{
    let config = match query_config(&as_ref(deps)) {
        Ok(config) => config,
        Err(e) => {
            return Err(ContractError::Std(e));
        },
    };
    let owner = validate(&as_ref(deps), msg.owner.as_str());
    let (config, token, response) = match mint(config, &info.sender, msg, owner) {
        Ok(minted) => minted,
        Err(e) => {
            return Err(e);
        },
    };
    match save_token(deps, token.token_id, &token) {
        Ok(()) => {},
        Err(e) => {
            return Err(ContractError::Std(e));
        },
    }
    match save_config(deps, &config) {
        Ok(()) => {},
        Err(e) => {
            return Err(ContractError::Std(e));
        },
    }
    Ok(response)
}

/// Whether the rules let `sender` transfer the token: a not-found error
/// where the token id names no token, `Unauthorized` where `sender` is
/// neither the owner nor approved nor granted.
pub open spec fn authorization(
    ledger: Ledger,
    sender: Seq<char>,
    token_id: u64,
    block: BlockInfo,
) -> Result<(), ErrorView> {
    match ledger.token(token_id) {
        None => Err(ErrorView::Std(not_found_error(token_missing(token_id)))),
        Some(token) => authorize_spec(token, Ok(ledger.grant(token.owner, sender)), sender, block),
    }
}

/// How a check ends. Unless the host fails it, it ends as the rules say.
/// Where the rules find a record missing, it ends so whatever the host does.
pub open spec fn check_follows(r: Result<(), ContractError>, expected: Result<(), ErrorView>) -> bool {
    &&& same_check(r, expected) || (r matches Err(ContractError::Std(_)))
    &&& expected matches Err(ErrorView::Std(_)) ==> same_check(r, expected)
}

/// Checks that the sender may transfer the token.
pub fn check_is_authorized(deps: &Deps, env: &Env, info: &MessageInfo, token_id: u64) -> (r: Result<
    (),
    ContractError,
>)
    ensures
        check_follows(r, authorization(ledger(*deps), info.sender@, token_id, env.block)),
{
    let token = match query_tokens(deps, token_id) {
        Ok(token) => token,
        Err(e) => {
            return Err(ContractError::Std(e));
        },
    };
    let grant = load_operator(deps, &token.owner, &info.sender);
    authorize(&token, grant, &info.sender, &env.block)
}

/// What a transfer gives: the token goes to `recipient` without its
/// approvals, where `sender` may transfer it. The blanket grants stay.
pub open spec fn transfer_outcome(
    before: Ledger,
    sender: Seq<char>,
    recipient: Seq<char>,
    token_id: u64,
    block: BlockInfo,
) -> Outcome {
    match before.token(token_id) {
        None => Err(ErrorView::Std(not_found_error(token_missing(token_id)))),
        Some(token) => match transfer_spec(
            token,
            Ok(before.grant(token.owner, sender)),
            sender,
            Ok(recipient),
            token_id,
            block,
        ) {
            Err(e) => Err(e),
            Ok((token, response)) => Ok((before.with_token(token_id, token), response)),
        },
    }
}

/// Moves a token to `recipient`.
pub fn handle_transfer_nft(
    deps: &mut DepsMut,
    env: Env,
    info: MessageInfo,
    recipient: String,
    token_id: u64,
) -> (r: Result<Response, ContractError>)
    ensures
        follows(
            r,
            ledger_mut(*old(deps)),
            ledger_mut(*final(deps)),
            transfer_outcome(ledger_mut(*old(deps)), info.sender@, recipient@, token_id, env.block),
        ),
{
    let requested_token = match query_tokens(&as_ref(deps), token_id) {
        Ok(token) => token,
        Err(e) => {
            return Err(ContractError::Std(e));
        },
    };
    let grant = load_operator(&as_ref(deps), &requested_token.owner, &info.sender);
    let to = validate(&as_ref(deps), recipient.as_str());
    let (requested_token, response) = match transfer(
        requested_token,
        grant,
        &info.sender,
        to,
        token_id,
        &env.block,
    ) {
        Ok(moved) => moved,
        Err(e) => {
            return Err(e);
        },
    };
    match save_token(deps, token_id, &requested_token) {
        Ok(()) => {},
        Err(e) => {
            return Err(ContractError::Std(e));
        },
    }
    Ok(response)
}

/// What a send gives: a transfer to `contract`, and a message that tells
/// the contract of the token with `payload`.
pub open spec fn send_outcome(
    before: Ledger,
    sender: Seq<char>,
    contract: Seq<char>,
    token_id: u64,
    payload: Seq<u8>,
    block: BlockInfo,
) -> Outcome {
    match before.token(token_id) {
        None => Err(ErrorView::Std(not_found_error(token_missing(token_id)))),
        Some(token) => match send_spec(
            token,
            Ok(before.grant(token.owner, sender)),
            sender,
            Ok(contract),
            token_id,
            block,
            Ok(receive_nft_msg(sender, decimal(token_id as nat), payload, contract)),
        ) {
            Err(e) => Err(e),
            Ok((token, response)) => Ok((before.with_token(token_id, token), response)),
        },
    }
}

/// Moves a token to a contract and tells the contract of it.
pub fn handle_send_nft(
    deps: &mut DepsMut,
    env: Env,
    info: MessageInfo,
    contract: String,
    token_id: u64,
    msg: Vec<u8>,
) -> (r: Result<Response, ContractError>)
    ensures
        follows(
            r,
            ledger_mut(*old(deps)),
            ledger_mut(*final(deps)),
            send_outcome(
                ledger_mut(*old(deps)),
                info.sender@,
                contract@,
                token_id,
                msg@,
                env.block,
            ),
        ),
{
    let token = match query_tokens(&as_ref(deps), token_id) {
        Ok(token) => token,
        Err(e) => {
            return Err(ContractError::Std(e));
        },
    };
    let grant = load_operator(&as_ref(deps), &token.owner, &info.sender);
    let to = validate(&as_ref(deps), contract.as_str());
    let message = receive_nft(
        info.sender.as_str().to_owned(),
        decimal_text(token_id),
        msg,
        contract,
    );
    let (token, response) = match send(
        token,
        grant,
        &info.sender,
        to,
        token_id,
        &env.block,
        message,
    ) {
        Ok(sent) => sent,
        Err(e) => {
            return Err(e);
        },
    };
    match save_token(deps, token_id, &token) {
        Ok(()) => {},
        Err(e) => {
            return Err(ContractError::Std(e));
        },
    }
    Ok(response)
}

/// What an approval gives: `operator` may transfer the token until
/// `expires` is reached, in place of an earlier approval for it. Only the
/// owner may approve, and not with an expiration already reached.
pub open spec fn approve_outcome(
    before: Ledger,
    sender: Seq<char>,
    operator: Seq<char>,
    token_id: u64,
    expires: Option<Expiration>,
    block: BlockInfo,
) -> Outcome {
    match before.token(token_id) {
        None => Err(ErrorView::Std(not_found_error(token_missing(token_id)))),
        Some(token) => match approve_spec(token, sender, Ok(operator), token_id, expires, block) {
            Err(e) => Err(e),
            Ok((token, response)) => Ok((before.with_token(token_id, token), response)),
        },
    }
}

/// Allows `operator` to transfer the token.
pub fn handle_approve(
    deps: &mut DepsMut,
    env: Env,
    info: MessageInfo,
    operator: &str,
    token_id: u64,
    expires: Option<Expiration>,
) -> (r: Result<Response, ContractError>)
    ensures
        follows(
            r,
            ledger_mut(*old(deps)),
            ledger_mut(*final(deps)),
            approve_outcome(
                ledger_mut(*old(deps)),
                info.sender@,
                operator@,
                token_id,
                expires,
                env.block,
            ),
        ),
{
    // Load the token with given token id
    let token = match query_tokens(&as_ref(deps), token_id) {
        Ok(token) => token,
        Err(e) => {
            return Err(ContractError::Std(e));
        },
    };
    let operator_addr = validate(&as_ref(deps), operator);
    let (token, response) = match approve(
        token,
        &info.sender,
        operator_addr,
        token_id,
        expires,
        &env.block,
    ) {
        Ok(approved) => approved,
        Err(e) => {
            return Err(e);
        },
    };
    match save_token(deps, token_id, &token) {
        Ok(()) => {},
        Err(e) => {
            return Err(ContractError::Std(e));
        },
    }
    Ok(response)
}

/// What a blanket grant gives: `operator` may transfer every token of
/// `sender` until `expires` is reached, in place of an earlier grant.
pub open spec fn approve_all_outcome(
    before: Ledger,
    sender: Seq<char>,
    operator: Seq<char>,
    expires: Option<Expiration>,
    block: BlockInfo,
) -> Outcome {
    match approve_all_spec(before.grant(sender, operator), sender, operator, expires, block) {
        Err(e) => Err(e),
        Ok((expires, response)) => Ok((before.with_grant(sender, operator, expires), response)),
    }
}

/// Allows `operator` to transfer every token of the sender.
pub fn handle_approve_all(
    deps: &mut DepsMut,
    env: Env,
    info: MessageInfo,
    operator: String,
    expires: Option<Expiration>,
) -> (r: Result<Response, ContractError>)
    ensures
        follows(
            r,
            ledger_mut(*old(deps)),
            ledger_mut(*final(deps)),
            approve_all_outcome(
                ledger_mut(*old(deps)),
                info.sender@,
                operator@,
                expires,
                env.block,
            ),
        ),
{
    let operator_addr = match validate(&as_ref(deps), operator.as_str()) {
        Ok(addr) => addr,
        Err(e) => {
            return Err(ContractError::Std(e));
        },
    };
    let appr = match load_operator(&as_ref(deps), &info.sender, &operator_addr) {
        Ok(appr) => appr,
        Err(e) => {
            return Err(ContractError::Std(e));
        },
    };
    let (expires, response) = match approve_all(appr, &info.sender, operator, expires, &env.block) {
        Ok(granted) => granted,
        Err(e) => {
            return Err(e);
        },
    };
    // Save the new/updated details
    match save_operator(deps, &info.sender, &operator_addr, expires) {
        Ok(()) => {},
        Err(e) => {
            return Err(ContractError::Std(e));
        },
    }
    Ok(response)
}

/// What taking back an approval gives: the approval of the token for
/// `operator` is gone, every other one stays. Only the owner may take one
/// back, and only one that is there.
pub open spec fn revoke_outcome(
    before: Ledger,
    sender: Seq<char>,
    operator: Seq<char>,
    token_id: u64,
) -> Outcome {
    match before.token(token_id) {
        None => Err(ErrorView::Std(not_found_error(token_missing(token_id)))),
        Some(token) => match revoke_spec(token, sender, operator, token_id) {
            Err(e) => Err(e),
            Ok((token, response)) => Ok((before.with_token(token_id, token), response)),
        },
    }
}

/// Takes back the approval of a token for `operator`.
pub fn handle_revoke(
    deps: &mut DepsMut,
    _env: Env,
    info: MessageInfo,
    operator: String,
    token_id: u64,
) -> (r: Result<Response, ContractError>)
    ensures
        follows(
            r,
            ledger_mut(*old(deps)),
            ledger_mut(*final(deps)),
            revoke_outcome(ledger_mut(*old(deps)), info.sender@, operator@, token_id),
        ),
{
    let token = match query_tokens(&as_ref(deps), token_id) {
        Ok(token) => token,
        Err(e) => {
            return Err(ContractError::Std(e));
        },
    };
    let (token, response) = match revoke(token, &info.sender, operator, token_id) {
        Ok(revoked) => revoked,
        Err(e) => {
            return Err(e);
        },
    };
    match save_token(deps, token_id, &token) {
        Ok(()) => {},
        Err(e) => {
            return Err(ContractError::Std(e));
        },
    }
    Ok(response)
}

/// What taking back a blanket grant gives: the grant of `sender` to
/// `operator` is gone, where there was one.
pub open spec fn revoke_all_outcome(
    before: Ledger,
    sender: Seq<char>,
    operator: Seq<char>,
) -> Outcome {
    match revoke_all_spec(before.grant(sender, operator) is Some, sender, operator) {
        Err(e) => Err(e),
        Ok(response) => Ok((before.without_grant(sender, operator), response)),
    }
}

/// Takes back the blanket grant of the sender to `operator`.
pub fn handle_revoke_all(deps: &mut DepsMut, _env: Env, info: MessageInfo, operator: String) -> (r:
    Result<Response, ContractError>)
    ensures
        follows(
            r,
            ledger_mut(*old(deps)),
            ledger_mut(*final(deps)),
            revoke_all_outcome(ledger_mut(*old(deps)), info.sender@, operator@),
        ),
{
    let operator_addr = match validate(&as_ref(deps), operator.as_str()) {
        Ok(addr) => addr,
        Err(e) => {
            return Err(ContractError::Std(e));
        },
    };
    let found = has_operator(&as_ref(deps), &info.sender, &operator_addr);
    let response = match revoke_all(found, &info.sender, operator) {
        Ok(response) => response,
        Err(e) => {
            return Err(e);
        },
    };
    remove_operator(deps, &info.sender, &operator_addr);
    Ok(response)
}

/// What the rules give for a command, by the kind of command.
pub open spec fn execute_outcome(
    before: Ledger,
    block: BlockInfo,
    sender: Seq<char>,
    msg: ExecuteMsg,
) -> Outcome {
    match msg {
        ExecuteMsg::TransferNft { recipient, token_id } => transfer_outcome(
            before,
            sender,
            recipient@,
            token_id,
            block,
        ),
        ExecuteMsg::SendNft { contract, token_id, msg } => send_outcome(
            before,
            sender,
            contract@,
            token_id,
            msg@,
            block,
        ),
        ExecuteMsg::Approve { operator, token_id, expires } => approve_outcome(
            before,
            sender,
            operator@,
            token_id,
            expires,
            block,
        ),
        ExecuteMsg::ApproveAll { operator, expires } => approve_all_outcome(
            before,
            sender,
            operator@,
            expires,
            block,
        ),
        ExecuteMsg::Revoke { operator, token_id } => revoke_outcome(
            before,
            sender,
            operator@,
            token_id,
        ),
        ExecuteMsg::RevokeAll { operator } => revoke_all_outcome(before, sender, operator@),
        ExecuteMsg::Mint(mint) => mint_outcome(
            before,
            sender,
            mint.owner@,
            mint.token_uri.deep_view(),
            mint.price.deep_view(),
        ),
    }
}

/// How a command ends, by the kind of command.
pub open spec fn execute_follows(
    r: Result<Response, ContractError>,
    before: Ledger,
    after: Ledger,
    block: BlockInfo,
    sender: Seq<char>,
    msg: ExecuteMsg,
) -> bool {
    follows(r, before, after, execute_outcome(before, block, sender, msg))
}

/// Runs one command.
pub fn execute(deps: &mut DepsMut, env: Env, info: MessageInfo, msg: ExecuteMsg) -> (r: Result<
    Response,
    ContractError,
>)
    ensures
        execute_follows(
            r,
            ledger_mut(*old(deps)),
            ledger_mut(*final(deps)),
            env.block,
            info.sender@,
            msg,
        ),
        r is Err ==> ledger_mut(*final(deps)) == ledger_mut(*old(deps)),
{
    match msg {
        ExecuteMsg::TransferNft { recipient, token_id } => handle_transfer_nft(
            deps,
            env,
            info,
            recipient,
            token_id,
        ),
        ExecuteMsg::SendNft { contract, token_id, msg } => handle_send_nft(
            deps,
            env,
            info,
            contract,
            token_id,
            msg,
        ),
        ExecuteMsg::Approve { operator, token_id, expires } => handle_approve(
            deps,
            env,
            info,
            operator.as_str(),
            token_id,
            expires,
        ),
        ExecuteMsg::ApproveAll { operator, expires } => {
            handle_approve_all(deps, env, info, operator, expires)
        },
        ExecuteMsg::Revoke { operator, token_id } => {
            handle_revoke(deps, env, info, operator, token_id)
        },
        ExecuteMsg::RevokeAll { operator } => handle_revoke_all(deps, env, info, operator),
        ExecuteMsg::Mint(msg) => handle_mint(deps, env, info, msg),
    }
}

} // verus!
