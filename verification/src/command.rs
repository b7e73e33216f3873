//! What each command decides, from what the host has read and validated.
//!
//! A command asks the host for records and for the validation of addresses,
//! and the host may fail either. The functions here take what the host gave,
//! failures included, and say for every value of it how the command ends.

use vstd::prelude::*;
use cosmwasm_std::{CosmosMsg, StdError};
use crate::env::{
    decimal,
    decimal_text,
    Addr,
    BlockInfo,
    CoinView,
    Expiration,
    Response,
    ResponseView,
};
use crate::error::{ContractError, ErrorView};
use crate::msg::{Approval, ApprovalView, InstantiateMsg, MintMsg};
use crate::rules::{
    approved,
    check_price,
    grant_approval,
    has_live_approval,
    is_approved,
    price_error,
    revoke_approval,
    revoked,
};
use crate::state::{can_key, State, StateView, TokenInfo, TokenView};
use crate::storage::fits_key;

verus! {

/// The text of an address that the host validated, or the host's error.
pub open spec fn text_of(validated: Result<Addr, StdError>) -> Result<Seq<char>, StdError> {
    match validated {
        Ok(addr) => Ok(addr@),
        Err(e) => Err(e),
    }
}

/// A result holds what the rules give: the same error, or a value with the
/// same view.
pub open spec fn same<T: DeepView>(
    r: Result<T, ContractError>,
    expected: Result<T::V, ErrorView>,
) -> bool {
    match expected {
        Ok(value) => r matches Ok(v) && v.deep_view() == value,
        Err(e) => r matches Err(err) && err.deep_view() == e,
    }
}

/// The response without messages that holds these attributes.
pub open spec fn log(attributes: Seq<(Seq<char>, Seq<char>)>) -> ResponseView {
    ResponseView { messages: seq![], attributes }
}

/// The configuration that setting up the collection gives: `minter` as
/// minter and no token issued. An empty name or symbol is rejected first,
/// then a minter that the host did not validate.
pub open spec fn set_up_spec(
    name: Seq<char>,
    symbol: Seq<char>,
    minter: Result<Seq<char>, StdError>,
) -> Result<StateView, ErrorView> {
    if name.len() == 0 {
        Err(ErrorView::CustomError { val: "length of `name` should be greater than 1"@ })
    } else if symbol.len() == 0 {
        Err(ErrorView::CustomError { val: "length of `symbol` should be greater than 1"@ })
    } else {
        match minter {
            Err(e) => Err(ErrorView::Std(e)),
            Ok(minter) => Ok(StateView { name, symbol, minter, num_tokens: 0 }),
        }
    }
}

/// Decides the setting up of the collection.
pub fn set_up(msg: InstantiateMsg, minter: Result<Addr, StdError>) -> (r: Result<
    State,
    ContractError,
>)
    ensures
        same(r, set_up_spec(msg.name@, msg.symbol@, text_of(minter))),
{
    if msg.name.as_str().is_empty() {
        return Err(
            ContractError::CustomError {
                val: "length of `name` should be greater than 1".to_owned(),
            },
        );
    }
    if msg.symbol.as_str().is_empty() {
        return Err(
            ContractError::CustomError {
                val: "length of `symbol` should be greater than 1".to_owned(),
            },
        );
    }
    // the sender is the minter
    match minter {
        Ok(minter) => Ok(State { name: msg.name, symbol: msg.symbol, minter, num_tokens: 0u64 }),
        Err(e) => Err(ContractError::Std(e)),
    }
}

/// The attribute log of a mint.
pub open spec fn mint_log(sender: Seq<char>, owner: Seq<char>, token_id: u64) -> ResponseView {
    log(
        seq![
            ("action"@, "mint"@),
            ("from"@, sender),
            ("owner"@, owner),
            ("token_id"@, decimal(token_id as nat)),
        ],
    )
}

/// What a mint gives: the configuration with one more token issued, the
/// token with the next id for `owner`, and the log. In this order it is
/// rejected where `sender` is not the minter, where the price is empty or
/// holds an amount of zero, where the token ids are used up, and where the
/// host did not validate the owner.
pub open spec fn mint_spec(
    config: StateView,
    sender: Seq<char>,
    owner: Result<Seq<char>, StdError>,
    token_uri: Option<Seq<char>>,
    price: Seq<CoinView>,
) -> Result<(StateView, TokenView, ResponseView), ErrorView> {
    if sender != config.minter {
        Err(ErrorView::Unauthorized)
    } else if price_error(price) is Some {
        Err(price_error(price).unwrap())
    } else if config.num_tokens == u64::MAX {
        Err(ErrorView::CustomError { val: "token ids are used up"@ })
    } else {
        match owner {
            Err(e) => Err(ErrorView::Std(e)),
            Ok(owner) => {
                let token_id = (config.num_tokens + 1) as u64;
                Ok(
                    (
                        StateView { num_tokens: token_id, ..config },
                        TokenView {
                            owner,
                            approvals: seq![],
                            base_price: price,
                            token_uri,
                            token_id,
                        },
                        mint_log(sender, owner, token_id),
                    ),
                )
            },
        }
    }
}

/// Decides a mint.
pub fn mint(config: State, sender: &Addr, msg: MintMsg, owner: Result<Addr, StdError>) -> (r: Result<
    (State, TokenInfo, Response),
    ContractError,
>)
    ensures
        same(
            r,
            mint_spec(
                config.deep_view(),
                sender@,
                text_of(owner),
                msg.token_uri.deep_view(),
                msg.price.deep_view(),
            ),
        ),
{
    // only the minter mints
    if *sender != config.minter {
        return Err(ContractError::Unauthorized);
    }
    match check_price(&msg.price) {
        Ok(()) => {},
        Err(e) => {
            return Err(e);
        },
    }
    if config.num_tokens == u64::MAX {
        return Err(ContractError::CustomError { val: "token ids are used up".to_owned() });
    }
    let num_tokens: u64 = config.num_tokens + 1;
    let owner = match owner {
        Ok(owner) => owner,
        Err(e) => {
            return Err(ContractError::Std(e));
        },
    };
    let response = Response::new().add_attribute("action", "mint".to_owned()).add_attribute(
        "from",
        sender.as_str().to_owned(),
    ).add_attribute("owner", owner.as_str().to_owned()).add_attribute(
        "token_id",
        decimal_text(num_tokens),
    );
    let token = TokenInfo {
        owner,
        approvals: Vec::new(),
        token_uri: msg.token_uri,
        base_price: msg.price,
        token_id: num_tokens,
    };
    let mut config = config;
    config.num_tokens = num_tokens;
    proof {
        assert(token.approvals.deep_view() =~= seq![]);
        assert(response.deep_view().attributes =~= mint_log(
            sender@,
            token.owner@,
            num_tokens,
        ).attributes);
    }
    Ok((config, token, response))
}

/// Whether `sender` may transfer `token`: as its owner, by an approval of
/// the token that has not expired, or by a blanket grant of the owner that
/// has not expired. The grant counts only where neither of the others holds;
/// there a grant that the host could not read fails the check.
pub open spec fn authorize_spec(
    token: TokenView,
    grant: Result<Option<Expiration>, StdError>,
    sender: Seq<char>,
    block: BlockInfo,
) -> Result<(), ErrorView> {
    if token.owner == sender || is_approved(token.approvals, sender, block) {
        Ok(())
    } else {
        match grant {
            Err(e) => Err(ErrorView::Std(e)),
            Ok(Some(expires)) => if expires.expired_at(block) {
                Err(ErrorView::Unauthorized)
            } else {
                Ok(())
            },
            Ok(None) => Err(ErrorView::Unauthorized),
        }
    }
}

/// The result of a check is what the rules give.
pub open spec fn same_check(r: Result<(), ContractError>, expected: Result<(), ErrorView>) -> bool {
    match expected {
        Ok(()) => r is Ok,
        Err(e) => r matches Err(err) && err.deep_view() == e,
    }
}

/// Decides whether `sender` may transfer `token`.
pub fn authorize(
    token: &TokenInfo,
    grant: Result<Option<Expiration>, StdError>,
    sender: &Addr,
    block: &BlockInfo,
) -> (r: Result<(), ContractError>)
    ensures
        same_check(r, authorize_spec(token.deep_view(), grant, sender@, *block)),
{
    if token.owner == *sender {
        return Ok(());
    }
    if has_live_approval(&token.approvals, sender, block) {
        return Ok(());
    }
    match grant {
        Err(e) => Err(ContractError::Std(e)),
        Ok(Some(expires)) => if expires.is_expired(block) {
            Err(ContractError::Unauthorized)
        } else {
            Ok(())
        },
        Ok(None) => Err(ContractError::Unauthorized),
    }
}

/// The attribute log of a transfer.
pub open spec fn transfer_log(sender: Seq<char>, recipient: Seq<char>, token_id: u64) -> ResponseView {
    log(
        seq![
            ("action"@, "transfer_nft"@),
            ("from"@, sender),
            ("to"@, recipient),
            ("token_id"@, decimal(token_id as nat)),
        ],
    )
}

/// The token after it went to `recipient`: its approvals are gone.
pub open spec fn handed_over(token: TokenView, recipient: Seq<char>) -> TokenView {
    TokenView { owner: recipient, approvals: seq![], ..token }
}

/// What a transfer gives: the token with `recipient` as owner and no
/// approvals, and the log. It is rejected where `sender` may not transfer
/// the token, then where the host did not validate the recipient.
pub open spec fn transfer_spec(
    token: TokenView,
    grant: Result<Option<Expiration>, StdError>,
    sender: Seq<char>,
    recipient: Result<Seq<char>, StdError>,
    token_id: u64,
    block: BlockInfo,
) -> Result<(TokenView, ResponseView), ErrorView> {
    match authorize_spec(token, grant, sender, block) {
        Err(e) => Err(e),
        Ok(()) => match recipient {
            Err(e) => Err(ErrorView::Std(e)),
            Ok(recipient) => Ok(
                (handed_over(token, recipient), transfer_log(sender, recipient, token_id)),
            ),
        },
    }
}

/// Decides a transfer.
pub fn transfer(
    token: TokenInfo,
    grant: Result<Option<Expiration>, StdError>,
    sender: &Addr,
    recipient: Result<Addr, StdError>,
    token_id: u64,
    block: &BlockInfo,
) -> (r: Result<(TokenInfo, Response), ContractError>)
    ensures
        same(
            r,
            transfer_spec(token.deep_view(), grant, sender@, text_of(recipient), token_id, *block),
        ),
{
    match authorize(&token, grant, sender, block) {
        Ok(()) => {},
        Err(e) => {
            return Err(e);
        },
    }
    let recipient = match recipient {
        Ok(recipient) => recipient,
        Err(e) => {
            return Err(ContractError::Std(e));
        },
    };
    let response = Response::new().add_attribute(
        "action",
        "transfer_nft".to_owned(),
    ).add_attribute("from", sender.as_str().to_owned()).add_attribute(
        "to",
        recipient.as_str().to_owned(),
    ).add_attribute("token_id", decimal_text(token_id));
    let mut requested_token = token;
    requested_token.owner = recipient;
    requested_token.approvals = Vec::new();
    proof {
        assert(requested_token.approvals.deep_view() =~= seq![]);
        assert(response.deep_view().attributes =~= transfer_log(
            sender@,
            requested_token.owner@,
            token_id,
        ).attributes);
    }
    Ok((requested_token, response))
}

/// The response of a send: the message for the receiving contract, and the log.
pub open spec fn send_response(
    sender: Seq<char>,
    contract: Seq<char>,
    token_id: u64,
    message: CosmosMsg,
) -> ResponseView {
    ResponseView {
        messages: seq![message],
        attributes: seq![
            ("action"@, "send_nft"@),
            ("from"@, sender),
            ("to"@, contract),
            ("token_id"@, decimal(token_id as nat)),
        ],
    }
}

/// What a send gives: a transfer to `contract`, with `message` for the host
/// to hand to the contract. It is rejected as a transfer is, then where the
/// message could not be made.
pub open spec fn send_spec(
    token: TokenView,
    grant: Result<Option<Expiration>, StdError>,
    sender: Seq<char>,
    contract: Result<Seq<char>, StdError>,
    token_id: u64,
    block: BlockInfo,
    message: Result<CosmosMsg, StdError>,
) -> Result<(TokenView, ResponseView), ErrorView> {
    match transfer_spec(token, grant, sender, contract, token_id, block) {
        Err(e) => Err(e),
        Ok((token, _)) => match message {
            Err(e) => Err(ErrorView::Std(e)),
            Ok(message) => Ok((token, send_response(sender, token.owner, token_id, message))),
        },
    }
}

/// Decides a send.
pub fn send(
    token: TokenInfo,
    grant: Result<Option<Expiration>, StdError>,
    sender: &Addr,
    contract: Result<Addr, StdError>,
    token_id: u64,
    block: &BlockInfo,
    message: Result<CosmosMsg, StdError>,
) -> (r: Result<(TokenInfo, Response), ContractError>)
    ensures
        same(
            r,
            send_spec(
                token.deep_view(),
                grant,
                sender@,
                text_of(contract),
                token_id,
                *block,
                message,
            ),
        ),
{
    let token = match transfer(token, grant, sender, contract, token_id, block) {
        Ok((token, _)) => token,
        Err(e) => {
            return Err(e);
        },
    };
    let message = match message {
        Ok(message) => message,
        Err(e) => {
            return Err(ContractError::Std(e));
        },
    };
    let response = Response::new().add_message(message).add_attribute(
        "action",
        "send_nft".to_owned(),
    ).add_attribute("from", sender.as_str().to_owned()).add_attribute(
        "to",
        token.owner.as_str().to_owned(),
    ).add_attribute("token_id", decimal_text(token_id));
    proof {
        let expected = send_response(sender@, token.owner@, token_id, message);
        assert(response.deep_view().attributes =~= expected.attributes);
        assert(response.deep_view().messages =~= expected.messages);
    }
    Ok((token, response))
}

/// The attribute log of an approval.
pub open spec fn approve_log(sender: Seq<char>, operator: Seq<char>, token_id: u64) -> ResponseView {
    log(
        seq![
            ("action"@, "approve"@),
            ("from"@, sender),
            ("approved"@, operator),
            ("token_id"@, decimal(token_id as nat)),
        ],
    )
}

/// What an approval gives: the token with an approval for `operator` until
/// `expires` is reached, in place of an earlier approval for it, and the log.
/// In this order it is rejected where `sender` is not the owner, where the
/// host did not validate the operator, and where the expiration is already
/// reached.
pub open spec fn approve_spec(
    token: TokenView,
    sender: Seq<char>,
    operator: Result<Seq<char>, StdError>,
    token_id: u64,
    expires: Option<Expiration>,
    block: BlockInfo,
) -> Result<(TokenView, ResponseView), ErrorView> {
    if sender != token.owner {
        Err(ErrorView::Unauthorized)
    } else {
        match operator {
            Err(e) => Err(ErrorView::Std(e)),
            Ok(operator) => if Expiration::or_never(expires).expired_at(block) {
                Err(ErrorView::Expired)
            } else {
                let approval = ApprovalView { operator, expires: Expiration::or_never(expires) };
                Ok(
                    (
                        TokenView { approvals: approved(token.approvals, approval), ..token },
                        approve_log(sender, operator, token_id),
                    ),
                )
            },
        }
    }
}

/// Decides an approval.
pub fn approve(
    token: TokenInfo,
    sender: &Addr,
    operator: Result<Addr, StdError>,
    token_id: u64,
    expires: Option<Expiration>,
    block: &BlockInfo,
) -> (r: Result<(TokenInfo, Response), ContractError>)
    ensures
        same(
            r,
            approve_spec(token.deep_view(), sender@, text_of(operator), token_id, expires, *block),
        ),
{
    if *sender != token.owner {
        return Err(ContractError::Unauthorized);
    }
    let appr = Approval {
        operator: match operator {
            Ok(operator) => operator,
            Err(e) => {
                return Err(ContractError::Std(e));
            },
        },
        expires: Expiration::unwrap_or_never(expires),
    };
    if appr.expires.is_expired(block) {
        return Err(ContractError::Expired);
    }
    let response = Response::new().add_attribute("action", "approve".to_owned()).add_attribute(
        "from",
        sender.as_str().to_owned(),
    ).add_attribute("approved", appr.operator.as_str().to_owned()).add_attribute(
        "token_id",
        decimal_text(token_id),
    );
    assert(response.deep_view().attributes =~= approve_log(
        sender@,
        appr.operator@,
        token_id,
    ).attributes);
    let mut token = token;
    grant_approval(&mut token.approvals, appr);
    Ok((token, response))
}

/// The attribute log of taking back an approval.
pub open spec fn revoke_log(sender: Seq<char>, operator: Seq<char>, token_id: u64) -> ResponseView {
    log(
        seq![
            ("action"@, "revoke"@),
            ("from"@, sender),
            ("revoked"@, operator),
            ("token_id"@, decimal(token_id as nat)),
        ],
    )
}

/// What taking back an approval gives: the token without its approval for
/// `operator`, every other approval as it was, and the log. It is rejected
/// where `sender` is not the owner, then where no approval is for
/// `operator`.
pub open spec fn revoke_spec(
    token: TokenView,
    sender: Seq<char>,
    operator: Seq<char>,
    token_id: u64,
) -> Result<(TokenView, ResponseView), ErrorView> {
    if sender != token.owner {
        Err(ErrorView::Unauthorized)
    } else {
        match revoked(token.approvals, operator) {
            None => Err(ErrorView::ApprovalNotFound { operator }),
            Some(rest) => Ok(
                (TokenView { approvals: rest, ..token }, revoke_log(sender, operator, token_id)),
            ),
        }
    }
}

/// Decides the taking back of an approval.
pub fn revoke(token: TokenInfo, sender: &Addr, operator: String, token_id: u64) -> (r: Result<
    (TokenInfo, Response),
    ContractError,
>)
    ensures
        same(r, revoke_spec(token.deep_view(), sender@, operator@, token_id)),
{
    let mut token = token;
    if *sender != token.owner {
        return Err(ContractError::Unauthorized);
    } else if !revoke_approval(&mut token.approvals, &operator) {
        return Err(ContractError::ApprovalNotFound { operator });
    }
    let response = Response::new().add_attribute("action", "revoke".to_owned()).add_attribute(
        "from",
        sender.as_str().to_owned(),
    ).add_attribute("revoked", operator).add_attribute("token_id", decimal_text(token_id));
    assert(response.deep_view().attributes =~= revoke_log(
        sender@,
        operator@,
        token_id,
    ).attributes);
    Ok((token, response))
}

/// The attribute log of a blanket grant.
pub open spec fn approve_all_log(sender: Seq<char>, operator: Seq<char>) -> ResponseView {
    log(seq![("action"@, "approve_all"@), ("from"@, sender), ("approved"@, operator)])
}

/// What a blanket grant gives: the expiration to store for `sender` and
/// `operator`, and the log. In this order it is rejected where the grant is
/// there already with this very expiration, where the expiration is already
/// reached, and where the store cannot use the sender's address as a key.
pub open spec fn approve_all_spec(
    current: Option<Expiration>,
    sender: Seq<char>,
    operator: Seq<char>,
    expires: Option<Expiration>,
    block: BlockInfo,
) -> Result<(Expiration, ResponseView), ErrorView> {
    let expires = Expiration::or_never(expires);
    if current == Some(expires) {
        Err(ErrorView::OperatorApproved { operator })
    } else if expires.expired_at(block) {
        Err(ErrorView::Expired)
    } else if !fits_key(sender) {
        Err(ErrorView::CustomError { val: "sender cannot hold grants"@ })
    } else {
        Ok((expires, approve_all_log(sender, operator)))
    }
}

/// Decides a blanket grant.
pub fn approve_all(
    current: Option<Expiration>,
    sender: &Addr,
    operator: String,
    expires: Option<Expiration>,
    block: &BlockInfo,
) -> (r: Result<(Expiration, Response), ContractError>)
    ensures
        match approve_all_spec(current, sender@, operator@, expires, *block) {
            Ok((stored, response)) => r matches Ok((e, resp)) && e == stored && resp.deep_view()
                == response,
            Err(e) => r matches Err(err) && err.deep_view() == e,
        },
{
    let expires = Expiration::unwrap_or_never(expires);
    if let Some(val) = current {
        if val == expires {
            return Err(ContractError::OperatorApproved { operator });
        }
    }
    if expires.is_expired(block) {
        return Err(ContractError::Expired);
    }
    if !can_key(sender) {
        return Err(ContractError::CustomError { val: "sender cannot hold grants".to_owned() });
    }
    let response = Response::new().add_attribute(
        "action",
        "approve_all".to_owned(),
    ).add_attribute("from", sender.as_str().to_owned()).add_attribute("approved", operator);
    assert(response.deep_view().attributes =~= approve_all_log(sender@, operator@).attributes);
    Ok((expires, response))
}

/// The attribute log of taking back a blanket grant.
pub open spec fn revoke_all_log(sender: Seq<char>, operator: Seq<char>) -> ResponseView {
    log(seq![("action"@, "revoke_all"@), ("from"@, sender), ("revoked"@, operator)])
}

/// What taking back a blanket grant gives: the log, where there is a grant
/// to take back.
pub open spec fn revoke_all_spec(found: bool, sender: Seq<char>, operator: Seq<char>) -> Result<
    ResponseView,
    ErrorView,
> {
    if found {
        Ok(revoke_all_log(sender, operator))
    } else {
        Err(ErrorView::ApprovalNotFound { operator })
    }
}

/// Decides the taking back of a blanket grant.
pub fn revoke_all(found: bool, sender: &Addr, operator: String) -> (r: Result<
    Response,
    ContractError,
>)
    ensures
        same(r, revoke_all_spec(found, sender@, operator@)),
{
    if !found {
        return Err(ContractError::ApprovalNotFound { operator });
    }
    let response = Response::new().add_attribute(
        "action",
        "revoke_all".to_owned(),
    ).add_attribute("from", sender.as_str().to_owned()).add_attribute("revoked", operator);
    assert(response.deep_view().attributes =~= revoke_all_log(sender@, operator@).attributes);
    Ok(response)
}

} // verus!
