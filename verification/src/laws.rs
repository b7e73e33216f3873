//! What holds of the rules of the ledger, whatever the request.

use vstd::prelude::*;
use cosmwasm_std::StdError;
use crate::command::{authorize_spec, mint_spec, set_up_spec};
use crate::contract::{
    agrees,
    execute_follows,
    execute_outcome,
    approve_all_outcome,
    approve_outcome,
    follows,
    instantiate_outcome,
    mint_outcome,
    revoke_all_outcome,
    revoke_outcome,
    transfer_outcome,
    Outcome,
};
use crate::env::{BlockInfo, CoinView, Expiration, Response, ResponseView};
use crate::error::{ContractError, ErrorView};
use crate::host::Deps;
use crate::msg::{ApprovalView, ExecuteMsg};
use crate::query::{owner_of_spec, with_expired};
use crate::rules::{
    approved,
    first_approval,
    has_approval,
    is_first_approval,
    lemma_first_approval,
    lemma_first_approval_is_first,
    may_transfer,
    one_per_operator,
    price_error,
    shown,
};
use crate::state::{ledger, Ledger, StateView, TokenView};
use crate::storage::fits_key;

verus! {

/// A command that fails leaves the store as it was, and a command that the
/// rules reject fails. A command that succeeds was not rejected, and left
/// the store as the rules say.
pub proof fn law_rejected_writes_nothing(
    r: Result<Response, ContractError>,
    before: Ledger,
    after: Ledger,
    expected: Outcome,
)
    requires
        follows(r, before, after, expected),
    ensures
        r is Err ==> after == before,
        expected is Err ==> r is Err,
        r is Ok ==> agrees(r, before, after, expected) && expected is Ok,
{
}

/// Where name and symbol are not empty, setting up the collection gives a
/// configuration with that name and symbol, the sender as minter and no
/// token issued, and leaves tokens and grants as they were. Where one of
/// them is empty, it is rejected with `CustomError`, whatever the host says
/// of the sender.
pub proof fn law_instantiate(
    before: Ledger,
    sender: Seq<char>,
    name: Seq<char>,
    symbol: Seq<char>,
    minter: Result<Seq<char>, StdError>,
)
    ensures
        name.len() > 0 && symbol.len() > 0 ==> (instantiate_outcome(before, sender, name, symbol)
            matches Ok((after, _)) && after.config == Some(
            StateView { name, symbol, minter: sender, num_tokens: 0 },
        ) && after.tokens == before.tokens && after.operators == before.operators),
        name.len() == 0 || symbol.len() == 0 ==> instantiate_outcome(
            before,
            sender,
            name,
            symbol,
        ) matches Err(ErrorView::CustomError { .. }),
        name.len() == 0 || symbol.len() == 0 ==> set_up_spec(name, symbol, minter) matches Err(
            ErrorView::CustomError { .. },
        ),
{
}

/// A mint by anyone but the minter is rejected with `Unauthorized`,
/// whatever the price and whatever the host says of the owner.
pub proof fn law_only_minter_mints(
    before: Ledger,
    sender: Seq<char>,
    owner: Seq<char>,
    token_uri: Option<Seq<char>>,
    price: Seq<CoinView>,
    validated: Result<Seq<char>, StdError>,
)
    requires
        before.config matches Some(config) && config.minter != sender,
    ensures
        mint_outcome(before, sender, owner, token_uri, price) == Err::<
            (Ledger, ResponseView),
            ErrorView,
        >(ErrorView::Unauthorized),
        mint_spec(before.config.unwrap(), sender, validated, token_uri, price) matches Err(
            ErrorView::Unauthorized,
        ),
{
}

/// The tokens of a ledger are numbered in the order of issue: the ids are
/// the numbers from 1 to the count of issued tokens, and each token is
/// stored under its own id.
pub open spec fn issued_in_order(ledger: Ledger) -> bool {
    ledger.config matches Some(config) ==> {
        &&& forall|id: u64|
            #[trigger] ledger.tokens.dom().contains(id) <==> 1 <= id <= config.num_tokens
        &&& forall|id: u64|
            #[trigger] ledger.tokens.dom().contains(id) ==> ledger.tokens[id].token_id == id
    }
}

/// A mint that succeeds issues the id after the last one: the count of
/// issued tokens goes up by one, the new token lies under the new count with
/// the owner, the price and the URI of the request and no approvals, and
/// every earlier token and every grant stays as it was. The numbering in the
/// order of issue is kept.
pub proof fn law_mint_issues_next_id(
    before: Ledger,
    sender: Seq<char>,
    owner: Seq<char>,
    token_uri: Option<Seq<char>>,
    price: Seq<CoinView>,
)
    requires
        mint_outcome(before, sender, owner, token_uri, price) is Ok,
    ensures
        ({
            let after = mint_outcome(before, sender, owner, token_uri, price)->Ok_0.0;
            let count = before.config.unwrap().num_tokens;
            &&& before.config is Some
            &&& count < u64::MAX
            &&& after.config == Some(
                StateView { num_tokens: (count + 1) as u64, ..before.config.unwrap() },
            )
            &&& after.token((count + 1) as u64) == Some(
                TokenView {
                    owner,
                    approvals: seq![],
                    base_price: price,
                    token_uri,
                    token_id: (count + 1) as u64,
                },
            )
            &&& forall|id: u64| id != count + 1 ==> after.token(id) == before.token(id)
            &&& after.operators == before.operators
            &&& price.len() > 0
            &&& forall|i: int| 0 <= i < price.len() ==> (#[trigger] price[i]).amount > 0
            &&& issued_in_order(before) ==> issued_in_order(after)
        }),
{
    let after = mint_outcome(before, sender, owner, token_uri, price)->Ok_0.0;
    let count = before.config.unwrap().num_tokens;
    assert(price_error(price) is None);
    if issued_in_order(before) {
        assert forall|id: u64| #[trigger]
            after.tokens.dom().contains(id) <==> 1 <= id <= count + 1 by {
            if id != count + 1 {
                assert(after.tokens.dom().contains(id) == before.tokens.dom().contains(id));
            }
        }
        assert forall|id: u64| #[trigger]
            after.tokens.dom().contains(id) implies after.tokens[id].token_id == id by {
            if id != count + 1 {
                assert(before.tokens.dom().contains(id));
            }
        }
    }
}

/// One request to mint: the owner, the URI and the price of the token.
pub struct MintRequest {
    pub owner: Seq<char>,
    pub token_uri: Option<Seq<char>>,
    pub price: Seq<CoinView>,
}

/// The ledger after the minter made these requests, one after the other;
/// nothing where one of them is rejected.
pub open spec fn after_mints(before: Ledger, sender: Seq<char>, requests: Seq<MintRequest>) -> Option<
    Ledger,
>
    decreases requests.len(),
{
    if requests.len() == 0 {
        Some(before)
    } else {
        match after_mints(before, sender, requests.drop_last()) {
            None => None,
            Some(ledger) => match mint_outcome(
                ledger,
                sender,
                requests.last().owner,
                requests.last().token_uri,
                requests.last().price,
            ) {
                Err(_) => None,
                Ok((after, _)) => Some(after),
            },
        }
    }
}

/// From a collection without tokens, N mints that succeed leave a count of
/// N and tokens under the ids 1 to N and no other: the token of the i-th
/// request lies under the id i, with that id as its own.
pub proof fn law_mints_number_tokens(
    before: Ledger,
    sender: Seq<char>,
    requests: Seq<MintRequest>,
)
    requires
        before.config matches Some(config) && config.num_tokens == 0,
        before.tokens.dom() =~= Set::empty(),
        after_mints(before, sender, requests) is Some,
    ensures
        ({
            let after = after_mints(before, sender, requests).unwrap();
            &&& after.config matches Some(config) && config.num_tokens == requests.len()
            &&& forall|id: u64|
                #[trigger] after.tokens.dom().contains(id) <==> 1 <= id <= requests.len()
            &&& forall|id: u64|
                1 <= id <= requests.len() ==> (#[trigger] after.tokens[id]).token_id == id
                    && after.tokens[id].owner == requests[id - 1].owner
        }),
    decreases requests.len(),
{
    if requests.len() > 0 {
        let earlier = requests.drop_last();
        let middle = after_mints(before, sender, earlier).unwrap();
        law_mints_number_tokens(before, sender, earlier);
        let last = requests.last();
        law_mint_issues_next_id(middle, sender, last.owner, last.token_uri, last.price);
        let after = after_mints(before, sender, requests).unwrap();
        assert(after == mint_outcome(
            middle,
            sender,
            last.owner,
            last.token_uri,
            last.price,
        )->Ok_0.0);
        let n = requests.len() as u64;
        assert(after.token(n) is Some);
        assert forall|id: u64| #[trigger]
            after.tokens.dom().contains(id) <==> 1 <= id <= requests.len() by {
            if id != n {
                assert(after.token(id) == middle.token(id));
                assert(after.tokens.dom().contains(id) == middle.tokens.dom().contains(id));
            }
        }
        assert forall|id: u64| 1 <= id <= requests.len() implies (#[trigger] after.tokens[
            id
        ]).token_id == id && after.tokens[id].owner == requests[id - 1].owner by {
            if id != n {
                assert(after.token(id) == middle.token(id));
                assert(middle.tokens.dom().contains(id));
                assert(middle.tokens[id].token_id == id);
                assert(earlier[id - 1] == requests[id - 1]);
            }
        }
    }
}

/// The rules allow a transfer exactly where `may_transfer` holds of what
/// the host read: the token, and the blanket grant of its owner to the sender.
pub proof fn law_authorize_is_may_transfer(
    token: TokenView,
    grant: Option<Expiration>,
    sender: Seq<char>,
    block: BlockInfo,
)
    ensures
        authorize_spec(token, Ok(grant), sender, block) is Ok <==> may_transfer(
            token,
            grant,
            sender,
            block,
        ),
        !may_transfer(token, grant, sender, block) ==> authorize_spec(
            token,
            Ok(grant),
            sender,
            block,
        ) == Err::<(), ErrorView>(ErrorView::Unauthorized),
{
}

/// A transfer by the owner, by an account with an approval of the token
/// that has not expired, or by an account with a blanket grant of the owner
/// that has not expired gives the token to the recipient without its
/// approvals, and leaves every other token and every grant as it was. A
/// transfer by anyone else is rejected with `Unauthorized`.
pub proof fn law_transfer(
    before: Ledger,
    sender: Seq<char>,
    recipient: Seq<char>,
    token_id: u64,
    block: BlockInfo,
)
    requires
        before.token(token_id) is Some,
    ensures
        ({
            let token = before.token(token_id).unwrap();
            let allowed = may_transfer(token, before.grant(token.owner, sender), sender, block);
            let outcome = transfer_outcome(before, sender, recipient, token_id, block);
            &&& allowed ==> (outcome matches Ok((after, _)) && after.token(token_id) == Some(
                TokenView { owner: recipient, approvals: seq![], ..token },
            ) && after.operators == before.operators && after.config == before.config
                && forall|id: u64| id != token_id ==> after.token(id) == before.token(id))
            &&& !allowed ==> outcome matches Err(ErrorView::Unauthorized)
        }),
{
}

/// The owner's transfer does not wait for the host's word on blanket
/// grants: it is allowed whatever the host read.
pub proof fn law_owner_transfers(
    token: TokenView,
    grant: Result<Option<Expiration>, StdError>,
    block: BlockInfo,
)
    ensures
        authorize_spec(token, grant, token.owner, block) is Ok,
{
}

/// An approval with an expiration already reached is rejected with
/// `Expired`, where the token exists, the owner asks for it and the host
/// validated the operator.
pub proof fn law_no_expired_approval(
    before: Ledger,
    sender: Seq<char>,
    operator: Seq<char>,
    token_id: u64,
    expires: Expiration,
    block: BlockInfo,
)
    requires
        before.token(token_id) matches Some(token) && token.owner == sender,
        expires.expired_at(block),
    ensures
        approve_outcome(before, sender, operator, token_id, Some(expires), block) matches Err(
            ErrorView::Expired,
        ),
{
}

/// After an approval the operator has exactly the approval asked for, and
/// the approvals of every other operator are as they were. A list with one
/// approval for an operator at most stays so.
pub proof fn law_approve_replaces(approvals: Seq<ApprovalView>, approval: ApprovalView)
    ensures
        ({
            let after = approved(approvals, approval);
            &&& first_approval(after, approval.operator) matches Some(i) && after[i] == approval
            &&& forall|operator: Seq<char>|
                operator != approval.operator ==> #[trigger] has_approval(after, operator)
                    == has_approval(approvals, operator)
            &&& one_per_operator(approvals) ==> one_per_operator(after)
        }),
{
    let after = approved(approvals, approval);
    let operator = approval.operator;
    // the place of the new approval: that of the one it replaces, or the end
    let i = if has_approval(approvals, operator) {
        lemma_first_approval_is_first(approvals, operator);
        first_approval(approvals, operator).unwrap()
    } else {
        approvals.len() as int
    };
    assert(after[i] == approval);
    assert forall|k: int| 0 <= k < i implies (#[trigger] after[k]).operator != operator by {
        assert(after[k] == approvals[k]);
    }
    assert(is_first_approval(after, operator, i));
    lemma_first_approval(after, operator, i);
    assert forall|other: Seq<char>| other != operator implies #[trigger] has_approval(
        after,
        other,
    ) == has_approval(approvals, other) by {
        if has_approval(approvals, other) {
            let k = choose|k: int|
                0 <= k < approvals.len() && (#[trigger] approvals[k]).operator == other;
            assert(after[k].operator == other);
        }
        if has_approval(after, other) {
            let k = choose|k: int| 0 <= k < after.len() && (#[trigger] after[k]).operator == other;
            assert(approvals[k].operator == other);
        }
    }
    if one_per_operator(approvals) {
        assert forall|a: int, b: int| 0 <= a < b < after.len() implies (#[trigger] after[
            a
        ]).operator != (#[trigger] after[b]).operator by {
            if a != i && b != i {
                assert(after[a] == approvals[a]);
                assert(after[b] == approvals[b]);
            }
        }
    }
}

/// Taking back an approval that is not there is rejected with
/// `ApprovalNotFound`. Taking back one that is there removes that entry:
/// every other entry stays, in its order, and where the list had one
/// approval for an operator at most, the operator has none afterwards.
pub proof fn law_revoke(
    before: Ledger,
    sender: Seq<char>,
    operator: Seq<char>,
    token_id: u64,
)
    requires
        before.token(token_id) matches Some(token) && token.owner == sender,
    ensures
        ({
            let token = before.token(token_id).unwrap();
            let outcome = revoke_outcome(before, sender, operator, token_id);
            &&& !has_approval(token.approvals, operator) ==> outcome == Err::<
                (Ledger, ResponseView),
                ErrorView,
            >(ErrorView::ApprovalNotFound { operator })
            &&& has_approval(token.approvals, operator) ==> (outcome matches Ok((after, _))
                && after.token(token_id) matches Some(kept) && first_approval(
                token.approvals,
                operator,
            ) matches Some(i) && {
                &&& token.approvals[i].operator == operator
                &&& kept == TokenView { approvals: token.approvals.remove(i), ..token }
                &&& kept.approvals.len() == token.approvals.len() - 1
                &&& forall|k: int| 0 <= k < i ==> kept.approvals[k] == token.approvals[k]
                &&& forall|k: int|
                    i <= k < kept.approvals.len() ==> kept.approvals[k] == token.approvals[k + 1]
                &&& one_per_operator(token.approvals) ==> !has_approval(kept.approvals, operator)
                    && one_per_operator(kept.approvals)
            })
        }),
{
    let token = before.token(token_id).unwrap();
    if has_approval(token.approvals, operator) {
        lemma_first_approval_is_first(token.approvals, operator);
        let i = first_approval(token.approvals, operator).unwrap();
        let rest = token.approvals.remove(i);
        if one_per_operator(token.approvals) {
            assert forall|k: int| 0 <= k < rest.len() implies (#[trigger] rest[k]).operator
                != operator by {
                if k < i {
                    assert(rest[k] == token.approvals[k]);
                } else {
                    assert(rest[k] == token.approvals[k + 1]);
                    assert(token.approvals[i].operator != token.approvals[k + 1].operator);
                }
            }
            lemma_remove_keeps_unique(token.approvals, i);
        }
    }
}

/// A ledger holds only grants that the store can address.
pub open spec fn grants_fit(ledger: Ledger) -> bool {
    forall|owner: Seq<char>, operator: Seq<char>|
        #[trigger] ledger.operators.dom().contains((owner, operator)) ==> fits_key(owner)
}

/// What a store holds is a ledger whose grants the store can address.
pub proof fn law_store_grants_fit(deps: Deps)
    ensures
        grants_fit(ledger(deps)),
{
}

/// A blanket grant with the very expiration of the grant that is there is
/// rejected with `OperatorApproved`. With another expiration, not yet
/// reached, it takes the place of the grant that is there, and every other
/// grant, the tokens and the configuration stay as they were.
pub proof fn law_approve_all(
    before: Ledger,
    sender: Seq<char>,
    operator: Seq<char>,
    expires: Option<Expiration>,
    block: BlockInfo,
)
    requires
        grants_fit(before),
        before.grant(sender, operator) is Some,
    ensures
        ({
            let current = before.grant(sender, operator).unwrap();
            let asked = Expiration::or_never(expires);
            let outcome = approve_all_outcome(before, sender, operator, expires, block);
            &&& asked == current ==> outcome == Err::<(Ledger, ResponseView), ErrorView>(
                ErrorView::OperatorApproved { operator },
            )
            &&& asked != current && !asked.expired_at(block) ==> (outcome matches Ok((after, _))
                && after.grant(sender, operator) == Some(asked) && after.tokens == before.tokens
                && after.config == before.config && forall|o: Seq<char>, p: Seq<char>|
                (o, p) != (sender, operator) ==> #[trigger] after.grant(o, p) == before.grant(o, p))
        }),
{
    assert(before.operators.dom().contains((sender, operator)));
}

/// Taking back a blanket grant that is not there is rejected with
/// `ApprovalNotFound`. Taking back one that is there removes it and nothing
/// else.
pub proof fn law_revoke_all(before: Ledger, sender: Seq<char>, operator: Seq<char>)
    ensures
        ({
            let outcome = revoke_all_outcome(before, sender, operator);
            &&& before.grant(sender, operator) is None ==> outcome == Err::<
                (Ledger, ResponseView),
                ErrorView,
            >(ErrorView::ApprovalNotFound { operator })
            &&& before.grant(sender, operator) is Some ==> (outcome matches Ok((after, _))
                && after.grant(sender, operator) is None && after.tokens == before.tokens
                && after.config == before.config && forall|o: Seq<char>, p: Seq<char>|
                (o, p) != (sender, operator) ==> #[trigger] after.grant(o, p) == before.grant(o, p))
        }),
{
}

/// A transfer leaves the blanket grants alone, and so do a mint, an
/// approval and the taking back of an approval.
pub proof fn law_grants_outlive_tokens(
    before: Ledger,
    sender: Seq<char>,
    other: Seq<char>,
    token_id: u64,
    expires: Option<Expiration>,
    block: BlockInfo,
)
    ensures
        transfer_outcome(before, sender, other, token_id, block) matches Ok((after, _))
            ==> after.operators == before.operators,
        approve_outcome(before, sender, other, token_id, expires, block) matches Ok((after, _))
            ==> after.operators == before.operators,
        revoke_outcome(before, sender, other, token_id) matches Ok((after, _)) ==> after.operators
            == before.operators,
{
}

/// Without the expired ones, `OwnerOf` shows no approval whose expiration
/// is reached in the block of the query, and shows every other approval.
/// With the expired ones, it shows every approval.
pub proof fn law_owner_of_shows(token: TokenView, block: BlockInfo, include_expired: Option<bool>)
    ensures
        ({
            let answer = owner_of_spec(token, block, include_expired);
            &&& answer.owner == token.owner
            &&& with_expired(include_expired) ==> answer.approvals == token.approvals
            &&& !with_expired(include_expired) ==> forall|i: int|
                0 <= i < answer.approvals.len() ==> !(#[trigger] answer.approvals[
                    i
                ]).expires.expired_at(block)
            &&& forall|i: int|
                0 <= i < token.approvals.len() && !(#[trigger] token.approvals[
                    i
                ]).expires.expired_at(block) ==> answer.approvals.contains(token.approvals[i])
        }),
{
    let keep = shown(block, with_expired(include_expired));
    let answer = owner_of_spec(token, block, include_expired);
    if with_expired(include_expired) {
        lemma_filter_all(token.approvals, keep);
    } else {
        assert forall|i: int| 0 <= i < answer.approvals.len() implies !(#[trigger] answer.approvals[
            i
        ]).expires.expired_at(block) by {
            token.approvals.lemma_filter_pred(keep, i);
        }
    }
    assert forall|i: int|
        0 <= i < token.approvals.len() && !(#[trigger] token.approvals[i]).expires.expired_at(
            block,
        ) implies answer.approvals.contains(token.approvals[i]) by {
        token.approvals.lemma_filter_contains(keep, i);
    }
}

/// A filter that keeps everything keeps the list as it is.
proof fn lemma_filter_all(approvals: Seq<ApprovalView>, keep: spec_fn(ApprovalView) -> bool)
    requires
        forall|a: ApprovalView| #[trigger] keep(a),
    ensures
        approvals.filter(keep) == approvals,
    decreases approvals.len(),
{
    reveal(Seq::filter);
    if approvals.len() > 0 {
        lemma_filter_all(approvals.drop_last(), keep);
        assert(approvals.drop_last().push(approvals.last()) =~= approvals);
    }
}

/// A list with one approval for an operator at most stays so without one
/// of its entries.
proof fn lemma_remove_keeps_unique(approvals: Seq<ApprovalView>, i: int)
    requires
        one_per_operator(approvals),
        0 <= i < approvals.len(),
    ensures
        one_per_operator(approvals.remove(i)),
{
    let rest = approvals.remove(i);
    assert forall|a: int, b: int| 0 <= a < b < rest.len() implies (#[trigger] rest[a]).operator != (
    #[trigger] rest[b]).operator by {
        let x = if a < i {
            a
        } else {
            a + 1
        };
        let y = if b < i {
            b
        } else {
            b + 1
        };
        assert(rest[a] == approvals[x]);
        assert(rest[b] == approvals[y]);
        assert(approvals[x].operator != approvals[y].operator);
    }
}

/// A token is in order: no operator has two approvals of it, and its price
/// names at least one coin and no amount of zero.
pub open spec fn token_in_order(token: TokenView) -> bool {
    &&& one_per_operator(token.approvals)
    &&& token.base_price.len() > 0
    &&& forall|i: int| 0 <= i < token.base_price.len() ==> (#[trigger] token.base_price[i]).amount > 0
}

/// A ledger is in order: its tokens are numbered in the order of issue, each
/// of them is in order, the name and the symbol of the collection are not
/// empty, and the store can address every grant.
pub open spec fn ledger_in_order(ledger: Ledger) -> bool {
    &&& issued_in_order(ledger)
    &&& ledger.config matches Some(config) ==> config.name.len() > 0 && config.symbol.len() > 0
    &&& forall|id: u64| #[trigger]
        ledger.tokens.dom().contains(id) ==> token_in_order(ledger.tokens[id])
    &&& grants_fit(ledger)
}

/// Setting up a collection in a store without tokens gives a ledger in order.
pub proof fn law_instantiate_sets_order(
    before: Ledger,
    sender: Seq<char>,
    name: Seq<char>,
    symbol: Seq<char>,
)
    requires
        before.tokens.dom() =~= Set::empty(),
        grants_fit(before),
        instantiate_outcome(before, sender, name, symbol) is Ok,
    ensures
        ledger_in_order(instantiate_outcome(before, sender, name, symbol)->Ok_0.0),
{
}

/// Every command that succeeds on a ledger in order leaves a ledger in
/// order, with the name, the symbol and the minter that it had, and with
/// every token under the id that it had.
pub proof fn law_commands_keep_order(
    before: Ledger,
    block: BlockInfo,
    sender: Seq<char>,
    msg: ExecuteMsg,
)
    requires
        ledger_in_order(before),
        execute_outcome(before, block, sender, msg) is Ok,
    ensures
        ({
            let after = execute_outcome(before, block, sender, msg)->Ok_0.0;
            &&& ledger_in_order(after)
            &&& before.config matches Some(config) ==> (after.config matches Some(kept)
                && kept.name == config.name && kept.symbol == config.symbol && kept.minter
                == config.minter && kept.num_tokens >= config.num_tokens)
            &&& forall|id: u64| #[trigger]
                before.tokens.dom().contains(id) ==> after.tokens.dom().contains(id)
                    && after.tokens[id].token_id == before.tokens[id].token_id
                    && after.tokens[id].base_price == before.tokens[id].base_price
                    && after.tokens[id].token_uri == before.tokens[id].token_uri
        }),
{
    let after = execute_outcome(before, block, sender, msg)->Ok_0.0;
    match msg {
        ExecuteMsg::TransferNft { recipient, token_id } => {
            lemma_token_replaced(before, after, token_id);
        },
        ExecuteMsg::SendNft { contract, token_id, msg } => {
            lemma_token_replaced(before, after, token_id);
        },
        ExecuteMsg::Approve { operator, token_id, expires } => {
            let token = before.token(token_id).unwrap();
            law_approve_replaces(
                token.approvals,
                ApprovalView { operator: operator@, expires: Expiration::or_never(expires) },
            );
            lemma_token_replaced(before, after, token_id);
        },
        ExecuteMsg::Revoke { operator, token_id } => {
            law_revoke(before, sender, operator@, token_id);
            lemma_token_replaced(before, after, token_id);
        },
        ExecuteMsg::ApproveAll { operator, expires } => {
            assert(fits_key(sender));
        },
        ExecuteMsg::RevokeAll { operator } => {},
        ExecuteMsg::Mint(mint) => {
            law_mint_issues_next_id(
                before,
                sender,
                mint.owner@,
                mint.token_uri.deep_view(),
                mint.price.deep_view(),
            );
            let count = before.config.unwrap().num_tokens;
            assert forall|id: u64| #[trigger] after.tokens.dom().contains(id) implies token_in_order(
                after.tokens[id],
            ) by {
                if id != count + 1 {
                    assert(after.token(id) == before.token(id));
                    assert(before.tokens.dom().contains(id));
                } else {
                    assert(after.token(id) is Some);
                }
            }
            assert forall|id: u64| #[trigger] before.tokens.dom().contains(id) implies {
                &&& after.tokens.dom().contains(id)
                &&& after.tokens[id] == before.tokens[id]
            } by {
                assert(id != count + 1);
                assert(after.token(id) == before.token(id));
            }
        },
    }
}

/// Where a command put a token in order in the place of the token under
/// `token_id` and changed nothing else, the ledger stays in order.
proof fn lemma_token_replaced(before: Ledger, after: Ledger, token_id: u64)
    requires
        ledger_in_order(before),
        before.token(token_id) matches Some(token) && after == before.with_token(
            token_id,
            after.tokens[token_id],
        ) && after.tokens[token_id].token_id == token.token_id && token_in_order(
            after.tokens[token_id],
        ),
    ensures
        ledger_in_order(after),
        forall|id: u64| #[trigger]
            before.tokens.dom().contains(id) ==> after.tokens.dom().contains(id),
{
    assert forall|id: u64| #[trigger]
        after.tokens.dom().contains(id) == before.tokens.dom().contains(id) by {}
}

/// However a command ends, a ledger in order stays in order: the numbering
/// of the tokens is kept whether the command succeeds or fails. A mint that
/// succeeds raises the count of issued tokens by one; a command that fails
/// leaves the ledger as it was.
pub proof fn law_execute_keeps_order(
    r: Result<Response, ContractError>,
    before: Ledger,
    after: Ledger,
    block: BlockInfo,
    sender: Seq<char>,
    msg: ExecuteMsg,
)
    requires
        ledger_in_order(before),
        execute_follows(r, before, after, block, sender, msg),
    ensures
        ledger_in_order(after),
        r is Err ==> after == before,
        r is Ok && msg is Mint ==> after.config.unwrap().num_tokens
            == before.config.unwrap().num_tokens + 1,
        r is Ok && !(msg is Mint) ==> after.config == before.config,
{
    if r is Ok {
        law_commands_keep_order(before, block, sender, msg);
        if let ExecuteMsg::Mint(mint) = msg {
            law_mint_issues_next_id(
                before,
                sender,
                mint.owner@,
                mint.token_uri.deep_view(),
                mint.price.deep_view(),
            );
        }
    }
}

} // verus!
