//! The queries of the ledger: what a token costs, whose it is, who may
//! transfer it, and what the collection is.
//!
//! Each query reads what it needs from the host's store and lets a function
//! of the records alone make the answer.

use vstd::prelude::*;
use cosmwasm_std::StdError;
use crate::api::{validate, validate_maybe};
use crate::command::text_of;
use crate::env::{clone_coins, decimal, decimal_text, Addr, BlockInfo, Env};
use crate::host::{generic_err, generic_error, not_found, not_found_error, Deps};
use crate::msg::{
    AllNftInfoResponse,
    Approval,
    ApprovalView,
    ApprovedForAllResponse,
    ApprovedResponse,
    AskingPriceResponse,
    ContractInfoResponse,
    NftInfoResponse,
    NumTokensResponse,
    OperatorApproval,
    OperatorsResponse,
    OwnerOfResponse,
    OwnerOfView,
    QueryMsg,
    QueryResponse,
};
use crate::order::{
    all_after,
    all_before,
    all_granted,
    all_kept,
    ascending,
    covers,
    is_page_up_to,
    kept_grant,
    lemma_listing_head_len,
    lemma_page_complete,
    lemma_page_grows,
    lemma_page_read,
    lemma_page_starts,
};
use crate::rules::{find_approval, first_approval, shown, shown_approvals};
use crate::storage::after_cursor;
use crate::state::{
    granted_behind,
    ledger,
    list_operators,
    load_config,
    load_token,
    Ledger,
    State,
    TokenInfo,
    TokenView,
};

verus! {

/// The size of a page of operators where the query names none.
pub const DEFAULT_LIMIT: u32 = 10;

/// The largest page of operators.
pub const MAX_LIMIT: u32 = 30;

/// What the not-found error says of a token id that names no token.
pub open spec fn token_missing(token_id: u64) -> Seq<char> {
    "Unable to load token with token_id: "@ + decimal(token_id as nat)
}

/// What the error says where the collection was never set up.
pub open spec fn config_missing() -> Seq<char> {
    "Unable to load internal state"@
}

/// What the not-found error says where no approval is to be shown.
pub open spec fn approval_missing() -> Seq<char> {
    "Approval not found for given address"@
}

/// Reads the configuration; an error where the store holds none.
pub fn query_config(deps: &Deps) -> (r: Result<State, StdError>)
    ensures
        r matches Ok(state) ==> ledger(*deps).config == Some(state.deep_view()),
        ledger(*deps).config is None ==> r == Err::<State, StdError>(
            generic_error(config_missing()),
        ),
{
    match load_config(deps) {
        Ok(Some(state)) => Ok(state),
        Ok(None) => Err(generic_err("Unable to load internal state")),
        Err(e) => Err(e),
    }
}

/// Reads the token with this id; a not-found error where there is none.
pub fn query_tokens(deps: &Deps, token_id: u64) -> (r: Result<TokenInfo, StdError>)
    ensures
        r matches Ok(token) ==> ledger(*deps).token(token_id) == Some(token.deep_view()),
        ledger(*deps).token(token_id) is None ==> r == Err::<TokenInfo, StdError>(
            not_found_error(token_missing(token_id)),
        ),
{
    match load_token(deps, token_id) {
        Ok(Some(token)) => Ok(token),
        Ok(None) => {
            let number = decimal_text(token_id);
            let kind = "Unable to load token with token_id: ".to_owned().concat(number.as_str());
            Err(not_found(kind))
        },
        Err(e) => Err(e),
    }
}

/// Whether a query shows expired approvals: only where it asks for them.
pub open spec fn with_expired(include_expired: Option<bool>) -> bool {
    match include_expired {
        Some(expired_too) => expired_too,
        None => false,
    }
}

fn wants_expired(include_expired: Option<bool>) -> (r: bool)
    ensures
        r == with_expired(include_expired),
{
    match include_expired {
        Some(expired_too) => expired_too,
        None => false,
    }
}

/// The price of a token.
pub fn asking_price(token: &TokenInfo) -> (r: AskingPriceResponse)
    ensures
        r.price.deep_view() == token.deep_view().base_price,
{
    AskingPriceResponse { price: clone_coins(&token.base_price) }
}

/// The owner of a token, with the approvals that the query shows.
pub open spec fn owner_of_spec(
    token: TokenView,
    block: BlockInfo,
    include_expired: Option<bool>,
) -> OwnerOfView {
    OwnerOfView {
        owner: token.owner,
        approvals: token.approvals.filter(shown(block, with_expired(include_expired))),
    }
}

/// The owner of a token, with its approvals: all of them where the query
/// asks for the expired ones too, else those not yet expired.
pub fn owner_of(token: &TokenInfo, block: &BlockInfo, include_expired: Option<bool>) -> (r:
    OwnerOfResponse)
    ensures
        r.deep_view() == owner_of_spec(token.deep_view(), *block, include_expired),
{
    let include_expired = wants_expired(include_expired);
    let approvals = shown_approvals(&token.approvals, block, include_expired);
    OwnerOfResponse { owner: token.owner.as_str().to_owned(), approvals }
}

/// The approval of a token for an operator, as a query shows it: the first
/// one for the operator, unless it has expired and the query did not ask
/// for expired ones. An operator that the host did not validate is an error.
pub open spec fn approval_spec(
    token: TokenView,
    operator: Result<Seq<char>, StdError>,
    block: BlockInfo,
    include_expired: Option<bool>,
) -> Result<ApprovalView, StdError> {
    match operator {
        Err(e) => Err(e),
        Ok(operator) => match first_approval(token.approvals, operator) {
            None => Err(not_found_error(approval_missing())),
            Some(i) => if with_expired(include_expired) || !token.approvals[i].expires.expired_at(
                block,
            ) {
                Ok(ApprovalView { operator, expires: token.approvals[i].expires })
            } else {
                Err(not_found_error(approval_missing()))
            },
        },
    }
}

/// The approval of a token for one operator.
pub fn approval_for(
    token: &TokenInfo,
    operator: Result<Addr, StdError>,
    block: &BlockInfo,
    include_expired: Option<bool>,
) -> (r: Result<ApprovedResponse, StdError>)
    ensures
        match approval_spec(token.deep_view(), text_of(operator), *block, include_expired) {
            Ok(approval) => r matches Ok(resp) && resp.approval.deep_view() == approval,
            Err(e) => r == Err::<ApprovedResponse, StdError>(e),
        },
{
    let operator_addr = match operator {
        Ok(addr) => addr,
        Err(e) => {
            return Err(e);
        },
    };
    let include_expired = wants_expired(include_expired);
    match find_approval(&token.approvals, operator_addr.as_string()) {
        Some(i) => {
            if include_expired || !token.approvals[i].expires.is_expired(block) {
                let res = ApprovedResponse {
                    approval: Approval {
                        operator: operator_addr,
                        expires: token.approvals[i].expires,
                    },
                };
                return Ok(res);
            }
        },
        None => {},
    }
    Err(not_found("Approval not found for given address".to_owned()))
}

/// The approvals of a token that the query shows.
pub fn approvals_of(token: &TokenInfo, block: &BlockInfo, include_expired: Option<bool>) -> (r:
    ApprovedForAllResponse)
    ensures
        r.approval.deep_view() == token.deep_view().approvals.filter(
            shown(*block, with_expired(include_expired)),
        ),
{
    let include_expired = wants_expired(include_expired);
    ApprovedForAllResponse { approval: shown_approvals(&token.approvals, block, include_expired) }
}

/// The size of the page that a query asks for: ten where it names none,
/// and thirty at most.
pub open spec fn page_limit(limit: Option<u32>) -> nat {
    let asked = match limit {
        Some(n) => n,
        None => DEFAULT_LIMIT,
    };
    if asked <= MAX_LIMIT {
        asked as nat
    } else {
        MAX_LIMIT as nat
    }
}

/// A grant as the listing of operators shows it.
pub fn parse_approval(item: Approval) -> (r: OperatorApproval)
    ensures
        r.deep_view() == item.deep_view(),
{
    OperatorApproval { spender: item.operator.into_string(), expires: item.expires }
}

/// The size of the page that a query asks for.
pub fn page_size(limit: Option<u32>) -> (r: usize)
    ensures
        r == page_limit(limit),
{
    let asked = match limit {
        Some(n) => n,
        None => DEFAULT_LIMIT,
    };
    if asked <= MAX_LIMIT {
        asked as usize
    } else {
        MAX_LIMIT as usize
    }
}

/// Adds to a page the grants of a listing that the query shows, in their
/// order.
pub fn extend_page(
    page: &mut Vec<OperatorApproval>,
    listing: &Vec<Approval>,
    block: &BlockInfo,
    include_expired: Option<bool>,
)
    ensures
        final(page).deep_view() == old(page).deep_view() + listing.deep_view().filter(
            shown(*block, with_expired(include_expired)),
        ),
{
    let expired_too = wants_expired(include_expired);
    let kept = shown_approvals(listing, block, expired_too);
    let ghost before = page.deep_view();
    let mut i: usize = 0;
    assert(page.deep_view() =~= before + kept.deep_view().take(0));
    while i < kept.len()
        invariant
            i <= kept.len(),
            page.deep_view() == before + kept.deep_view().take(i as int),
        decreases kept.len() - i,
    {
        let ghost so_far = page.deep_view();
        page.push(parse_approval(kept[i].clone()));
        assert(page.deep_view() =~= so_far.push(kept[i as int].deep_view()));
        assert(kept.deep_view().take(i + 1) =~= kept.deep_view().take(i as int).push(
            kept[i as int].deep_view(),
        ));
        i += 1;
    }
    assert(kept.deep_view().take(i as int) =~= kept.deep_view());
}

/// The number of tokens issued so far.
pub fn num_tokens(config: &State) -> (r: NumTokensResponse)
    ensures
        r.tokens == config.num_tokens,
{
    NumTokensResponse { tokens: config.num_tokens }
}

/// The name and the symbol of the collection.
pub fn contract_info(config: State) -> (r: ContractInfoResponse)
    ensures
        r.name@ == config.name@,
        r.symbol@ == config.symbol@,
{
    ContractInfoResponse { name: config.name, symbol: config.symbol }
}

/// The metadata URI that a query shows: the token's own, or the word
/// `None` where it has none.
pub open spec fn uri_shown(token: TokenView) -> Seq<char> {
    match token.token_uri {
        Some(uri) => uri,
        None => "None"@,
    }
}

/// The metadata of a token.
pub fn nft_info(token: &TokenInfo) -> (r: NftInfoResponse)
    ensures
        r.token_uri@ == uri_shown(token.deep_view()),
{
    let token_uri = match &token.token_uri {
        Some(uri) => uri.clone(),
        None => "None".to_owned(),
    };
    NftInfoResponse { token_uri }
}

/// The owner, the approvals and the metadata of a token.
pub fn all_nft_info(token: &TokenInfo, block: &BlockInfo, include_expired: Option<bool>) -> (r:
    AllNftInfoResponse)
    ensures
        r.owner.deep_view() == owner_of_spec(token.deep_view(), *block, include_expired),
        r.info.token_uri@ == uri_shown(token.deep_view()),
{
    AllNftInfoResponse { owner: owner_of(token, block, include_expired), info: nft_info(token) }
}

/// The not-found error of a token id that names no token.
pub open spec fn no_token(token_id: u64) -> StdError {
    not_found_error(token_missing(token_id))
}

/// The error of a collection that was never set up.
pub open spec fn no_config() -> StdError {
    generic_error(config_missing())
}

/// What `AskingPrice` answers: the price of the token; the not-found error
/// where the token id names no token.
pub open spec fn asking_price_answers(
    r: Result<AskingPriceResponse, StdError>,
    ledger: Ledger,
    token_id: u64,
) -> bool {
    match ledger.token(token_id) {
        None => r == Err::<AskingPriceResponse, StdError>(no_token(token_id)),
        Some(token) => r matches Ok(resp) ==> resp.price.deep_view() == token.base_price,
    }
}

/// The price of a token.
pub fn query_asking_price(deps: &Deps, _env: Env, token_id: u64) -> (r: Result<
    AskingPriceResponse,
    StdError,
>)
    ensures
        asking_price_answers(r, ledger(*deps), token_id),
{
    let token_info = match query_tokens(deps, token_id) {
        Ok(token) => token,
        Err(e) => {
            return Err(e);
        },
    };
    Ok(asking_price(&token_info))
}

/// What `OwnerOf` answers: the owner of the token and the approvals that
/// the query shows; the not-found error where the token id names no token.
pub open spec fn owner_of_answers(
    r: Result<OwnerOfResponse, StdError>,
    ledger: Ledger,
    block: BlockInfo,
    token_id: u64,
    include_expired: Option<bool>,
) -> bool {
    match ledger.token(token_id) {
        None => r == Err::<OwnerOfResponse, StdError>(no_token(token_id)),
        Some(token) => r matches Ok(resp) ==> resp.deep_view() == owner_of_spec(
            token,
            block,
            include_expired,
        ),
    }
}

/// The owner of a token, and who may transfer it.
pub fn query_owner_of(deps: &Deps, env: Env, token_id: u64, include_expired: Option<bool>) -> (r:
    Result<OwnerOfResponse, StdError>)
    ensures
        owner_of_answers(r, ledger(*deps), env.block, token_id, include_expired),
{
    let token = match query_tokens(deps, token_id) {
        Ok(token) => token,
        Err(e) => {
            return Err(e);
        },
    };
    Ok(owner_of(&token, &env.block, include_expired))
}

/// What `Approval` answers: the approval of the token for `operator` as
/// the query shows it, and an error where there is none to show; the
/// not-found error where the token id names no token.
pub open spec fn approval_answers(
    r: Result<ApprovedResponse, StdError>,
    ledger: Ledger,
    block: BlockInfo,
    token_id: u64,
    operator: Seq<char>,
    include_expired: Option<bool>,
) -> bool {
    match ledger.token(token_id) {
        None => r == Err::<ApprovedResponse, StdError>(no_token(token_id)),
        Some(token) => match approval_spec(token, Ok(operator), block, include_expired) {
            Ok(approval) => r matches Ok(resp) ==> resp.approval.deep_view() == approval,
            Err(_) => r is Err,
        },
    }
}

/// The approval that `operator` has for a token.
pub fn query_approval(
    deps: &Deps,
    env: Env,
    token_id: u64,
    operator: String,
    include_expired: Option<bool>,
) -> (r: Result<ApprovedResponse, StdError>)
    ensures
        approval_answers(r, ledger(*deps), env.block, token_id, operator@, include_expired),
{
    let token = match query_tokens(deps, token_id) {
        Ok(token) => token,
        Err(e) => {
            return Err(e);
        },
    };
    let operator_addr = validate(deps, operator.as_str());
    approval_for(&token, operator_addr, &env.block, include_expired)
}

/// What `Approvals` answers: the approvals of the token that the query
/// shows; the not-found error where the token id names no token.
pub open spec fn approvals_answers(
    r: Result<ApprovedForAllResponse, StdError>,
    ledger: Ledger,
    block: BlockInfo,
    token_id: u64,
    include_expired: Option<bool>,
) -> bool {
    match ledger.token(token_id) {
        None => r == Err::<ApprovedForAllResponse, StdError>(no_token(token_id)),
        Some(token) => r matches Ok(resp) ==> resp.approval.deep_view() == token.approvals.filter(
            shown(block, with_expired(include_expired)),
        ),
    }
}

/// All approvals of a token.
pub fn query_approvals(deps: &Deps, env: Env, token_id: u64, include_expired: Option<bool>) -> (r:
    Result<ApprovedForAllResponse, StdError>)
    ensures
        approvals_answers(r, ledger(*deps), env.block, token_id, include_expired),
{
    let token = match query_tokens(deps, token_id) {
        Ok(token) => token,
        Err(e) => {
            return Err(e);
        },
    };
    Ok(approvals_of(&token, &env.block, include_expired))
}

/// Whether `page` holds, of the grants of `owner` that the query shows and
/// whose operator comes after the cursor, the first in ascending order of
/// the operators' bytes: all of them, or as many as the page takes.
pub open spec fn is_operators_page(
    page: Seq<ApprovalView>,
    ledger: Ledger,
    block: BlockInfo,
    owner: Seq<char>,
    include_expired: Option<bool>,
    start_after: Option<Seq<char>>,
    limit: Option<u32>,
) -> bool {
    let keep = shown(block, with_expired(include_expired));
    &&& page.len() <= page_limit(limit)
    &&& ascending(page)
    &&& all_granted(page, ledger, owner)
    &&& all_after(page, start_after)
    &&& all_kept(page, keep)
    &&& forall|operator: Seq<char>|
        #[trigger] kept_grant(ledger, keep, owner, operator) && after_cursor(start_after, operator)
            ==> covers(page, operator) || (page.len() == page_limit(limit) && all_before(
            page,
            operator,
        ))
}

/// What `AllOperators` answers: the page of the grants of `owner` that the
/// query asks for.
pub open spec fn operators_answers(
    r: Result<OperatorsResponse, StdError>,
    ledger: Ledger,
    block: BlockInfo,
    owner: Seq<char>,
    include_expired: Option<bool>,
    start_after: Option<Seq<char>>,
    limit: Option<u32>,
) -> bool {
    r matches Ok(resp) ==> is_operators_page(
        resp.operators.deep_view(),
        ledger,
        block,
        owner,
        include_expired,
        start_after,
        limit,
    )
}

/// The operators that may transfer every token of `owner`, page by page.
/// The grants are read as far as the page needs them, and no further.
pub fn query_approved_for_all(
    deps: &Deps,
    env: Env,
    owner: String,
    include_expired: Option<bool>,
    start_after: Option<String>,
    limit: Option<u32>,
) -> (r: Result<OperatorsResponse, StdError>)
    ensures
        operators_answers(
            r,
            ledger(*deps),
            env.block,
            owner@,
            include_expired,
            start_after.deep_view(),
            limit,
        ),
{
    let size = page_size(limit);
    let start_addr = match validate_maybe(deps, start_after) {
        Ok(start) => start,
        Err(e) => {
            return Err(e);
        },
    };
    let owner_addr = match validate(deps, owner.as_str()) {
        Ok(addr) => addr,
        Err(e) => {
            return Err(e);
        },
    };
    let ghost l = ledger(*deps);
    let ghost start = start_after.deep_view();
    let ghost keep = shown(env.block, with_expired(include_expired));
    let mut operators: Vec<OperatorApproval> = Vec::new();
    let mut cursor = start_addr;
    let mut more = true;
    proof {
        assert(operators.deep_view() =~= Seq::empty());
        lemma_page_starts(l, keep, owner@, start);
    }
    while more && operators.len() < size
        invariant
            l == ledger(*deps),
            owner_addr@ == owner@,
            keep == shown(env.block, with_expired(include_expired)),
            operators.len() <= size,
            is_page_up_to(operators.deep_view(), l, keep, owner@, start, cursor.deep_view()),
            !more ==> forall|operator: Seq<char>|
                #[trigger] kept_grant(l, keep, owner@, operator) && after_cursor(start, operator)
                    ==> covers(operators.deep_view(), operator),
        decreases
                granted_behind(l, owner@, cursor.deep_view()).len() + (if more {
                    1nat
                } else {
                    0nat
                }),
    {
        let want: usize = size - operators.len();
        let listing = match list_operators(deps, &owner_addr, &cursor, want) {
            Ok(listing) => listing,
            Err(e) => {
                return Err(e);
            },
        };
        let ghost page = operators.deep_view();
        let ghost behind = cursor.deep_view();
        assert(page.len() == operators.len());
        extend_page(&mut operators, &listing, &env.block, include_expired);
        proof {
            lemma_listing_head_len(listing.deep_view(), l, owner@, behind, want as nat);
            listing.deep_view().lemma_filter_len(keep);
            assert(operators.deep_view().len() == page.len() + listing.deep_view().filter(
                keep,
            ).len());
            assert(operators.deep_view().len() == operators.len());
        }
        if listing.len() > 0 {
            let last = &listing[listing.len() - 1];
            proof {
                assert(listing.deep_view()[listing.len() - 1] == last.deep_view());
                lemma_page_grows(
                    page,
                    listing.deep_view(),
                    l,
                    keep,
                    owner@,
                    start,
                    behind,
                    want as nat,
                );
            }
            cursor = Some(last.operator.clone());
        } else {
            proof {
                reveal(Seq::filter);
                assert(page + listing.deep_view().filter(keep) =~= page);
            }
        }
        if listing.len() < want {
            proof {
                lemma_page_complete(
                    page,
                    listing.deep_view(),
                    l,
                    keep,
                    owner@,
                    start,
                    behind,
                    want as nat,
                );
            }
            more = false;
        }
    }
    proof {
        lemma_page_read(operators.deep_view(), l, keep, owner@, start, cursor.deep_view());
    }
    Ok(OperatorsResponse { operators })
}

/// What `NumTokens` answers: the number of tokens issued so far; an error
/// where the collection was never set up.
pub open spec fn num_tokens_answers(r: Result<NumTokensResponse, StdError>, ledger: Ledger) -> bool {
    match ledger.config {
        None => r == Err::<NumTokensResponse, StdError>(no_config()),
        Some(config) => r matches Ok(resp) ==> resp.tokens == config.num_tokens,
    }
}

/// The number of tokens issued so far.
pub fn query_num_tokens(deps: &Deps, _env: Env) -> (r: Result<NumTokensResponse, StdError>)
    ensures
        num_tokens_answers(r, ledger(*deps)),
{
    let config = match query_config(deps) {
        Ok(config) => config,
        Err(e) => {
            return Err(e);
        },
    };
    Ok(num_tokens(&config))
}

/// What `ContractInfo` answers: the name and the symbol of the collection;
/// an error where the collection was never set up.
pub open spec fn contract_info_answers(
    r: Result<ContractInfoResponse, StdError>,
    ledger: Ledger,
) -> bool {
    match ledger.config {
        None => r == Err::<ContractInfoResponse, StdError>(no_config()),
        Some(config) => r matches Ok(resp) ==> resp.name@ == config.name && resp.symbol@
            == config.symbol,
    }
}

/// The name and the symbol of the collection.
pub fn query_contract_info(deps: &Deps, _env: Env) -> (r: Result<ContractInfoResponse, StdError>)
    ensures
        contract_info_answers(r, ledger(*deps)),
{
    let config = match query_config(deps) {
        Ok(config) => config,
        Err(e) => {
            return Err(e);
        },
    };
    Ok(contract_info(config))
}

/// What `NftInfo` answers: the metadata URI of the token as a query shows
/// it; the not-found error where the token id names no token.
pub open spec fn nft_info_answers(
    r: Result<NftInfoResponse, StdError>,
    ledger: Ledger,
    token_id: u64,
) -> bool {
    match ledger.token(token_id) {
        None => r == Err::<NftInfoResponse, StdError>(no_token(token_id)),
        Some(token) => r matches Ok(resp) ==> resp.token_uri@ == uri_shown(token),
    }
}

/// The metadata of a token.
pub fn query_nft_info(deps: &Deps, _env: Env, token_id: u64) -> (r: Result<
    NftInfoResponse,
    StdError,
>)
    ensures
        nft_info_answers(r, ledger(*deps), token_id),
{
    let token = match query_tokens(deps, token_id) {
        Ok(token) => token,
        Err(e) => {
            return Err(e);
        },
    };
    Ok(nft_info(&token))
}

/// What `AllNftInfo` answers: what `OwnerOf` and `NftInfo` answer, together.
pub open spec fn all_nft_info_answers(
    r: Result<AllNftInfoResponse, StdError>,
    ledger: Ledger,
    block: BlockInfo,
    token_id: u64,
    include_expired: Option<bool>,
) -> bool {
    match ledger.token(token_id) {
        None => r == Err::<AllNftInfoResponse, StdError>(no_token(token_id)),
        Some(token) => r matches Ok(resp) ==> resp.owner.deep_view() == owner_of_spec(
            token,
            block,
            include_expired,
        ) && resp.info.token_uri@ == uri_shown(token),
    }
}

/// The owner, the approvals and the metadata of a token.
pub fn query_all_nft_info(
    deps: &Deps,
    env: Env,
    token_id: u64,
    include_expired: Option<bool>,
) -> (r: Result<AllNftInfoResponse, StdError>)
    ensures
        all_nft_info_answers(r, ledger(*deps), env.block, token_id, include_expired),
{
    let token = match query_tokens(deps, token_id) {
        Ok(token) => token,
        Err(e) => {
            return Err(e);
        },
    };
    Ok(all_nft_info(&token, &env.block, include_expired))
}

/// What a query answers, by the kind of query: the answer of that kind.
pub open spec fn query_answers(
    r: Result<QueryResponse, StdError>,
    ledger: Ledger,
    block: BlockInfo,
    msg: QueryMsg,
) -> bool {
    match msg {
        QueryMsg::AskingPrice { token_id } => match r {
            Ok(QueryResponse::AskingPrice(resp)) => asking_price_answers(
                Ok(resp),
                ledger,
                token_id,
            ),
            Err(e) => asking_price_answers(Err(e), ledger, token_id),
            _ => false,
        },
        QueryMsg::OwnerOf { token_id, include_expired } => match r {
            Ok(QueryResponse::OwnerOf(resp)) => owner_of_answers(
                Ok(resp),
                ledger,
                block,
                token_id,
                include_expired,
            ),
            Err(e) => owner_of_answers(Err(e), ledger, block, token_id, include_expired),
            _ => false,
        },
        QueryMsg::Approval { token_id, operator, include_expired } => match r {
            Ok(QueryResponse::Approval(resp)) => approval_answers(
                Ok(resp),
                ledger,
                block,
                token_id,
                operator@,
                include_expired,
            ),
            Err(e) => approval_answers(
                Err(e),
                ledger,
                block,
                token_id,
                operator@,
                include_expired,
            ),
            _ => false,
        },
        QueryMsg::Approvals { token_id, include_expired } => match r {
            Ok(QueryResponse::Approvals(resp)) => approvals_answers(
                Ok(resp),
                ledger,
                block,
                token_id,
                include_expired,
            ),
            Err(e) => approvals_answers(Err(e), ledger, block, token_id, include_expired),
            _ => false,
        },
        QueryMsg::AllOperators { owner, include_expired, start_after, limit } => match r {
            Ok(QueryResponse::AllOperators(resp)) => operators_answers(
                Ok(resp),
                ledger,
                block,
                owner@,
                include_expired,
                start_after.deep_view(),
                limit,
            ),
            Err(e) => true,
            _ => false,
        },
        QueryMsg::NumTokens {  } => match r {
            Ok(QueryResponse::NumTokens(resp)) => num_tokens_answers(Ok(resp), ledger),
            Err(e) => num_tokens_answers(Err(e), ledger),
            _ => false,
        },
        QueryMsg::ContractInfo {  } => match r {
            Ok(QueryResponse::ContractInfo(resp)) => contract_info_answers(Ok(resp), ledger),
            Err(e) => contract_info_answers(Err(e), ledger),
            _ => false,
        },
        QueryMsg::NftInfo { token_id } => match r {
            Ok(QueryResponse::NftInfo(resp)) => nft_info_answers(Ok(resp), ledger, token_id),
            Err(e) => nft_info_answers(Err(e), ledger, token_id),
            _ => false,
        },
        QueryMsg::AllNftInfo { token_id, include_expired } => match r {
            Ok(QueryResponse::AllNftInfo(resp)) => all_nft_info_answers(
                Ok(resp),
                ledger,
                block,
                token_id,
                include_expired,
            ),
            Err(e) => all_nft_info_answers(Err(e), ledger, block, token_id, include_expired),
            _ => false,
        },
    }
}

/// Answers one query.
pub fn query(deps: &Deps, env: Env, msg: QueryMsg) -> (r: Result<QueryResponse, StdError>)
    ensures
        query_answers(r, ledger(*deps), env.block, msg),
{
    match msg {
        QueryMsg::AskingPrice { token_id } => match query_asking_price(deps, env, token_id) {
            Ok(resp) => Ok(QueryResponse::AskingPrice(resp)),
            Err(e) => Err(e),
        },
        QueryMsg::OwnerOf { token_id, include_expired } => match query_owner_of(
            deps,
            env,
            token_id,
            include_expired,
        ) {
            Ok(resp) => Ok(QueryResponse::OwnerOf(resp)),
            Err(e) => Err(e),
        },
        QueryMsg::Approval { token_id, operator, include_expired } => match query_approval(
            deps,
            env,
            token_id,
            operator,
            include_expired,
        ) {
            Ok(resp) => Ok(QueryResponse::Approval(resp)),
            Err(e) => Err(e),
        },
        QueryMsg::Approvals { token_id, include_expired } => match query_approvals(
            deps,
            env,
            token_id,
            include_expired,
        ) {
            Ok(resp) => Ok(QueryResponse::Approvals(resp)),
            Err(e) => Err(e),
        },
        QueryMsg::AllOperators {
            owner,
            include_expired,
            start_after,
            limit,
        } => match query_approved_for_all(deps, env, owner, include_expired, start_after, limit) {
            Ok(resp) => Ok(QueryResponse::AllOperators(resp)),
            Err(e) => Err(e),
        },
        QueryMsg::NumTokens {  } => match query_num_tokens(deps, env) {
            Ok(resp) => Ok(QueryResponse::NumTokens(resp)),
            Err(e) => Err(e),
        },
        QueryMsg::ContractInfo {  } => match query_contract_info(deps, env) {
            Ok(resp) => Ok(QueryResponse::ContractInfo(resp)),
            Err(e) => Err(e),
        },
        QueryMsg::NftInfo { token_id } => match query_nft_info(deps, env, token_id) {
            Ok(resp) => Ok(QueryResponse::NftInfo(resp)),
            Err(e) => Err(e),
        },
        QueryMsg::AllNftInfo { token_id, include_expired } => match query_all_nft_info(
            deps,
            env,
            token_id,
            include_expired,
        ) {
            Ok(resp) => Ok(QueryResponse::AllNftInfo(resp)),
            Err(e) => Err(e),
        },
    }
}

} // verus!
