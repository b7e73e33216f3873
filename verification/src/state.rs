//! What the ledger keeps: the configuration, the tokens and the blanket
//! grants, and how each is read from the store and written to it.

use vstd::prelude::*;
use vstd::utf8::encode_utf8;
use cosmwasm_std::StdError;
use crate::env::{Addr, Coin, CoinView, Expiration, Timestamp};
use crate::host::{deps_ref, generic_err, generic_error, Deps, DepsMut};
use crate::msg::{Approval, ApprovalView};
use crate::storage::{
    config_may_load,
    config_save,
    after_cursor,
    bytes_lt,
    fits_key,
    grants_behind,
    is_listing_head,
    operator_has,
    operator_may_load,
    operator_range,
    operator_remove,
    operator_save,
    stored_config,
    stored_operators,
    stored_tokens,
    token_may_load,
    token_save,
    ConfigRecord,
    ConfigRecordView,
    ExpirationRecord,
    TokenRecord,
    TokenRecordView,
    MAX_KEY_PREFIX,
};

verus! {

/// The configuration of the collection.
#[derive(Debug, Clone, PartialEq, Eq)]
pub struct State {
    pub name: String,
    pub symbol: String,
    pub minter: Addr,
    pub num_tokens: u64,
}

/// A configuration with its texts as sequences of characters.
pub struct StateView {
    pub name: Seq<char>,
    pub symbol: Seq<char>,
    pub minter: Seq<char>,
    pub num_tokens: u64,
}

impl DeepView for State {
    type V = StateView;

    open spec fn deep_view(&self) -> StateView {
        StateView {
            name: self.name@,
            symbol: self.symbol@,
            minter: self.minter@,
            num_tokens: self.num_tokens,
        }
    }
}

/// One token of the collection.
#[derive(Debug, Clone, PartialEq, Eq)]
pub struct TokenInfo {
    /// Owner of the token
    pub owner: Addr,
    /// Who else may transfer this token; at most one entry for an operator
    pub approvals: Vec<Approval>,
    /// Base price of this token
    pub base_price: Vec<Coin>,
    /// Where the token's metadata is to be found
    pub token_uri: Option<String>,
    /// The token's number in the order of issue, from 1
    pub token_id: u64,
}

/// A token with its texts as sequences of characters.
pub struct TokenView {
    pub owner: Seq<char>,
    pub approvals: Seq<ApprovalView>,
    pub base_price: Seq<CoinView>,
    pub token_uri: Option<Seq<char>>,
    pub token_id: u64,
}

impl DeepView for TokenInfo {
    type V = TokenView;

    open spec fn deep_view(&self) -> TokenView {
        TokenView {
            owner: self.owner@,
            approvals: self.approvals.deep_view(),
            base_price: self.base_price.deep_view(),
            token_uri: self.token_uri.deep_view(),
            token_id: self.token_id,
        }
    }
}

/// The expiration that a stored record stands for.
pub open spec fn expiration_of(record: ExpirationRecord) -> Expiration {
    match record {
        None => Expiration::Never,
        Some((by_time, n)) => if by_time {
            Expiration::AtTime(Timestamp(n))
        } else {
            Expiration::AtHeight(n)
        },
    }
}

/// The approval that a stored pair stands for.
pub open spec fn approval_of(record: (Seq<char>, ExpirationRecord)) -> ApprovalView {
    ApprovalView { operator: record.0, expires: expiration_of(record.1) }
}

/// The coin that a stored pair stands for.
pub open spec fn coin_of(record: (u128, Seq<char>)) -> CoinView {
    CoinView { denom: record.1, amount: record.0 }
}

/// The configuration that a stored record stands for.
pub open spec fn state_of(record: ConfigRecordView) -> StateView {
    StateView { name: record.0, symbol: record.1, minter: record.2, num_tokens: record.3 }
}

/// The token that a stored record stands for.
pub open spec fn token_of(record: TokenRecordView) -> TokenView {
    TokenView {
        owner: record.0,
        approvals: record.1.map_values(|a: (Seq<char>, ExpirationRecord)| approval_of(a)),
        base_price: record.2.map_values(|c: (u128, Seq<char>)| coin_of(c)),
        token_uri: record.3,
        token_id: record.4,
    }
}

/// The record that stands for an expiration.
pub open spec fn record_of_expiration(expires: Expiration) -> ExpirationRecord {
    match expires {
        Expiration::Never => None,
        Expiration::AtHeight(height) => Some((false, height)),
        Expiration::AtTime(time) => Some((true, time.0)),
    }
}

/// The record that stands for a configuration.
pub open spec fn record_of_state(state: StateView) -> ConfigRecordView {
    (state.name, state.symbol, state.minter, state.num_tokens)
}

/// The record that stands for a token.
pub open spec fn record_of_token(token: TokenView) -> TokenRecordView {
    (
        token.owner,
        token.approvals.map_values(
            |a: ApprovalView| (a.operator, record_of_expiration(a.expires)),
        ),
        token.base_price.map_values(|c: CoinView| (c.amount, c.denom)),
        token.token_uri,
        token.token_id,
    )
}

/// The contents of the store, as the ledger reads them.
pub struct Ledger {
    /// The configuration, once the collection is set up
    pub config: Option<StateView>,
    /// The tokens, by token id
    pub tokens: Map<u64, TokenView>,
    /// The blanket grants, by owner and operator
    pub operators: Map<(Seq<char>, Seq<char>), Expiration>,
}

/// What the store behind a read-only handle holds. A grant counts only where
/// the store can address it.
pub open spec fn ledger(deps: Deps) -> Ledger {
    Ledger {
        config: match stored_config(deps) {
            Some(record) => Some(state_of(record)),
            None => None,
        },
        tokens: stored_tokens(deps).map_values(|record: TokenRecordView| token_of(record)),
        operators: Map::new(
            |key: (Seq<char>, Seq<char>)|
                stored_operators(deps).dom().contains(key) && fits_key(key.0),
            |key: (Seq<char>, Seq<char>)| expiration_of(stored_operators(deps)[key]),
        ),
    }
}

/// What the store behind a handle holds.
pub open spec fn ledger_mut(deps: DepsMut) -> Ledger {
    ledger(deps_ref(deps))
}

impl Ledger {
    /// The token with this id, if it was issued.
    pub open spec fn token(self, token_id: u64) -> Option<TokenView> {
        if self.tokens.dom().contains(token_id) {
            Some(self.tokens[token_id])
        } else {
            None
        }
    }

    /// The blanket grant of `owner` to `operator`, if there is one.
    pub open spec fn grant(self, owner: Seq<char>, operator: Seq<char>) -> Option<Expiration> {
        if self.operators.dom().contains((owner, operator)) {
            Some(self.operators[(owner, operator)])
        } else {
            None
        }
    }
}

/// The record that stands for an expiration.
pub fn expiration_to_record(expires: Expiration) -> (r: ExpirationRecord)
    ensures
        r == record_of_expiration(expires),
        expiration_of(r) == expires,
{
    match expires {
        Expiration::Never => None,
        Expiration::AtHeight(height) => Some((false, height)),
        Expiration::AtTime(time) => Some((true, time.0)),
    }
}

/// The expiration that a record stands for.
pub fn expiration_from_record(record: ExpirationRecord) -> (r: Expiration)
    ensures
        r == expiration_of(record),
{
    match record {
        None => Expiration::Never,
        Some((by_time, n)) => if by_time {
            Expiration::AtTime(Timestamp(n))
        } else {
            Expiration::AtHeight(n)
        },
    }
}

impl State {
    /// The record that stands for the configuration.
    pub fn to_record(&self) -> (r: ConfigRecord)
        ensures
            r.deep_view() == record_of_state(self.deep_view()),
            state_of(r.deep_view()) == self.deep_view(),
    {
        (
            self.name.clone(),
            self.symbol.clone(),
            self.minter.as_str().to_owned(),
            self.num_tokens,
        )
    }

    /// The configuration that a record stands for.
    pub fn from_record(record: ConfigRecord) -> (r: State)
        ensures
            r.deep_view() == state_of(record.deep_view()),
    {
        let (name, symbol, minter, num_tokens) = record;
        State { name, symbol, minter: Addr::unchecked(minter.as_str()), num_tokens }
    }
}

impl TokenInfo {
    /// The record that stands for the token.
    pub fn to_record(&self) -> (r: TokenRecord)
        ensures
            r.deep_view() == record_of_token(self.deep_view()),
            token_of(r.deep_view()) == self.deep_view(),
    {
        let mut approvals: Vec<(String, ExpirationRecord)> = Vec::new();
        let mut i: usize = 0;
        while i < self.approvals.len()
            invariant
                i <= self.approvals.len(),
                approvals.len() == i,
                forall|k: int|
                    0 <= k < i ==> approval_of(#[trigger] approvals[k].deep_view())
                        == self.approvals[k].deep_view(),
                forall|k: int|
                    0 <= k < i ==> #[trigger] approvals[k].deep_view() == (
                        self.approvals[k].operator@,
                        record_of_expiration(self.approvals[k].expires),
                    ),
            decreases self.approvals.len() - i,
        {
            let approval = &self.approvals[i];
            approvals.push(
                (approval.operator.as_str().to_owned(), expiration_to_record(approval.expires)),
            );
            i += 1;
        }
        let mut price: Vec<(u128, String)> = Vec::new();
        let mut j: usize = 0;
        while j < self.base_price.len()
            invariant
                j <= self.base_price.len(),
                price.len() == j,
                forall|k: int|
                    0 <= k < j ==> coin_of(#[trigger] price[k].deep_view())
                        == self.base_price[k].deep_view(),
                forall|k: int|
                    0 <= k < j ==> #[trigger] price[k].deep_view() == (
                        self.base_price[k].amount,
                        self.base_price[k].denom@,
                    ),
            decreases self.base_price.len() - j,
        {
            let coin = &self.base_price[j];
            price.push((coin.amount, coin.denom.clone()));
            j += 1;
        }
        let token_uri = match &self.token_uri {
            Some(uri) => Some(uri.clone()),
            None => None,
        };
        let record = (self.owner.as_str().to_owned(), approvals, price, token_uri, self.token_id);
        proof {
            let view = token_of(record.deep_view());
            assert(view.approvals =~= self.approvals.deep_view());
            assert(view.base_price =~= self.base_price.deep_view());
            let stored = record_of_token(self.deep_view());
            assert(record.deep_view().1 =~= stored.1);
            assert(record.deep_view().2 =~= stored.2);
        }
        record
    }

    /// The token that a record stands for.
    pub fn from_record(record: &TokenRecord) -> (r: TokenInfo)
        ensures
            r.deep_view() == token_of(record.deep_view()),
    {
        let mut approvals: Vec<Approval> = Vec::new();
        let mut i: usize = 0;
        while i < record.1.len()
            invariant
                i <= record.1.len(),
                approvals.len() == i,
                forall|k: int|
                    0 <= k < i ==> #[trigger] approvals[k].deep_view() == approval_of(
                        record.1[k].deep_view(),
                    ),
            decreases record.1.len() - i,
        {
            let entry = &record.1[i];
            approvals.push(
                Approval {
                    operator: Addr::unchecked(entry.0.as_str()),
                    expires: expiration_from_record(entry.1),
                },
            );
            i += 1;
        }
        let mut base_price: Vec<Coin> = Vec::new();
        let mut j: usize = 0;
        while j < record.2.len()
            invariant
                j <= record.2.len(),
                base_price.len() == j,
                forall|k: int|
                    0 <= k < j ==> #[trigger] base_price[k].deep_view() == coin_of(
                        record.2[k].deep_view(),
                    ),
            decreases record.2.len() - j,
        {
            let entry = &record.2[j];
            base_price.push(Coin { denom: entry.1.clone(), amount: entry.0 });
            j += 1;
        }
        let token_uri = match &record.3 {
            Some(uri) => Some(uri.clone()),
            None => None,
        };
        let token = TokenInfo {
            owner: Addr::unchecked(record.0.as_str()),
            approvals,
            base_price,
            token_uri,
            token_id: record.4,
        };
        proof {
            let view = token_of(record.deep_view());
            assert(token.deep_view().approvals =~= view.approvals);
            assert(token.deep_view().base_price =~= view.base_price);
        }
        token
    }
}

impl Ledger {
    /// The ledger with `config` as its configuration.
    pub open spec fn with_config(self, config: StateView) -> Ledger {
        Ledger { config: Some(config), ..self }
    }

    /// The ledger with `token` under `token_id`.
    pub open spec fn with_token(self, token_id: u64, token: TokenView) -> Ledger {
        Ledger { tokens: self.tokens.insert(token_id, token), ..self }
    }

    /// The ledger with a grant of `owner` to `operator` that ends at `expires`.
    pub open spec fn with_grant(
        self,
        owner: Seq<char>,
        operator: Seq<char>,
        expires: Expiration,
    ) -> Ledger {
        Ledger { operators: self.operators.insert((owner, operator), expires), ..self }
    }

    /// The ledger without a grant of `owner` to `operator`.
    pub open spec fn without_grant(self, owner: Seq<char>, operator: Seq<char>) -> Ledger {
        Ledger { operators: self.operators.remove((owner, operator)), ..self }
    }
}

/// Two ledgers with the same configuration, tokens and grants are one ledger.
pub proof fn lemma_ledger_ext(a: Ledger, b: Ledger)
    requires
        a.config == b.config,
        a.tokens =~= b.tokens,
        a.operators =~= b.operators,
    ensures
        a == b,
{
}

/// The operators that have a grant of `owner` in the ledger and come after
/// the cursor.
pub open spec fn granted_behind(
    ledger: Ledger,
    owner: Seq<char>,
    start_after: Option<Seq<char>>,
) -> Set<Seq<char>> {
    Set::new(
        |operator: Seq<char>|
            ledger.grant(owner, operator) is Some && after_cursor(start_after, operator),
    )
}

/// Whether `list` holds the first grants of `owner` whose operator comes
/// after the cursor, in ascending order of the operators' bytes: all of
/// them, or `at_most` where there are more. The ledger holds finitely many.
#[verifier::opaque]
pub open spec fn is_grant_listing_head(
    list: Seq<ApprovalView>,
    ledger: Ledger,
    owner: Seq<char>,
    start_after: Option<Seq<char>>,
    at_most: nat,
) -> bool {
    &&& list.len() <= at_most
    &&& forall|i: int|
        0 <= i < list.len() ==> {
            &&& ledger.grant(owner, (#[trigger] list[i]).operator) == Some(list[i].expires)
            &&& after_cursor(start_after, list[i].operator)
        }
    &&& forall|i: int, j: int|
        0 <= i < j < list.len() ==> bytes_lt(
            encode_utf8((#[trigger] list[i]).operator),
            encode_utf8((#[trigger] list[j]).operator),
        )
    &&& forall|operator: Seq<char>|
        (#[trigger] ledger.grant(owner, operator)) is Some && after_cursor(start_after, operator)
            ==> {
            ||| exists|i: int| 0 <= i < list.len() && (#[trigger] list[i]).operator == operator
            ||| (list.len() == at_most && forall|i: int|
                0 <= i < list.len() ==> bytes_lt(
                    encode_utf8((#[trigger] list[i]).operator),
                    encode_utf8(operator),
                ))
        }
    &&& granted_behind(ledger, owner, start_after).finite()
}

/// Reads the configuration, if the store holds one.
pub fn load_config(deps: &Deps) -> (r: Result<Option<State>, StdError>)
    ensures
        r matches Ok(found) ==> found.deep_view() == ledger(*deps).config,
        ledger(*deps).config is None ==> r is Ok,
{
    match config_may_load(deps) {
        Ok(Some(record)) => Ok(Some(State::from_record(record))),
        Ok(None) => Ok(None),
        Err(e) => Err(e),
    }
}

/// Writes the configuration.
pub fn save_config(deps: &mut DepsMut, state: &State) -> (r: Result<(), StdError>)
    ensures
        r is Ok,
        ledger_mut(*final(deps)) == ledger_mut(*old(deps)).with_config(state.deep_view()),
{
    let record = state.to_record();
    let r = config_save(deps, &record);
    proof {
        lemma_ledger_ext(
            ledger_mut(*deps),
            ledger_mut(*old(deps)).with_config(state.deep_view()),
        );
    }
    r
}

/// Reads the token with this id, if the store holds one.
pub fn load_token(deps: &Deps, token_id: u64) -> (r: Result<Option<TokenInfo>, StdError>)
    ensures
        r matches Ok(found) ==> found.deep_view() == ledger(*deps).token(token_id),
        ledger(*deps).token(token_id) is None ==> r is Ok,
{
    match token_may_load(deps, token_id) {
        Ok(Some(record)) => Ok(Some(TokenInfo::from_record(&record))),
        Ok(None) => Ok(None),
        Err(e) => Err(e),
    }
}

/// Writes a token under `token_id`.
pub fn save_token(deps: &mut DepsMut, token_id: u64, token: &TokenInfo) -> (r: Result<
    (),
    StdError,
>)
    ensures
        r is Ok,
        ledger_mut(*final(deps)) == ledger_mut(*old(deps)).with_token(token_id, token.deep_view()),
{
    let record = token.to_record();
    let r = token_save(deps, token_id, &record);
    proof {
        lemma_ledger_ext(
            ledger_mut(*deps),
            ledger_mut(*old(deps)).with_token(token_id, token.deep_view()),
        );
    }
    r
}

/// Whether the store can address the grants of this owner.
pub fn can_key(owner: &Addr) -> (r: bool)
    ensures
        r == fits_key(owner@),
{
    owner.as_str().as_bytes().len() <= MAX_KEY_PREFIX
}

/// Reads the grant of `owner` to `operator`, if the store holds one.
pub fn load_operator(deps: &Deps, owner: &Addr, operator: &Addr) -> (r: Result<
    Option<Expiration>,
    StdError,
>)
    ensures
        r matches Ok(found) ==> found == ledger(*deps).grant(owner@, operator@),
        ledger(*deps).grant(owner@, operator@) is None ==> r is Ok,
{
    if !can_key(owner) {
        return Ok(None);
    }
    match operator_may_load(deps, owner.as_str(), operator.as_str()) {
        Ok(Some(record)) => Ok(Some(expiration_from_record(record))),
        Ok(None) => Ok(None),
        Err(e) => Err(e),
    }
}

/// Whether the store holds a grant of `owner` to `operator`.
pub fn has_operator(deps: &Deps, owner: &Addr, operator: &Addr) -> (r: bool)
    ensures
        r == ledger(*deps).grant(owner@, operator@) is Some,
{
    can_key(owner) && operator_has(deps, owner.as_str(), operator.as_str())
}

/// What the error says of an owner whose address the store cannot use as a key.
pub open spec fn owner_too_long() -> Seq<char> {
    "owner cannot hold grants"@
}

/// Writes the grant of `owner` to `operator`. It fails for an owner whose
/// address the store cannot use as a key, and for no other; nothing has
/// changed then.
pub fn save_operator(deps: &mut DepsMut, owner: &Addr, operator: &Addr, expires: Expiration) -> (r:
    Result<(), StdError>)
    ensures
        r is Ok <==> fits_key(owner@),
        r is Ok ==> ledger_mut(*final(deps)) == ledger_mut(*old(deps)).with_grant(
            owner@,
            operator@,
            expires,
        ),
        r is Err ==> r == Err::<(), StdError>(generic_error(owner_too_long())) && ledger_mut(
            *final(deps),
        ) == ledger_mut(*old(deps)),
{
    if !can_key(owner) {
        return Err(generic_err("owner cannot hold grants"));
    }
    let record = expiration_to_record(expires);
    let r = operator_save(deps, owner.as_str(), operator.as_str(), &record);
    proof {
        lemma_ledger_ext(
            ledger_mut(*deps),
            ledger_mut(*old(deps)).with_grant(owner@, operator@, expires),
        );
    }
    r
}

/// Deletes the grant of `owner` to `operator`, if the store holds one.
pub fn remove_operator(deps: &mut DepsMut, owner: &Addr, operator: &Addr)
    ensures
        ledger_mut(*final(deps)) == ledger_mut(*old(deps)).without_grant(owner@, operator@),
{
    if can_key(owner) {
        operator_remove(deps, owner.as_str(), operator.as_str());
    }
    proof {
        lemma_ledger_ext(
            ledger_mut(*deps),
            ledger_mut(*old(deps)).without_grant(owner@, operator@),
        );
    }
}

/// Reads the first grants of `owner` whose operator comes after the cursor,
/// in ascending order of the operators' bytes: all of them, or `at_most`
/// where there are more. An owner whose address the store cannot use as a
/// key has no grants: the store is not asked.
pub fn list_operators(
    deps: &Deps,
    owner: &Addr,
    start_after: &Option<Addr>,
    at_most: usize,
) -> (r: Result<Vec<Approval>, StdError>)
    ensures
        r matches Ok(list) ==> is_grant_listing_head(
            list.deep_view(),
            ledger(*deps),
            owner@,
            start_after.deep_view(),
            at_most as nat,
        ),
        !fits_key(owner@) ==> (r matches Ok(list) && list.len() == 0),
{
    if !can_key(owner) {
        proof {
            reveal(is_grant_listing_head);
            assert(granted_behind(ledger(*deps), owner@, start_after.deep_view())
                =~= Set::empty());
        }
        return Ok(Vec::new());
    }
    let cursor: Option<&str> = match start_after {
        Some(addr) => Some(addr.as_str()),
        None => None,
    };
    let records = match operator_range(deps, owner.as_str(), cursor, at_most) {
        Ok(records) => records,
        Err(e) => {
            return Err(e);
        },
    };
    let list = grants_of_records(&records);
    proof {
        reveal(is_grant_listing_head);
        let found = list.deep_view();
        let raw = records.deep_view();
        let l = ledger(*deps);
        let start = start_after.deep_view();
        assert(cursor.deep_view() == start);
        assert(is_listing_head(raw, stored_operators(*deps), owner@, start, at_most as nat));
        assert(forall|k: int| 0 <= k < found.len() ==> #[trigger] found[k] == approval_of(raw[k]));
        assert forall|k: int| 0 <= k < found.len() implies {
            &&& l.grant(owner@, (#[trigger] found[k]).operator) == Some(found[k].expires)
            &&& after_cursor(start, found[k].operator)
        } by {
            assert(stored_operators(*deps).contains_pair((owner@, raw[k].0), raw[k].1));
        }
        assert forall|a: int, b: int| 0 <= a < b < found.len() implies bytes_lt(
            encode_utf8((#[trigger] found[a]).operator),
            encode_utf8((#[trigger] found[b]).operator),
        ) by {
            assert(found[a].operator == raw[a].0);
            assert(found[b].operator == raw[b].0);
        }
        assert forall|operator: Seq<char>|
            (#[trigger] l.grant(owner@, operator)) is Some && after_cursor(
                start,
                operator,
            ) implies {
            ||| exists|k: int| 0 <= k < found.len() && (#[trigger] found[k]).operator == operator
            ||| (found.len() == at_most && forall|k: int|
                0 <= k < found.len() ==> bytes_lt(
                    encode_utf8((#[trigger] found[k]).operator),
                    encode_utf8(operator),
                ))
        } by {
            assert(stored_operators(*deps).dom().contains((owner@, operator)));
            if exists|k: int| 0 <= k < raw.len() && (#[trigger] raw[k]).0 == operator {
                let k = choose|k: int| 0 <= k < raw.len() && (#[trigger] raw[k]).0 == operator;
                assert(found[k].operator == operator);
            } else {
                assert forall|k: int| 0 <= k < found.len() implies bytes_lt(
                    encode_utf8((#[trigger] found[k]).operator),
                    encode_utf8(operator),
                ) by {
                    assert(found[k].operator == raw[k].0);
                }
            }
        }
        assert(granted_behind(l, owner@, start) =~= grants_behind(
            stored_operators(*deps),
            owner@,
            start,
        ));
    }
    Ok(list)
}

/// The grants that stored records stand for, one for one and in their order.
pub fn grants_of_records(records: &Vec<(String, ExpirationRecord)>) -> (r: Vec<Approval>)
    ensures
        r.deep_view() == records.deep_view().map_values(
            |record: (Seq<char>, ExpirationRecord)| approval_of(record),
        ),
{
    let mut list: Vec<Approval> = Vec::new();
    let mut i: usize = 0;
    while i < records.len()
        invariant
            i <= records.len(),
            list.len() == i,
            forall|k: int|
                0 <= k < i ==> (#[trigger] list[k]).deep_view() == approval_of(
                    records[k].deep_view(),
                ),
        decreases records.len() - i,
    {
        let entry = &records[i];
        list.push(
            Approval {
                operator: Addr::unchecked(entry.0.as_str()),
                expires: expiration_from_record(entry.1),
            },
        );
        i += 1;
    }
    assert(list.deep_view() =~= records.deep_view().map_values(
        |record: (Seq<char>, ExpirationRecord)| approval_of(record),
    ));
    list
}

} // verus!
