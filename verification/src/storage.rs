//! The host's store, as `cw_storage_plus` lays it out.
//!
//! Three namespaces live in it: one configuration record, the token records by
//! token id, and the blanket grants by owner and operator. Records are tuples
//! of plain values, so that the store's own encoding can write them.
//!
//! Nothing in this file is proved. The contracts say what the source of
//! `cw_storage_plus` and `cw2` shows of each call, over names for what the
//! store holds.

use vstd::prelude::*;
use vstd::utf8::encode_utf8;
use cosmwasm_std::{Order, StdError};
use cw_storage_plus::{Bound, Item};
use crate::host::{deps_ref, Deps, DepsMut};

verus! {

/// An expiration as stored: nothing for never, else whether it is a time, and the number.
pub type ExpirationRecord = Option<(bool, u64)>;

/// The configuration as stored: name, symbol, minter, number of tokens issued.
pub type ConfigRecord = (String, String, String, u64);

/// A token as stored: owner, approvals by operator, price as amounts and
/// denominations, metadata URI, token id.
pub type TokenRecord = (
    String,
    Vec<(String, ExpirationRecord)>,
    Vec<(u128, String)>,
    Option<String>,
    u64,
);

/// A stored configuration, with its texts as sequences of characters.
pub type ConfigRecordView = (Seq<char>, Seq<char>, Seq<char>, u64);

/// A stored token, with its texts as sequences of characters.
pub type TokenRecordView = (
    Seq<char>,
    Seq<(Seq<char>, ExpirationRecord)>,
    Seq<(u128, Seq<char>)>,
    Option<Seq<char>>,
    u64,
);

/// The configuration record in the store, if there is one.
pub uninterp spec fn stored_config(deps: Deps) -> Option<ConfigRecordView>;

/// The token records in the store, by token id.
pub uninterp spec fn stored_tokens(deps: Deps) -> Map<u64, TokenRecordView>;

/// The blanket grants in the store, by owner and operator.
pub uninterp spec fn stored_operators(deps: Deps) -> Map<
    (Seq<char>, Seq<char>),
    ExpirationRecord,
>;

/// The longest prefix of a composite key that `cw_storage_plus` can encode, in bytes.
pub const MAX_KEY_PREFIX: usize = 0xFFFF;

/// Whether an address can be the first part of a composite key.
pub open spec fn fits_key(text: Seq<char>) -> bool {
    encode_utf8(text).len() <= MAX_KEY_PREFIX
}

/// The order of byte strings by which the store walks its keys.
pub open spec fn bytes_lt(a: Seq<u8>, b: Seq<u8>) -> bool
    decreases a.len(),
{
    if b.len() == 0 {
        false
    } else if a.len() == 0 {
        true
    } else if a[0] != b[0] {
        a[0] < b[0]
    } else {
        bytes_lt(a.drop_first(), b.drop_first())
    }
}

/// Whether `text` comes after the cursor, where there is one.
pub open spec fn after_cursor(start_after: Option<Seq<char>>, text: Seq<char>) -> bool {
    start_after matches Some(cursor) ==> bytes_lt(encode_utf8(cursor), encode_utf8(text))
}

/// The operators that have a grant of `owner` in the store and come after
/// the cursor.
pub open spec fn grants_behind(
    grants: Map<(Seq<char>, Seq<char>), ExpirationRecord>,
    owner: Seq<char>,
    start_after: Option<Seq<char>>,
) -> Set<Seq<char>> {
    Set::new(
        |operator: Seq<char>|
            grants.dom().contains((owner, operator)) && after_cursor(start_after, operator),
    )
}

/// Whether `list` holds the first grants of `owner` whose operator comes
/// after the cursor, in ascending order of the operators' bytes: all of
/// them, or `at_most` where there are more. The store holds finitely many.
pub open spec fn is_listing_head(
    list: Seq<(Seq<char>, ExpirationRecord)>,
    grants: Map<(Seq<char>, Seq<char>), ExpirationRecord>,
    owner: Seq<char>,
    start_after: Option<Seq<char>>,
    at_most: nat,
) -> bool {
    &&& list.len() <= at_most
    &&& forall|i: int|
        0 <= i < list.len() ==> {
            &&& grants.contains_pair((owner, (#[trigger] list[i]).0), list[i].1)
            &&& after_cursor(start_after, list[i].0)
        }
    &&& forall|i: int, j: int|
        0 <= i < j < list.len() ==> bytes_lt(
            encode_utf8((#[trigger] list[i]).0),
            encode_utf8((#[trigger] list[j]).0),
        )
    &&& forall|operator: Seq<char>|
        #[trigger] grants.dom().contains((owner, operator)) && after_cursor(start_after, operator)
            ==> {
            ||| exists|i: int| 0 <= i < list.len() && (#[trigger] list[i]).0 == operator
            ||| (list.len() == at_most && forall|i: int|
                0 <= i < list.len() ==> bytes_lt(
                    encode_utf8((#[trigger] list[i]).0),
                    encode_utf8(operator),
                ))
        }
    &&& grants_behind(grants, owner, start_after).finite()
}

/// `cw_storage_plus::Item::may_load` on the configuration: the record that
/// the store holds, or nothing where it holds none. It fails only on a record
/// that it cannot read.
#[verifier::external_body]
pub(crate) fn config_may_load(deps: &Deps) -> (r: Result<Option<ConfigRecord>, StdError>)
    ensures
        r matches Ok(found) ==> found.deep_view() == stored_config(*deps),
        stored_config(*deps) is None ==> r is Ok,
{
    Item::<ConfigRecord>::new("config").may_load(deps.inner.storage)
}

/// `cw_storage_plus::Item::save` on the configuration: it fails on nothing
/// but the encoding of the record, and the encoding writes every text and
/// number. So it succeeds, and the store then holds `record` as its
/// configuration; tokens and grants stay as they were.
#[verifier::external_body]
pub(crate) fn config_save(deps: &mut DepsMut, record: &ConfigRecord) -> (r: Result<(), StdError>)
    ensures
        r is Ok,
        stored_config(deps_ref(*final(deps))) == Some(record.deep_view()),
        stored_tokens(deps_ref(*final(deps))) == stored_tokens(deps_ref(*old(deps))),
        stored_operators(deps_ref(*final(deps))) == stored_operators(deps_ref(*old(deps))),
{
    Item::<ConfigRecord>::new("config").save(deps.inner.storage, record)
}

/// `cw_storage_plus::Map::may_load` on the tokens: the record stored under
/// `token_id`, or nothing where the store has no such key. It fails only on a
/// record that it cannot read.
#[verifier::external_body]
pub(crate) fn token_may_load(deps: &Deps, token_id: u64) -> (r: Result<
    Option<TokenRecord>,
    StdError,
>)
    ensures
        r matches Ok(found) ==> found.deep_view() == (if stored_tokens(*deps).dom().contains(
            token_id,
        ) {
            Some(stored_tokens(*deps)[token_id])
        } else {
            None
        }),
        !stored_tokens(*deps).dom().contains(token_id) ==> r is Ok,
{
    cw_storage_plus::Map::<u64, TokenRecord>::new("tokens").may_load(
        deps.inner.storage,
        token_id,
    )
}

/// `cw_storage_plus::Map::save` on the tokens: it fails on nothing but the
/// encoding of the record, and the encoding writes every text, number and
/// list. So it succeeds, and the store then holds `record` under `token_id`;
/// every other token, the configuration and the grants stay as they were.
#[verifier::external_body]
pub(crate) fn token_save(deps: &mut DepsMut, token_id: u64, record: &TokenRecord) -> (r: Result<
    (),
    StdError,
>)
    ensures
        r is Ok,
        stored_tokens(deps_ref(*final(deps))) == stored_tokens(deps_ref(*old(deps))).insert(
            token_id,
            record.deep_view(),
        ),
        stored_config(deps_ref(*final(deps))) == stored_config(deps_ref(*old(deps))),
        stored_operators(deps_ref(*final(deps))) == stored_operators(deps_ref(*old(deps))),
{
    cw_storage_plus::Map::<u64, TokenRecord>::new("tokens").save(
        deps.inner.storage,
        token_id,
        record,
    )
}

/// `cw_storage_plus::Map::may_load` on the grants: the expiration stored for
/// `owner` and `operator`, or nothing where the store has no such key. It
/// fails only on a record that it cannot read.
#[verifier::external_body]
pub(crate) fn operator_may_load(deps: &Deps, owner: &str, operator: &str) -> (r: Result<
    Option<ExpirationRecord>,
    StdError,
>)
    requires
        fits_key(owner@),
    ensures
        r matches Ok(found) ==> found == (if stored_operators(*deps).dom().contains(
            (owner@, operator@),
        ) {
            Some(stored_operators(*deps)[(owner@, operator@)])
        } else {
            None
        }),
        !stored_operators(*deps).dom().contains((owner@, operator@)) ==> r is Ok,
{
    cw_storage_plus::Map::<(&str, &str), ExpirationRecord>::new("approvals").may_load(
        deps.inner.storage,
        (owner, operator),
    )
}

/// `cw_storage_plus::Map::has` on the grants: whether the store has a key for
/// `owner` and `operator`.
#[verifier::external_body]
pub(crate) fn operator_has(deps: &Deps, owner: &str, operator: &str) -> (r: bool)
    requires
        fits_key(owner@),
    ensures
        r == stored_operators(*deps).dom().contains((owner@, operator@)),
{
    cw_storage_plus::Map::<(&str, &str), ExpirationRecord>::new("approvals").has(
        deps.inner.storage,
        (owner, operator),
    )
}

/// `cw_storage_plus::Map::save` on the grants: it fails on nothing but the
/// encoding of the record, and the encoding writes every expiration. So it
/// succeeds, and the store then holds `record` for `owner` and `operator`;
/// every other grant, the configuration and the tokens stay as they were.
#[verifier::external_body]
pub(crate) fn operator_save(
    deps: &mut DepsMut,
    owner: &str,
    operator: &str,
    record: &ExpirationRecord,
) -> (r: Result<(), StdError>)
    requires
        fits_key(owner@),
    ensures
        r is Ok,
        stored_operators(deps_ref(*final(deps))) == stored_operators(deps_ref(*old(deps))).insert(
            (owner@, operator@),
            *record,
        ),
        stored_config(deps_ref(*final(deps))) == stored_config(deps_ref(*old(deps))),
        stored_tokens(deps_ref(*final(deps))) == stored_tokens(deps_ref(*old(deps))),
{
    cw_storage_plus::Map::<(&str, &str), ExpirationRecord>::new("approvals").save(
        deps.inner.storage,
        (owner, operator),
        record,
    )
}

/// `cw_storage_plus::Map::remove` on the grants: the store no longer has a key
/// for `owner` and `operator`; everything else stays as it was.
#[verifier::external_body]
pub(crate) fn operator_remove(deps: &mut DepsMut, owner: &str, operator: &str)
    requires
        fits_key(owner@),
    ensures
        stored_operators(deps_ref(*final(deps))) == stored_operators(deps_ref(*old(deps))).remove(
            (owner@, operator@),
        ),
        stored_config(deps_ref(*final(deps))) == stored_config(deps_ref(*old(deps))),
        stored_tokens(deps_ref(*final(deps))) == stored_tokens(deps_ref(*old(deps))),
{
    cw_storage_plus::Map::<(&str, &str), ExpirationRecord>::new("approvals").remove(
        deps.inner.storage,
        (owner, operator),
    )
}

/// `cw_storage_plus::Prefix::range` over the grants of `owner`, ascending,
/// from behind the cursor, read until `at_most` are had or the grants end:
/// the first of them, in the order of their keys. The walk ends because a
/// store holds finitely many records.
#[verifier::external_body]
pub(crate) fn operator_range(
    deps: &Deps,
    owner: &str,
    start_after: Option<&str>,
    at_most: usize,
) -> (r: Result<Vec<(String, ExpirationRecord)>, StdError>)
    requires
        fits_key(owner@),
    ensures
        r matches Ok(list) ==> is_listing_head(
            list.deep_view(),
            stored_operators(*deps),
            owner@,
            start_after.deep_view(),
            at_most as nat,
        ),
{
    let grants = cw_storage_plus::Map::<(&str, &str), ExpirationRecord>::new("approvals");
    let start = start_after.map(Bound::exclusive);
    let walk = grants.prefix(owner).range(deps.inner.storage, start, None, Order::Ascending);
    walk.take(at_most).collect()
}

/// `cw2::set_contract_version`: writes the contract's name and version under
/// a key of its own, and succeeds, as a save does; configuration, tokens and
/// grants stay as they were.
#[verifier::external_body]
pub(crate) fn set_contract_version(deps: &mut DepsMut, name: &str, version: &str) -> (r: Result<
    (),
    StdError,
>)
    ensures
        r is Ok,
        stored_config(deps_ref(*final(deps))) == stored_config(deps_ref(*old(deps))),
        stored_tokens(deps_ref(*final(deps))) == stored_tokens(deps_ref(*old(deps))),
        stored_operators(deps_ref(*final(deps))) == stored_operators(deps_ref(*old(deps))),
{
    cw2::set_contract_version(deps.inner.storage, name, version)
}

} // verus!
