//! The rules of the ledger that need no store: approval lists, prices and
//! the right to transfer.

use vstd::prelude::*;
use crate::env::{Addr, BlockInfo, Coin, CoinView, Expiration};
use crate::error::{ContractError, ErrorView};
use crate::msg::{Approval, ApprovalView};
use crate::state::TokenView;

verus! {

/// Whether some approval in the list is for `operator`.
pub open spec fn has_approval(approvals: Seq<ApprovalView>, operator: Seq<char>) -> bool {
    exists|i: int| 0 <= i < approvals.len() && (#[trigger] approvals[i]).operator == operator
}

/// Whether `i` is the place of the first approval for `operator`.
pub open spec fn is_first_approval(
    approvals: Seq<ApprovalView>,
    operator: Seq<char>,
    i: int,
) -> bool {
    &&& 0 <= i < approvals.len()
    &&& approvals[i].operator == operator
    &&& forall|k: int| 0 <= k < i ==> (#[trigger] approvals[k]).operator != operator
}

/// The place of the first approval for `operator`, if the list has one.
pub open spec fn first_approval(approvals: Seq<ApprovalView>, operator: Seq<char>) -> Option<int> {
    if has_approval(approvals, operator) {
        Some(choose|i: int| is_first_approval(approvals, operator, i))
    } else {
        None
    }
}

/// No operator has two approvals in the list.
pub open spec fn one_per_operator(approvals: Seq<ApprovalView>) -> bool {
    forall|i: int, j: int|
        0 <= i < j < approvals.len() ==> (#[trigger] approvals[i]).operator
            != (#[trigger] approvals[j]).operator
}

/// The first place is the only one that meets its definition.
pub proof fn lemma_first_approval(approvals: Seq<ApprovalView>, operator: Seq<char>, i: int)
    requires
        is_first_approval(approvals, operator, i),
    ensures
        first_approval(approvals, operator) == Some(i),
{
    let j = choose|j: int| is_first_approval(approvals, operator, j);
    assert(is_first_approval(approvals, operator, j));
    if j < i {
        assert(approvals[j].operator != operator);
    }
    if i < j {
        assert(approvals[i].operator != operator);
    }
}

/// Where no approval is for `operator`, there is no first one.
pub proof fn lemma_no_approval(approvals: Seq<ApprovalView>, operator: Seq<char>)
    requires
        forall|k: int| 0 <= k < approvals.len() ==> (#[trigger] approvals[k]).operator != operator,
    ensures
        first_approval(approvals, operator) is None,
{
}

/// Where there is a first approval, it is at a place that meets the definition.
pub proof fn lemma_first_approval_is_first(approvals: Seq<ApprovalView>, operator: Seq<char>)
    requires
        has_approval(approvals, operator),
    ensures
        first_approval(approvals, operator) matches Some(i) && is_first_approval(
            approvals,
            operator,
            i,
        ),
    decreases approvals.len(),
{
    let w = choose|i: int| 0 <= i < approvals.len() && (#[trigger] approvals[i]).operator == operator;
    lemma_least_approval(approvals, operator, w);
}

proof fn lemma_least_approval(approvals: Seq<ApprovalView>, operator: Seq<char>, w: int)
    requires
        0 <= w < approvals.len(),
        approvals[w].operator == operator,
    ensures
        exists|i: int| is_first_approval(approvals, operator, i),
    decreases w,
{
    if exists|k: int| 0 <= k < w && (#[trigger] approvals[k]).operator == operator {
        let k = choose|k: int| 0 <= k < w && (#[trigger] approvals[k]).operator == operator;
        lemma_least_approval(approvals, operator, k);
    } else {
        assert(is_first_approval(approvals, operator, w));
    }
}

/// Finds the first approval for `operator`.
pub fn find_approval(approvals: &Vec<Approval>, operator: &String) -> (r: Option<usize>)
    ensures
        match r {
            Some(i) => i < approvals.len() && first_approval(approvals.deep_view(), operator@)
                == Some(i as int),
            None => first_approval(approvals.deep_view(), operator@) is None,
        },
{
    let mut i: usize = 0;
    while i < approvals.len()
        invariant
            i <= approvals.len(),
            forall|k: int| 0 <= k < i ==> (#[trigger] approvals[k]).operator@ != operator@,
        decreases approvals.len() - i,
    {
        if *approvals[i].operator.as_string() == *operator {
            proof {
                assert forall|k: int| 0 <= k < i implies (#[trigger] approvals.deep_view()[
                    k
                ]).operator != operator@ by {
                    assert(approvals[k].operator@ != operator@);
                }
                lemma_first_approval(approvals.deep_view(), operator@, i as int);
            }
            return Some(i);
        }
        i += 1;
    }
    proof {
        assert forall|k: int| 0 <= k < approvals.len() implies (#[trigger] approvals.deep_view()[
            k
        ]).operator != operator@ by {
            assert(approvals[k].operator@ != operator@);
        }
        lemma_no_approval(approvals.deep_view(), operator@);
    }
    None
}

/// The list after `approval` is granted: it takes the place of the first
/// approval for its operator, or the end of the list where there is none.
pub open spec fn approved(approvals: Seq<ApprovalView>, approval: ApprovalView) -> Seq<
    ApprovalView,
> {
    match first_approval(approvals, approval.operator) {
        Some(i) => approvals.update(i, approval),
        None => approvals.push(approval),
    }
}

/// The list after the approval for `operator` is taken back: the first
/// approval for it is gone. Nothing where the list has none.
pub open spec fn revoked(approvals: Seq<ApprovalView>, operator: Seq<char>) -> Option<
    Seq<ApprovalView>,
> {
    match first_approval(approvals, operator) {
        Some(i) => Some(approvals.remove(i)),
        None => None,
    }
}

/// Grants `approval`, in place of an earlier approval for the same operator.
pub fn grant_approval(approvals: &mut Vec<Approval>, approval: Approval)
    ensures
        final(approvals).deep_view() == approved(old(approvals).deep_view(), approval.deep_view()),
{
    let found = find_approval(approvals, approval.operator.as_string());
    let ghost before = approvals.deep_view();
    let ghost view = approval.deep_view();
    match found {
        Some(i) => {
            proof {
                lemma_first_approval_is_first(before, view.operator);
            }
            approvals.set(i, approval);
            assert(approvals.deep_view() =~= before.update(i as int, view));
        },
        None => {
            approvals.push(approval);
            assert(approvals.deep_view() =~= before.push(view));
        },
    }
}

/// Takes back the approval for `operator`; tells whether there was one.
pub fn revoke_approval(approvals: &mut Vec<Approval>, operator: &String) -> (r: bool)
    ensures
        match revoked(old(approvals).deep_view(), operator@) {
            Some(rest) => r && final(approvals).deep_view() == rest,
            None => !r && final(approvals).deep_view() == old(approvals).deep_view(),
        },
{
    let found = find_approval(approvals, operator);
    let ghost before = approvals.deep_view();
    match found {
        Some(i) => {
            proof {
                lemma_first_approval_is_first(before, operator@);
            }
            approvals.remove(i);
            assert(approvals.deep_view() =~= before.remove(i as int));
            true
        },
        None => false,
    }
}

/// The approvals that a query shows: all of them, or those not yet expired.
pub open spec fn shown(block: BlockInfo, include_expired: bool) -> spec_fn(ApprovalView) -> bool {
    |approval: ApprovalView| include_expired || !approval.expires.expired_at(block)
}

/// The approvals of a list that a query shows, in their order.
pub fn shown_approvals(approvals: &Vec<Approval>, block: &BlockInfo, include_expired: bool) -> (r:
    Vec<Approval>)
    ensures
        r.deep_view() == approvals.deep_view().filter(shown(*block, include_expired)),
{
    let ghost all = approvals.deep_view();
    let ghost keep = shown(*block, include_expired);
    let mut out: Vec<Approval> = Vec::new();
    let mut i: usize = 0;
    proof {
        reveal(Seq::filter);
        assert(all.take(0).filter(keep) =~= out.deep_view());
    }
    while i < approvals.len()
        invariant
            i <= approvals.len(),
            all == approvals.deep_view(),
            keep == shown(*block, include_expired),
            out.deep_view() == all.take(i as int).filter(keep),
        decreases approvals.len() - i,
    {
        let approval = &approvals[i];
        let ghost so_far = out.deep_view();
        proof {
            reveal(Seq::filter);
            assert(all.take(i + 1).drop_last() =~= all.take(i as int));
            assert(all.take(i + 1).last() == approval.deep_view());
        }
        if include_expired || !approval.expires.is_expired(block) {
            out.push(approval.clone());
            assert(out.deep_view() =~= so_far.push(approval.deep_view()));
        }
        i += 1;
    }
    assert(all.take(i as int) =~= all);
    out
}

/// Whether some approval in the list is for `sender` and not yet expired.
pub open spec fn is_approved(
    approvals: Seq<ApprovalView>,
    sender: Seq<char>,
    block: BlockInfo,
) -> bool {
    exists|i: int|
        0 <= i < approvals.len() && (#[trigger] approvals[i]).operator == sender
            && !approvals[i].expires.expired_at(block)
}

/// Tells whether some approval in the list is for `sender` and not yet expired.
pub fn has_live_approval(approvals: &Vec<Approval>, sender: &Addr, block: &BlockInfo) -> (r: bool)
    ensures
        r == is_approved(approvals.deep_view(), sender@, *block),
{
    let mut i: usize = 0;
    while i < approvals.len()
        invariant
            i <= approvals.len(),
            forall|k: int|
                0 <= k < i ==> !((#[trigger] approvals[k]).operator@ == sender@
                    && !approvals[k].expires.expired_at(*block)),
        decreases approvals.len() - i,
    {
        if approvals[i].operator == *sender && !approvals[i].expires.is_expired(block) {
            assert(approvals.deep_view()[i as int].operator == sender@);
            return true;
        }
        i += 1;
    }
    proof {
        assert forall|k: int| 0 <= k < approvals.len() implies !((
        #[trigger] approvals.deep_view()[k]).operator == sender@ && !approvals.deep_view()[
            k
        ].expires.expired_at(*block)) by {
            assert(!(approvals[k].operator@ == sender@ && !approvals[k].expires.expired_at(
                *block,
            )));
        }
    }
    false
}

/// Whether `sender` may transfer `token`: as its owner, by an approval of the
/// token that has not expired, or by a blanket grant of the owner that has not
/// expired.
pub open spec fn may_transfer(
    token: TokenView,
    grant: Option<Expiration>,
    sender: Seq<char>,
    block: BlockInfo,
) -> bool {
    ||| token.owner == sender
    ||| is_approved(token.approvals, sender, block)
    ||| (grant matches Some(expires) && !expires.expired_at(block))
}

/// What is wrong with a price, if anything: it is empty, or holds an amount of zero.
pub open spec fn price_error(price: Seq<CoinView>) -> Option<ErrorView> {
    if price.len() == 0 {
        Some(ErrorView::CustomError { val: "price cannot be empty"@ })
    } else if exists|i: int| 0 <= i < price.len() && (#[trigger] price[i]).amount == 0 {
        Some(ErrorView::CustomError { val: "price cannot be zero"@ })
    } else {
        None
    }
}

/// Checks that a price names at least one coin and no amount of zero.
pub fn check_price(price: &Vec<Coin>) -> (r: Result<(), ContractError>)
    ensures
        match r {
            Ok(()) => price_error(price.deep_view()) is None,
            Err(e) => price_error(price.deep_view()) == Some(e.deep_view()),
        },
{
    if price.len() == 0 {
        return Err(ContractError::CustomError { val: "price cannot be empty".to_owned() });
    }
    let mut i: usize = 0;
    while i < price.len()
        invariant
            i <= price.len(),
            forall|k: int| 0 <= k < i ==> (#[trigger] price[k]).amount != 0,
        decreases price.len() - i,
    {
        if price[i].amount == 0 {
            assert(price.deep_view()[i as int].amount == 0);
            return Err(ContractError::CustomError { val: "price cannot be zero".to_owned() });
        }
        i += 1;
    }
    proof {
        assert forall|k: int| 0 <= k < price.len() implies (#[trigger] price.deep_view()[k]).amount
            != 0 by {
            assert(price[k].amount != 0);
        }
    }
    Ok(())
}

} // verus!
