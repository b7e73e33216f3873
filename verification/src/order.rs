//! The order in which the store walks the operators of an owner, and what
//! follows from it for a listing that is read piece by piece.

use vstd::prelude::*;
use vstd::utf8::encode_utf8;
use crate::msg::ApprovalView;
use crate::state::{granted_behind, is_grant_listing_head, Ledger};
use crate::storage::{after_cursor, bytes_lt};

verus! {

/// No byte string comes before itself.
pub proof fn lemma_bytes_lt_irreflexive(a: Seq<u8>)
    ensures
        !bytes_lt(a, a),
    decreases a.len(),
{
    if a.len() > 0 {
        lemma_bytes_lt_irreflexive(a.drop_first());
    }
}

/// What comes before a byte string comes before all that it comes before.
pub proof fn lemma_bytes_lt_transitive(a: Seq<u8>, b: Seq<u8>, c: Seq<u8>)
    requires
        bytes_lt(a, b),
        bytes_lt(b, c),
    ensures
        bytes_lt(a, c),
    decreases a.len(),
{
    if a.len() > 0 && b.len() > 0 && c.len() > 0 && a[0] == b[0] && b[0] == c[0] {
        lemma_bytes_lt_transitive(a.drop_first(), b.drop_first(), c.drop_first());
    }
}

/// Whether the operators of a list come in ascending order of their bytes.
pub open spec fn ascending(list: Seq<ApprovalView>) -> bool {
    forall|i: int, j: int|
        0 <= i < j < list.len() ==> bytes_lt(
            encode_utf8((#[trigger] list[i]).operator),
            encode_utf8((#[trigger] list[j]).operator),
        )
}

/// Whether `operator` is the cursor or comes before it; nothing does where
/// there is no cursor.
pub open spec fn up_to_cursor(cursor: Option<Seq<char>>, operator: Seq<char>) -> bool {
    cursor matches Some(c) && (operator == c || bytes_lt(encode_utf8(operator), encode_utf8(c)))
}

/// Whether the second cursor stands where the first stands, or behind it.
pub open spec fn not_before(start_after: Option<Seq<char>>, cursor: Option<Seq<char>>) -> bool {
    cursor == start_after || (cursor matches Some(c) && after_cursor(start_after, c))
}

/// What comes after a later cursor comes after an earlier one.
pub proof fn lemma_after_later_cursor(
    start_after: Option<Seq<char>>,
    cursor: Option<Seq<char>>,
    operator: Seq<char>,
)
    requires
        not_before(start_after, cursor),
        after_cursor(cursor, operator),
    ensures
        after_cursor(start_after, operator),
{
    if cursor != start_after && start_after is Some {
        lemma_bytes_lt_transitive(
            encode_utf8(start_after.unwrap()),
            encode_utf8(cursor.unwrap()),
            encode_utf8(operator),
        );
    }
}

/// What stands at the cursor or before it comes before all that comes after
/// the cursor.
pub proof fn lemma_before_after(cursor: Option<Seq<char>>, early: Seq<char>, late: Seq<char>)
    requires
        up_to_cursor(cursor, early),
        after_cursor(cursor, late),
    ensures
        bytes_lt(encode_utf8(early), encode_utf8(late)),
{
    if early != cursor.unwrap() {
        lemma_bytes_lt_transitive(
            encode_utf8(early),
            encode_utf8(cursor.unwrap()),
            encode_utf8(late),
        );
    }
}

/// The part of an ascending list that a filter keeps is ascending, holds
/// nothing but kept entries of the list, and holds every kept entry.
pub proof fn lemma_filter_ascending(list: Seq<ApprovalView>, keep: spec_fn(ApprovalView) -> bool)
    requires
        ascending(list),
    ensures
        ascending(list.filter(keep)),
        list.filter(keep).len() <= list.len(),
        forall|i: int|
            0 <= i < list.filter(keep).len() ==> keep(#[trigger] list.filter(keep)[i]) && exists|
                k: int,
            | 0 <= k < list.len() && #[trigger] list[k] == list.filter(keep)[i],
        forall|k: int|
            0 <= k < list.len() && keep(#[trigger] list[k]) ==> exists|i: int|
                0 <= i < list.filter(keep).len() && #[trigger] list.filter(keep)[i] == list[k],
    decreases list.len(),
{
    reveal(Seq::filter);
    let kept = list.filter(keep);
    if list.len() > 0 {
        let head = list.drop_last();
        let last = list.last();
        let before = head.filter(keep);
        assert(ascending(head)) by {
            assert forall|i: int, j: int| 0 <= i < j < head.len() implies bytes_lt(
                encode_utf8((#[trigger] head[i]).operator),
                encode_utf8((#[trigger] head[j]).operator),
            ) by {
                assert(head[i] == list[i]);
                assert(head[j] == list[j]);
            }
        }
        lemma_filter_ascending(head, keep);
        assert forall|i: int|
            #![trigger before[i]]
            0 <= i < before.len() implies exists|k: int|
            0 <= k < list.len() - 1 && #[trigger] list[k] == before[i] by {
            let k = choose|k: int| 0 <= k < head.len() && #[trigger] head[k] == before[i];
            assert(list[k] == before[i]);
        }
        assert forall|i: int| 0 <= i < kept.len() implies keep(#[trigger] kept[i]) && exists|
            k: int,
        | 0 <= k < list.len() && #[trigger] list[k] == kept[i] by {
            if i < before.len() {
                assert(kept[i] == before[i]);
                let k = choose|k: int| 0 <= k < list.len() - 1 && #[trigger] list[k] == before[i];
                assert(list[k] == kept[i]);
            } else {
                assert(kept[i] == last);
                assert(list[list.len() - 1] == kept[i]);
            }
        }
        assert forall|k: int| 0 <= k < list.len() && keep(#[trigger] list[k]) implies exists|
            i: int,
        | 0 <= i < kept.len() && #[trigger] kept[i] == list[k] by {
            if k < list.len() - 1 {
                assert(head[k] == list[k]);
                let i = choose|i: int| 0 <= i < before.len() && #[trigger] before[i] == head[k];
                assert(kept[i] == list[k]);
            } else {
                assert(kept[kept.len() - 1] == list[k]);
            }
        }
        assert forall|i: int, j: int| 0 <= i < j < kept.len() implies bytes_lt(
            encode_utf8((#[trigger] kept[i]).operator),
            encode_utf8((#[trigger] kept[j]).operator),
        ) by {
            if j < before.len() {
                assert(kept[i] == before[i]);
                assert(kept[j] == before[j]);
            } else {
                assert(kept[i] == before[i]);
                assert(kept[j] == last);
                let k = choose|k: int| 0 <= k < list.len() - 1 && #[trigger] list[k] == before[i];
                assert(list[list.len() - 1] == last);
            }
        }
    }
}

/// Whether every entry of a list is a grant of `owner` in the ledger.
pub open spec fn all_granted(list: Seq<ApprovalView>, ledger: Ledger, owner: Seq<char>) -> bool {
    forall|i: int|
        0 <= i < list.len() ==> ledger.grant(owner, (#[trigger] list[i]).operator) == Some(
            list[i].expires,
        )
}

/// Whether every operator of a list comes after the cursor.
pub open spec fn all_after(list: Seq<ApprovalView>, cursor: Option<Seq<char>>) -> bool {
    forall|i: int| 0 <= i < list.len() ==> after_cursor(cursor, (#[trigger] list[i]).operator)
}

/// Whether every operator of a list is the cursor or comes before it.
pub open spec fn all_up_to(list: Seq<ApprovalView>, cursor: Option<Seq<char>>) -> bool {
    forall|i: int| 0 <= i < list.len() ==> up_to_cursor(cursor, (#[trigger] list[i]).operator)
}

/// Whether every operator of a list comes before `operator`.
pub open spec fn all_before(list: Seq<ApprovalView>, operator: Seq<char>) -> bool {
    forall|i: int|
        0 <= i < list.len() ==> bytes_lt(
            encode_utf8((#[trigger] list[i]).operator),
            encode_utf8(operator),
        )
}

/// Whether a filter keeps every entry of a list.
pub open spec fn all_kept(list: Seq<ApprovalView>, keep: spec_fn(ApprovalView) -> bool) -> bool {
    forall|i: int| 0 <= i < list.len() ==> keep(#[trigger] list[i])
}

/// Whether a list holds an entry for `operator`.
pub open spec fn covers(list: Seq<ApprovalView>, operator: Seq<char>) -> bool {
    exists|i: int| 0 <= i < list.len() && (#[trigger] list[i]).operator == operator
}

/// Whether `owner` has a grant to `operator` that the filter keeps.
pub open spec fn kept_grant(
    ledger: Ledger,
    keep: spec_fn(ApprovalView) -> bool,
    owner: Seq<char>,
    operator: Seq<char>,
) -> bool {
    ledger.grant(owner, operator) is Some && keep(
        ApprovalView { operator, expires: ledger.grant(owner, operator).unwrap() },
    )
}

/// What a page holds while the grants are read: every grant of `owner`
/// between the start and the cursor that the filter keeps, in ascending
/// order, and nothing else.
#[verifier::opaque]
pub open spec fn is_page_up_to(
    page: Seq<ApprovalView>,
    ledger: Ledger,
    keep: spec_fn(ApprovalView) -> bool,
    owner: Seq<char>,
    start_after: Option<Seq<char>>,
    cursor: Option<Seq<char>>,
) -> bool {
    &&& not_before(start_after, cursor)
    &&& ascending(page)
    &&& all_granted(page, ledger, owner)
    &&& all_after(page, start_after)
    &&& all_kept(page, keep)
    &&& all_up_to(page, cursor)
    &&& forall|operator: Seq<char>|
        #[trigger] kept_grant(ledger, keep, owner, operator) && after_cursor(start_after, operator)
            && !after_cursor(cursor, operator) ==> covers(page, operator)
}

/// What the kept part of a listing behind the cursor holds: kept grants of
/// `owner` behind the cursor, in ascending order, none behind the last of
/// the listing.
pub proof fn lemma_kept_of_listing(
    listing: Seq<ApprovalView>,
    keep: spec_fn(ApprovalView) -> bool,
    ledger: Ledger,
    owner: Seq<char>,
    cursor: Option<Seq<char>>,
)
    requires
        ascending(listing),
        all_granted(listing, ledger, owner),
        all_after(listing, cursor),
    ensures
        ascending(listing.filter(keep)),
        all_granted(listing.filter(keep), ledger, owner),
        all_after(listing.filter(keep), cursor),
        all_kept(listing.filter(keep), keep),
        listing.filter(keep).len() <= listing.len(),
        listing.len() > 0 ==> all_up_to(listing.filter(keep), Some(listing.last().operator)),
        forall|k: int|
            0 <= k < listing.len() && keep(#[trigger] listing[k]) ==> covers(
                listing.filter(keep),
                listing[k].operator,
            ),
{
    let kept = listing.filter(keep);
    lemma_filter_ascending(listing, keep);
    assert forall|i: int| 0 <= i < kept.len() implies {
        &&& ledger.grant(owner, (#[trigger] kept[i]).operator) == Some(kept[i].expires)
        &&& after_cursor(cursor, kept[i].operator)
        &&& keep(kept[i])
        &&& (listing.len() > 0 ==> up_to_cursor(Some(listing.last().operator), kept[i].operator))
    } by {
        let k = choose|k: int| 0 <= k < listing.len() && #[trigger] listing[k] == kept[i];
        if k < listing.len() - 1 {
            assert(bytes_lt(
                encode_utf8(listing[k].operator),
                encode_utf8(listing[listing.len() - 1].operator),
            ));
        }
    }
    assert forall|k: int| 0 <= k < listing.len() && keep(#[trigger] listing[k]) implies covers(
        kept,
        listing[k].operator,
    ) by {
        let i = choose|i: int| 0 <= i < kept.len() && #[trigger] kept[i] == listing[k];
        assert(kept[i].operator == listing[k].operator);
    }
}

/// A page that is read up to the cursor, with kept grants from behind the
/// cursor added, is in ascending order and holds kept grants behind the start.
pub proof fn lemma_page_with_more(
    page: Seq<ApprovalView>,
    kept: Seq<ApprovalView>,
    ledger: Ledger,
    keep: spec_fn(ApprovalView) -> bool,
    owner: Seq<char>,
    start_after: Option<Seq<char>>,
    cursor: Option<Seq<char>>,
)
    requires
        is_page_up_to(page, ledger, keep, owner, start_after, cursor),
        ascending(kept),
        all_granted(kept, ledger, owner),
        all_after(kept, cursor),
        all_kept(kept, keep),
    ensures
        ascending(page + kept),
        all_granted(page + kept, ledger, owner),
        all_after(page + kept, start_after),
        all_kept(page + kept, keep),
        forall|operator: Seq<char>|
            covers(page, operator) || covers(kept, operator) ==> #[trigger] covers(
                page + kept,
                operator,
            ),
{
    reveal(is_page_up_to);
    let grown = page + kept;
    assert forall|i: int| 0 <= i < grown.len() implies {
        &&& ledger.grant(owner, (#[trigger] grown[i]).operator) == Some(grown[i].expires)
        &&& after_cursor(start_after, grown[i].operator)
        &&& keep(grown[i])
    } by {
        if i < page.len() {
            assert(grown[i] == page[i]);
        } else {
            assert(grown[i] == kept[i - page.len()]);
            lemma_after_later_cursor(start_after, cursor, grown[i].operator);
        }
    }
    assert forall|i: int, j: int| 0 <= i < j < grown.len() implies bytes_lt(
        encode_utf8((#[trigger] grown[i]).operator),
        encode_utf8((#[trigger] grown[j]).operator),
    ) by {
        if j < page.len() {
            assert(grown[i] == page[i]);
            assert(grown[j] == page[j]);
        } else if i >= page.len() {
            assert(grown[i] == kept[i - page.len()]);
            assert(grown[j] == kept[j - page.len()]);
        } else {
            assert(grown[i] == page[i]);
            assert(grown[j] == kept[j - page.len()]);
            lemma_before_after(cursor, grown[i].operator, grown[j].operator);
        }
    }
    assert forall|operator: Seq<char>|
        covers(page, operator) || covers(kept, operator) implies #[trigger] covers(
        grown,
        operator,
    ) by {
        if covers(page, operator) {
            let i = choose|i: int| 0 <= i < page.len() && (#[trigger] page[i]).operator == operator;
            assert(grown[i].operator == operator);
        } else {
            let i = choose|i: int| 0 <= i < kept.len() && (#[trigger] kept[i]).operator == operator;
            assert(grown[page.len() + i].operator == operator);
        }
    }
}

/// A page that is read up to the cursor, with what is kept of the listing
/// behind the cursor added, is read up to the last of the listing.
pub proof fn lemma_page_grows(
    page: Seq<ApprovalView>,
    listing: Seq<ApprovalView>,
    ledger: Ledger,
    keep: spec_fn(ApprovalView) -> bool,
    owner: Seq<char>,
    start_after: Option<Seq<char>>,
    cursor: Option<Seq<char>>,
    at_most: nat,
)
    requires
        is_page_up_to(page, ledger, keep, owner, start_after, cursor),
        is_grant_listing_head(listing, ledger, owner, cursor, at_most),
        listing.len() > 0,
    ensures
        is_page_up_to(
            page + listing.filter(keep),
            ledger,
            keep,
            owner,
            start_after,
            Some(listing.last().operator),
        ),
        granted_behind(ledger, owner, Some(listing.last().operator)).len() < granted_behind(
            ledger,
            owner,
            cursor,
        ).len(),
{
    reveal(is_page_up_to);
    reveal(is_grant_listing_head);
    let kept = listing.filter(keep);
    let grown = page + kept;
    let last = listing.last().operator;
    assert(listing[listing.len() - 1].operator == last);
    lemma_kept_of_listing(listing, keep, ledger, owner, cursor);
    lemma_page_with_more(page, kept, ledger, keep, owner, start_after, cursor);
    lemma_after_later_cursor(start_after, cursor, last);
    lemma_fewer_behind(ledger, owner, cursor, last);
    assert forall|i: int| 0 <= i < grown.len() implies up_to_cursor(
        Some(last),
        (#[trigger] grown[i]).operator,
    ) by {
        if i < page.len() {
            assert(grown[i] == page[i]);
            lemma_before_after(cursor, grown[i].operator, last);
        } else {
            assert(grown[i] == kept[i - page.len()]);
        }
    }
    assert forall|operator: Seq<char>|
        #[trigger] kept_grant(ledger, keep, owner, operator) && after_cursor(
            start_after,
            operator,
        ) && !after_cursor(Some(last), operator) implies covers(grown, operator) by {
        lemma_found_in_listing(
            page,
            listing,
            ledger,
            keep,
            owner,
            start_after,
            cursor,
            at_most,
            operator,
        );
        if !covers(page, operator) && !covers(kept, operator) {
            assert(all_before(listing, operator));
            assert(bytes_lt(
                encode_utf8(listing[listing.len() - 1].operator),
                encode_utf8(operator),
            ));
        }
    }
}

/// A page that is read up to the cursor, with what is kept of the listing
/// behind the cursor added, holds all that is to be kept where the listing
/// ends before it is full.
pub proof fn lemma_page_complete(
    page: Seq<ApprovalView>,
    listing: Seq<ApprovalView>,
    ledger: Ledger,
    keep: spec_fn(ApprovalView) -> bool,
    owner: Seq<char>,
    start_after: Option<Seq<char>>,
    cursor: Option<Seq<char>>,
    at_most: nat,
)
    requires
        is_page_up_to(page, ledger, keep, owner, start_after, cursor),
        is_grant_listing_head(listing, ledger, owner, cursor, at_most),
        listing.len() < at_most,
    ensures
        forall|operator: Seq<char>|
            #[trigger] kept_grant(ledger, keep, owner, operator) && after_cursor(
                start_after,
                operator,
            ) ==> covers(page + listing.filter(keep), operator),
{
    reveal(is_grant_listing_head);
    let kept = listing.filter(keep);
    lemma_kept_of_listing(listing, keep, ledger, owner, cursor);
    lemma_page_with_more(page, kept, ledger, keep, owner, start_after, cursor);
    assert forall|operator: Seq<char>|
        #[trigger] kept_grant(ledger, keep, owner, operator) && after_cursor(
            start_after,
            operator,
        ) implies covers(page + kept, operator) by {
        lemma_found_in_listing(
            page,
            listing,
            ledger,
            keep,
            owner,
            start_after,
            cursor,
            at_most,
            operator,
        );
    }
}

/// A kept grant behind the start is in the page, or in what is kept of the
/// listing, or comes after all of a full listing.
pub proof fn lemma_found_in_listing(
    page: Seq<ApprovalView>,
    listing: Seq<ApprovalView>,
    ledger: Ledger,
    keep: spec_fn(ApprovalView) -> bool,
    owner: Seq<char>,
    start_after: Option<Seq<char>>,
    cursor: Option<Seq<char>>,
    at_most: nat,
    operator: Seq<char>,
)
    requires
        is_page_up_to(page, ledger, keep, owner, start_after, cursor),
        is_grant_listing_head(listing, ledger, owner, cursor, at_most),
        kept_grant(ledger, keep, owner, operator),
        after_cursor(start_after, operator),
        forall|k: int|
            0 <= k < listing.len() && keep(#[trigger] listing[k]) ==> covers(
                listing.filter(keep),
                listing[k].operator,
            ),
    ensures
        covers(page, operator) || covers(listing.filter(keep), operator) || (listing.len()
            == at_most && all_before(listing, operator)),
{
    reveal(is_page_up_to);
    reveal(is_grant_listing_head);
    if after_cursor(cursor, operator) {
        if exists|k: int| 0 <= k < listing.len() && (#[trigger] listing[k]).operator == operator {
            let k = choose|k: int|
                0 <= k < listing.len() && (#[trigger] listing[k]).operator == operator;
            assert(listing[k] == ApprovalView {
                operator,
                expires: ledger.grant(owner, operator).unwrap(),
            });
            assert(keep(listing[k]));
        }
    }
}

/// The head of a listing holds no more than was asked for.
pub proof fn lemma_listing_head_len(
    listing: Seq<ApprovalView>,
    ledger: Ledger,
    owner: Seq<char>,
    cursor: Option<Seq<char>>,
    at_most: nat,
)
    requires
        is_grant_listing_head(listing, ledger, owner, cursor, at_most),
    ensures
        listing.len() <= at_most,
{
    reveal(is_grant_listing_head);
}

/// An empty page is read up to the start.
pub proof fn lemma_page_starts(
    ledger: Ledger,
    keep: spec_fn(ApprovalView) -> bool,
    owner: Seq<char>,
    start_after: Option<Seq<char>>,
)
    ensures
        is_page_up_to(Seq::empty(), ledger, keep, owner, start_after, start_after),
{
    reveal(is_page_up_to);
}

/// A page that is read up to the cursor holds kept grants of `owner` from
/// behind the start, in ascending order; and a kept grant behind the start
/// that it does not hold comes after all that it holds.
pub proof fn lemma_page_read(
    page: Seq<ApprovalView>,
    ledger: Ledger,
    keep: spec_fn(ApprovalView) -> bool,
    owner: Seq<char>,
    start_after: Option<Seq<char>>,
    cursor: Option<Seq<char>>,
)
    requires
        is_page_up_to(page, ledger, keep, owner, start_after, cursor),
    ensures
        ascending(page),
        all_granted(page, ledger, owner),
        all_after(page, start_after),
        all_kept(page, keep),
        forall|operator: Seq<char>|
            #[trigger] kept_grant(ledger, keep, owner, operator) && after_cursor(
                start_after,
                operator,
            ) ==> covers(page, operator) || all_before(page, operator),
{
    reveal(is_page_up_to);
    assert forall|operator: Seq<char>|
        #[trigger] kept_grant(ledger, keep, owner, operator) && after_cursor(
            start_after,
            operator,
        ) implies covers(page, operator) || all_before(page, operator) by {
        if after_cursor(cursor, operator) {
            assert forall|i: int| 0 <= i < page.len() implies bytes_lt(
                encode_utf8((#[trigger] page[i]).operator),
                encode_utf8(operator),
            ) by {
                lemma_before_after(cursor, page[i].operator, operator);
            }
        }
    }
}

/// Behind a grant that lies behind the cursor there are fewer grants than
/// behind the cursor.
pub proof fn lemma_fewer_behind(
    ledger: Ledger,
    owner: Seq<char>,
    cursor: Option<Seq<char>>,
    next: Seq<char>,
)
    requires
        granted_behind(ledger, owner, cursor).finite(),
        ledger.grant(owner, next) is Some,
        after_cursor(cursor, next),
    ensures
        granted_behind(ledger, owner, Some(next)).finite(),
        granted_behind(ledger, owner, Some(next)).len() < granted_behind(
            ledger,
            owner,
            cursor,
        ).len(),
{
    let wide = granted_behind(ledger, owner, cursor);
    let narrow = granted_behind(ledger, owner, Some(next));
    assert(wide.contains(next));
    assert forall|operator: Seq<char>| narrow.contains(operator) implies wide.remove(
        next,
    ).contains(operator) by {
        lemma_bytes_lt_irreflexive(encode_utf8(next));
        if cursor is Some {
            lemma_bytes_lt_transitive(
                encode_utf8(cursor.unwrap()),
                encode_utf8(next),
                encode_utf8(operator),
            );
        }
    }
    assert(narrow.subset_of(wide.remove(next)));
    vstd::set_lib::lemma_len_subset(narrow, wide.remove(next));
}

} // verus!
