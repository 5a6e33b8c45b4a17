//! The order in which queries list tokens: newest first.
//!
//! The ledger hands out token ids in rising order, so the newest token is the
//! one with the greatest id. A hash table walks its keys in no stated order;
//! the functions here put them in the one order that a listing has.

use vstd::prelude::*;
use crate::primitives::{lemma_view_injective, TokenId};

verus! {

/// The ids fall strictly from each position to the next.
pub open spec fn newest_first(ids: Seq<TokenId>) -> bool {
    forall|i: int, j: int| 0 <= i < j < ids.len() ==> ids[i]@ > ids[j]@
}

/// `ids` is the listing of `tokens`: every token of the set once, newest first.
pub open spec fn lists(ids: Seq<TokenId>, tokens: Set<TokenId>) -> bool {
    newest_first(ids) && ids.to_set() == tokens
}

/// The token ids of a sequence of pairs that each begin with one.
pub open spec fn tokens_in<A>(pairs: Seq<(TokenId, A)>) -> Seq<TokenId> {
    Seq::new(pairs.len(), |i: int| pairs[i].0)
}

/// Puts `id` at its place in a listing, unless the listing holds it already.
fn place(listing: &mut Vec<TokenId>, id: TokenId)
    requires
        newest_first(old(listing)@),
    ensures
        newest_first(final(listing)@),
        final(listing)@.to_set() == old(listing)@.to_set().insert(id),
{
    let ghost before = listing@;
    let mut low: usize = 0;
    let mut high: usize = listing.len();
    while low < high
        invariant
            listing@ == before,
            newest_first(before),
            low <= high <= before.len(),
            forall|k: int| 0 <= k < low ==> before[k]@ > id@,
            forall|k: int| high <= k < before.len() ==> before[k]@ <= id@,
        decreases high - low,
    {
        let mid: usize = low + (high - low) / 2;
        if id.is_below(&listing[mid]) {
            low = mid + 1;
        } else {
            high = mid;
        }
    }
    let at: usize = low;
    if at < listing.len() && listing[at] == id {
        assert(before.to_set().insert(id) =~= before.to_set()) by {
            assert(before.contains(before[at as int]));
        }
    } else {
        proof {
            if at < before.len() {
                lemma_view_injective(before[at as int], id);
            }
            before.insert_ensures(at as int, id);
        }
        listing.insert(at, id);
        proof {
            let after = listing@;
            assert(newest_first(after)) by {
                assert forall|i: int, j: int| 0 <= i < j < after.len() implies after[i]@
                    > after[j]@ by {
                    let pi = if i < at { i } else { i - 1 };
                    let pj = if j < at { j } else { j - 1 };
                    if i != at {
                        assert(after[i] == before[pi]);
                    }
                    if j != at {
                        assert(after[j] == before[pj]);
                    }
                }
            }
            assert(after.to_set() =~= before.to_set().insert(id)) by {
                assert forall|x: TokenId| after.to_set().contains(x) implies before.to_set().insert(
                    id,
                ).contains(x) by {
                    let i = choose|i: int| 0 <= i < after.len() && after[i] == x;
                    if i < at {
                        assert(before[i] == x);
                        assert(before.contains(x));
                    } else if i > at {
                        assert(before[i - 1] == x);
                        assert(before.contains(x));
                    }
                }
                assert forall|x: TokenId| before.to_set().insert(id).contains(x) implies after.to_set().contains(
                    x,
                ) by {
                    if x == id {
                        assert(after[at as int] == x);
                    } else {
                        let i = choose|i: int| 0 <= i < before.len() && before[i] == x;
                        if i < at {
                            assert(after[i] == x);
                        } else {
                            assert(after[i + 1] == x);
                        }
                    }
                }
            }
        }
    }
}

/// The listing of the ids that `ids` holds, in whatever order and however
/// often it holds them.
pub fn listing_of(ids: &Vec<TokenId>) -> (listing: Vec<TokenId>)
    ensures
        lists(listing@, ids@.to_set()),
{
    let mut listing: Vec<TokenId> = Vec::new();
    let mut i: usize = 0;
    assert(ids@.take(0).to_set() =~= Set::<TokenId>::empty());
    assert(listing@.to_set() =~= Set::<TokenId>::empty());
    while i < ids.len()
        invariant
            i <= ids.len(),
            newest_first(listing@),
            listing@.to_set() == ids@.take(i as int).to_set(),
        decreases ids.len() - i,
    {
        place(&mut listing, ids[i]);
        proof {
            assert(ids@.take(i + 1) =~= ids@.take(i as int).push(ids@[i as int]));
            ids@.take(i as int).lemma_push_to_set_commute(ids@[i as int]);
        }
        i = i + 1;
    }
    assert(ids@.take(ids.len() as int) =~= ids@);
    listing
}

/// A listing holds no token twice, and as many as the set it lists.
pub proof fn lemma_listing_len(ids: Seq<TokenId>, tokens: Set<TokenId>)
    requires
        lists(ids, tokens),
    ensures
        ids.no_duplicates(),
        tokens.finite(),
        tokens.len() == ids.len(),
{
    assert(ids.no_duplicates()) by {
        assert forall|i: int, j: int| 0 <= i < ids.len() && 0 <= j < ids.len() && i != j implies ids[i]
            != ids[j] by {
            if i < j {
                assert(ids[i]@ > ids[j]@);
            } else {
                assert(ids[j]@ > ids[i]@);
            }
        }
    }
    vstd::seq_lib::seq_to_set_is_finite(ids);
    ids.unique_seq_to_set();
}

/// A set of tokens has one listing only.
pub proof fn lemma_listing_unique(a: Seq<TokenId>, b: Seq<TokenId>, tokens: Set<TokenId>)
    requires
        lists(a, tokens),
        lists(b, tokens),
    ensures
        a == b,
    decreases a.len(),
{
    lemma_listing_len(a, tokens);
    lemma_listing_len(b, tokens);
    if a.len() == 0 {
        assert(a =~= b);
    } else {
        // Both listings start with the greatest token of the set.
        assert(a.to_set().contains(a[0])) by {
            assert(a.contains(a[0]));
        }
        assert(b.to_set().contains(b[0])) by {
            assert(b.contains(b[0]));
        }
        let ia = choose|i: int| 0 <= i < a.len() && a[i] == b[0];
        let ib = choose|i: int| 0 <= i < b.len() && b[i] == a[0];
        assert(b.contains(a[0]));
        assert(a.contains(b[0]));
        if ia != 0 {
            assert(a[0]@ > a[ia]@);
        }
        if ib != 0 {
            assert(b[0]@ > b[ib]@);
        }
        lemma_view_injective(a[0], b[0]);
        assert(a[0] == b[0]);
        let rest_a = a.drop_first();
        let rest_b = b.drop_first();
        let rest = tokens.remove(a[0]);
        assert(rest_a.to_set() =~= rest) by {
            assert forall|x: TokenId| rest_a.to_set().contains(x) implies rest.contains(x) by {
                let i = choose|i: int| 0 <= i < rest_a.len() && rest_a[i] == x;
                assert(a[i + 1] == x);
                assert(a.contains(x));
                assert(a[0]@ > a[i + 1]@);
            }
            assert forall|x: TokenId| rest.contains(x) implies rest_a.to_set().contains(x) by {
                assert(a.contains(x));
                let i = choose|i: int| 0 <= i < a.len() && a[i] == x;
                assert(rest_a[i - 1] == x);
            }
        }
        assert(rest_b.to_set() =~= rest) by {
            assert forall|x: TokenId| rest_b.to_set().contains(x) implies rest.contains(x) by {
                let i = choose|i: int| 0 <= i < rest_b.len() && rest_b[i] == x;
                assert(b[i + 1] == x);
                assert(b.contains(x));
                assert(b[0]@ > b[i + 1]@);
            }
            assert forall|x: TokenId| rest.contains(x) implies rest_b.to_set().contains(x) by {
                assert(b.contains(x));
                let i = choose|i: int| 0 <= i < b.len() && b[i] == x;
                assert(rest_b[i - 1] == x);
            }
        }
        assert(newest_first(rest_a)) by {
            assert forall|i: int, j: int| 0 <= i < j < rest_a.len() implies rest_a[i]@
                > rest_a[j]@ by {
                assert(a[i + 1]@ > a[j + 1]@);
            }
        }
        assert(newest_first(rest_b)) by {
            assert forall|i: int, j: int| 0 <= i < j < rest_b.len() implies rest_b[i]@
                > rest_b[j]@ by {
                assert(b[i + 1]@ > b[j + 1]@);
            }
        }
        lemma_listing_unique(rest_a, rest_b, rest);
        assert(a =~= b) by {
            assert forall|i: int| 0 <= i < a.len() implies a[i] == b[i] by {
                if i > 0 {
                    assert(rest_a[i - 1] == a[i]);
                    assert(rest_b[i - 1] == b[i]);
                }
            }
        }
    }
}

} // verus!
