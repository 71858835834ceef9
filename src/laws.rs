use vstd::prelude::*;
use crate::error::ErrorCode;
use crate::registry::{
    has_account, registry_wf, reward_issued, settled, store_review_error, stored, KalloViewModel,
    StoreReview,
};
use crate::review::{ReviewAccountView, ReviewView};

verus! {

/// A recorded review grows the index by exactly one entry and adds exactly one
/// slot, owned by the caller, where the caller had none before; the storage
/// invariants still hold.
pub proof fn lemma_store_appends_one(v: KalloViewModel, c: StoreReview, r: ReviewView)
    requires
        registry_wf(v),
        store_review_error(v, c) is None,
    ensures
        ({
            let w = stored(v, c, r);
            &&& registry_wf(w)
            &&& w.state->Some_0.1.len() == v.state->Some_0.1.len() + 1
            &&& w.state->Some_0.1.last() == r
            &&& w.accounts.len() == v.accounts.len() + 1
            &&& w.accounts.subrange(0, v.accounts.len() as int) == v.accounts
            &&& w.accounts.last() == (ReviewAccountView { review: r, user: c.user })
            &&& !has_account(v, c.user)
            &&& has_account(w, c.user)
        }),
{
    let w = stored(v, c, r);
    assert(w.accounts.subrange(0, v.accounts.len() as int) =~= v.accounts);
    assert(w.accounts[v.accounts.len() as int].user == c.user);
    assert forall|i: int, j: int| 0 <= i < j < w.accounts.len() implies w.accounts[i].user
        != w.accounts[j].user by {
        if j == v.accounts.len() {
            assert(w.accounts[i] == v.accounts[i]);
            assert(!has_account(v, c.user));
        } else {
            assert(w.accounts[i] == v.accounts[i] && w.accounts[j] == v.accounts[j]);
        }
    }
}

/// A caller whose balance is below the slot's rent-exempt minimum is refused;
/// once the caller has signed, the index exists and the caller's slot is
/// free, the refusal is `NotEnoughFunds`.
pub proof fn lemma_underfunded_rejected(v: KalloViewModel, c: StoreReview)
    requires
        c.user_lamports < c.rent_exempt_minimum,
    ensures
        store_review_error(v, c) is Some,
        c.user_is_signer && v.state is Some && !has_account(v, c.user) ==> store_review_error(v, c)
            == Some(ErrorCode::NotEnoughFunds),
{
}

/// After a caller has recorded a review, a second signed call by the same
/// caller is refused because the caller's slot is occupied.
pub proof fn lemma_second_store_rejected(
    v: KalloViewModel,
    c1: StoreReview,
    c2: StoreReview,
    r: ReviewView,
)
    requires
        store_review_error(v, c1) is None,
        c2.user == c1.user,
        c2.user_is_signer,
    ensures
        store_review_error(stored(v, c1, r), c2) == Some(ErrorCode::SlotOccupied),
{
    let w = stored(v, c1, r);
    assert(w.accounts[v.accounts.len() as int].user == c2.user);
}

/// The reward reaches the caller exactly when the review is recorded: the
/// settled balances carry it, and the unchanged balances of a refused call
/// do not.
pub proof fn lemma_reward_iff_recorded(v: KalloViewModel, c: StoreReview)
    ensures
        store_review_error(v, c) is None ==> reward_issued(c, settled(c)),
        !reward_issued(c, c),
{
}

} // verus!
