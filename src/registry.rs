use vstd::prelude::*;
use crate::error::ErrorCode;
use crate::review::{Identity, Review, ReviewAccount, ReviewAccountView, ReviewView};

verus! {

/// Reward tokens moved from the program's treasury to the user for each
/// recorded review.
pub const REWARD_AMOUNT: u64 = 10;

/// The singleton index slot: the configured authority and every recorded
/// review, in order of recording.
pub struct KalloViewState {
    pub authority: Identity,
    pub reviews: Vec<Review>,
}

impl KalloViewState {
    /// The recorded reviews as values.
    pub open spec fn index(&self) -> Seq<ReviewView> {
        reviews_view(self.reviews@)
    }
}

/// What the host hands to one `store_review` invocation: the caller, whether
/// the caller signed, the lamport balances of caller and program, the
/// rent-exempt minimum of the caller's new review slot, the caller's reward
/// token account (`None` while it does not exist) and the program's reward
/// treasury. The invocation writes the new balances back into it.
#[derive(Clone, Copy, Debug, PartialEq, Eq, Structural)]
pub struct StoreReview {
    pub user: Identity,
    pub user_is_signer: bool,
    pub user_lamports: u64,
    pub program_lamports: u64,
    pub rent_exempt_minimum: u64,
    pub reward_account: Option<u64>,
    pub reward_treasury: u64,
}

/// What the host hands to one `get_reviews` invocation.
#[derive(Clone, Copy, Debug, PartialEq, Eq, Structural)]
pub struct GetReviews {
    pub authority: Identity,
    pub authority_is_signer: bool,
}

/// What the host hands to `initialize`: the payer, who becomes the
/// configured authority of the index.
#[derive(Clone, Copy, Debug, PartialEq, Eq, Structural)]
pub struct Initialize {
    pub user: Identity,
}

/// The program's storage: the singleton index slot, once created, and the
/// review slots, one per user, keyed by their owner.
pub struct KalloView {
    pub state: Option<KalloViewState>,
    pub review_accounts: Vec<ReviewAccount>,
}

/// The mathematical value of `KalloView`: the index as authority and reviews,
/// and the review slots in order of creation.
pub struct KalloViewModel {
    pub state: Option<(Identity, Seq<ReviewView>)>,
    pub accounts: Seq<ReviewAccountView>,
}

pub open spec fn reviews_view(s: Seq<Review>) -> Seq<ReviewView> {
    s.map_values(|r: Review| r@)
}

impl View for KalloView {
    type V = KalloViewModel;

    open spec fn view(&self) -> KalloViewModel {
        KalloViewModel {
            state: match self.state {
                Some(s) => Some((s.authority, reviews_view(s.reviews@))),
                None => None,
            },
            accounts: self.review_accounts@.map_values(|a: ReviewAccount| a@),
        }
    }
}

/// Whether `u` already owns a review slot.
pub open spec fn has_account(v: KalloViewModel, u: Identity) -> bool {
    exists|i: int| 0 <= i < v.accounts.len() && (#[trigger] v.accounts[i]).user == u
}

/// The invariants of the storage: no slot before the index exists, one slot
/// per owner, and the index holds exactly the slots' reviews in order.
pub open spec fn registry_wf(v: KalloViewModel) -> bool {
    &&& v.state is None ==> v.accounts.len() == 0
    &&& forall|i: int, j: int|
        0 <= i < j < v.accounts.len() ==> v.accounts[i].user != v.accounts[j].user
    &&& match v.state {
        Some((_, index)) => {
            &&& index.len() == v.accounts.len()
            &&& forall|i: int| 0 <= i < index.len() ==> index[i] == v.accounts[i].review
        },
        None => true,
    }
}

/// The reward balance the caller holds once the reward account is provisioned.
pub open spec fn reward_start(c: StoreReview) -> int {
    match c.reward_account {
        Some(b) => b as int,
        None => 0,
    }
}

/// Whether the token ledger accepts the reward transfer of `c`.
pub open spec fn reward_transferable(c: StoreReview) -> bool {
    &&& c.reward_treasury >= REWARD_AMOUNT
    &&& reward_start(c) + REWARD_AMOUNT <= u64::MAX
}

/// The error `record_review` reports for the call `c` when the caller's slot
/// is `occupied` or not, checked in this order; `None` when the review is
/// recorded.
pub open spec fn record_error(occupied: bool, c: StoreReview) -> Option<ErrorCode> {
    if !c.user_is_signer {
        Some(ErrorCode::Unauthorized)
    } else if occupied {
        Some(ErrorCode::SlotOccupied)
    } else if c.user_lamports < c.rent_exempt_minimum {
        Some(ErrorCode::NotEnoughFunds)
    } else if !reward_transferable(c) {
        Some(ErrorCode::TransferFailed)
    } else {
        None
    }
}

/// The error `store_review` reports on `v` and `c`; `None` when the review is
/// recorded.
pub open spec fn store_review_error(v: KalloViewModel, c: StoreReview) -> Option<ErrorCode> {
    if !c.user_is_signer {
        Some(ErrorCode::Unauthorized)
    } else if v.state is None {
        Some(ErrorCode::NotInitialized)
    } else {
        record_error(has_account(v, c.user), c)
    }
}

/// The storage after `c.user` recorded `r`: a new slot owned by the caller,
/// and `r` appended to the index.
pub open spec fn stored(v: KalloViewModel, c: StoreReview, r: ReviewView) -> KalloViewModel {
    KalloViewModel {
        state: match v.state {
            Some((auth, index)) => Some((auth, index.push(r))),
            None => None,
        },
        accounts: v.accounts.push(ReviewAccountView { review: r, user: c.user }),
    }
}

/// The balances after a recorded review: the rent minimum moved from caller
/// to program, and the reward moved from treasury to the caller's reward
/// account.
pub open spec fn settled(c: StoreReview) -> StoreReview {
    StoreReview {
        user: c.user,
        user_is_signer: c.user_is_signer,
        user_lamports: (c.user_lamports - c.rent_exempt_minimum) as u64,
        program_lamports: (c.program_lamports + c.rent_exempt_minimum) as u64,
        rent_exempt_minimum: c.rent_exempt_minimum,
        reward_account: Some((reward_start(c) + REWARD_AMOUNT) as u64),
        reward_treasury: (c.reward_treasury - REWARD_AMOUNT) as u64,
    }
}

/// Whether the reward of one review reached the caller between `before` and
/// `after`.
pub open spec fn reward_issued(before: StoreReview, after: StoreReview) -> bool {
    match after.reward_account {
        Some(b) => b as int == reward_start(before) + REWARD_AMOUNT,
        None => false,
    }
}

/// Rejects a payment of `required` from `balance` when it does not cover it.
pub fn balance_guard(balance: u64, required: u64) -> (r: Result<(), ErrorCode>)
    ensures
        r is Ok <==> balance >= required,
        r is Err ==> r == Err::<(), ErrorCode>(ErrorCode::NotEnoughFunds),
{
    if balance < required {
        Err(ErrorCode::NotEnoughFunds)
    } else {
        Ok(())
    }
}

/// The caller's reward balance once its reward account exists: an absent
/// account is created empty, an existing one is left as it is.
pub fn provision_reward_account(account: Option<u64>) -> (r: u64)
    ensures
        r == match account {
            Some(b) => b,
            None => 0u64,
        },
{
    match account {
        Some(b) => b,
        None => 0,
    }
}

/// Moves `REWARD_AMOUNT` from `treasury` to `balance`; returns the new
/// treasury and the new balance, or `TransferFailed` where the treasury is
/// short or the balance would overflow.
pub fn issue_reward(treasury: u64, balance: u64) -> (r: Result<(u64, u64), ErrorCode>)
    ensures
        match r {
            Ok((t, b)) => treasury >= REWARD_AMOUNT && balance + REWARD_AMOUNT <= u64::MAX
                && t == treasury - REWARD_AMOUNT && b == balance + REWARD_AMOUNT,
            Err(e) => e == ErrorCode::TransferFailed && (treasury < REWARD_AMOUNT || balance
                + REWARD_AMOUNT > u64::MAX),
        },
{
    if treasury < REWARD_AMOUNT || balance > u64::MAX - REWARD_AMOUNT {
        Err(ErrorCode::TransferFailed)
    } else {
        Ok((treasury - REWARD_AMOUNT, balance + REWARD_AMOUNT))
    }
}

/// Records a review of `ctx.user` in `index`, given whether the caller's slot
/// is `occupied`: checks that the caller signed, that the slot is free, that
/// the caller covers the slot's rent-exempt minimum and that the reward can be
/// transferred; then moves the rent minimum from caller to program, appends
/// the review to the index, creates the caller's reward account if absent,
/// moves the reward into it, and returns the content of the caller's slot. A
/// rejected call changes nothing.
pub fn record_review(
    index: &mut KalloViewState,
    occupied: bool,
    ctx: &mut StoreReview,
    product_name: String,
    category: String,
    rating: u8,
    comment: String,
) -> (r: Result<ReviewAccount, ErrorCode>)
    requires
        old(ctx).program_lamports + old(ctx).rent_exempt_minimum <= u64::MAX,
    ensures
        final(index).authority == old(index).authority,
        match record_error(occupied, *old(ctx)) {
            Some(e) => r is Err && r->Err_0 == e && final(index).index() == old(index).index()
                && *final(ctx) == *old(ctx),
            None => {
                let rv = ReviewView {
                    product_name: product_name@,
                    category: category@,
                    rating,
                    comment: comment@,
                };
                &&& r is Ok
                &&& r->Ok_0@ == (ReviewAccountView { review: rv, user: old(ctx).user })
                &&& final(index).index() == old(index).index().push(rv)
                &&& *final(ctx) == settled(*old(ctx))
            },
        },
        r is Ok <==> reward_issued(*old(ctx), *final(ctx)),
{
    if !ctx.user_is_signer {
        return Err(ErrorCode::Unauthorized);
    }
    if occupied {
        return Err(ErrorCode::SlotOccupied);
    }
    if let Err(e) = balance_guard(ctx.user_lamports, ctx.rent_exempt_minimum) {
        return Err(e);
    }
    let start = provision_reward_account(ctx.reward_account);
    let (treasury, balance) = match issue_reward(ctx.reward_treasury, start) {
        Ok(p) => p,
        Err(e) => return Err(e),
    };
    ctx.user_lamports = ctx.user_lamports - ctx.rent_exempt_minimum;
    ctx.program_lamports = ctx.program_lamports + ctx.rent_exempt_minimum;
    let account = ReviewAccount { product_name, category, rating, comment, user: ctx.user };
    let ghost before = index.index();
    let review = account.to_review();
    index.reviews.push(review);
    assert(index.index() =~= before.push(account@.review));
    ctx.reward_account = Some(balance);
    ctx.reward_treasury = treasury;
    Ok(account)
}

impl KalloView {
    pub open spec fn wf(&self) -> bool {
        registry_wf(self@)
    }

    /// Storage with no index slot and no review slot.
    pub fn new() -> (r: KalloView)
        ensures
            r.wf(),
            r@.state is None,
            r@.accounts.len() == 0,
    {
        KalloView { state: None, review_accounts: Vec::new() }
    }

    /// Creates the index slot with no reviews, its authority the payer.
    pub fn initialize(&mut self, ctx: &Initialize) -> (r: Result<(), ErrorCode>)
        requires
            old(self).wf(),
        ensures
            final(self).wf(),
            old(self)@.state is Some ==> r == Err::<(), ErrorCode>(ErrorCode::AlreadyInitialized)
                && final(self)@ == old(self)@,
            old(self)@.state is None ==> r is Ok && final(self)@ == (KalloViewModel {
                state: Some((ctx.user, Seq::<ReviewView>::empty())),
                accounts: old(self)@.accounts,
            }),
    {
        if self.state.is_some() {
            return Err(ErrorCode::AlreadyInitialized);
        }
        self.state = Some(KalloViewState { authority: ctx.user, reviews: Vec::new() });
        assert(reviews_view(Seq::<Review>::empty()) =~= Seq::<ReviewView>::empty());
        Ok(())
    }

    /// The position of the slot owned by `user`, if any.
    pub fn find_review_account(&self, user: Identity) -> (r: Option<usize>)
        ensures
            match r {
                Some(i) => i < self.review_accounts.len() && self.review_accounts@[i as int].user
                    == user,
                None => !has_account(self@, user),
            },
    {
        let n = self.review_accounts.len();
        let mut i: usize = 0;
        while i < n
            invariant
                n == self.review_accounts.len(),
                i <= n,
                forall|j: int| 0 <= j < i ==> self.review_accounts@[j].user != user,
            decreases n - i,
        {
            if self.review_accounts[i].user == user {
                return Some(i);
            }
            i += 1;
        }
        assert forall|j: int| 0 <= j < self@.accounts.len() implies (
        #[trigger] self@.accounts[j]).user != user by {
            assert(self@.accounts[j] == self.review_accounts@[j]@);
        }
        None
    }

    /// Records a review of `ctx.user`: checks that the caller signed, that the
    /// index exists, that the caller's slot is free, that the caller covers
    /// the slot's rent-exempt minimum and that the reward can be transferred;
    /// then moves the rent minimum from caller to program, fills the caller's
    /// slot, appends the review to the index, creates the caller's reward
    /// account if absent and moves the reward into it. A rejected call
    /// changes nothing.
    pub fn store_review(
        &mut self,
        ctx: &mut StoreReview,
        product_name: String,
        category: String,
        rating: u8,
        comment: String,
    ) -> (r: Result<(), ErrorCode>)
        requires
            old(self).wf(),
            old(ctx).program_lamports + old(ctx).rent_exempt_minimum <= u64::MAX,
        ensures
            final(self).wf(),
            match store_review_error(old(self)@, *old(ctx)) {
                Some(e) => r == Err::<(), ErrorCode>(e) && final(self)@ == old(self)@ && *final(ctx)
                    == *old(ctx),
                None => r is Ok && *final(ctx) == settled(*old(ctx)) && final(self)@ == stored(
                    old(self)@,
                    *old(ctx),
                    ReviewView {
                        product_name: product_name@,
                        category: category@,
                        rating,
                        comment: comment@,
                    },
                ),
            },
            r is Ok <==> reward_issued(*old(ctx), *final(ctx)),
    {
        if !ctx.user_is_signer {
            return Err(ErrorCode::Unauthorized);
        }
        let occupied = match self.find_review_account(ctx.user) {
            Some(i) => {
                assert(self@.accounts[i as int].user == ctx.user);
                true
            },
            None => false,
        };
        let ghost before = self@;
        match &mut self.state {
            None => Err(ErrorCode::NotInitialized),
            Some(s) => {
                match record_review(s, occupied, ctx, product_name, category, rating, comment) {
                    Ok(account) => {
                        self.review_accounts.push(account);
                        assert(self@.accounts =~= before.accounts.push(account@));
                        assert(self@ == stored(before, *old(ctx), account@.review));
                        Ok(())
                    },
                    Err(e) => Err(e),
                }
            },
        }
    }

    /// The recorded reviews, in order, for the configured authority.
    pub fn get_reviews(&self, ctx: &GetReviews) -> (r: Result<Vec<Review>, ErrorCode>)
        ensures
            match self@.state {
                None => r is Err && r->Err_0 == ErrorCode::NotInitialized,
                Some((auth, index)) => if ctx.authority_is_signer && ctx.authority == auth {
                    r is Ok && reviews_view(r->Ok_0@) == index
                } else {
                    r is Err && r->Err_0 == ErrorCode::Unauthorized
                },
            },
    {
        match &self.state {
            None => Err(ErrorCode::NotInitialized),
            Some(s) => {
                if !ctx.authority_is_signer || ctx.authority != s.authority {
                    return Err(ErrorCode::Unauthorized);
                }
                let mut out: Vec<Review> = Vec::new();
                let n = s.reviews.len();
                let mut i: usize = 0;
                while i < n
                    invariant
                        n == s.reviews.len(),
                        i <= n,
                        out@.len() == i,
                        forall|j: int| 0 <= j < i ==> (#[trigger] out@[j])@ == s.reviews@[j]@,
                    decreases n - i,
                {
                    let copy = s.reviews[i].duplicate();
                    out.push(copy);
                    i += 1;
                }
                assert(reviews_view(out@) =~= reviews_view(s.reviews@));
                Ok(out)
            },
        }
    }

    /// A copy of the slot owned by `user`, if any.
    pub fn review_account(&self, user: Identity) -> (r: Option<ReviewAccount>)
        ensures
            match r {
                Some(a) => a.user == user && exists|i: int|
                    0 <= i < self@.accounts.len() && #[trigger] self@.accounts[i] == a@,
                None => !has_account(self@, user),
            },
    {
        match self.find_review_account(user) {
            Some(i) => {
                let a = self.review_accounts[i].duplicate();
                assert(self@.accounts[i as int] == a@);
                Some(a)
            },
            None => None,
        }
    }

    /// The number of reviews in the index; zero before it exists.
    pub fn review_count(&self) -> (r: usize)
        ensures
            r == match self@.state {
                Some((_, index)) => index.len(),
                None => 0,
            },
    {
        match &self.state {
            Some(s) => s.reviews.len(),
            None => 0,
        }
    }
}

} // verus!
