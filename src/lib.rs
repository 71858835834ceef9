//! A review registry with a token reward: users record one review each in
//! an addressed slot and in a shared append-only index, pay the slot's
//! rent-exempt minimum, and receive a fixed number of reward tokens.

mod error;
mod laws;
mod registry;
mod review;

pub use error::ErrorCode;
pub use laws::{
    lemma_reward_iff_recorded, lemma_second_store_rejected, lemma_store_appends_one,
    lemma_underfunded_rejected,
};
pub use registry::{
    balance_guard, has_account, issue_reward, provision_reward_account, record_error,
    record_review, registry_wf,
    reviews_view, reward_issued, reward_start, reward_transferable, settled,
    store_review_error, stored, GetReviews, Initialize, KalloView, KalloViewModel,
    KalloViewState, StoreReview, REWARD_AMOUNT,
};
pub use review::{Identity, Review, ReviewAccount, ReviewAccountView, ReviewView};
