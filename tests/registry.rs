use kalloview::{
    balance_guard, issue_reward, provision_reward_account, ErrorCode, GetReviews, Identity,
    Initialize, KalloView, StoreReview, REWARD_AMOUNT,
};

const U: Identity = Identity { hi: 7, lo: 11 };
const V: Identity = Identity { hi: 7, lo: 12 };
const ADMIN: Identity = Identity { hi: 1, lo: 1 };

fn ready() -> KalloView {
    let mut k = KalloView::new();
    assert_eq!(k.initialize(&Initialize { user: ADMIN }), Ok(()));
    k
}

fn ctx(user: Identity, lamports: u64, reward: Option<u64>) -> StoreReview {
    StoreReview {
        user,
        user_is_signer: true,
        user_lamports: lamports,
        program_lamports: 500,
        rent_exempt_minimum: 1_000,
        reward_account: reward,
        reward_treasury: 100,
    }
}

fn store(k: &mut KalloView, c: &mut StoreReview) -> Result<(), ErrorCode> {
    k.store_review(
        c,
        "Kettle".to_string(),
        "Appliances".to_string(),
        5,
        "Great".to_string(),
    )
}

#[test]
fn kettle_review_is_recorded_and_rewarded() {
    let mut k = ready();
    let mut c = ctx(U, 5_000, None);
    assert_eq!(k.review_count(), 0);
    assert_eq!(store(&mut k, &mut c), Ok(()));
    assert_eq!(k.review_count(), 1);
    let a = k.review_account(U).unwrap();
    assert_eq!(a.product_name, "Kettle");
    assert_eq!(a.category, "Appliances");
    assert_eq!(a.rating, 5);
    assert_eq!(a.comment, "Great");
    assert_eq!(a.user, U);
    assert_eq!(c.reward_account, Some(10));
    assert_eq!(c.reward_treasury, 90);
    assert_eq!(c.user_lamports, 4_000);
    assert_eq!(c.program_lamports, 1_500);
}

#[test]
fn existing_reward_account_is_credited() {
    let mut k = ready();
    let mut c = ctx(U, 5_000, Some(32));
    assert_eq!(store(&mut k, &mut c), Ok(()));
    assert_eq!(c.reward_account, Some(42));
}

#[test]
fn underfunded_caller_is_refused() {
    let mut k = ready();
    let mut c = ctx(U, 999, None);
    let before = c;
    assert_eq!(store(&mut k, &mut c), Err(ErrorCode::NotEnoughFunds));
    assert_eq!(k.review_count(), 0);
    assert!(k.review_account(U).is_none());
    assert_eq!(c, before);
}

#[test]
fn exact_rent_minimum_is_enough() {
    let mut k = ready();
    let mut c = ctx(U, 1_000, None);
    assert_eq!(store(&mut k, &mut c), Ok(()));
    assert_eq!(c.user_lamports, 0);
}

#[test]
fn second_review_by_same_caller_is_refused() {
    let mut k = ready();
    let mut c = ctx(U, 5_000, None);
    assert_eq!(store(&mut k, &mut c), Ok(()));
    let before = c;
    assert_eq!(store(&mut k, &mut c), Err(ErrorCode::SlotOccupied));
    assert_eq!(k.review_count(), 1);
    assert_eq!(c, before);
}

#[test]
fn two_callers_each_append_once() {
    let mut k = ready();
    assert_eq!(store(&mut k, &mut ctx(U, 5_000, None)), Ok(()));
    assert_eq!(store(&mut k, &mut ctx(V, 5_000, None)), Ok(()));
    assert_eq!(k.review_count(), 2);
    assert_eq!(k.review_account(V).unwrap().user, V);
}

#[test]
fn unsigned_caller_is_refused() {
    let mut k = ready();
    let mut c = ctx(U, 5_000, None);
    c.user_is_signer = false;
    assert_eq!(store(&mut k, &mut c), Err(ErrorCode::Unauthorized));
    assert_eq!(k.review_count(), 0);
}

#[test]
fn store_before_initialize_is_refused() {
    let mut k = KalloView::new();
    let mut c = ctx(U, 5_000, None);
    assert_eq!(store(&mut k, &mut c), Err(ErrorCode::NotInitialized));
}

#[test]
fn short_treasury_fails_without_recording() {
    let mut k = ready();
    let mut c = ctx(U, 5_000, None);
    c.reward_treasury = 9;
    let before = c;
    assert_eq!(store(&mut k, &mut c), Err(ErrorCode::TransferFailed));
    assert_eq!(k.review_count(), 0);
    assert!(k.review_account(U).is_none());
    assert_eq!(c, before);
}

#[test]
fn reward_overflow_fails_without_recording() {
    let mut k = ready();
    let mut c = ctx(U, 5_000, Some(u64::MAX - 9));
    assert_eq!(store(&mut k, &mut c), Err(ErrorCode::TransferFailed));
    assert_eq!(k.review_count(), 0);
}

#[test]
fn second_initialize_is_refused() {
    let mut k = ready();
    assert_eq!(
        k.initialize(&Initialize { user: U }),
        Err(ErrorCode::AlreadyInitialized)
    );
}

#[test]
fn get_reviews_by_stranger_is_unauthorized() {
    let k = ready();
    let r = k.get_reviews(&GetReviews { authority: U, authority_is_signer: true });
    assert!(matches!(r, Err(ErrorCode::Unauthorized)));
    let r = k.get_reviews(&GetReviews { authority: ADMIN, authority_is_signer: false });
    assert!(matches!(r, Err(ErrorCode::Unauthorized)));
}

#[test]
fn get_reviews_on_empty_index_is_empty() {
    let k = ready();
    let r = k.get_reviews(&GetReviews { authority: ADMIN, authority_is_signer: true });
    assert_eq!(r.unwrap().len(), 0);
}

#[test]
fn get_reviews_lists_in_order() {
    let mut k = ready();
    assert_eq!(store(&mut k, &mut ctx(U, 5_000, None)), Ok(()));
    let mut c = ctx(V, 5_000, None);
    assert_eq!(
        k.store_review(&mut c, "Toaster".to_string(), "Kitchen".to_string(), 3, "Ok".to_string()),
        Ok(())
    );
    let r = k.get_reviews(&GetReviews { authority: ADMIN, authority_is_signer: true }).unwrap();
    assert_eq!(r.len(), 2);
    assert_eq!(r[0].product_name, "Kettle");
    assert_eq!(r[1].product_name, "Toaster");
    assert_eq!(r[1].rating, 3);
}

#[test]
fn get_reviews_before_initialize() {
    let k = KalloView::new();
    let r = k.get_reviews(&GetReviews { authority: ADMIN, authority_is_signer: true });
    assert!(matches!(r, Err(ErrorCode::NotInitialized)));
}

#[test]
fn guard_and_reward_steps() {
    assert_eq!(balance_guard(5, 6), Err(ErrorCode::NotEnoughFunds));
    assert_eq!(balance_guard(6, 6), Ok(()));
    assert_eq!(provision_reward_account(None), 0);
    assert_eq!(provision_reward_account(Some(3)), 3);
    assert_eq!(issue_reward(25, 3), Ok((15, 13)));
    assert_eq!(issue_reward(9, 3), Err(ErrorCode::TransferFailed));
    assert_eq!(REWARD_AMOUNT, 10);
}
