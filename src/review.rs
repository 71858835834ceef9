use vstd::prelude::*;

verus! {

/// A 32-byte account identity, held as two 128-bit halves.
#[derive(Clone, Copy, Debug, PartialEq, Eq, Structural)]
pub struct Identity {
    pub hi: u128,
    pub lo: u128,
}

/// One product review.
#[derive(Debug)]
pub struct Review {
    pub product_name: String,
    pub category: String,
    pub rating: u8,
    pub comment: String,
}

/// The mathematical value of a `Review`.
pub struct ReviewView {
    pub product_name: Seq<char>,
    pub category: Seq<char>,
    pub rating: u8,
    pub comment: Seq<char>,
}

impl View for Review {
    type V = ReviewView;

    open spec fn view(&self) -> ReviewView {
        ReviewView {
            product_name: self.product_name@,
            category: self.category@,
            rating: self.rating,
            comment: self.comment@,
        }
    }
}

impl Review {
    /// A copy of this review.
    pub fn duplicate(&self) -> (r: Review)
        ensures
            r@ == self@,
    {
        Review {
            product_name: self.product_name.clone(),
            category: self.category.clone(),
            rating: self.rating,
            comment: self.comment.clone(),
        }
    }
}

/// The addressed slot of one user: the review and its owner.
#[derive(Debug)]
pub struct ReviewAccount {
    pub product_name: String,
    pub category: String,
    pub rating: u8,
    pub comment: String,
    pub user: Identity,
}

/// The mathematical value of a `ReviewAccount`.
pub struct ReviewAccountView {
    pub review: ReviewView,
    pub user: Identity,
}

impl View for ReviewAccount {
    type V = ReviewAccountView;

    open spec fn view(&self) -> ReviewAccountView {
        ReviewAccountView {
            review: ReviewView {
                product_name: self.product_name@,
                category: self.category@,
                rating: self.rating,
                comment: self.comment@,
            },
            user: self.user,
        }
    }
}

impl ReviewAccount {
    /// The review held in this slot, without its owner.
    pub fn to_review(&self) -> (r: Review)
        ensures
            r@ == self@.review,
    {
        Review {
            product_name: self.product_name.clone(),
            category: self.category.clone(),
            rating: self.rating,
            comment: self.comment.clone(),
        }
    }

    /// A copy of this slot.
    pub fn duplicate(&self) -> (r: ReviewAccount)
        ensures
            r@ == self@,
    {
        ReviewAccount {
            product_name: self.product_name.clone(),
            category: self.category.clone(),
            rating: self.rating,
            comment: self.comment.clone(),
            user: self.user,
        }
    }
}

} // verus!
