//! A product review, as stored by the backend and as typed into the form.

use vstd::prelude::*;

verus! {

/// What a review says, as mathematics: the three texts and the rating.
pub struct ReviewView {
    pub review_title: Seq<char>,
    pub review_body: Seq<char>,
    pub product_id: Seq<char>,
    pub review_rating: int,
}

impl ReviewView {
    /// A review fit for submission: every text is filled in and the rating
    /// lies between one and five stars. The form asks for this; nothing in
    /// this crate turns down a review that falls short of it.
    pub open spec fn valid(self) -> bool {
        &&& self.review_title.len() > 0
        &&& self.review_body.len() > 0
        &&& self.product_id.len() > 0
        &&& 1 <= self.review_rating <= 5
    }
}

/// A review held by the backend.
#[derive(Debug, Clone, PartialEq)]
pub struct Review {
    pub review_title: String,
    pub review_body: String,
    pub product_id: String,
    pub review_rating: i32,
}

impl View for Review {
    type V = ReviewView;

    open spec fn view(&self) -> ReviewView {
        ReviewView {
            review_title: self.review_title@,
            review_body: self.review_body@,
            product_id: self.product_id@,
            review_rating: self.review_rating as int,
        }
    }
}

/// A review on its way to the backend, made afresh from the form at each
/// submission.
#[derive(Debug, Clone, PartialEq)]
pub struct ReviewInput {
    pub review_title: String,
    pub review_body: String,
    pub product_id: String,
    pub review_rating: i32,
}

impl View for ReviewInput {
    type V = ReviewView;

    open spec fn view(&self) -> ReviewView {
        ReviewView {
            review_title: self.review_title@,
            review_body: self.review_body@,
            product_id: self.product_id@,
            review_rating: self.review_rating as int,
        }
    }
}

} // verus!
