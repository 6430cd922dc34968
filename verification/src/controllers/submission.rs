//! The submission controller: one state cell that follows a review from the
//! form to the backend and back.
//!
//! The cell starts idle. A dispatch is accepted unless a submission is
//! already under way; while one is, every further dispatch is dropped, so
//! that dispatches in a row make one submission. A resolution is applied
//! whenever it arrives, whatever the cell holds at that moment: responses
//! carry no sequence number, and a late one overwrites what came before.

use crate::controllers::api::{submit_outcome, submit_request, submit_result_view, success};
use crate::controllers::api::{DeliveryView, FieldValueView, FieldView, Method};
use crate::error::{human_readable, RequestError, RequestErrorView};
use crate::models::{ReviewInput, ReviewView};
use crate::text::decimal;
use vstd::prelude::*;

verus! {

/// The rating that an empty form shows.
pub const DEFAULT_RATING: i32 = 5;

/// The state of a submission as mathematics.
pub enum SubmissionStateView {
    Idle,
    Submitting,
    Success,
    Failed(Seq<char>),
}

/// The state of the submission controller.
#[derive(Debug, Clone, PartialEq)]
pub enum SubmissionState {
    /// Nothing has been submitted yet.
    Idle,
    /// A submission is in flight.
    Submitting,
    /// The last submission was accepted.
    Success,
    /// The last submission failed. Holds the line to show.
    Failed(String),
}

impl View for SubmissionState {
    type V = SubmissionStateView;

    open spec fn view(&self) -> SubmissionStateView {
        match self {
            SubmissionState::Idle => SubmissionStateView::Idle,
            SubmissionState::Submitting => SubmissionStateView::Submitting,
            SubmissionState::Success => SubmissionStateView::Success,
            SubmissionState::Failed(message) => SubmissionStateView::Failed(message@),
        }
    }
}

/// What the controller tells the form to do when a submission resolves.
#[derive(Debug, Clone, Copy, PartialEq, Eq)]
pub enum FormSignal {
    /// Empty the form: the review has been stored.
    Clear,
    /// Leave the form as it is, so that the user can correct and resubmit.
    Keep,
}

/// The review that a dispatch hands on, where it hands one on.
pub open spec fn call_view(call: Option<ReviewInput>) -> Option<ReviewView> {
    match call {
        Some(review) => Some(review@),
        None => None,
    }
}

/// The transition taken on a dispatch: the next state, and the review to
/// submit where the dispatch is accepted.
pub open spec fn dispatched(state: SubmissionStateView, review: ReviewView) -> (
    SubmissionStateView,
    Option<ReviewView>,
) {
    if state is Submitting {
        (state, None)
    } else {
        (SubmissionStateView::Submitting, Some(review))
    }
}

/// The transition taken when a submission resolves: the next state and the
/// signal to the form.
pub open spec fn resolved(outcome: Result<(), RequestErrorView>) -> (
    SubmissionStateView,
    FormSignal,
) {
    match outcome {
        Ok(()) => (SubmissionStateView::Success, FormSignal::Clear),
        Err(error) => (SubmissionStateView::Failed(human_readable(error)), FormSignal::Keep),
    }
}

impl SubmissionState {
    /// A controller that has not submitted anything.
    pub fn new() -> (state: SubmissionState)
        ensures
            state@ == SubmissionStateView::Idle,
    {
        SubmissionState::Idle
    }

    /// Takes a review from the form. Where no submission is in flight, the
    /// state becomes `Submitting` and the review comes back: the caller now
    /// submits it. Where one is in flight, nothing changes and nothing comes
    /// back.
    pub fn dispatch(&mut self, review: ReviewInput) -> (call: Option<ReviewInput>)
        ensures
            (final(self)@, call_view(call)) == dispatched(old(self)@, review@),
    {
        match self {
            SubmissionState::Submitting => None,
            _ => {
                *self = SubmissionState::Submitting;
                Some(review)
            },
        }
    }

    /// Takes the outcome of a submission. Success clears the form; a
    /// failure is rendered into the state and the form is kept.
    pub fn resolve(&mut self, outcome: Result<(), RequestError>) -> (signal: FormSignal)
        ensures
            (final(self)@, signal) == resolved(submit_result_view(outcome)),
    {
        match outcome {
            Ok(()) => {
                *self = SubmissionState::Success;
                FormSignal::Clear
            },
            Err(error) => {
                *self = SubmissionState::Failed(error.human_readable());
                FormSignal::Keep
            },
        }
    }
}

/// The form with nothing typed into it.
pub open spec fn empty_draft() -> ReviewView {
    ReviewView {
        review_title: Seq::empty(),
        review_body: Seq::empty(),
        product_id: Seq::empty(),
        review_rating: DEFAULT_RATING as int,
    }
}

/// What the form holds once it has obeyed a signal.
pub open spec fn applied(draft: ReviewView, signal: FormSignal) -> ReviewView {
    match signal {
        FormSignal::Clear => empty_draft(),
        FormSignal::Keep => draft,
    }
}

/// What the user has typed into the review form so far.
#[derive(Debug, Clone, PartialEq)]
pub struct ReviewDraft {
    pub title: String,
    pub body: String,
    pub product_id: String,
    pub rating: i32,
}

impl View for ReviewDraft {
    type V = ReviewView;

    open spec fn view(&self) -> ReviewView {
        ReviewView {
            review_title: self.title@,
            review_body: self.body@,
            product_id: self.product_id@,
            review_rating: self.rating as int,
        }
    }
}

impl ReviewDraft {
    /// An empty form: no text, and the default rating.
    pub fn new() -> (draft: ReviewDraft)
        ensures
            draft@ == empty_draft(),
    {
        ReviewDraft {
            title: String::new(),
            body: String::new(),
            product_id: String::new(),
            rating: DEFAULT_RATING,
        }
    }

    /// The review that the form holds right now, made afresh for one
    /// dispatch.
    pub fn review(&self) -> (review: ReviewInput)
        ensures
            review@ == self@,
    {
        ReviewInput {
            review_title: self.title.clone(),
            review_body: self.body.clone(),
            product_id: self.product_id.clone(),
            review_rating: self.rating,
        }
    }

    /// Obeys the controller's signal.
    pub fn apply(&mut self, signal: FormSignal)
        ensures
            final(self)@ == applied(old(self)@, signal),
    {
        match signal {
            FormSignal::Clear => {
                *self = ReviewDraft::new();
            },
            FormSignal::Keep => {},
        }
    }
}

/// A submission is one POST of the review's four fields, and its acceptance
/// ends in `Success` with an empty form. For every valid review, every base
/// address and every success status: the request is a POST to `/reviews`
/// under the base address; its body holds exactly `review_title`,
/// `review_body`, `product_id` and `review_rating`, with the values of the
/// review; the submission ends well; the controller moves from `Submitting` to
/// `Success`; and the form, whatever it held, is left with three empty texts
/// and the default rating.
pub proof fn law_acceptance_clears_form(
    base_url: Seq<char>,
    review: ReviewView,
    status: nat,
    body: Option<Seq<char>>,
    draft: ReviewView,
)
    requires
        review.valid(),
        success(status),
    ensures
        submit_request(base_url, review).method == Method::Post,
        submit_request(base_url, review).url == base_url + "/reviews"@,
        submit_request(base_url, review).body.len() == 4,
        submit_request(base_url, review).body[0] == (FieldView {
            name: "review_title"@,
            value: FieldValueView::Text(review.review_title),
        }),
        submit_request(base_url, review).body[1] == (FieldView {
            name: "review_body"@,
            value: FieldValueView::Text(review.review_body),
        }),
        submit_request(base_url, review).body[2] == (FieldView {
            name: "product_id"@,
            value: FieldValueView::Text(review.product_id),
        }),
        submit_request(base_url, review).body[3] == (FieldView {
            name: "review_rating"@,
            value: FieldValueView::Number(review.review_rating),
        }),
        submit_outcome(DeliveryView::Answered(status), body) == Ok::<(), RequestErrorView>(()),
        resolved(submit_outcome(DeliveryView::Answered(status), body)).0
            == SubmissionStateView::Success,
        applied(draft, resolved(submit_outcome(DeliveryView::Answered(status), body)).1)
            == empty_draft(),
        empty_draft().review_title.len() == 0,
        empty_draft().review_body.len() == 0,
        empty_draft().product_id.len() == 0,
        empty_draft().review_rating == 5,
{
}

/// A refused review ends in `Failed` with the form untouched. For every
/// status outside the success range and every body: the controller ends in
/// `Failed` with the line made of `HTTP `, the status in decimal, `: ` and the
/// body, and the form is left exactly as it was.
pub proof fn law_refusal_keeps_form(status: nat, body: Seq<char>, draft: ReviewView)
    requires
        !success(status),
    ensures
        resolved(submit_outcome(DeliveryView::Answered(status), Some(body))).0
            == SubmissionStateView::Failed("HTTP "@ + decimal(status) + ": "@ + body),
        applied(draft, resolved(submit_outcome(DeliveryView::Answered(status), Some(body))).1)
            == draft,
{
}

/// Every failure keeps the form: whatever the error, the controller ends in
/// `Failed` with the error's line, and the form is left as it was.
pub proof fn law_failure_keeps_form(error: RequestErrorView, draft: ReviewView)
    ensures
        resolved(Err(error)).0 == SubmissionStateView::Failed(human_readable(error)),
        applied(draft, resolved(Err(error)).1) == draft,
{
}

/// At most one submission is in flight: after any dispatch the controller
/// is `Submitting`, and a dispatch that follows before a resolution changes
/// nothing and hands nothing on. The first dispatch hands its review on
/// exactly when no submission was in flight before it.
pub proof fn law_second_dispatch_is_dropped(
    state: SubmissionStateView,
    first: ReviewView,
    second: ReviewView,
)
    ensures
        dispatched(state, first).0 == SubmissionStateView::Submitting,
        dispatched(state, first).1 == if state is Submitting {
            None
        } else {
            Some(first)
        },
        dispatched(dispatched(state, first).0, second) == (
            SubmissionStateView::Submitting,
            None::<ReviewView>,
        ),
{
}

} // verus!
