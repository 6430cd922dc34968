use frontend::controllers::api::{submit_review, submit_review_delivered, Delivery, SubmitStep};
use frontend::controllers::submission::{FormSignal, ReviewDraft, SubmissionState, DEFAULT_RATING};
use frontend::error::RequestError;
use frontend::models::ReviewInput;

fn filled_draft() -> ReviewDraft {
    ReviewDraft {
        title: "Great battery".to_string(),
        body: "Lasts two days on one charge.".to_string(),
        product_id: "B00X4WHP5E".to_string(),
        rating: 4,
    }
}

fn some_review(title: &str) -> ReviewInput {
    ReviewInput {
        review_title: title.to_string(),
        review_body: "body".to_string(),
        product_id: "p-1".to_string(),
        review_rating: 3,
    }
}

/// Runs one submission against a backend that answers with `status` and
/// `body`, and counts the requests made.
fn submit_against(
    state: &mut SubmissionState,
    draft: &mut ReviewDraft,
    status: u16,
    body: &str,
) -> usize {
    let mut requests = 0;
    if let Some(review) = state.dispatch(draft.review()) {
        let _request = submit_review("http://localhost:8000", review);
        requests += 1;
        let outcome = match submit_review_delivered(Delivery::Answered(status)) {
            SubmitStep::Done(outcome) => outcome,
            SubmitStep::ReadFailure(response) => Err(response.into_error(Some(body.to_string()))),
        };
        let signal = state.resolve(outcome);
        draft.apply(signal);
    }
    requests
}

#[test]
fn a_new_controller_is_idle() {
    assert_eq!(SubmissionState::new(), SubmissionState::Idle);
}

#[test]
fn the_default_rating_is_five() {
    assert_eq!(DEFAULT_RATING, 5);
}

#[test]
fn a_new_draft_is_empty_with_rating_five() {
    let draft = ReviewDraft::new();
    assert_eq!(draft.title, "");
    assert_eq!(draft.body, "");
    assert_eq!(draft.product_id, "");
    assert_eq!(draft.rating, 5);
}

#[test]
fn a_draft_yields_the_review_it_holds() {
    let draft = filled_draft();
    assert_eq!(
        draft.review(),
        ReviewInput {
            review_title: "Great battery".to_string(),
            review_body: "Lasts two days on one charge.".to_string(),
            product_id: "B00X4WHP5E".to_string(),
            review_rating: 4,
        }
    );
    assert_eq!(draft, filled_draft());
}

#[test]
fn clear_empties_a_draft_and_keep_leaves_it() {
    let mut draft = filled_draft();
    draft.apply(FormSignal::Keep);
    assert_eq!(draft, filled_draft());
    draft.apply(FormSignal::Clear);
    assert_eq!(
        draft,
        ReviewDraft {
            title: String::new(),
            body: String::new(),
            product_id: String::new(),
            rating: 5
        }
    );
}

#[test]
fn dispatch_from_idle_starts_a_submission() {
    let mut state = SubmissionState::new();
    let call = state.dispatch(some_review("a"));
    assert_eq!(call, Some(some_review("a")));
    assert_eq!(state, SubmissionState::Submitting);
}

#[test]
fn dispatch_from_success_starts_a_submission() {
    let mut state = SubmissionState::Success;
    assert_eq!(state.dispatch(some_review("a")), Some(some_review("a")));
    assert_eq!(state, SubmissionState::Submitting);
}

#[test]
fn dispatch_from_failed_starts_a_submission_and_drops_the_message() {
    let mut state = SubmissionState::Failed("HTTP 400: bad rating".to_string());
    assert_eq!(state.dispatch(some_review("a")), Some(some_review("a")));
    assert_eq!(state, SubmissionState::Submitting);
}

#[test]
fn dispatch_while_submitting_is_dropped() {
    let mut state = SubmissionState::Submitting;
    assert_eq!(state.dispatch(some_review("a")), None);
    assert_eq!(state, SubmissionState::Submitting);
}

#[test]
fn two_dispatches_make_one_call() {
    let mut state = SubmissionState::new();
    let first = state.dispatch(some_review("first"));
    let second = state.dispatch(some_review("second"));
    assert_eq!(first, Some(some_review("first")));
    assert_eq!(second, None);
    assert_eq!(state, SubmissionState::Submitting);
    let calls = [first, second].iter().filter(|call| call.is_some()).count();
    assert_eq!(calls, 1);
}

#[test]
fn many_dispatches_still_make_one_call() {
    let mut state = SubmissionState::new();
    let mut calls = 0;
    for i in 0..50 {
        if state.dispatch(some_review(&format!("r{}", i))).is_some() {
            calls += 1;
        }
    }
    assert_eq!(calls, 1);
}

#[test]
fn a_resolution_reopens_the_controller() {
    let mut state = SubmissionState::new();
    assert!(state.dispatch(some_review("a")).is_some());
    state.resolve(Ok(()));
    assert!(state.dispatch(some_review("b")).is_some());
    state.resolve(Err(RequestError::Transport("down".to_string())));
    assert!(state.dispatch(some_review("c")).is_some());
}

#[test]
fn resolve_ok_is_success_and_clear() {
    let mut state = SubmissionState::Submitting;
    assert_eq!(state.resolve(Ok(())), FormSignal::Clear);
    assert_eq!(state, SubmissionState::Success);
}

#[test]
fn resolve_err_is_failed_and_keep() {
    let mut state = SubmissionState::Submitting;
    let signal = state.resolve(Err(RequestError::HttpStatus(400, "bad rating".to_string())));
    assert_eq!(signal, FormSignal::Keep);
    assert_eq!(state, SubmissionState::Failed("HTTP 400: bad rating".to_string()));
}

#[test]
fn resolve_renders_each_kind_of_failure() {
    let mut state = SubmissionState::Submitting;
    state.resolve(Err(RequestError::Transport("connection refused".to_string())));
    assert_eq!(state, SubmissionState::Failed("Request failed: connection refused".to_string()));
    state.resolve(Err(RequestError::Serialization("bad payload".to_string())));
    assert_eq!(state, SubmissionState::Failed("Request failed: bad payload".to_string()));
    state.resolve(Err(RequestError::Deserialization("bad body".to_string())));
    assert_eq!(state, SubmissionState::Failed("Request failed: bad body".to_string()));
    state.resolve(Err(RequestError::Validation("fill in the title".to_string())));
    assert_eq!(state, SubmissionState::Failed("fill in the title".to_string()));
}

#[test]
fn a_late_resolution_overwrites_the_state() {
    let mut state = SubmissionState::Success;
    state.resolve(Err(RequestError::Transport("slow and failed".to_string())));
    assert_eq!(state, SubmissionState::Failed("Request failed: slow and failed".to_string()));
    let mut state = SubmissionState::Idle;
    assert_eq!(state.resolve(Ok(())), FormSignal::Clear);
    assert_eq!(state, SubmissionState::Success);
}

#[test]
fn an_accepted_review_clears_the_form() {
    let mut state = SubmissionState::new();
    let mut draft = filled_draft();
    let requests = submit_against(&mut state, &mut draft, 201, "");
    assert_eq!(requests, 1);
    assert_eq!(state, SubmissionState::Success);
    assert_eq!(draft, ReviewDraft::new());
    assert_eq!(draft.rating, 5);
}

#[test]
fn a_refused_review_keeps_the_form() {
    let mut state = SubmissionState::new();
    let mut draft = filled_draft();
    let requests = submit_against(&mut state, &mut draft, 400, "bad rating");
    assert_eq!(requests, 1);
    assert_eq!(state, SubmissionState::Failed("HTTP 400: bad rating".to_string()));
    assert_eq!(draft, filled_draft());
}

#[test]
fn a_refused_review_can_be_corrected_and_resubmitted() {
    let mut state = SubmissionState::new();
    let mut draft = filled_draft();
    draft.rating = 9;
    submit_against(&mut state, &mut draft, 422, "rating out of range");
    assert_eq!(state, SubmissionState::Failed("HTTP 422: rating out of range".to_string()));
    assert_eq!(draft.rating, 9);
    draft.rating = 5;
    let requests = submit_against(&mut state, &mut draft, 200, "");
    assert_eq!(requests, 1);
    assert_eq!(state, SubmissionState::Success);
    assert_eq!(draft, ReviewDraft::new());
}

#[test]
fn a_review_that_was_never_sent_keeps_the_form() {
    let mut state = SubmissionState::new();
    let mut draft = filled_draft();
    let review = state.dispatch(draft.review()).unwrap();
    let _request = submit_review("http://localhost:8000", review);
    let outcome = match submit_review_delivered(Delivery::NotSent("Failed to fetch".to_string())) {
        SubmitStep::Done(outcome) => outcome,
        SubmitStep::ReadFailure(_) => panic!("there is no response to read"),
    };
    let signal = state.resolve(outcome);
    draft.apply(signal);
    assert_eq!(state, SubmissionState::Failed("Request failed: Failed to fetch".to_string()));
    assert_eq!(draft, filled_draft());
}
