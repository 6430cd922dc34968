//! The API client: what to send for each operation, and what each answer of
//! the backend means.
//!
//! An operation is one exchange, tried once. The caller sends the request
//! that [`submit_review`] or [`search_reviews`] describes and reports how the
//! delivery ended; the matching `_delivered` function says what to do next.
//! Nothing here asks for a second attempt.

use crate::error::{RequestError, RequestErrorView};
use crate::models::{ReviewInput, ReviewView, SearchQueryView, SearchResponse, SearchResultView};
use crate::text::option_text;
use vstd::prelude::*;
use vstd::string::*;

verus! {

/// The path of the endpoint that takes a new review.
pub const REVIEWS_PATH: &'static str = "/reviews";

/// The path of the endpoint that searches the stored reviews.
pub const SEARCH_PATH: &'static str = "/reviews/search";

/// The HTTP method of a request. Both operations post.
#[derive(Debug, Clone, Copy, PartialEq, Eq)]
pub enum Method {
    Post,
}

/// The value of one member of a request body as mathematics.
pub enum FieldValueView {
    Text(Seq<char>),
    Number(int),
}

/// The value of one member of a request body: a text or a whole number.
#[derive(Debug, Clone, PartialEq)]
pub enum FieldValue {
    Text(String),
    Integer(i64),
    Unsigned(u64),
}

impl View for FieldValue {
    type V = FieldValueView;

    open spec fn view(&self) -> FieldValueView {
        match self {
            FieldValue::Text(text) => FieldValueView::Text(text@),
            FieldValue::Integer(number) => FieldValueView::Number(*number as int),
            FieldValue::Unsigned(number) => FieldValueView::Number(*number as int),
        }
    }
}

/// One member of a request body as mathematics.
pub struct FieldView {
    pub name: Seq<char>,
    pub value: FieldValueView,
}

/// One member of a request body: the name it has on the wire, and its
/// value.
#[derive(Debug, Clone, PartialEq)]
pub struct Field {
    pub name: &'static str,
    pub value: FieldValue,
}

impl View for Field {
    type V = FieldView;

    open spec fn view(&self) -> FieldView {
        FieldView { name: self.name@, value: self.value@ }
    }
}

/// The members of a list, one by one and in the list's order.
pub open spec fn fields_view(fields: Seq<Field>) -> Seq<FieldView> {
    Seq::new(fields.len(), |i: int| fields[i]@)
}

/// A request as mathematics.
pub struct HttpRequestView {
    pub method: Method,
    pub url: Seq<char>,
    pub body: Seq<FieldView>,
}

/// One request to the backend. The caller sends `body` as a single JSON
/// object with these members, under these names.
#[derive(Debug, Clone, PartialEq)]
pub struct HttpRequest {
    pub method: Method,
    pub url: String,
    pub body: Vec<Field>,
}

impl View for HttpRequest {
    type V = HttpRequestView;

    open spec fn view(&self) -> HttpRequestView {
        HttpRequestView { method: self.method, url: self.url@, body: fields_view(self.body@) }
    }
}

/// The members of the body that carries a review: its four fields, each
/// under its own name.
pub open spec fn review_fields(review: ReviewView) -> Seq<FieldView> {
    seq![
        FieldView { name: "review_title"@, value: FieldValueView::Text(review.review_title) },
        FieldView { name: "review_body"@, value: FieldValueView::Text(review.review_body) },
        FieldView { name: "product_id"@, value: FieldValueView::Text(review.product_id) },
        FieldView { name: "review_rating"@, value: FieldValueView::Number(review.review_rating) },
    ]
}

/// The members of the body that carries a search: the query and `k`.
pub open spec fn query_fields(query: SearchQueryView) -> Seq<FieldView> {
    seq![
        FieldView { name: "query"@, value: FieldValueView::Text(query.query) },
        FieldView { name: "k"@, value: FieldValueView::Number(query.k as int) },
    ]
}

/// The request that submits `review` to the backend at `base_url`.
pub open spec fn submit_request(base_url: Seq<char>, review: ReviewView) -> HttpRequestView {
    HttpRequestView {
        method: Method::Post,
        url: base_url + REVIEWS_PATH@,
        body: review_fields(review),
    }
}

/// The request that asks the backend at `base_url` for the `k` reviews
/// nearest to `query`.
pub open spec fn search_request(base_url: Seq<char>, query: SearchQueryView) -> HttpRequestView {
    HttpRequestView {
        method: Method::Post,
        url: base_url + SEARCH_PATH@,
        body: query_fields(query),
    }
}

/// Whether a status is in the success range, 200 to 299.
pub open spec fn success(status: nat) -> bool {
    200 <= status <= 299
}

/// Tests a status for the success range.
pub fn is_success(status: u16) -> (ok: bool)
    ensures
        ok == success(status as nat),
{
    200 <= status && status <= 299
}

/// How the one attempt to deliver a request ended, as mathematics.
pub enum DeliveryView {
    NotEncoded(Seq<char>),
    NotSent(Seq<char>),
    Answered(nat),
}

/// How the one attempt to deliver a request ended.
#[derive(Debug, Clone, PartialEq)]
pub enum Delivery {
    /// The request could not be encoded or built. Holds the detail.
    NotEncoded(String),
    /// The request was not delivered, or no response arrived. Holds the
    /// detail.
    NotSent(String),
    /// The backend answered. Holds the status of the response, whose body
    /// has not been read yet.
    Answered(u16),
}

impl View for Delivery {
    type V = DeliveryView;

    open spec fn view(&self) -> DeliveryView {
        match self {
            Delivery::NotEncoded(detail) => DeliveryView::NotEncoded(detail@),
            Delivery::NotSent(detail) => DeliveryView::NotSent(detail@),
            Delivery::Answered(status) => DeliveryView::Answered(*status as nat),
        }
    }
}

/// A response whose status lies outside the success range and whose body is
/// still to be read.
#[derive(Debug, Clone, Copy, PartialEq, Eq)]
pub struct FailureResponse {
    status: u16,
}

impl FailureResponse {
    #[verifier::type_invariant]
    spec fn outside_success_range(self) -> bool {
        !success(self.status as nat)
    }

    /// The status of the response.
    pub closed spec fn status_of(self) -> nat {
        self.status as nat
    }

    /// The status of the response, which is never a success status.
    pub fn status(&self) -> (status: u16)
        ensures
            status as nat == self.status_of(),
            !success(status as nat),
    {
        proof {
            use_type_invariant(self);
        }
        self.status
    }

    /// The failure that this response amounts to, once its body has been
    /// read as text. A body that could not be read counts as empty.
    pub fn into_error(self, body: Option<String>) -> (error: RequestError)
        ensures
            error@ == status_failure(self.status_of(), option_text(body)),
            !success(self.status_of()),
    {
        proof {
            use_type_invariant(&self);
        }
        let text = match body {
            Some(text) => text,
            None => String::new(),
        };
        RequestError::HttpStatus(self.status, text)
    }
}

/// The failure that a response with a failure status amounts to.
pub open spec fn status_failure(status: nat, body: Option<Seq<char>>) -> RequestErrorView {
    RequestErrorView::HttpStatus(
        status,
        match body {
            Some(text) => text,
            None => Seq::empty(),
        },
    )
}

/// The outcome of a submission as mathematics.
pub open spec fn submit_result_view(outcome: Result<(), RequestError>) -> Result<
    (),
    RequestErrorView,
> {
    match outcome {
        Ok(()) => Ok(()),
        Err(error) => Err(error@),
    }
}

/// The next step of a submission as mathematics.
pub enum SubmitStepView {
    Done(Result<(), RequestErrorView>),
    ReadFailure(nat),
}

/// What the delivery of a submission leads to: a success status ends it
/// well, a failure status asks for the body, anything else ends it badly.
pub open spec fn submit_step(delivery: DeliveryView) -> SubmitStepView {
    match delivery {
        DeliveryView::NotEncoded(detail) => SubmitStepView::Done(
            Err(RequestErrorView::Serialization(detail)),
        ),
        DeliveryView::NotSent(detail) => SubmitStepView::Done(
            Err(RequestErrorView::Transport(detail)),
        ),
        DeliveryView::Answered(status) => if success(status) {
            SubmitStepView::Done(Ok(()))
        } else {
            SubmitStepView::ReadFailure(status)
        },
    }
}

/// What to do once the request of [`submit_review`] has been delivered.
#[derive(Debug, PartialEq)]
pub enum SubmitStep {
    /// The submission is over, with the outcome held. After a success
    /// status the body of the response is not read.
    Done(Result<(), RequestError>),
    /// The backend refused. Read the body of the response as text and hand
    /// it to [`FailureResponse::into_error`].
    ReadFailure(FailureResponse),
}

impl View for SubmitStep {
    type V = SubmitStepView;

    open spec fn view(&self) -> SubmitStepView {
        match self {
            SubmitStep::Done(outcome) => SubmitStepView::Done(submit_result_view(*outcome)),
            SubmitStep::ReadFailure(response) => SubmitStepView::ReadFailure(
                response.status_of(),
            ),
        }
    }
}

/// The next step of a search as mathematics.
pub enum SearchStepView {
    Decode,
    Failed(RequestErrorView),
    ReadFailure(nat),
}

/// What the delivery of a search leads to: a success status asks for the
/// decoded body, a failure status for the body as text, anything else ends
/// the search badly.
pub open spec fn search_step(delivery: DeliveryView) -> SearchStepView {
    match delivery {
        DeliveryView::NotEncoded(detail) => SearchStepView::Failed(
            RequestErrorView::Serialization(detail),
        ),
        DeliveryView::NotSent(detail) => SearchStepView::Failed(
            RequestErrorView::Transport(detail),
        ),
        DeliveryView::Answered(status) => if success(status) {
            SearchStepView::Decode
        } else {
            SearchStepView::ReadFailure(status)
        },
    }
}

/// What to do once the request of [`search_reviews`] has been delivered.
#[derive(Debug, Clone, PartialEq)]
pub enum SearchStep {
    /// The backend answered with success. Decode the body of the response
    /// and hand the outcome to [`search_reviews_decoded`].
    Decode,
    /// The search failed, for the reason held.
    Failed(RequestError),
    /// The backend refused. Read the body of the response as text and hand
    /// it to [`FailureResponse::into_error`].
    ReadFailure(FailureResponse),
}

impl View for SearchStep {
    type V = SearchStepView;

    open spec fn view(&self) -> SearchStepView {
        match self {
            SearchStep::Decode => SearchStepView::Decode,
            SearchStep::Failed(error) => SearchStepView::Failed(error@),
            SearchStep::ReadFailure(response) => SearchStepView::ReadFailure(
                response.status_of(),
            ),
        }
    }
}

/// Describes the request that submits `review`: a POST to `/reviews` under
/// `base_url` whose body holds the four fields of the review, unchanged.
pub fn submit_review(base_url: &str, review: ReviewInput) -> (request: HttpRequest)
    ensures
        request@ == submit_request(base_url@, review@),
{
    let mut url = String::from_str(base_url);
    url.append(REVIEWS_PATH);
    let mut body: Vec<Field> = Vec::new();
    body.push(Field { name: "review_title", value: FieldValue::Text(review.review_title) });
    body.push(Field { name: "review_body", value: FieldValue::Text(review.review_body) });
    body.push(Field { name: "product_id", value: FieldValue::Text(review.product_id) });
    body.push(
        Field { name: "review_rating", value: FieldValue::Integer(review.review_rating as i64) },
    );
    assert(fields_view(body@) =~= review_fields(review@));
    HttpRequest { method: Method::Post, url, body }
}

/// Says what follows the delivery of a submission.
pub fn submit_review_delivered(delivery: Delivery) -> (step: SubmitStep)
    ensures
        step@ == submit_step(delivery@),
{
    match delivery {
        Delivery::NotEncoded(detail) => SubmitStep::Done(
            Err(RequestError::Serialization(detail)),
        ),
        Delivery::NotSent(detail) => SubmitStep::Done(Err(RequestError::Transport(detail))),
        Delivery::Answered(status) => {
            if is_success(status) {
                SubmitStep::Done(Ok(()))
            } else {
                SubmitStep::ReadFailure(FailureResponse { status })
            }
        },
    }
}

/// Describes the request that searches for `query`: a POST to
/// `/reviews/search` under `base_url` whose body holds the query and `k`.
pub fn search_reviews(base_url: &str, query: String, k: usize) -> (request: HttpRequest)
    ensures
        request@ == search_request(base_url@, SearchQueryView { query: query@, k: k as nat }),
{
    let mut url = String::from_str(base_url);
    url.append(SEARCH_PATH);
    let mut body: Vec<Field> = Vec::new();
    body.push(Field { name: "query", value: FieldValue::Text(query) });
    body.push(Field { name: "k", value: FieldValue::Unsigned(k as u64) });
    assert(fields_view(body@) =~= query_fields(SearchQueryView { query: query@, k: k as nat }));
    HttpRequest { method: Method::Post, url, body }
}

/// Says what follows the delivery of a search.
pub fn search_reviews_delivered(delivery: Delivery) -> (step: SearchStep)
    ensures
        step@ == search_step(delivery@),
{
    match delivery {
        Delivery::NotEncoded(detail) => SearchStep::Failed(RequestError::Serialization(detail)),
        Delivery::NotSent(detail) => SearchStep::Failed(RequestError::Transport(detail)),
        Delivery::Answered(status) => {
            if is_success(status) {
                SearchStep::Decode
            } else {
                SearchStep::ReadFailure(FailureResponse { status })
            }
        },
    }
}

/// What decoding the body of a response came to, as mathematics: the
/// results, or the detail of why there are none.
pub open spec fn decoded_view(decoded: Result<SearchResponse, String>) -> Result<
    Seq<SearchResultView>,
    Seq<char>,
> {
    match decoded {
        Ok(response) => Ok(response@),
        Err(detail) => Err(detail@),
    }
}

/// The outcome of a search as mathematics.
pub open spec fn search_result_view(outcome: Result<SearchResponse, RequestError>) -> Result<
    Seq<SearchResultView>,
    RequestErrorView,
> {
    match outcome {
        Ok(response) => Ok(response@),
        Err(error) => Err(error@),
    }
}

/// The outcome of a search whose success body was decoded, or could not be.
pub open spec fn decoded_outcome(decoded: Result<Seq<SearchResultView>, Seq<char>>) -> Result<
    Seq<SearchResultView>,
    RequestErrorView,
> {
    match decoded {
        Ok(results) => Ok(results),
        Err(detail) => Err(RequestErrorView::Deserialization(detail)),
    }
}

/// Closes a search whose response had a success status: the decoded body is
/// the answer, and a body that did not decode is a failure of its own kind.
pub fn search_reviews_decoded(decoded: Result<SearchResponse, String>) -> (outcome: Result<
    SearchResponse,
    RequestError,
>)
    ensures
        search_result_view(outcome) == decoded_outcome(decoded_view(decoded)),
{
    match decoded {
        Ok(response) => Ok(response),
        Err(detail) => Err(RequestError::Deserialization(detail)),
    }
}

/// The outcome of a whole submission, from what the caller saw of it: how
/// the delivery ended and, where the status was a failure, what the body
/// read as.
pub open spec fn submit_outcome(delivery: DeliveryView, body: Option<Seq<char>>) -> Result<
    (),
    RequestErrorView,
> {
    match submit_step(delivery) {
        SubmitStepView::Done(outcome) => outcome,
        SubmitStepView::ReadFailure(status) => Err(status_failure(status, body)),
    }
}

/// The outcome of a whole search, from what the caller saw of it: how the
/// delivery ended, what the body read as where the status was a failure, and
/// what it decoded to where the status was a success.
pub open spec fn search_outcome(
    delivery: DeliveryView,
    body: Option<Seq<char>>,
    decoded: Result<Seq<SearchResultView>, Seq<char>>,
) -> Result<Seq<SearchResultView>, RequestErrorView> {
    match search_step(delivery) {
        SearchStepView::Decode => decoded_outcome(decoded),
        SearchStepView::Failed(error) => Err(error),
        SearchStepView::ReadFailure(status) => Err(status_failure(status, body)),
    }
}

/// Each kind of failure has its own cause, for both operations alike: a
/// request that was not encoded is a serialization failure, one that was not
/// sent is a transport failure, a failure status is an HTTP failure that
/// carries the status and the body as read, and only a success body that
/// did not decode is a deserialization failure.
pub proof fn law_failures_are_classified(
    detail: Seq<char>,
    status: nat,
    body: Option<Seq<char>>,
    decoded: Result<Seq<SearchResultView>, Seq<char>>,
)
    ensures
        submit_outcome(DeliveryView::NotEncoded(detail), body) == Err::<(), RequestErrorView>(
            RequestErrorView::Serialization(detail),
        ),
        submit_outcome(DeliveryView::NotSent(detail), body) == Err::<(), RequestErrorView>(
            RequestErrorView::Transport(detail),
        ),
        submit_outcome(DeliveryView::Answered(status), body) == if success(status) {
            Ok::<(), RequestErrorView>(())
        } else {
            Err(status_failure(status, body))
        },
        search_outcome(DeliveryView::NotEncoded(detail), body, decoded) == Err::<
            Seq<SearchResultView>,
            RequestErrorView,
        >(RequestErrorView::Serialization(detail)),
        search_outcome(DeliveryView::NotSent(detail), body, decoded) == Err::<
            Seq<SearchResultView>,
            RequestErrorView,
        >(RequestErrorView::Transport(detail)),
        search_outcome(DeliveryView::Answered(status), body, decoded) == if success(status) {
            decoded_outcome(decoded)
        } else {
            Err(status_failure(status, body))
        },
{
}

} // verus!
