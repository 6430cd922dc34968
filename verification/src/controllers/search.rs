//! The search controller: one state cell that follows a query from the form
//! to the backend and back.
//!
//! The cell starts idle. A dispatch checks the query before anything else: a
//! query of nothing but white space fails on the spot, in every state, and no
//! request is made. A query that passes is dropped while a search is under
//! way, and starts a search otherwise. A resolution is applied whenever it
//! arrives, whatever the cell holds at that moment.

use crate::controllers::api::{search_outcome, search_result_view, success, DeliveryView};
use crate::error::{human_readable, RequestError, RequestErrorView};
use crate::models::{
    results_view, SearchQuery, SearchQueryView, SearchResponse, SearchResult, SearchResultView,
};
use crate::text::{blank, decimal, is_blank};
use vstd::prelude::*;
use vstd::string::*;

verus! {

/// The line shown for a query that holds nothing to search for.
pub const EMPTY_QUERY_MESSAGE: &'static str = "Please enter a search query";

/// The state of a search as mathematics.
pub enum SearchStateView {
    Idle,
    Searching,
    Results(Seq<SearchResultView>),
    NoResults,
    Failed(Seq<char>),
}

impl SearchStateView {
    /// `Results` never holds an empty list: a search that found nothing is
    /// `NoResults`.
    pub open spec fn well_formed(self) -> bool {
        self matches SearchStateView::Results(results) ==> results.len() > 0
    }

    /// The number of results on display.
    pub open spec fn count(self) -> nat {
        match self {
            SearchStateView::Results(results) => results.len(),
            _ => 0,
        }
    }
}

/// The state of the search controller.
#[derive(Debug, Clone, PartialEq)]
pub enum SearchState {
    /// Nothing has been searched for yet.
    Idle,
    /// A search is in flight.
    Searching,
    /// The last search found the reviews held, in the backend's order.
    Results(Vec<SearchResult>),
    /// The last search went well and found nothing.
    NoResults,
    /// The last search failed. Holds the line to show.
    Failed(String),
}

impl View for SearchState {
    type V = SearchStateView;

    open spec fn view(&self) -> SearchStateView {
        match self {
            SearchState::Idle => SearchStateView::Idle,
            SearchState::Searching => SearchStateView::Searching,
            SearchState::Results(results) => SearchStateView::Results(results_view(results@)),
            SearchState::NoResults => SearchStateView::NoResults,
            SearchState::Failed(message) => SearchStateView::Failed(message@),
        }
    }
}

/// The check made on a query before any request: it fails, as a validation
/// error with the line for the user, exactly when the query is empty once
/// trimmed.
pub open spec fn validated(query: Seq<char>) -> Result<(), RequestErrorView> {
    if blank(query) {
        Err(RequestErrorView::Validation(EMPTY_QUERY_MESSAGE@))
    } else {
        Ok(())
    }
}

/// The outcome of a validation as mathematics.
pub open spec fn validation_view(checked: Result<(), RequestError>) -> Result<
    (),
    RequestErrorView,
> {
    match checked {
        Ok(()) => Ok(()),
        Err(error) => Err(error@),
    }
}

/// Checks a query before any request is made.
pub fn validate_query(query: &str) -> (checked: Result<(), RequestError>)
    ensures
        validation_view(checked) == validated(query@),
{
    if is_blank(query) {
        Err(RequestError::Validation(String::from_str(EMPTY_QUERY_MESSAGE)))
    } else {
        Ok(())
    }
}

/// The query that a dispatch hands on, where it hands one on.
pub open spec fn call_view(call: Option<SearchQuery>) -> Option<SearchQueryView> {
    match call {
        Some(query) => Some(query@),
        None => None,
    }
}

/// The transition taken on a dispatch: the next state, and the query to
/// send where the query passes the check and no search is in flight.
pub open spec fn dispatched(state: SearchStateView, query: Seq<char>, k: nat) -> (
    SearchStateView,
    Option<SearchQueryView>,
) {
    match validated(query) {
        Err(error) => (SearchStateView::Failed(human_readable(error)), None),
        Ok(()) => if state is Searching {
            (state, None)
        } else {
            (SearchStateView::Searching, Some(SearchQueryView { query, k }))
        },
    }
}

/// The transition taken when a search resolves.
pub open spec fn resolved(outcome: Result<Seq<SearchResultView>, RequestErrorView>) -> (
    SearchStateView
) {
    match outcome {
        Ok(results) => if results.len() == 0 {
            SearchStateView::NoResults
        } else {
            SearchStateView::Results(results)
        },
        Err(error) => SearchStateView::Failed(human_readable(error)),
    }
}

impl SearchState {
    /// A controller that has not searched for anything.
    pub fn new() -> (state: SearchState)
        ensures
            state@ == SearchStateView::Idle,
    {
        SearchState::Idle
    }

    /// Takes a query from the form. A blank query moves the state to
    /// `Failed` and nothing comes back. Any other query is dropped while a
    /// search is in flight: nothing changes and nothing comes back. Otherwise
    /// the state becomes `Searching` and the query comes back with `k`: the
    /// caller now sends it.
    pub fn dispatch(&mut self, query: String, k: usize) -> (call: Option<SearchQuery>)
        ensures
            (final(self)@, call_view(call)) == dispatched(old(self)@, query@, k as nat),
            old(self)@.well_formed() ==> final(self)@.well_formed(),
    {
        match validate_query(query.as_str()) {
            Err(error) => {
                *self = SearchState::Failed(error.human_readable());
                None
            },
            Ok(()) => {
                match self {
                    SearchState::Searching => None,
                    _ => {
                        *self = SearchState::Searching;
                        Some(SearchQuery { query, k })
                    },
                }
            },
        }
    }

    /// Takes the outcome of a search: the results where there are any,
    /// `NoResults` where the list is empty, and the failure's line otherwise.
    pub fn resolve(&mut self, outcome: Result<SearchResponse, RequestError>)
        ensures
            final(self)@ == resolved(search_result_view(outcome)),
            final(self)@.well_formed(),
    {
        match outcome {
            Ok(response) => {
                if response.results.len() == 0 {
                    *self = SearchState::NoResults;
                } else {
                    *self = SearchState::Results(response.results);
                }
            },
            Err(error) => {
                *self = SearchState::Failed(error.human_readable());
            },
        }
    }

    /// The number of results on display: the length of the list in
    /// `Results`, and zero in every other state.
    pub fn result_count(&self) -> (count: usize)
        ensures
            count as nat == self@.count(),
    {
        match self {
            SearchState::Results(results) => results.len(),
            _ => 0,
        }
    }
}

/// A blank query never reaches the backend: in every state, a dispatch of
/// a query that is empty once trimmed moves the controller straight to
/// `Failed` with the line for an empty query, and hands nothing on.
pub proof fn law_blank_query_fails_locally(state: SearchStateView, query: Seq<char>, k: nat)
    requires
        blank(query),
    ensures
        dispatched(state, query, k) == (
            SearchStateView::Failed(EMPTY_QUERY_MESSAGE@),
            None::<SearchQueryView>,
        ),
{
}

/// A query is handed on exactly when it passes the check and no search is
/// in flight. It is then handed on unchanged, with `k` as given, and the
/// controller is `Searching`; a query handed on with a `k` of at least one
/// is a valid search.
pub proof fn law_dispatch_hands_on_valid_queries(state: SearchStateView, query: Seq<char>, k: nat)
    ensures
        dispatched(state, query, k).1 is Some <==> !blank(query) && !(state is Searching),
        dispatched(state, query, k).1 matches Some(call) ==> {
            &&& call == SearchQueryView { query, k }
            &&& (k >= 1 ==> call.valid())
            &&& dispatched(state, query, k).0 is Searching
        },
{
}

/// Two dispatches make one request: once a dispatch has been handed on, a
/// dispatch that follows before a resolution hands nothing on, whatever its
/// query. A query that passes the check leaves the controller `Searching`.
pub proof fn law_second_dispatch_makes_no_call(
    state: SearchStateView,
    first: Seq<char>,
    first_k: nat,
    second: Seq<char>,
    second_k: nat,
)
    requires
        dispatched(state, first, first_k).1 is Some,
    ensures
        dispatched(state, first, first_k).0 is Searching,
        dispatched(dispatched(state, first, first_k).0, second, second_k).1 is None,
        !blank(second) ==> dispatched(dispatched(state, first, first_k).0, second, second_k).0
            is Searching,
{
}

/// A search that went well and found nothing is `NoResults`, never
/// `Failed`: for every success status, a body that decodes to an empty list
/// ends the search in `NoResults`, with nothing on display.
pub proof fn law_empty_answer_is_no_results(status: nat, body: Option<Seq<char>>)
    requires
        success(status),
    ensures
        resolved(search_outcome(DeliveryView::Answered(status), body, Ok(Seq::empty())))
            == SearchStateView::NoResults,
        resolved(search_outcome(DeliveryView::Answered(status), body, Ok(Seq::empty()))).count()
            == 0,
{
}

/// A search that found something shows all of it, in the backend's order:
/// for every success status and every list that is not empty, the state is
/// `Results` with the very list that was decoded, entry for entry, and the
/// count on display is the length of that list.
pub proof fn law_answer_is_shown_whole(
    status: nat,
    body: Option<Seq<char>>,
    results: Seq<SearchResultView>,
)
    requires
        success(status),
        results.len() > 0,
    ensures
        resolved(search_outcome(DeliveryView::Answered(status), body, Ok(results)))
            == SearchStateView::Results(results),
        resolved(search_outcome(DeliveryView::Answered(status), body, Ok(results))).count()
            == results.len(),
{
}

/// A refused search shows the status and the body: for every status
/// outside the success range, the state is `Failed` with the line made of
/// `HTTP `, the status in decimal, `: ` and the body.
pub proof fn law_refusal_is_shown(
    status: nat,
    body: Seq<char>,
    decoded: Result<Seq<SearchResultView>, Seq<char>>,
)
    requires
        !success(status),
    ensures
        resolved(search_outcome(DeliveryView::Answered(status), Some(body), decoded))
            == SearchStateView::Failed("HTTP "@ + decimal(status) + ": "@ + body),
{
}

/// A failed search shows the failure's line.
pub proof fn law_failure_is_shown(error: RequestErrorView)
    ensures
        resolved(Err(error)) == SearchStateView::Failed(human_readable(error)),
{
}

} // verus!
