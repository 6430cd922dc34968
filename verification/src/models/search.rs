//! A search over the stored reviews: the question and the ranked answer.

use crate::text::blank;
use vstd::prelude::*;

verus! {

/// A search request as mathematics.
pub struct SearchQueryView {
    pub query: Seq<char>,
    pub k: nat,
}

impl SearchQueryView {
    /// A query worth sending: some text besides white space, and room for at
    /// least one result. The controller sees to the text; the form asks for
    /// the rest.
    pub open spec fn valid(self) -> bool {
        &&& !blank(self.query)
        &&& self.k >= 1
    }
}

/// The text to search for and the largest number of results wanted.
#[derive(Debug, Clone, PartialEq)]
pub struct SearchQuery {
    pub query: String,
    pub k: usize,
}

impl View for SearchQuery {
    type V = SearchQueryView;

    open spec fn view(&self) -> SearchQueryView {
        SearchQueryView { query: self.query@, k: self.k as nat }
    }
}

/// One search hit as mathematics.
pub struct SearchResultView {
    pub review_title: Seq<char>,
    pub review_body: Seq<char>,
    pub product_id: Seq<char>,
    pub review_rating: int,
    pub score_bits: nat,
}

/// One search hit: a stored review and the similarity the backend gave it.
///
/// The score is a single-precision number that this crate never computes
/// with. It is carried as its IEEE 754 bit pattern, which keeps every score
/// exactly as the backend sent it.
#[derive(Debug, Clone, PartialEq)]
pub struct SearchResult {
    pub review_title: String,
    pub review_body: String,
    pub product_id: String,
    pub review_rating: i32,
    pub score_bits: u32,
}

impl View for SearchResult {
    type V = SearchResultView;

    open spec fn view(&self) -> SearchResultView {
        SearchResultView {
            review_title: self.review_title@,
            review_body: self.review_body@,
            product_id: self.product_id@,
            review_rating: self.review_rating as int,
            score_bits: self.score_bits as nat,
        }
    }
}

/// The hits of a list, one by one and in the list's order.
pub open spec fn results_view(results: Seq<SearchResult>) -> Seq<SearchResultView> {
    Seq::new(results.len(), |i: int| results[i]@)
}

/// The backend's answer to a search: the hits in the order the backend
/// ranked them. The list may be empty.
#[derive(Debug, Clone, PartialEq)]
pub struct SearchResponse {
    pub results: Vec<SearchResult>,
}

impl View for SearchResponse {
    type V = Seq<SearchResultView>;

    open spec fn view(&self) -> Seq<SearchResultView> {
        results_view(self.results@)
    }
}

} // verus!
