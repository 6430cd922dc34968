//! The values that travel between the form, the controllers and the backend.

pub mod review;
pub mod search;

pub use review::{Review, ReviewInput, ReviewView};
pub use search::{
    results_view, SearchQuery, SearchQueryView, SearchResponse, SearchResult, SearchResultView,
};
