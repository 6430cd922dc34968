//! The API client and the two state machines that the forms drive.

pub mod api;
pub mod search;
pub mod submission;
