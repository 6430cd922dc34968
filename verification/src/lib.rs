//! Request orchestration and state management for a product-review client.
//!
//! The crate decides; its caller performs. Every network exchange, every read
//! of the environment and every change of the screen is done by the caller,
//! which hands plain values in and takes plain values back.

pub mod config;
pub mod controllers;
pub mod error;
pub mod models;
pub mod text;
