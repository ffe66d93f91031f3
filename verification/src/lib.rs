//! A verified core for a story-reader application: category selection,
//! a two-stage listing fetch tolerating partial failure, a durable-favorites
//! model, and the non-blocking fetch-and-reconcile pipeline that merges
//! background results into the presentation state.

pub mod app_state;
pub mod category;
pub mod config;
pub mod coordinator;
pub mod favorites;
pub mod fetch;
pub mod story;
pub mod text;
pub mod theme;
