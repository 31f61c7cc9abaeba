//! A topic-driven resource discovery and content-extraction pipeline.
//!
//! Given a research subtopic, the library derives a search query, plans the
//! discovery of candidate web resources, extracts the textual content of the
//! fetched pages, and records a per-resource lifecycle status so that partial
//! failures stay visible.  All network traffic is left to the caller: the
//! library hands out the URLs to visit and consumes the responses as plain
//! values, so every decision it makes is verified.

pub mod browser;
pub mod discovery;
pub mod extract;
pub mod fetch;
pub mod models;
pub mod pipeline;
pub mod query;
pub mod text;
