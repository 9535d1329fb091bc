//! A typed client for the jikan.moe anime database API.
//!
//! Endpoints describe requests, a caller-supplied transport sends them, and
//! the dispatch and paging logic here turns raw responses into payloads or
//! errors.

pub mod anime;
pub mod client;
pub mod endpoint;
pub mod error;
pub mod json;
pub mod page;
pub mod query;
pub mod query_params;
pub mod types;
pub mod utils;
