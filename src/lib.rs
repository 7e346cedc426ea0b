//! A typed client for a music-streaming web API.
//!
//! The library decides everything that does not need the network: how a
//! request for each endpoint reads, which requests a batch of ids becomes,
//! when an expired token is refreshed and a request retried, and in which
//! order the pages of a collection are fetched and put together. Performing
//! the requests is left to the caller, who hands the outcomes back.

// Text, JSON and request building blocks.
pub mod text;
pub mod json;
pub mod country;
pub mod request;

// The dispatcher, batches and page traversal.
pub mod dispatch;
pub mod chunk;
pub mod batch;
pub mod object;

// Endpoints, by resource.
pub mod album;
pub mod artist;
pub mod authentication;
pub mod browse;
pub mod follow;
pub mod library;
pub mod personalization;
pub mod player;
pub mod playlist;
pub mod search;
pub mod track;
pub mod user;
