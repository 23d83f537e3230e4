//! Credential-pooled access-token cache and upstream client for a lyrics relay.
//!
//! The library holds the decisions: which credential serves a request, whether a
//! cached access token may still be used, how the token endpoint's answer becomes
//! a cache entry, which requests go upstream and how the lyrics answer is read.
//! The caller performs the network round trips and hands the answers back.
pub mod json;
mod outside;

pub mod auth;
pub mod client;
pub mod clock;
pub mod error;
pub mod laws;
pub mod lyrics;
pub mod request;
pub mod token;
