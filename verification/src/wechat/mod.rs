//! The iLink bot API: bodies, request building and media handling.
pub mod api;
pub mod media;
pub mod models;
