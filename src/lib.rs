//! Fetch-state lifecycle, payload decoding and rendering model of a small
//! cache dashboard.
pub mod decode;
pub mod fetch;
pub mod app;
