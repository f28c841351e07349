//! A small HTTP relay library: release-selection policy for a code-forge
//! releases API, an allow-list check for a CDN image proxy, and a uniform
//! response envelope with fixed CORS headers.
//!
//! Everything here is pure decision logic over plain values; the HTTP
//! client and server plumbing live outside the library and hand in the
//! outcome of each outbound call.

pub mod catcher;
pub mod envelope;
pub mod image;
pub mod release;
pub mod text;
