//! Library behind a command-line client for a cloud log-retrieval service.
//!
//! The library validates environment-provided credentials, resolves an
//! optional user-supplied time window into RFC 3339 UTC timestamps, builds
//! the authenticated REST endpoint for a retrieve or list request, and
//! classifies the HTTP response into a tagged result. All of that logic is
//! verified; the surrounding process (argument parsing, environment lookup,
//! the HTTP request itself) hands plain values in and takes plain values out.

pub mod api;
pub mod clock;
pub mod commands;
pub mod config;
