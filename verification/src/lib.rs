//! Verified data-access and query-composition core for a build/review
//! metadata server.
//!
//! Clients poll for new activity (build badges, review events, comments)
//! scoped to a hierarchical project namespace, and post issue-tracking
//! updates.  This crate holds the logic that is worth proving: incremental
//! sync-cursor computation, race-safe dimension-table upsert, dynamic
//! partial-update and filtered-query construction for the issue tracker,
//! hierarchical project-name matching, and text sanitization.  The
//! surrounding HTTP routing and database I/O live outside the crate and
//! hand plain values in and out.

pub mod cursor;
pub mod errors;
pub mod resolver;
pub mod models;
pub mod project;
pub mod query;
pub mod text;
