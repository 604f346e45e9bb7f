//! Notification routing for a multi-pane terminal workspace.
//!
//! The engine keeps a snapshot of workspace topology (tabs, panes, focus),
//! ingests host-pushed topology events, resolves an inbound notification
//! request to one target tab through a three-tier fallback chain, and
//! computes an idempotent label mutation: the tab's label is stripped of any
//! old annotation glyph and the requested glyph is appended. The host glue
//! that delivers events and performs the rename lives outside this crate;
//! everything here is pure, synchronous computation on plain values.

pub mod codec;
pub mod config;
pub mod resolve;
pub mod state;
