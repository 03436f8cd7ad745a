//! Live-state core of an operational log dashboard.
//!
//! The crate keeps a bounded, newest-first buffer of log records with a
//! selection that stays on the same logical entry while newer records
//! arrive, a regex filter applied to records at ingestion time, and an
//! input-mode state machine for editing the filter text. All mutation
//! goes through the methods of [`state::AppState`]; an event loop around
//! the crate feeds it decoded bus payloads and key presses and renders
//! snapshots of it.

pub mod bus;
pub mod clip;
pub mod filter;
pub mod laws;
pub mod model;
pub mod state;
pub mod types;

pub use model::InputMode;
pub use state::AppState;
pub use types::AggregatedStats;
pub use types::LogEntry;
