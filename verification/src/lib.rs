//! Scrollback engine and ingestion protocol for a live-chat terminal viewer.
//!
//! The crate holds the decisions of the viewer as verified functions on plain
//! values: the bounded message log, the scroll state machine, the row layout
//! of wrapped messages, the viewport arithmetic, the pagination protocol of
//! the chat feed and the dispatch of events to the state.

pub mod app;
pub mod event;
pub mod ingest;
pub mod models;
pub mod sample;
pub mod state;
pub mod stats;
pub mod ui;
