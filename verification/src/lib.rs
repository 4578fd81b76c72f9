//! Verified core of a poker hand-history tracker.
//!
//! The library covers the tracker's logic end to end: the hand-history
//! grammar (`parser`) and the tournament-summary grammar (`summary_parser`)
//! over the card and amount primitives (`cards`, `amount`, `prim`, `text`);
//! the typed store with its idempotent upsert and query surface (`store`);
//! the per-hand behavioural metrics (`metrics`); the ingestion step that
//! classifies and dispatches one file (`ingest`); the table-window title
//! parser (`table_name`) with the HUD read helpers (`hud`); and the
//! summaries view's table model (`table_model`).
//!
//! Every executable function carries a contract; the parsers return exactly
//! what their spec-level grammar functions denote, and the store's laws —
//! idempotence of the upsert, per-hand row counts, and the latest-hand
//! choice — are stated and proved alongside their subjects. Money is held
//! in cents throughout, never in floating point.

pub mod amount;
pub mod cards;
pub mod hud;
pub mod ingest;
pub mod metrics;
pub mod parser;
pub mod prim;
pub mod store;
pub mod summary_parser;
pub mod table_model;
pub mod table_name;
pub mod text;
