//! Check-in ingestion and inventory store: validation of untrusted check-in
//! reports, the write protocol that turns an accepted report into an audit
//! event plus a current-state upsert, and the read-side views over the store.

use vstd::prelude::*;

pub mod config;
pub mod models;
pub mod validation;
pub mod errors;
pub mod ingest;
pub mod display;
pub mod store;
pub mod admission;

verus! {

/// Immutable application context handed to every request handler.
pub struct AppState {
    pub db_path: String,
    pub debug_mode: bool,
}

} // verus!
