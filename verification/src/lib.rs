//! Per-user task-list synchronisation: the document model, the reducer that
//! folds operations into a snapshot, the per-user cell that keeps a snapshot
//! in step with its operation log, and the state machine of one streaming
//! session.

pub mod cell;
pub mod errors;
pub mod laws;
pub mod model;
pub mod reducer;
pub mod session;
pub mod session_laws;
