//! A store of lap-time records with positional identifiers, the line framing
//! of its persisted snapshot, and the per-connection telemetry session.

pub mod lap;
pub mod store;
pub mod snapshot;
pub mod session;
pub mod uwb;
pub mod positioning;
