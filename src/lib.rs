//! An incremental, content-addressed file index.
//!
//! For each file of interest the index keeps its fingerprint, the modification
//! time seen when that fingerprint was computed, and a history of the paths
//! observed under each fingerprint. Only files that are new or whose
//! modification time changed are fingerprinted again.
pub mod fingerprint;
pub mod model;
pub mod policy;
pub mod record;
pub mod store;
