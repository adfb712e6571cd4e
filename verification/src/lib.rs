//! A naming-and-leasing registry core: namespaces under which human-readable
//! entries are claimed, leased for a bounded duration, optionally paid for,
//! and later invalidated. Claimed entries are backed by a custody record held
//! by an external custody service; this crate holds the entry lifecycle state
//! machine and the decision logic of the claim/invalidation flows, while the
//! surrounding ledger performs the external calls it plans.

pub mod errors;
pub mod state;
pub mod text;
pub mod namespace;
pub mod requests;
pub mod claim;
pub mod name_entry;
pub mod reverse_entry;
