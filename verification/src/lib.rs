//! A custodial escrow authorization engine.
//!
//! One unit of value is held in trust for a three-party relationship:
//! a buyer who deposits it, a seller who is paid on release, and a
//! neutral arbiter who can break ties. Funds leave custody only when a
//! quorum of at least two of the three parties authorizes the movement,
//! and every state transition is paired with the exact fund movement it
//! entails.
//!
//! * [`identity`] — opaque 32-byte identity handles for the parties.
//! * [`address`] — deterministic derivation of a record's storage
//!   address from the (listing, buyer, seller, arbiter) tuple.
//! * [`escrow`] — the escrow record, its lifecycle state machine, and
//!   the 2-of-3 quorum check.
//! * [`store`] — a keyed record store: at most one record per derived
//!   address, operations atomic per record.
//! * [`laws`] — proofs of the global guarantees: exact funding, no
//!   double creation, quorum necessity, terminal no-reentry, mutual
//!   exclusivity of outcomes, state monotonicity, and record isolation.

pub mod address;
pub mod escrow;
pub mod identity;
pub mod laws;
pub mod store;
