//! One-shot locks that refuse instead of (dead)locking on contention.
//!
//! These locks allow no contention: an acquisition attempt that conflicts
//! with a current holder fails immediately instead of blocking.  This is
//! useful in situations where contention would itself be a bug, such as in
//! single-threaded programs that would deadlock on contention.
//!
//! Two engines are provided, each in two variants.  The [`mutex`] and
//! [`rwlock`] modules (re-exported from [`sync`]) keep their state in an
//! atomic word driven by single read-modify-write instructions, so a
//! value of those types may be shared between threads.  The [`unsync`]
//! module holds the same state machines over plain fields for a single
//! owner.
//!
//! Every transition is specified against the state model in [`model`]:
//! acquisition attempts succeed exactly when the model allows them, and
//! each success or release moves the state word exactly as the model
//! says.  The model also proves the laws of the state machine — the
//! mutual-exclusion invariants, how the modes block one another, and
//! that acquisitions undone by their inverse releases return the state
//! to where it began.

mod atomics;
pub mod model;
pub mod mutex;
pub mod rwlock;
pub mod sync;
pub mod unsync;
