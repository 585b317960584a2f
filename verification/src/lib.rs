//! Foundational memory-management primitives, verified: a raw cell that
//! marks its interior as mutable in place, a whole-value cell for copyable
//! data, a runtime-checked borrow-tracking cell with shared and exclusive
//! guards, and two reference-counted ownership pointers — one
//! single-threaded, one shaped for concurrent use — that follow a common,
//! proved handle-counting protocol.

pub mod arc;
pub mod cell;
pub mod counter;
pub mod rc;
