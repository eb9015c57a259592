//! Cores of three spin-based concurrency primitives for freestanding
//! environments: a fair queue-based mutual-exclusion lock, a
//! writer-preferring readers-writer lock, and a LIFO stack.
//!
//! Each module holds the verified heart of one primitive: the state a lock
//! keeps in shared memory, the transition that each atomic instruction of
//! the algorithm performs on that state, and the invariants (mutual
//! exclusion, queue fairness, conservation of stacked values) that the
//! transitions preserve. A runtime embedding drives these transitions with
//! real atomic instructions and busy-wait loops; the decisions it takes
//! between instructions are the functions verified here.

pub mod lfstack;
pub mod mcs;
pub mod rwlock;
