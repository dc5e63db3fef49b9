//! A shared-ownership pointer library built around an explicit,
//! non-atomic reference count, together with the abstraction layer
//! that lets any conforming pointer type drive the same workload.
//!
//! The core is `custom_rc`: a storage heap whose blocks hold a value
//! next to a live-handle count, with the clone/destroy protocol that
//! frees each block exactly once, when its count falls from 1 to 0.
//! `rc_model` states the protocol's laws over a mathematical model of
//! the heap; `rc_like` is the capability contract a pointer type must
//! satisfy to be swapped into identical workload code; `std_rc`
//! adapts the standard shared pointer to that contract; `entity` is
//! the plain record the pointers share; and `game` is the workload
//! driver, generic over the contract: setup, a clone/read/destroy
//! run phase, and teardown.
pub mod entity;
pub mod rc_model;
pub mod custom_rc;
pub mod rc_like;
pub mod std_rc;
pub mod game;
