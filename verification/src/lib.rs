//! Recovery protocol of a crash-resilient worker.
//!
//! The worker keeps a few bytes of state in an anonymous memory region. A
//! supervisor holds a duplicate of the region's descriptor under a logical
//! name, so that a restarted worker can attach to the same bytes again.
//!
//! This crate holds the decisions of that protocol and proves them. It never
//! touches the operating system or the supervisor: a driver performs each
//! [`protocol::Action`] and hands back what happened as a
//! [`protocol::Event`].
pub mod error;
pub mod injector;
pub mod lifecycle;
pub mod protocol;
pub mod region;
pub mod startup;
pub mod store;
