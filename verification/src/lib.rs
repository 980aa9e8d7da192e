//! Verified core of a synchronous GPU compute driver.
//!
//! The library models and checks the host-side decisions of a one-queue,
//! one-submission compute round trip: choosing a memory type for an
//! allocation, sizing buffer allocations, staging data into and out of a
//! host-visible mapping, ordering the transfer/barrier/dispatch command
//! sequence, and tearing resources down in reverse dependency order.
//! The device itself (buffer and pipeline handles, mapping, submission)
//! is driven by unverified glue around this crate.

pub mod dispatch;
pub mod error;
pub mod logging;
pub mod memory;
pub mod pipeline;
pub mod transfer;
pub mod utils;
