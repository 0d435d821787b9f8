//! A verified harness for exercising a block device through direct,
//! unbuffered I/O: sector-aligned transfers, write/read round trips at
//! disjoint offsets, and aggregation of the comparison results.
//!
//! The harness logic — offsets, alignment rules, payload comparison, the
//! round-trip scenarios and the pass/fail aggregation — is verified against
//! an in-memory model of the device's byte contents. The raw device calls
//! themselves (open, positioned read and write on a file descriptor) live
//! with the driver program around this library, which feeds their results
//! back into the verified logic.

pub mod device;
pub mod harness;
pub mod payload;
pub mod sector;
