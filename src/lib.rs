//! State machine, error boundary and key/value encoding of a builder of
//! sorted-string-table files for bulk loading into an LSM storage engine.
//!
//! The native builder itself lives outside this crate: its callers perform
//! each native call and hand the outcome (the content of the native error
//! slot) back to the writer, which decides what it means.
pub mod encoder;
pub mod error;
pub mod state;
pub mod writer;
