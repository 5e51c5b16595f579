//! Validation of a JSON document against a JSON Schema (Draft 7).
//!
//! The crate performs no I/O. A caller reads the two files, feeds what it
//! found to the [`driver`], and prints the [`report`] of the outcome.
pub mod backend;
pub mod driver;
pub mod failure;
pub mod finding;
pub mod params;
pub mod report;
pub mod validate;
