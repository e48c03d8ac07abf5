//! A lock-free multi-word compare-and-swap (MCAS) library.
//!
//! The crate multiplexes ordinary values and descriptor pointers into one
//! machine word, builds a restricted double-compare single-swap (RDCSS) on
//! top of hardware CAS, and drives an N-word CAS state machine over RDCSS.
//! Every word that the protocol touches lives in a caller-created [`Mcas`]
//! domain, and each participating thread registers itself there for a
//! compact 14-bit id.

pub mod atomic;
pub mod casword;
pub mod descriptor;
pub mod mcas;
pub mod mwcas;
pub mod ptr;
pub mod rdcss;
pub mod sequence_number;
pub mod thread_local;

pub use mwcas::{cas2, cas_n, Atomic, Mcas};
