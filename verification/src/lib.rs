//! Startup supervisor for a desktop application whose backend depends on a
//! locally running inference service and a set of downloadable models.
//!
//! The supervision sequence is modelled as an explicit state machine: the
//! caller repeatedly asks for the next [`machine::Action`], performs it
//! (an HTTP probe, a process spawn, a timed wait), and feeds the outcome
//! back as a [`machine::Event`]. Every transition, and the invariants of
//! the shared status record, are verified.

pub mod config;
pub mod laws;
pub mod machine;
pub mod status;
pub mod text;

pub use status::Stage;
pub use status::StatusRecord;
