//! A tracer that reports the writes of one process to chosen descriptors.
//!
//! A probe bound to the entry of the write call looks the caller and the
//! descriptor up in two tables of fixed capacity and logs a record on a
//! match. A controller loads the probe, fills the tables, attaches the probe
//! and detaches it when the operator ends the run.
//!
//! This library holds what the two decide, as functions on plain values:
//!
//! - [`table`]: a key/value table of fixed capacity;
//! - [`config`]: the two shared tables and how a configuration is written
//!   to them;
//! - [`filter`]: the probe's decision for one invocation;
//! - [`lifecycle`]: the controller's states, the reports it takes and the
//!   actions it asks for;
//! - [`text`]: decimal numerals, for the log record;
//! - [`packaging`]: the command that builds the probe;
//! - [`guarantees`]: what holds of every configuration, invocation and run.
//!
//! The kernel, the command line and the signal are the host program's part.

pub mod config;
pub mod filter;
pub mod guarantees;
pub mod lifecycle;
pub mod packaging;
pub mod table;
pub mod text;
