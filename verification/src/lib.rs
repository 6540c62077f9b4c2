//! A single-purpose query printer: one SQL statement is read from a
//! file, one database session is opened with credentials taken from an
//! env-file or from the ambient environment, the statement runs once,
//! and the result set streams to standard output as comma-separated
//! lines — the column names first, then each row in cursor order.
//!
//! Everything the program decides is here, verified: the env-file
//! grammar, credential resolution, line formatting, the exit-code
//! policy, and the machine that sequences the run. The pieces of
//! outside work the machine asks for — reading files and the
//! environment, the database round trip, the printing — stay with the
//! caller, which answers each action with a plain event.

pub mod creds;
pub mod envfile;
pub mod errors;
pub mod format;
pub mod machine;
