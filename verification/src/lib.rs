//! A conformance-test judge and a step-debugging console for the SputnikVM
//! interpreter.
//!
//! The judge takes a test vector, an initial machine state with the output
//! that is expected of it, runs the machine once, and returns a verdict. The
//! console takes commands from an operator and steps, runs and inspects one
//! machine until the operator ends the session. Neither prints: both return
//! what is to be printed.
//!
//! A machine is given no accounts and no block hashes. An instruction that
//! reads or writes an account, its storage, balance or code, or the hash of
//! a block, asks for data that nothing supplies, and the run ends there
//! with a fault. A vector that expects a fault passes on such a run.
//!
//! The interpreter itself is not verified here. [`machine`] gives each of
//! its operations a contract over a small abstract model, and everything
//! else in the crate is proved against those contracts. A run is a row of
//! single steps, each of them guarded, and is given a limit of steps:
//!
//! - [`vector`]: test vectors and the initial state, as plain values;
//! - [`fault`]: faults and machine status;
//! - [`text`]: numerals and lists, as the console writes them;
//! - [`machine`]: the interpreter's operations, trusted;
//! - [`run`]: construction, guarded steps and runs, and what they come to;
//! - [`judge`]: the verdict on a vector;
//! - [`console`]: the commands and what they do;
//! - [`session`]: the session that reads them.

pub mod console;
pub mod fault;
pub mod judge;
pub mod machine;
pub mod run;
pub mod session;
pub mod text;
pub mod vector;

pub use crate::console::{parse_command, Command};
pub use crate::fault::{Fault, FaultKind};
pub use crate::judge::{judge, test_transaction, Report, Verdict};
pub use crate::machine::Machine;
pub use crate::session::{debug_transaction, Input, Phase, Session};
pub use crate::vector::{InitialState, TestVector};
