//! Ownership check for a cell that may only be spent together with its
//! puppet cell: the spender must present exactly one input cell whose type
//! hash equals the script argument, and a recoverable signature over the
//! transaction hash whose public key hashes to the 20 bytes stored in that
//! cell.
//!
//! The check itself looks nothing up. [`machine`] holds it as a state
//! machine that asks for one thing at a time and decides on each answer;
//! [`validate`] runs that machine over an environment held in memory and
//! states the verdict on a whole transaction; [`laws`] proves what holds
//! of every verdict. [`scanner`], [`extract`] and [`digest`] are the
//! parts the machine is made of.

pub mod bytes;
pub mod digest;
pub mod error;
pub mod extract;
pub mod laws;
pub mod machine;
pub mod scanner;
pub mod validate;
