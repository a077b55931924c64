//! A verified model of a database bootstrap and demo runner.
//!
//! The library decides everything the program does: which statement to run
//! next, what to print after each reply, and when to stop. The unverified
//! binary merely carries each request to the database and hands the reply
//! back. The sequence is strictly linear: connect, create three tables,
//! clear two of them, seed the author table, read the authors back, and
//! print a grouped count of artist nationalities. Every failure is fatal.

use vstd::prelude::*;

pub mod agg;
pub mod data;
pub mod machine;
pub mod report;
pub mod sql;
pub mod store;
pub mod text;

verus! {

} // verus!
