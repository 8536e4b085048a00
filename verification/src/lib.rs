//! An on-disk cache for small collections of graph-node records, and the
//! state of the small application around it.
//!
//! The crate holds the logic and leaves every file-system call to its
//! caller: a save or a load is an operation value that says which step the
//! caller has to perform next and takes the outcome of that step back.

use vstd::prelude::*;
use vstd::string::StringExecFns;

pub mod archive;
pub mod counter;
pub mod models;
pub mod storage;

verus! {

/// The greeting for `name`.
pub fn greet(name: &str) -> (greeting: String)
    ensures
        greeting@ == "Hello, "@ + name@ + "! You've been greeted from Rust!"@,
{
    let mut greeting = String::from_str("Hello, ");
    greeting.append(name);
    greeting.append("! You've been greeted from Rust!");
    greeting
}

} // verus!
