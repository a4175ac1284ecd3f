//! Configurations read in two steps: the file's raw values, then flattened
//! into the values the server runs with.

pub mod basic;
pub mod general;
pub mod server;

use vstd::prelude::*;

verus! {

/// Turns raw configuration values into the values the server runs with.
pub trait Flattenable<T>: Sized {
    fn flatten(self) -> T;
}

} // verus!
