use vstd::prelude::*;

verus! {

/// The server's command line: whether to print its version and stop.
#[derive(Clone, Copy, Debug, PartialEq, Eq, Structural)]
pub struct Args {
    pub version: bool,
}

} // verus!
