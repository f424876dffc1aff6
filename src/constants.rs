//! Constants of the program.
use vstd::prelude::*;

verus! {

/// Command name of the program.
pub const NAME: &'static str = "gandi";

/// Version of the program.
pub const VERSION: &'static str = "0.3.0";

} // verus!
