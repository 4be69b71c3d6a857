//! The handler that logs every event it is given; it decides nothing, so
//! all that it does is done by the program around the library.

use vstd::prelude::*;

verus! {

/// Logs each event it receives.
pub struct PrintHandler;

} // verus!
