//! The handle for the system wall-clock service. Reading the clock is I/O
//! and belongs to the driver; the library only constructs the handle the
//! driver asks its time from.

use vstd::prelude::*;

verus! {

/// The wall-clock time service. It carries no state of its own: every
/// question put to it is answered from the system clock by the driver.
#[derive(Debug)]
pub struct SystemAppDateService {}

impl SystemAppDateService {
    /// A handle on the system clock.
    pub fn new() -> SystemAppDateService {
        SystemAppDateService {  }
    }
}

} // verus!
