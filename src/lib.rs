//! A verified driver loop that binds an application's state machine to a
//! stream of platform notifications: it translates input, runs the
//! rebuild-update cycle over a reusable layout cache, and schedules redraws.
use vstd::prelude::*;

pub mod input;
pub mod application;
pub mod driver;

verus! {

} // verus!
