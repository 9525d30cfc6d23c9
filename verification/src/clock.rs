//! The wall clock, read through chrono. A reading depends on when it is
//! taken, so nothing is assumed of the returned text; every function that
//! stamps a line takes the reading as an argument and is verified for every
//! value of it.

use vstd::prelude::*;

verus! {

/// Relies on chrono's `Local::now` and its strftime formatting: the wall
/// clock as `HH:MM:SS`, the form job log lines carry.
#[verifier::external_body]
pub(crate) fn clock_hms() -> (r: String) {
    chrono::Local::now().format("%H:%M:%S").to_string()
}

/// Relies on chrono's `Local::now` and its strftime formatting: the wall
/// clock as `HH:MM`, the form chat message lines carry.
#[verifier::external_body]
pub(crate) fn clock_hm() -> (r: String) {
    chrono::Local::now().format("%H:%M").to_string()
}

} // verus!
