//! Verified core of a photonic-device characterization controller.
//!
//! The library holds the logic of the instrument sweeps: fixed-point
//! arithmetic on setpoints, validation against safety envelopes, parsing
//! of textual device replies, rendering of result files, and the
//! step-by-step protocol of each sweep variant as a state machine.
//! The unverified shell around it performs the bus I/O, the waits and the
//! file writes that the state machine requests.

use vstd::prelude::*;

pub mod dispatch;
pub mod engine;
pub mod num;
pub mod protocol;
pub mod registry;
pub mod reply;
pub mod rows;
pub mod sweep;

verus! {

/// A quantity in micro-units is well within `i64` whenever its whole-unit
/// magnitude is below this bound; all instrument quantities here are.
pub open spec fn micro_bounded(v: int) -> bool {
    -1_000_000_000_000_000 <= v <= 1_000_000_000_000_000
}

} // verus!
