//! The derived states that the mediator keeps about the devices it controls.

use vstd::prelude::*;

verus! {

/// What is known of the television. A timestamp is in milliseconds on the
/// mediator's monotonic clock.
#[derive(Clone, Copy, Debug, PartialEq, Eq, Structural)]
pub enum TvState {
    /// No reading yet.
    Unknown,
    /// Power-on was issued at the given time and not yet confirmed.
    Starting(u64),
    Off,
    OnPrimaryInput,
    OnOtherInput,
}

/// What is known of the secondary device on the primary input, as reported
/// by the button panel's readiness line.
#[derive(Clone, Copy, Debug, PartialEq, Eq, Structural)]
pub enum SecondaryDeviceState {
    Unknown,
    Off,
    On,
}

} // verus!
