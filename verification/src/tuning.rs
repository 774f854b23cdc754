//! What the transceiver's registers say of its tuning.

use vstd::prelude::*;

verus! {

/// The step of the transceiver's frequency synthesizer in hertz, rounded
/// down to a whole number.
pub const FREQUENCY_STEP_HZ: u32 = 61;

/// The carrier frequency that the three frequency registers stand for.
pub open spec fn spec_carrier_frequency(msb: u8, mid: u8, lsb: u8) -> int {
    (msb * 0x1_0000 + mid * 0x100 + lsb) * FREQUENCY_STEP_HZ
}

/// The carrier frequency in hertz, from the three frequency registers: the
/// 24-bit number they hold, most significant byte first, times the step of
/// the synthesizer.
pub fn carrier_frequency(msb: u8, mid: u8, lsb: u8) -> (hz: u32)
    ensures
        hz == spec_carrier_frequency(msb, mid, lsb),
{
    let steps: u32 = msb as u32 * 0x1_0000 + mid as u32 * 0x100 + lsb as u32;
    steps * FREQUENCY_STEP_HZ
}

} // verus!
