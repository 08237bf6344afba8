//! Frame-rate decisions of the presentation loop that do not involve floating point.
use crate::text::{contains_seq, str_contains};
use vstd::prelude::*;

verus! {

/// Frame and tick rate cap applied on battery power, in frames per second.
pub const BATTERY_RATE_CAP: u32 = 30;

/// Whether a power-status description reports battery power.
pub fn on_battery(power_status: &str) -> (r: bool)
    ensures
        r == contains_seq(power_status@, "Battery"@),
{
    str_contains(power_status, "Battery")
}

} // verus!
