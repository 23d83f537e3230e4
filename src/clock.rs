use vstd::prelude::*;
use crate::outside::utc_now_millis;

verus! {

/// The wall clock in milliseconds since the Unix epoch. chrono refuses a system
/// clock set before the epoch, so the reading is never negative; the guard only
/// keeps the conversion to an unsigned count total.
pub fn now_millis() -> (r: u64) {
    let t = utc_now_millis();
    if t < 0 {
        0
    } else {
        t as u64
    }
}

} // verus!
