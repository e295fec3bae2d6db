//! The calibration between wall-clock time and ledger slots.

use vstd::prelude::*;

verus! {

/// The wall-clock instant, in seconds since the Unix epoch, at which the
/// target network's slot numbering was calibrated.
pub const CONVERSION_TIME_SEC: u64 = 1691996128;

/// The ledger slot that was current at `CONVERSION_TIME_SEC`.
pub const SLOT_OFFSET: u64 = 25325728;

/// The ledger slot that is current at `unix_time` seconds since the Unix
/// epoch: the calibration slot shifted by the time elapsed since the
/// calibration instant.
pub open spec fn slot_from_epoch_time(unix_time: int) -> int {
    unix_time - CONVERSION_TIME_SEC + SLOT_OFFSET
}

/// Whether `unix_time` lies at or after the calibration instant, so that it
/// has a slot.
pub open spec fn postdates_calibration(unix_time: int) -> bool {
    unix_time >= CONVERSION_TIME_SEC
}

/// One second later is one slot later.
pub proof fn lemma_slot_is_affine(unix_time: int)
    requires
        postdates_calibration(unix_time),
    ensures
        postdates_calibration(unix_time + 1),
        slot_from_epoch_time(unix_time + 1) == slot_from_epoch_time(unix_time) + 1,
{
}

/// Converts seconds since the Unix epoch to the ledger slot current at that
/// time.
pub fn calculate_slot_from_epoch_time(unix_time: u64) -> (slot: u64)
    requires
        postdates_calibration(unix_time as int),
    ensures
        slot == slot_from_epoch_time(unix_time as int),
{
    unix_time - CONVERSION_TIME_SEC + SLOT_OFFSET
}

/// Converts like `calculate_slot_from_epoch_time`, and returns `None` for a
/// time before the calibration instant.
pub fn checked_slot_from_epoch_time(unix_time: u64) -> (slot: Option<u64>)
    ensures
        slot == if postdates_calibration(unix_time as int) {
            Some(slot_from_epoch_time(unix_time as int) as u64)
        } else {
            None
        },
{
    if unix_time >= CONVERSION_TIME_SEC {
        Some(calculate_slot_from_epoch_time(unix_time))
    } else {
        None
    }
}

} // verus!
