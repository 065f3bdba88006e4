//! The capture-affinity flag and the capture-state verifier.

use vstd::prelude::*;

verus! {

/// Affinity value that excludes a window from screen and video capture.
pub const WDA_EXCLUDEFROMCAPTURE: u32 = 0x11;

/// A window counts as hidden from capture exactly when its affinity flag
/// could be read and reads as "excluded from capture"; a failed query is
/// conservatively "not excluded".
pub open spec fn spec_is_hidden_from_capture(affinity: Option<u32>) -> bool {
    affinity matches Some(a) && a == WDA_EXCLUDEFROMCAPTURE
}

/// The capture-state verifier's decision on what the affinity query
/// reported: `affinity` is the flag the system returned, or nothing when
/// the query failed — an invalid or closed window never counts as excluded.
pub fn is_window_hidden_from_capture(affinity: Option<u32>) -> (b: bool)
    ensures
        b == spec_is_hidden_from_capture(affinity),
{
    match affinity {
        Some(a) => a == WDA_EXCLUDEFROMCAPTURE,
        None => false,
    }
}

} // verus!
