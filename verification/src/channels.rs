//! Helpers for the channel lists handed to train operations.

use vstd::prelude::*;

verus! {

/// The low-channel list for a current read train. An absent list asks for
/// unbiased open reads and is treated as no low channels at all.
pub fn low_channels(lows: Option<Vec<usize>>) -> (r: Vec<usize>)
    ensures
        r@ == match lows {
            Some(v) => v@,
            None => Seq::<usize>::empty(),
        },
{
    match lows {
        Some(v) => v,
        None => Vec::new(),
    }
}

} // verus!
