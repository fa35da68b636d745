//! Validation of per-cluster pulse timings.
//!
//! The instrument drives its channels in clusters of eight when pulsing
//! through the high-speed drivers, and a fast pulse operation takes one
//! optional pulse width per cluster: `None` skips the cluster altogether.
//! The timing list must hold exactly one entry per cluster; any other
//! length is rejected before the operation is queued.

use vstd::prelude::*;

use crate::error::DirectiveError;

verus! {

/// The number of channel clusters driven by the high-speed drivers, and
/// so the exact number of entries a cluster timing list must hold.
pub const CLUSTER_COUNT: usize = 8;

/// Checks that a cluster timing list holds exactly one entry per cluster.
pub fn check_cluster_timings(cl_nanos: &Vec<Option<u128>>) -> (r: Result<(), DirectiveError>)
    ensures
        r == if cl_nanos@.len() == CLUSTER_COUNT {
            Ok::<(), DirectiveError>(())
        } else {
            Err::<(), DirectiveError>(DirectiveError::ClusterTimingCount)
        },
{
    if cl_nanos.len() == CLUSTER_COUNT {
        Ok(())
    } else {
        Err(DirectiveError::ClusterTimingCount)
    }
}

} // verus!
