use vstd::prelude::*;

use crate::MilestoneIndex;

verus! {

/// One tick of the kickstart worker: once there is a handshaked peer and the milestone after
/// the latest solid one is not beyond the latest milestone, that milestone is requested and the
/// worker stops; otherwise it waits for the next tick.
pub fn kickstart_request(
    latest_solid_milestone_index: MilestoneIndex,
    latest_milestone_index: MilestoneIndex,
    handshaked_peers: usize,
) -> (r: Option<MilestoneIndex>)
    requires
        latest_solid_milestone_index.0 < u32::MAX,
    ensures
        r is Some <==> handshaked_peers != 0 && latest_solid_milestone_index.0 + 1
            <= latest_milestone_index.0,
        r matches Some(index) ==> index.0 == latest_solid_milestone_index.0 + 1,
{
    let next_ms = latest_solid_milestone_index.0 + 1;
    let latest_ms = latest_milestone_index.0;
    if handshaked_peers != 0 && next_ms <= latest_ms {
        Some(MilestoneIndex(next_ms))
    } else {
        None
    }
}

} // verus!
