use vstd::prelude::*;

use crate::MilestoneIndex;

verus! {

/// What the solidifier's kickstart worker does once it starts the synchronisation.
#[derive(Debug)]
pub struct KickstartPlan {
    /// The milestone handed to the solidifier, the one after the latest solid milestone.
    pub first: MilestoneIndex,
    /// The milestones requested, in order.
    pub requests: Vec<MilestoneIndex>,
}

/// The milestones requested when the synchronisation starts from `first` with `ms_sync_count`
/// milestones in flight: `first` itself, then `first`, `first + 1`, ... up to the count.
pub open spec fn kickstart_requests(first: u32, ms_sync_count: u32) -> Seq<MilestoneIndex> {
    seq![MilestoneIndex(first)] + Seq::new(
        ms_sync_count as nat,
        |i: int| MilestoneIndex((first + i) as u32),
    )
}

/// The planned requests are `ms_sync_count + 1` milestones: `first`, then `first + i` for each
/// `i < ms_sync_count`.
pub proof fn lemma_kickstart_requests(first: u32, ms_sync_count: u32)
    requires
        first + ms_sync_count <= u32::MAX,
    ensures
        kickstart_requests(first, ms_sync_count).len() == ms_sync_count + 1,
        kickstart_requests(first, ms_sync_count)[0] == MilestoneIndex(first),
        forall|i: int|
            0 <= i < ms_sync_count ==> #[trigger] kickstart_requests(first, ms_sync_count)[i + 1]
                == MilestoneIndex((first + i) as u32) && (first + i) as u32 == first + i,
{
}

/// One tick of the solidifier's kickstart worker: once there is a handshaked peer and more than
/// `ms_sync_count` milestones lie between the milestone after the latest solid one and the latest
/// milestone, the synchronisation starts and the worker stops; otherwise it waits.
pub fn solidifier_kickstart(
    latest_solid_milestone_index: MilestoneIndex,
    latest_milestone_index: MilestoneIndex,
    handshaked_peers: usize,
    ms_sync_count: u32,
) -> (r: Option<KickstartPlan>)
    requires
        latest_solid_milestone_index.0 < u32::MAX,
        handshaked_peers != 0 ==> latest_solid_milestone_index.0 + 1 + ms_sync_count <= u32::MAX,
    ensures
        r is Some <==> handshaked_peers != 0 && latest_solid_milestone_index.0 + 1 + ms_sync_count
            < latest_milestone_index.0,
        r matches Some(plan) ==> plan.first.0 == latest_solid_milestone_index.0 + 1
            && plan.requests@ == kickstart_requests(plan.first.0, ms_sync_count),
        r matches Some(plan) ==> plan.requests@.len() == ms_sync_count + 1 && plan.requests@[0]
            == plan.first && forall|i: int|
            0 <= i < ms_sync_count ==> (#[trigger] plan.requests@[i + 1]).0 == plan.first.0 + i,
{
    let next_ms = latest_solid_milestone_index.0 + 1;
    let latest_ms = latest_milestone_index.0;
    if handshaked_peers != 0 && next_ms + ms_sync_count < latest_ms {
        let mut requests: Vec<MilestoneIndex> = Vec::new();
        requests.push(MilestoneIndex(next_ms));
        let end = next_ms + ms_sync_count;
        let mut index = next_ms;
        while index < end
            invariant
                next_ms <= index <= end,
                end == next_ms + ms_sync_count,
                requests@ == kickstart_requests(next_ms, (index - next_ms) as u32),
            decreases end - index,
        {
            requests.push(MilestoneIndex(index));
            index = index + 1;
            assert(requests@ =~= kickstart_requests(next_ms, (index - next_ms) as u32));
        }
        proof {
            lemma_kickstart_requests(next_ms, ms_sync_count);
        }
        Some(KickstartPlan { first: MilestoneIndex(next_ms), requests })
    } else {
        None
    }
}

} // verus!
