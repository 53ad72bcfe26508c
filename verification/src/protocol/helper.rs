use vstd::prelude::*;

use crate::MilestoneIndex;

verus! {

/// Asks the milestone requester worker for milestone `.0`, from endpoint `.1` if one is named.
#[derive(Clone, Copy, Debug)]
pub struct MilestoneRequesterWorkerEvent<E>(pub MilestoneIndex, pub Option<E>);

/// Asks the transaction requester worker for the transaction with hash `.0`, referenced by
/// milestone `.1`.
#[derive(Clone, Copy, Debug)]
pub struct TransactionRequesterWorkerEvent<H>(pub H, pub MilestoneIndex);

/// Asks the milestone solidifier worker to solidify up to milestone `.0`.
#[derive(Clone, Copy, Debug, PartialEq, Eq, Structural)]
pub struct MilestoneSolidifierWorkerEvent(pub MilestoneIndex);

/// The decisions of the protocol: which event each request hands to which worker. The caller
/// tells what the node already knows and sends the event that comes back.
pub struct Protocol {}

impl Protocol {
    /// Milestone `index` is requested unless it was requested already or the tangle holds it.
    pub fn request_milestone<E>(
        index: MilestoneIndex,
        to: Option<E>,
        already_requested: bool,
        in_tangle: bool,
    ) -> (r: Option<MilestoneRequesterWorkerEvent<E>>)
        ensures
            r is Some <==> !already_requested && !in_tangle,
            r matches Some(event) ==> event.0 == index && event.1 == to,
    {
        if !already_requested && !in_tangle {
            Some(MilestoneRequesterWorkerEvent(index, to))
        } else {
            None
        }
    }

    /// The latest milestone is requested as milestone 0, under the same conditions.
    pub fn request_latest_milestone<E>(
        to: Option<E>,
        already_requested: bool,
        in_tangle: bool,
    ) -> (r: Option<MilestoneRequesterWorkerEvent<E>>)
        ensures
            r is Some <==> !already_requested && !in_tangle,
            r matches Some(event) ==> event.0 == MilestoneIndex(0) && event.1 == to,
    {
        Protocol::request_milestone(MilestoneIndex(0), to, already_requested, in_tangle)
    }

    /// A transaction is requested unless the tangle holds it, it is a solid entry point, or it
    /// was requested already.
    pub fn request_transaction<H>(
        hash: H,
        index: MilestoneIndex,
        in_tangle: bool,
        is_solid_entry_point: bool,
        already_requested: bool,
    ) -> (r: Option<TransactionRequesterWorkerEvent<H>>)
        ensures
            r is Some <==> !in_tangle && !is_solid_entry_point && !already_requested,
            r matches Some(event) ==> event.0 == hash && event.1 == index,
    {
        if !in_tangle && !is_solid_entry_point && !already_requested {
            Some(TransactionRequesterWorkerEvent(hash, index))
        } else {
            None
        }
    }

    /// Solidification up to `target_index` is always asked for.
    pub fn trigger_milestone_solidification(target_index: MilestoneIndex) -> (r:
        MilestoneSolidifierWorkerEvent)
        ensures
            r.0 == target_index,
    {
        MilestoneSolidifierWorkerEvent(target_index)
    }
}

} // verus!
