use vstd::prelude::*;

use crate::MilestoneIndex;

verus! {

/// Which snapshot the node starts from.
#[derive(Clone, Copy, Debug, PartialEq, Eq, Structural)]
pub enum LoadType {
    Global,
    Local,
}

/// The next step of loading a snapshot.
#[derive(Clone, Copy, Debug, PartialEq, Eq, Structural)]
pub enum SnapshotAction {
    /// Read the global snapshot file.
    LoadGlobal,
    /// Download the local snapshot file, which is missing; then read it.
    DownloadLocal,
    /// Read the local snapshot file.
    LoadLocal,
}

/// A global snapshot is read; a local one is read if its file exists, else downloaded first.
pub fn next_snapshot_action(load: LoadType, local_file_exists: bool) -> (r: SnapshotAction)
    ensures
        r == match load {
            LoadType::Global => SnapshotAction::LoadGlobal,
            LoadType::Local => if local_file_exists {
                SnapshotAction::LoadLocal
            } else {
                SnapshotAction::DownloadLocal
            },
        },
{
    match load {
        LoadType::Global => SnapshotAction::LoadGlobal,
        LoadType::Local => if local_file_exists {
            SnapshotAction::LoadLocal
        } else {
            SnapshotAction::DownloadLocal
        },
    }
}

/// What loading a global snapshot does to the tangle, and what it returns.
#[derive(Debug)]
pub struct GlobalEffects<H> {
    /// The solid entry points that replace all others: the genesis transaction at the snapshot
    /// index, as the coordinator bootstraps the network by referencing it.
    pub solid_entry_points: Vec<(H, MilestoneIndex)>,
    /// The snapshot's milestone index.
    pub index: MilestoneIndex,
    /// The snapshot's timestamp: a global snapshot has none, so 0.
    pub timestamp: u64,
}

/// The effects of loading the global snapshot with milestone `index`; `zero` is the all-zero hash.
pub fn global_snapshot_effects<H>(zero: H, index: u32) -> (r: GlobalEffects<H>)
    ensures
        r.solid_entry_points@ == seq![(zero, MilestoneIndex(index))],
        r.index == MilestoneIndex(index),
        r.timestamp == 0,
{
    let mut solid_entry_points: Vec<(H, MilestoneIndex)> = Vec::new();
    solid_entry_points.push((zero, MilestoneIndex(index)));
    assert(solid_entry_points@ =~= seq![(zero, MilestoneIndex(index))]);
    GlobalEffects { solid_entry_points, index: MilestoneIndex(index), timestamp: 0 }
}

/// What loading a local snapshot does to the tangle, and what it returns.
#[derive(Debug)]
pub struct LocalEffects<H> {
    pub latest_solid_milestone_index: MilestoneIndex,
    pub latest_milestone_index: MilestoneIndex,
    pub snapshot_index: MilestoneIndex,
    pub pruning_index: MilestoneIndex,
    /// The solid entry points added, in order.
    pub solid_entry_points: Vec<(H, MilestoneIndex)>,
    /// The snapshot's milestone index.
    pub index: MilestoneIndex,
    /// The snapshot's timestamp.
    pub timestamp: u64,
}

/// A solid entry point of a snapshot file, with its index as a milestone index.
pub open spec fn entry_point<H>(p: (H, u32)) -> (H, MilestoneIndex) {
    (p.0, MilestoneIndex(p.1))
}

/// The entry points added by a local snapshot: the zero hash at milestone 0, then, at position
/// `k + 1`, the `k`-th entry of the file with its milestone index unchanged.
pub proof fn lemma_local_entry_points<H>(zero: H, seps: Seq<(H, u32)>)
    ensures
        ({
            let added = seq![(zero, MilestoneIndex(0))] + seps.map_values(|p: (H, u32)| entry_point(p));
            &&& added.len() == seps.len() + 1
            &&& added[0] == (zero, MilestoneIndex(0))
            &&& forall|k: int|
                0 <= k < seps.len() ==> #[trigger] added[k + 1] == (seps[k].0, MilestoneIndex(
                    seps[k].1,
                ))
        }),
{
    let added = seq![(zero, MilestoneIndex(0))] + seps.map_values(|p: (H, u32)| entry_point(p));
    assert forall|k: int| 0 <= k < seps.len() implies #[trigger] added[k + 1] == (
    seps[k].0,
    MilestoneIndex(seps[k].1),
    ) by {
        assert(added[k + 1] == seps.map_values(|p: (H, u32)| entry_point(p))[k]);
    }
}

/// The effects of loading a local snapshot with milestone `index`, `timestamp` and solid entry
/// points `seps`: every tangle index moves to `index`, the all-zero hash `zero` becomes a solid
/// entry point at milestone 0, then each of `seps` at its own index.
pub fn local_snapshot_effects<H: Copy>(zero: H, index: u32, timestamp: u64, seps: &Vec<(H, u32)>) -> (r:
    LocalEffects<H>)
    ensures
        r.latest_solid_milestone_index == MilestoneIndex(index),
        r.latest_milestone_index == MilestoneIndex(index),
        r.snapshot_index == MilestoneIndex(index),
        r.pruning_index == MilestoneIndex(index),
        r.solid_entry_points@ == seq![(zero, MilestoneIndex(0))] + seps@.map_values(
            |p: (H, u32)| entry_point(p),
        ),
        r.solid_entry_points@.len() == seps@.len() + 1,
        forall|k: int|
            0 <= k < seps@.len() ==> #[trigger] r.solid_entry_points@[k + 1] == (
            seps@[k].0,
            MilestoneIndex(seps@[k].1),
            ),
        r.index == MilestoneIndex(index),
        r.timestamp == timestamp,
{
    proof {
        lemma_local_entry_points(zero, seps@);
    }
    let mut solid_entry_points: Vec<(H, MilestoneIndex)> = Vec::new();
    solid_entry_points.push((zero, MilestoneIndex(0)));
    let mut i: usize = 0;
    while i < seps.len()
        invariant
            i <= seps.len(),
            solid_entry_points@ == seq![(zero, MilestoneIndex(0))] + seps@.take(i as int).map_values(
                |p: (H, u32)| entry_point(p),
            ),
        decreases seps.len() - i,
    {
        let (hash, sep_index) = seps[i];
        solid_entry_points.push((hash, MilestoneIndex(sep_index)));
        i = i + 1;
        assert(seps@.take(i as int) =~= seps@.take(i - 1).push(seps@[i - 1]));
        assert(solid_entry_points@ =~= seq![(zero, MilestoneIndex(0))] + seps@.take(i as int).map_values(
            |p: (H, u32)| entry_point(p),
        ));
    }
    assert(seps@.take(i as int) =~= seps@);
    LocalEffects {
        latest_solid_milestone_index: MilestoneIndex(index),
        latest_milestone_index: MilestoneIndex(index),
        snapshot_index: MilestoneIndex(index),
        pruning_index: MilestoneIndex(index),
        solid_entry_points,
        index: MilestoneIndex(index),
        timestamp,
    }
}

} // verus!
