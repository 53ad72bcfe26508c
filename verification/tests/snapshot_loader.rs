use bee::snapshot::loader::{
    global_snapshot_effects, local_snapshot_effects, next_snapshot_action, LoadType, SnapshotAction,
};
use bee::MilestoneIndex;

#[test]
fn snapshot_actions() {
    assert_eq!(next_snapshot_action(LoadType::Global, false), SnapshotAction::LoadGlobal);
    assert_eq!(next_snapshot_action(LoadType::Global, true), SnapshotAction::LoadGlobal);
    assert_eq!(next_snapshot_action(LoadType::Local, true), SnapshotAction::LoadLocal);
    assert_eq!(next_snapshot_action(LoadType::Local, false), SnapshotAction::DownloadLocal);
}

#[test]
fn global_effects() {
    let effects = global_snapshot_effects([0u8; 2], 1050000);
    assert_eq!(effects.solid_entry_points, vec![([0u8; 2], MilestoneIndex(1050000))]);
    assert_eq!(effects.index, MilestoneIndex(1050000));
    assert_eq!(effects.timestamp, 0);
}

#[test]
fn local_effects() {
    let seps = vec![(1u8, 10u32), (2u8, 11u32)];
    let effects = local_snapshot_effects(0u8, 12, 1_600_000_000, &seps);
    assert_eq!(effects.latest_solid_milestone_index, MilestoneIndex(12));
    assert_eq!(effects.latest_milestone_index, MilestoneIndex(12));
    assert_eq!(effects.snapshot_index, MilestoneIndex(12));
    assert_eq!(effects.pruning_index, MilestoneIndex(12));
    assert_eq!(
        effects.solid_entry_points,
        vec![(0u8, MilestoneIndex(0)), (1u8, MilestoneIndex(10)), (2u8, MilestoneIndex(11))]
    );
    assert_eq!(effects.index, MilestoneIndex(12));
    assert_eq!(effects.timestamp, 1_600_000_000);
}

#[test]
fn local_effects_without_entry_points() {
    let effects = local_snapshot_effects(9u8, 0, 0, &Vec::new());
    assert_eq!(effects.solid_entry_points, vec![(9u8, MilestoneIndex(0))]);
}
