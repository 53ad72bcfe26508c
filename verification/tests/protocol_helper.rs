use bee::protocol::helper::Protocol;
use bee::MilestoneIndex;

#[test]
fn milestone_requested_only_when_unknown() {
    let event = Protocol::request_milestone(MilestoneIndex(3), Some(7u8), false, false).unwrap();
    assert_eq!(event.0, MilestoneIndex(3));
    assert_eq!(event.1, Some(7u8));
    assert!(Protocol::request_milestone(MilestoneIndex(3), Some(7u8), true, false).is_none());
    assert!(Protocol::request_milestone::<u8>(MilestoneIndex(3), None, false, true).is_none());
}

#[test]
fn latest_milestone_is_index_zero() {
    let event = Protocol::request_latest_milestone::<u8>(None, false, false).unwrap();
    assert_eq!(event.0, MilestoneIndex(0));
    assert_eq!(event.1, None);
}

#[test]
fn transaction_requested_only_when_unknown() {
    let event = Protocol::request_transaction([1u8; 4], MilestoneIndex(9), false, false, false).unwrap();
    assert_eq!(event.0, [1u8; 4]);
    assert_eq!(event.1, MilestoneIndex(9));
    assert!(Protocol::request_transaction(0u8, MilestoneIndex(9), true, false, false).is_none());
    assert!(Protocol::request_transaction(0u8, MilestoneIndex(9), false, true, false).is_none());
    assert!(Protocol::request_transaction(0u8, MilestoneIndex(9), false, false, true).is_none());
}

#[test]
fn solidification_event_carries_target() {
    assert_eq!(Protocol::trigger_milestone_solidification(MilestoneIndex(42)).0, MilestoneIndex(42));
}
