use bee::worker::kickstart::kickstart_request;
use bee::worker::solidifier_kickstart::solidifier_kickstart;
use bee::worker::tps::{TpsMetricsUpdated, TpsWorker, TransactionCounts};
use bee::MilestoneIndex;

fn counts(n: u64) -> TransactionCounts {
    TransactionCounts { incoming: n, new: n + 1, known: n + 2, stale: n + 3, invalid: n + 4, outgoing: n + 5 }
}

#[test]
fn tps_reports_gains_since_last_tick() {
    let mut worker = TpsWorker::new();
    let first = worker.tps(counts(10));
    assert_eq!(first, TpsMetricsUpdated { incoming: 10, new: 11, known: 12, stale: 13, invalid: 14, outgoing: 15 });
    let second = worker.tps(counts(25));
    assert_eq!(second, TpsMetricsUpdated { incoming: 15, new: 15, known: 15, stale: 15, invalid: 15, outgoing: 15 });
}

#[test]
fn tps_unchanged_counts_report_zero() {
    let mut worker = TpsWorker::default();
    worker.tps(counts(4));
    let again = worker.tps(counts(4));
    assert_eq!(again, TpsMetricsUpdated { incoming: 0, new: 0, known: 0, stale: 0, invalid: 0, outgoing: 0 });
}

#[test]
fn kickstart_waits_without_peers() {
    assert_eq!(kickstart_request(MilestoneIndex(5), MilestoneIndex(10), 0), None);
}

#[test]
fn kickstart_waits_when_synced() {
    assert_eq!(kickstart_request(MilestoneIndex(10), MilestoneIndex(10), 3), None);
}

#[test]
fn kickstart_requests_next_milestone() {
    assert_eq!(kickstart_request(MilestoneIndex(9), MilestoneIndex(10), 1), Some(MilestoneIndex(10)));
    assert_eq!(kickstart_request(MilestoneIndex(5), MilestoneIndex(100), 2), Some(MilestoneIndex(6)));
}

#[test]
fn solidifier_kickstart_plan() {
    let plan = solidifier_kickstart(MilestoneIndex(5), MilestoneIndex(100), 2, 3).unwrap();
    assert_eq!(plan.first, MilestoneIndex(6));
    assert_eq!(plan.requests, vec![MilestoneIndex(6), MilestoneIndex(6), MilestoneIndex(7), MilestoneIndex(8)]);
}

#[test]
fn solidifier_kickstart_waits() {
    assert!(solidifier_kickstart(MilestoneIndex(5), MilestoneIndex(100), 0, 3).is_none());
    // 6 + 3 is not below 9
    assert!(solidifier_kickstart(MilestoneIndex(5), MilestoneIndex(9), 1, 3).is_none());
    assert!(solidifier_kickstart(MilestoneIndex(5), MilestoneIndex(10), 1, 3).is_some());
}

#[test]
fn solidifier_kickstart_zero_sync_count() {
    let plan = solidifier_kickstart(MilestoneIndex(0), MilestoneIndex(2), 1, 0).unwrap();
    assert_eq!(plan.first, MilestoneIndex(1));
    assert_eq!(plan.requests, vec![MilestoneIndex(1)]);
}

#[test]
fn solidifier_kickstart_no_peers_near_max() {
    assert!(solidifier_kickstart(MilestoneIndex(u32::MAX - 1), MilestoneIndex(u32::MAX), 0, 5).is_none());
}

#[test]
fn tps_sums_to_last_counters() {
    let mut worker = TpsWorker::new();
    let reads = [counts(3), counts(3), counts(10), counts(40)];
    let mut total = TpsMetricsUpdated { incoming: 0, new: 0, known: 0, stale: 0, invalid: 0, outgoing: 0 };
    for read in reads.iter() {
        let event = worker.tps(*read);
        total.incoming += event.incoming;
        total.new += event.new;
        total.known += event.known;
        total.stale += event.stale;
        total.invalid += event.invalid;
        total.outgoing += event.outgoing;
    }
    let last = counts(40);
    assert_eq!(total, TpsMetricsUpdated {
        incoming: last.incoming,
        new: last.new,
        known: last.known,
        stale: last.stale,
        invalid: last.invalid,
        outgoing: last.outgoing,
    });
}
