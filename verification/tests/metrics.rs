use bee::protocol::metrics::ProtocolMetrics;

#[test]
fn node_metrics_transactions_received_test() {
    let mut metrics = ProtocolMetrics::default();

    assert_eq!(metrics.invalid_transactions_received(), 0);
    assert_eq!(metrics.stale_transactions_received(), 0);
    assert_eq!(metrics.random_transactions_received(), 0);
    assert_eq!(metrics.new_transactions_received(), 0);
    assert_eq!(metrics.known_transactions_received(), 0);

    metrics.invalid_transactions_received_inc();
    metrics.stale_transactions_received_inc();
    metrics.random_transactions_received_inc();
    metrics.new_transactions_received_inc();
    metrics.known_transactions_received_inc();

    assert_eq!(metrics.invalid_transactions_received(), 1);
    assert_eq!(metrics.stale_transactions_received(), 1);
    assert_eq!(metrics.random_transactions_received(), 1);
    assert_eq!(metrics.new_transactions_received(), 1);
    assert_eq!(metrics.known_transactions_received(), 1);
}

#[test]
fn node_metrics_messages_received_test() {
    let mut metrics = ProtocolMetrics::default();

    assert_eq!(metrics.invalid_messages_received(), 0);
    assert_eq!(metrics.milestone_request_received(), 0);
    assert_eq!(metrics.transaction_broadcast_received(), 0);
    assert_eq!(metrics.transaction_request_received(), 0);
    assert_eq!(metrics.heartbeat_received(), 0);

    metrics.invalid_messages_received_inc();
    metrics.milestone_request_received_inc();
    metrics.transaction_broadcast_received_inc();
    metrics.transaction_request_received_inc();
    metrics.heartbeat_received_inc();

    assert_eq!(metrics.invalid_messages_received(), 1);
    assert_eq!(metrics.milestone_request_received(), 1);
    assert_eq!(metrics.transaction_broadcast_received(), 1);
    assert_eq!(metrics.transaction_request_received(), 1);
    assert_eq!(metrics.heartbeat_received(), 1);
}

#[test]
fn node_metrics_messages_sent_test() {
    let mut metrics = ProtocolMetrics::default();

    assert_eq!(metrics.milestone_request_sent(), 0);
    assert_eq!(metrics.transaction_broadcast_sent(), 0);
    assert_eq!(metrics.transaction_request_sent(), 0);
    assert_eq!(metrics.heartbeat_sent(), 0);

    metrics.milestone_request_sent_inc();
    metrics.transaction_broadcast_sent_inc();
    metrics.transaction_request_sent_inc();
    metrics.heartbeat_sent_inc();

    assert_eq!(metrics.milestone_request_sent(), 1);
    assert_eq!(metrics.transaction_broadcast_sent(), 1);
    assert_eq!(metrics.transaction_request_sent(), 1);
    assert_eq!(metrics.heartbeat_sent(), 1);
}

#[test]
fn inc_returns_previous_count() {
    let mut metrics = ProtocolMetrics::new();
    assert_eq!(metrics.heartbeat_sent_inc(), 0);
    assert_eq!(metrics.heartbeat_sent_inc(), 1);
    assert_eq!(metrics.heartbeat_sent_inc(), 2);
    assert_eq!(metrics.heartbeat_sent(), 3);
}

#[test]
fn inc_leaves_other_counters() {
    let mut metrics = ProtocolMetrics::new();
    metrics.stale_transactions_received_inc();
    metrics.stale_transactions_received_inc();
    assert_eq!(metrics.stale_transactions_received(), 2);
    assert_eq!(metrics.invalid_transactions_received(), 0);
    assert_eq!(metrics.heartbeat_received(), 0);
    assert_eq!(metrics.heartbeat_sent(), 0);
}

#[test]
fn increments_commute() {
    let mut a = ProtocolMetrics::new();
    a.known_transactions_received_inc();
    a.transaction_request_sent_inc();
    let mut b = ProtocolMetrics::new();
    b.transaction_request_sent_inc();
    b.known_transactions_received_inc();
    assert_eq!(a.known_transactions_received(), b.known_transactions_received());
    assert_eq!(a.transaction_request_sent(), b.transaction_request_sent());
}
