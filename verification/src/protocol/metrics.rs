use vstd::prelude::*;

verus! {

/// The counter that follows `count`: one more, and back to zero after `u32::MAX`,
/// as an atomic `fetch_add(1)` on a `u32` wraps.
pub open spec fn next_count(count: u32) -> u32 {
    if count == u32::MAX {
        0
    } else {
        (count + 1) as u32
    }
}

fn increment(count: u32) -> (r: u32)
    ensures
        r == next_count(count),
{
    if count == u32::MAX {
        0
    } else {
        count + 1
    }
}

/// Names one of the counters that [`ProtocolMetrics`] keeps.
#[derive(Clone, Copy, Debug, PartialEq, Eq, Structural)]
pub enum Counter {
    InvalidTransactionsReceived,
    StaleTransactionsReceived,
    RandomTransactionsReceived,
    NewTransactionsReceived,
    KnownTransactionsReceived,
    InvalidMessagesReceived,
    MilestoneRequestReceived,
    TransactionBroadcastReceived,
    TransactionRequestReceived,
    HeartbeatReceived,
    MilestoneRequestSent,
    TransactionBroadcastSent,
    TransactionRequestSent,
    HeartbeatSent,
}

/// The value of every counter of a [`ProtocolMetrics`].
pub struct ProtocolMetricsView {
    pub invalid_transactions_received: u32,
    pub stale_transactions_received: u32,
    pub random_transactions_received: u32,
    pub new_transactions_received: u32,
    pub known_transactions_received: u32,
    pub invalid_messages_received: u32,
    pub milestone_request_received: u32,
    pub transaction_broadcast_received: u32,
    pub transaction_request_received: u32,
    pub heartbeat_received: u32,
    pub milestone_request_sent: u32,
    pub transaction_broadcast_sent: u32,
    pub transaction_request_sent: u32,
    pub heartbeat_sent: u32,
}

impl ProtocolMetricsView {
    /// Every counter at zero.
    pub open spec fn zero() -> ProtocolMetricsView {
        ProtocolMetricsView {
            invalid_transactions_received: 0,
            stale_transactions_received: 0,
            random_transactions_received: 0,
            new_transactions_received: 0,
            known_transactions_received: 0,
            invalid_messages_received: 0,
            milestone_request_received: 0,
            transaction_broadcast_received: 0,
            transaction_request_received: 0,
            heartbeat_received: 0,
            milestone_request_sent: 0,
            transaction_broadcast_sent: 0,
            transaction_request_sent: 0,
            heartbeat_sent: 0,
        }
    }

    /// The value of counter `c`.
    pub open spec fn get(self, c: Counter) -> u32 {
        match c {
            Counter::InvalidTransactionsReceived => self.invalid_transactions_received,
            Counter::StaleTransactionsReceived => self.stale_transactions_received,
            Counter::RandomTransactionsReceived => self.random_transactions_received,
            Counter::NewTransactionsReceived => self.new_transactions_received,
            Counter::KnownTransactionsReceived => self.known_transactions_received,
            Counter::InvalidMessagesReceived => self.invalid_messages_received,
            Counter::MilestoneRequestReceived => self.milestone_request_received,
            Counter::TransactionBroadcastReceived => self.transaction_broadcast_received,
            Counter::TransactionRequestReceived => self.transaction_request_received,
            Counter::HeartbeatReceived => self.heartbeat_received,
            Counter::MilestoneRequestSent => self.milestone_request_sent,
            Counter::TransactionBroadcastSent => self.transaction_broadcast_sent,
            Counter::TransactionRequestSent => self.transaction_request_sent,
            Counter::HeartbeatSent => self.heartbeat_sent,
        }
    }

    /// These counters after counter `c` was incremented once.
    pub open spec fn incremented(self, c: Counter) -> ProtocolMetricsView {
        match c {
            Counter::InvalidTransactionsReceived => ProtocolMetricsView { invalid_transactions_received: next_count(self.invalid_transactions_received), ..self },
            Counter::StaleTransactionsReceived => ProtocolMetricsView { stale_transactions_received: next_count(self.stale_transactions_received), ..self },
            Counter::RandomTransactionsReceived => ProtocolMetricsView { random_transactions_received: next_count(self.random_transactions_received), ..self },
            Counter::NewTransactionsReceived => ProtocolMetricsView { new_transactions_received: next_count(self.new_transactions_received), ..self },
            Counter::KnownTransactionsReceived => ProtocolMetricsView { known_transactions_received: next_count(self.known_transactions_received), ..self },
            Counter::InvalidMessagesReceived => ProtocolMetricsView { invalid_messages_received: next_count(self.invalid_messages_received), ..self },
            Counter::MilestoneRequestReceived => ProtocolMetricsView { milestone_request_received: next_count(self.milestone_request_received), ..self },
            Counter::TransactionBroadcastReceived => ProtocolMetricsView { transaction_broadcast_received: next_count(self.transaction_broadcast_received), ..self },
            Counter::TransactionRequestReceived => ProtocolMetricsView { transaction_request_received: next_count(self.transaction_request_received), ..self },
            Counter::HeartbeatReceived => ProtocolMetricsView { heartbeat_received: next_count(self.heartbeat_received), ..self },
            Counter::MilestoneRequestSent => ProtocolMetricsView { milestone_request_sent: next_count(self.milestone_request_sent), ..self },
            Counter::TransactionBroadcastSent => ProtocolMetricsView { transaction_broadcast_sent: next_count(self.transaction_broadcast_sent), ..self },
            Counter::TransactionRequestSent => ProtocolMetricsView { transaction_request_sent: next_count(self.transaction_request_sent), ..self },
            Counter::HeartbeatSent => ProtocolMetricsView { heartbeat_sent: next_count(self.heartbeat_sent), ..self },
        }
    }
}

/// Counters of the messages and transactions that the protocol received and sent.
pub struct ProtocolMetrics {
    invalid_transactions_received: u32,
    stale_transactions_received: u32,
    random_transactions_received: u32,
    new_transactions_received: u32,
    known_transactions_received: u32,
    invalid_messages_received: u32,
    milestone_request_received: u32,
    transaction_broadcast_received: u32,
    transaction_request_received: u32,
    heartbeat_received: u32,
    milestone_request_sent: u32,
    transaction_broadcast_sent: u32,
    transaction_request_sent: u32,
    heartbeat_sent: u32,
}

impl View for ProtocolMetrics {
    type V = ProtocolMetricsView;

    closed spec fn view(&self) -> ProtocolMetricsView {
        ProtocolMetricsView {
            invalid_transactions_received: self.invalid_transactions_received,
            stale_transactions_received: self.stale_transactions_received,
            random_transactions_received: self.random_transactions_received,
            new_transactions_received: self.new_transactions_received,
            known_transactions_received: self.known_transactions_received,
            invalid_messages_received: self.invalid_messages_received,
            milestone_request_received: self.milestone_request_received,
            transaction_broadcast_received: self.transaction_broadcast_received,
            transaction_request_received: self.transaction_request_received,
            heartbeat_received: self.heartbeat_received,
            milestone_request_sent: self.milestone_request_sent,
            transaction_broadcast_sent: self.transaction_broadcast_sent,
            transaction_request_sent: self.transaction_request_sent,
            heartbeat_sent: self.heartbeat_sent,
        }
    }
}

impl Default for ProtocolMetrics {
    fn default() -> (r: Self)
        ensures
            r@ == ProtocolMetricsView::zero(),
    {
        ProtocolMetrics {
            invalid_transactions_received: 0,
            stale_transactions_received: 0,
            random_transactions_received: 0,
            new_transactions_received: 0,
            known_transactions_received: 0,
            invalid_messages_received: 0,
            milestone_request_received: 0,
            transaction_broadcast_received: 0,
            transaction_request_received: 0,
            heartbeat_received: 0,
            milestone_request_sent: 0,
            transaction_broadcast_sent: 0,
            transaction_request_sent: 0,
            heartbeat_sent: 0,
        }
    }
}

impl ProtocolMetrics {
    /// Metrics with every counter at zero.
    pub fn new() -> (r: Self)
        ensures
            r@ == ProtocolMetricsView::zero(),
    {
        Self::default()
    }

    /// The number of invalid transactions received.
    pub fn invalid_transactions_received(&self) -> (r: u32)
        ensures
            r == self@.get(Counter::InvalidTransactionsReceived),
    {
        self.invalid_transactions_received
    }

    /// Counts one more of the invalid transactions received; returns the count before this one.
    pub fn invalid_transactions_received_inc(&mut self) -> (r: u32)
        ensures
            r == old(self)@.get(Counter::InvalidTransactionsReceived),
            final(self)@ == old(self)@.incremented(Counter::InvalidTransactionsReceived),
    {
        let previous = self.invalid_transactions_received;
        self.invalid_transactions_received = increment(previous);
        previous
    }

    /// The number of stale transactions received.
    pub fn stale_transactions_received(&self) -> (r: u32)
        ensures
            r == self@.get(Counter::StaleTransactionsReceived),
    {
        self.stale_transactions_received
    }

    /// Counts one more of the stale transactions received; returns the count before this one.
    pub fn stale_transactions_received_inc(&mut self) -> (r: u32)
        ensures
            r == old(self)@.get(Counter::StaleTransactionsReceived),
            final(self)@ == old(self)@.incremented(Counter::StaleTransactionsReceived),
    {
        let previous = self.stale_transactions_received;
        self.stale_transactions_received = increment(previous);
        previous
    }

    /// The number of random transactions received.
    pub fn random_transactions_received(&self) -> (r: u32)
        ensures
            r == self@.get(Counter::RandomTransactionsReceived),
    {
        self.random_transactions_received
    }

    /// Counts one more of the random transactions received; returns the count before this one.
    pub fn random_transactions_received_inc(&mut self) -> (r: u32)
        ensures
            r == old(self)@.get(Counter::RandomTransactionsReceived),
            final(self)@ == old(self)@.incremented(Counter::RandomTransactionsReceived),
    {
        let previous = self.random_transactions_received;
        self.random_transactions_received = increment(previous);
        previous
    }

    /// The number of new transactions received.
    pub fn new_transactions_received(&self) -> (r: u32)
        ensures
            r == self@.get(Counter::NewTransactionsReceived),
    {
        self.new_transactions_received
    }

    /// Counts one more of the new transactions received; returns the count before this one.
    pub fn new_transactions_received_inc(&mut self) -> (r: u32)
        ensures
            r == old(self)@.get(Counter::NewTransactionsReceived),
            final(self)@ == old(self)@.incremented(Counter::NewTransactionsReceived),
    {
        let previous = self.new_transactions_received;
        self.new_transactions_received = increment(previous);
        previous
    }

    /// The number of known transactions received.
    pub fn known_transactions_received(&self) -> (r: u32)
        ensures
            r == self@.get(Counter::KnownTransactionsReceived),
    {
        self.known_transactions_received
    }

    /// Counts one more of the known transactions received; returns the count before this one.
    pub fn known_transactions_received_inc(&mut self) -> (r: u32)
        ensures
            r == old(self)@.get(Counter::KnownTransactionsReceived),
            final(self)@ == old(self)@.incremented(Counter::KnownTransactionsReceived),
    {
        let previous = self.known_transactions_received;
        self.known_transactions_received = increment(previous);
        previous
    }

    /// The number of invalid messages received.
    pub fn invalid_messages_received(&self) -> (r: u32)
        ensures
            r == self@.get(Counter::InvalidMessagesReceived),
    {
        self.invalid_messages_received
    }

    /// Counts one more of the invalid messages received; returns the count before this one.
    pub fn invalid_messages_received_inc(&mut self) -> (r: u32)
        ensures
            r == old(self)@.get(Counter::InvalidMessagesReceived),
            final(self)@ == old(self)@.incremented(Counter::InvalidMessagesReceived),
    {
        let previous = self.invalid_messages_received;
        self.invalid_messages_received = increment(previous);
        previous
    }

    /// The number of milestone requests received.
    pub fn milestone_request_received(&self) -> (r: u32)
        ensures
            r == self@.get(Counter::MilestoneRequestReceived),
    {
        self.milestone_request_received
    }

    /// Counts one more of the milestone requests received; returns the count before this one.
    pub fn milestone_request_received_inc(&mut self) -> (r: u32)
        ensures
            r == old(self)@.get(Counter::MilestoneRequestReceived),
            final(self)@ == old(self)@.incremented(Counter::MilestoneRequestReceived),
    {
        let previous = self.milestone_request_received;
        self.milestone_request_received = increment(previous);
        previous
    }

    /// The number of transaction broadcasts received.
    pub fn transaction_broadcast_received(&self) -> (r: u32)
        ensures
            r == self@.get(Counter::TransactionBroadcastReceived),
    {
        self.transaction_broadcast_received
    }

    /// Counts one more of the transaction broadcasts received; returns the count before this one.
    pub fn transaction_broadcast_received_inc(&mut self) -> (r: u32)
        ensures
            r == old(self)@.get(Counter::TransactionBroadcastReceived),
            final(self)@ == old(self)@.incremented(Counter::TransactionBroadcastReceived),
    {
        let previous = self.transaction_broadcast_received;
        self.transaction_broadcast_received = increment(previous);
        previous
    }

    /// The number of transaction requests received.
    pub fn transaction_request_received(&self) -> (r: u32)
        ensures
            r == self@.get(Counter::TransactionRequestReceived),
    {
        self.transaction_request_received
    }

    /// Counts one more of the transaction requests received; returns the count before this one.
    pub fn transaction_request_received_inc(&mut self) -> (r: u32)
        ensures
            r == old(self)@.get(Counter::TransactionRequestReceived),
            final(self)@ == old(self)@.incremented(Counter::TransactionRequestReceived),
    {
        let previous = self.transaction_request_received;
        self.transaction_request_received = increment(previous);
        previous
    }

    /// The number of heartbeats received.
    pub fn heartbeat_received(&self) -> (r: u32)
        ensures
            r == self@.get(Counter::HeartbeatReceived),
    {
        self.heartbeat_received
    }

    /// Counts one more of the heartbeats received; returns the count before this one.
    pub fn heartbeat_received_inc(&mut self) -> (r: u32)
        ensures
            r == old(self)@.get(Counter::HeartbeatReceived),
            final(self)@ == old(self)@.incremented(Counter::HeartbeatReceived),
    {
        let previous = self.heartbeat_received;
        self.heartbeat_received = increment(previous);
        previous
    }

    /// The number of milestone requests sent.
    pub fn milestone_request_sent(&self) -> (r: u32)
        ensures
            r == self@.get(Counter::MilestoneRequestSent),
    {
        self.milestone_request_sent
    }

    /// Counts one more of the milestone requests sent; returns the count before this one.
    pub fn milestone_request_sent_inc(&mut self) -> (r: u32)
        ensures
            r == old(self)@.get(Counter::MilestoneRequestSent),
            final(self)@ == old(self)@.incremented(Counter::MilestoneRequestSent),
    {
        let previous = self.milestone_request_sent;
        self.milestone_request_sent = increment(previous);
        previous
    }

    /// The number of transaction broadcasts sent.
    pub fn transaction_broadcast_sent(&self) -> (r: u32)
        ensures
            r == self@.get(Counter::TransactionBroadcastSent),
    {
        self.transaction_broadcast_sent
    }

    /// Counts one more of the transaction broadcasts sent; returns the count before this one.
    pub fn transaction_broadcast_sent_inc(&mut self) -> (r: u32)
        ensures
            r == old(self)@.get(Counter::TransactionBroadcastSent),
            final(self)@ == old(self)@.incremented(Counter::TransactionBroadcastSent),
    {
        let previous = self.transaction_broadcast_sent;
        self.transaction_broadcast_sent = increment(previous);
        previous
    }

    /// The number of transaction requests sent.
    pub fn transaction_request_sent(&self) -> (r: u32)
        ensures
            r == self@.get(Counter::TransactionRequestSent),
    {
        self.transaction_request_sent
    }

    /// Counts one more of the transaction requests sent; returns the count before this one.
    pub fn transaction_request_sent_inc(&mut self) -> (r: u32)
        ensures
            r == old(self)@.get(Counter::TransactionRequestSent),
            final(self)@ == old(self)@.incremented(Counter::TransactionRequestSent),
    {
        let previous = self.transaction_request_sent;
        self.transaction_request_sent = increment(previous);
        previous
    }

    /// The number of heartbeats sent.
    pub fn heartbeat_sent(&self) -> (r: u32)
        ensures
            r == self@.get(Counter::HeartbeatSent),
    {
        self.heartbeat_sent
    }

    /// Counts one more of the heartbeats sent; returns the count before this one.
    pub fn heartbeat_sent_inc(&mut self) -> (r: u32)
        ensures
            r == old(self)@.get(Counter::HeartbeatSent),
            final(self)@ == old(self)@.incremented(Counter::HeartbeatSent),
    {
        let previous = self.heartbeat_sent;
        self.heartbeat_sent = increment(previous);
        previous
    }
}

/// Fresh metrics read zero on every counter.
pub proof fn lemma_new_reads_zero(c: Counter)
    ensures
        ProtocolMetricsView::zero().get(c) == 0,
{
}

/// Incrementing a counter makes it read one more than before (wrapping at `u32::MAX`).
pub proof fn lemma_inc_then_read(m: ProtocolMetricsView, c: Counter)
    ensures
        m.incremented(c).get(c) == next_count(m.get(c)),
{
}

/// Incrementing a counter below `u32::MAX` makes it read exactly one more; incrementing it at
/// `u32::MAX` makes it read zero.
pub proof fn lemma_inc_adds_exactly_one(m: ProtocolMetricsView, c: Counter)
    ensures
        m.get(c) < u32::MAX ==> m.incremented(c).get(c) == m.get(c) + 1,
        m.get(c) == u32::MAX ==> m.incremented(c).get(c) == 0,
{
}

/// Incrementing a counter leaves every other counter as it was.
pub proof fn lemma_inc_leaves_others(m: ProtocolMetricsView, c: Counter, d: Counter)
    requires
        c != d,
    ensures
        m.incremented(c).get(d) == m.get(d),
{
}

/// The order in which two counters are incremented does not matter.
pub proof fn lemma_inc_commutes(m: ProtocolMetricsView, c: Counter, d: Counter)
    ensures
        m.incremented(c).incremented(d) == m.incremented(d).incremented(c),
{
}

} // verus!
