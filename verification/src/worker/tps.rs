use vstd::prelude::*;

verus! {

/// The transaction counters of the protocol at one moment.
#[derive(Clone, Copy, Debug, PartialEq, Eq, Structural)]
pub struct TransactionCounts {
    pub incoming: u64,
    pub new: u64,
    pub known: u64,
    pub stale: u64,
    pub invalid: u64,
    pub outgoing: u64,
}

/// How many transactions of each kind were counted since the last tick.
#[derive(Clone, Copy, Debug, PartialEq, Eq, Structural)]
pub struct TpsMetricsUpdated {
    pub incoming: u64,
    pub new: u64,
    pub known: u64,
    pub stale: u64,
    pub invalid: u64,
    pub outgoing: u64,
}

/// No counter went down from `previous` to `current`.
pub open spec fn counts_grew(previous: TransactionCounts, current: TransactionCounts) -> bool {
    &&& previous.incoming <= current.incoming
    &&& previous.new <= current.new
    &&& previous.known <= current.known
    &&& previous.stale <= current.stale
    &&& previous.invalid <= current.invalid
    &&& previous.outgoing <= current.outgoing
}

/// What each counter gained from `previous` to `current`.
pub open spec fn tps_delta(previous: TransactionCounts, current: TransactionCounts) -> TpsMetricsUpdated {
    TpsMetricsUpdated {
        incoming: (current.incoming - previous.incoming) as u64,
        new: (current.new - previous.new) as u64,
        known: (current.known - previous.known) as u64,
        stale: (current.stale - previous.stale) as u64,
        invalid: (current.invalid - previous.invalid) as u64,
        outgoing: (current.outgoing - previous.outgoing) as u64,
    }
}

/// Turns the transaction counters, read once per tick, into counts per tick.
pub struct TpsWorker {
    incoming: u64,
    new: u64,
    known: u64,
    stale: u64,
    invalid: u64,
    outgoing: u64,
}

impl View for TpsWorker {
    type V = TransactionCounts;

    /// The counters read at the last tick.
    closed spec fn view(&self) -> TransactionCounts {
        TransactionCounts {
            incoming: self.incoming,
            new: self.new,
            known: self.known,
            stale: self.stale,
            invalid: self.invalid,
            outgoing: self.outgoing,
        }
    }
}

impl Default for TpsWorker {
    fn default() -> (r: Self)
        ensures
            r@ == (TransactionCounts {
                incoming: 0,
                new: 0,
                known: 0,
                stale: 0,
                invalid: 0,
                outgoing: 0,
            }),
    {
        TpsWorker { incoming: 0, new: 0, known: 0, stale: 0, invalid: 0, outgoing: 0 }
    }
}

impl TpsWorker {
    /// A worker that has seen every counter at zero.
    pub fn new() -> (r: Self)
        ensures
            r@ == (TransactionCounts {
                incoming: 0,
                new: 0,
                known: 0,
                stale: 0,
                invalid: 0,
                outgoing: 0,
            }),
    {
        Self::default()
    }

    /// One tick: what each counter gained since the last tick; `current` is remembered for the
    /// next one. Counters only grow.
    pub fn tps(&mut self, current: TransactionCounts) -> (r: TpsMetricsUpdated)
        requires
            counts_grew(old(self)@, current),
        ensures
            r == tps_delta(old(self)@, current),
            final(self)@ == current,
    {
        let event = TpsMetricsUpdated {
            incoming: current.incoming - self.incoming,
            new: current.new - self.new,
            known: current.known - self.known,
            stale: current.stale - self.stale,
            invalid: current.invalid - self.invalid,
            outgoing: current.outgoing - self.outgoing,
        };
        self.incoming = current.incoming;
        self.new = current.new;
        self.known = current.known;
        self.stale = current.stale;
        self.invalid = current.invalid;
        self.outgoing = current.outgoing;
        event
    }
}

/// A tick on unchanged counters reports nothing.
pub proof fn lemma_no_change_no_tps(counts: TransactionCounts)
    ensures
        tps_delta(counts, counts) == (TpsMetricsUpdated {
            incoming: 0,
            new: 0,
            known: 0,
            stale: 0,
            invalid: 0,
            outgoing: 0,
        }),
{
}

/// What the counters gained over two ticks is what they gained over the first and the second.
pub proof fn lemma_tps_adds_up(a: TransactionCounts, b: TransactionCounts, c: TransactionCounts)
    requires
        counts_grew(a, b),
        counts_grew(b, c),
    ensures
        tps_delta(a, c).incoming == tps_delta(a, b).incoming + tps_delta(b, c).incoming,
        tps_delta(a, c).new == tps_delta(a, b).new + tps_delta(b, c).new,
        tps_delta(a, c).known == tps_delta(a, b).known + tps_delta(b, c).known,
        tps_delta(a, c).stale == tps_delta(a, b).stale + tps_delta(b, c).stale,
        tps_delta(a, c).invalid == tps_delta(a, b).invalid + tps_delta(b, c).invalid,
        tps_delta(a, c).outgoing == tps_delta(a, b).outgoing + tps_delta(b, c).outgoing,
{
}

/// Every counter at zero: what a new worker has seen.
pub open spec fn zero_counts() -> TransactionCounts {
    TransactionCounts { incoming: 0, new: 0, known: 0, stale: 0, invalid: 0, outgoing: 0 }
}

/// The counters, read tick after tick as `reads` after `start`, never went down.
pub open spec fn grows_through(start: TransactionCounts, reads: Seq<TransactionCounts>) -> bool
    decreases reads.len(),
{
    reads.len() == 0 || (counts_grew(start, reads[0]) && grows_through(reads[0], reads.skip(1)))
}

/// The events that a worker which last saw `start` dispatches when the counters are read as
/// `reads`, one tick each.
pub open spec fn tps_events(start: TransactionCounts, reads: Seq<TransactionCounts>) -> Seq<
    TpsMetricsUpdated,
>
    decreases reads.len(),
{
    if reads.len() == 0 {
        Seq::empty()
    } else {
        seq![tps_delta(start, reads[0])] + tps_events(reads[0], reads.skip(1))
    }
}

/// Sums of events, field by field.
pub struct TpsTotals {
    pub incoming: int,
    pub new: int,
    pub known: int,
    pub stale: int,
    pub invalid: int,
    pub outgoing: int,
}

/// The sum of `events`, field by field.
pub open spec fn tps_totals(events: Seq<TpsMetricsUpdated>) -> TpsTotals
    decreases events.len(),
{
    if events.len() == 0 {
        TpsTotals { incoming: 0, new: 0, known: 0, stale: 0, invalid: 0, outgoing: 0 }
    } else {
        let rest = tps_totals(events.skip(1));
        TpsTotals {
            incoming: events[0].incoming + rest.incoming,
            new: events[0].new + rest.new,
            known: events[0].known + rest.known,
            stale: events[0].stale + rest.stale,
            invalid: events[0].invalid + rest.invalid,
            outgoing: events[0].outgoing + rest.outgoing,
        }
    }
}

/// Over any number of ticks on counters that never go down, the events add up to what the
/// counters gained from the first reading to the last.
pub proof fn lemma_tps_sum_over_ticks(start: TransactionCounts, reads: Seq<TransactionCounts>)
    requires
        reads.len() >= 1,
        grows_through(start, reads),
    ensures
        tps_totals(tps_events(start, reads)) == (TpsTotals {
            incoming: reads.last().incoming - start.incoming,
            new: reads.last().new - start.new,
            known: reads.last().known - start.known,
            stale: reads.last().stale - start.stale,
            invalid: reads.last().invalid - start.invalid,
            outgoing: reads.last().outgoing - start.outgoing,
        }),
    decreases reads.len(),
{
    let events = tps_events(start, reads);
    let rest = reads.skip(1);
    assert(events.skip(1) =~= tps_events(reads[0], rest));
    assert(events[0] == tps_delta(start, reads[0]));
    assert(counts_grew(start, reads[0]));
    assert(events.len() >= 1);
    let tail_totals = tps_totals(events.skip(1));
    assert(tps_totals(events).incoming == events[0].incoming + tail_totals.incoming);
    if reads.len() > 1 {
        lemma_tps_sum_over_ticks(reads[0], rest);
        assert(rest.last() == reads.last());
    } else {
        assert(rest.len() == 0);
        assert(tps_events(reads[0], rest).len() == 0);
        assert(reads.last() == reads[0]);
    }
}

/// A new worker ticked on counters that never go down dispatches events that sum, field by
/// field, to the counters read at the last tick.
pub proof fn lemma_tps_from_new_sums_to_counters(reads: Seq<TransactionCounts>)
    requires
        reads.len() >= 1,
        grows_through(zero_counts(), reads),
    ensures
        tps_totals(tps_events(zero_counts(), reads)) == (TpsTotals {
            incoming: reads.last().incoming as int,
            new: reads.last().new as int,
            known: reads.last().known as int,
            stale: reads.last().stale as int,
            invalid: reads.last().invalid as int,
            outgoing: reads.last().outgoing as int,
        }),
{
    lemma_tps_sum_over_ticks(zero_counts(), reads);
}

} // verus!
