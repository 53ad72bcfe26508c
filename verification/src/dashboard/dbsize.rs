use vstd::prelude::*;

verus! {

/// Database sizes and the moment they were taken, or the change of each since the last time.
#[derive(Clone, Copy, Debug, PartialEq, Eq, Structural)]
pub struct DBSizes {
    pub tangle: u64,
    pub snapshot: u64,
    pub spent: u64,
    pub timestamp_in_millis: i64,
}

/// The database size metric sent to the dashboard: fixed sizes, and the time in seconds.
#[derive(Clone, Copy, Debug, PartialEq, Eq, Structural)]
pub struct DBSizeMetric {
    pub tangle: u64,
    pub snapshot: u64,
    pub spent: u64,
    pub ts: i64,
}

/// Milliseconds to whole seconds, rounded toward zero as Rust's `/` does.
pub open spec fn millis_to_seconds(millis: i64) -> i64 {
    if millis >= 0 {
        (millis / 1000) as i64
    } else {
        -((-millis) / 1000) as i64
    }
}

/// The seconds are the whole seconds in the milliseconds, rounded toward zero: for a time at or
/// after the epoch, `ts * 1000 <= millis < (ts + 1) * 1000`; before it,
/// `(ts - 1) * 1000 < millis <= ts * 1000`.
pub proof fn lemma_seconds_of_millis(millis: i64)
    ensures
        millis >= 0 ==> millis_to_seconds(millis) * 1000 <= millis < (millis_to_seconds(millis) + 1)
            * 1000,
        millis < 0 ==> (millis_to_seconds(millis) - 1) * 1000 < millis <= millis_to_seconds(millis)
            * 1000,
{
    let m = millis as int;
    if m >= 0 {
        assert((m / 1000) * 1000 <= m < (m / 1000 + 1) * 1000) by (nonlinear_arith)
            requires
                m >= 0,
        ;
    } else {
        let n = -m;
        assert((n / 1000) * 1000 <= n < (n / 1000 + 1) * 1000) by (nonlinear_arith)
            requires
                n > 0,
        ;
    }
}

/// The database size metric at `now_millis`: sizes 100000000, 200000000 and 300000000, and the
/// time in seconds.
pub fn db_size_metric(now_millis: i64) -> (r: DBSizeMetric)
    ensures
        r == (DBSizeMetric {
            tangle: 100000000,
            snapshot: 200000000,
            spent: 300000000,
            ts: millis_to_seconds(now_millis),
        }),
        now_millis >= 0 ==> r.ts * 1000 <= now_millis < (r.ts + 1) * 1000,
        now_millis < 0 ==> (r.ts - 1) * 1000 < now_millis <= r.ts * 1000,
{
    proof {
        lemma_seconds_of_millis(now_millis);
    }
    DBSizeMetric { tangle: 100000000, snapshot: 200000000, spent: 300000000, ts: now_millis / 1000 }
}

/// Follows the sizes of the databases. No size is measured yet: each reads zero.
pub struct DBSizeWorker {
    tangle: u64,
    snapshot: u64,
    spent: u64,
    timestamp_in_millis: i64,
}

impl View for DBSizeWorker {
    type V = DBSizes;

    /// The sizes and the moment of the last reading.
    closed spec fn view(&self) -> DBSizes {
        DBSizes {
            tangle: self.tangle,
            snapshot: self.snapshot,
            spent: self.spent,
            timestamp_in_millis: self.timestamp_in_millis,
        }
    }
}

impl DBSizeWorker {
    #[verifier::type_invariant]
    spec fn sizes_unmeasured(self) -> bool {
        self.tangle == 0 && self.snapshot == 0 && self.spent == 0
    }

    /// A worker whose last reading is all zero, at time zero.
    pub fn new() -> (r: Self)
        ensures
            r@ == (DBSizes { tangle: 0, snapshot: 0, spent: 0, timestamp_in_millis: 0 }),
    {
        Self { tangle: 0, snapshot: 0, spent: 0, timestamp_in_millis: 0 }
    }

    /// The moment of the last reading, in milliseconds.
    pub fn timestamp_in_millis(&self) -> (r: i64)
        ensures
            r == self@.timestamp_in_millis,
    {
        self.timestamp_in_millis
    }

    /// Takes a reading at `timestamp_in_millis` and returns what changed since the last one:
    /// the sizes, which read zero, and the time elapsed.
    pub fn dbsize(&mut self, timestamp_in_millis: i64) -> (r: DBSizes)
        requires
            i64::MIN <= timestamp_in_millis - old(self)@.timestamp_in_millis <= i64::MAX,
        ensures
            r == (DBSizes {
                tangle: 0,
                snapshot: 0,
                spent: 0,
                timestamp_in_millis: (timestamp_in_millis - old(self)@.timestamp_in_millis) as i64,
            }),
            final(self)@ == (DBSizes {
                tangle: 0,
                snapshot: 0,
                spent: 0,
                timestamp_in_millis: timestamp_in_millis,
            }),
    {
        proof {
            use_type_invariant(&*self);
        }
        let tangle: u64 = 0;
        let snapshot: u64 = 0;
        let spent: u64 = 0;
        let change = DBSizes {
            tangle: tangle - self.tangle,
            snapshot: snapshot - self.snapshot,
            spent: spent - self.spent,
            timestamp_in_millis: timestamp_in_millis - self.timestamp_in_millis,
        };
        self.tangle = tangle;
        self.snapshot = snapshot;
        self.spent = spent;
        self.timestamp_in_millis = timestamp_in_millis;
        change
    }
}

} // verus!
