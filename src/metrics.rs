use vstd::prelude::*;

verus! {

/// What one echo exchange came to: a reply after `nanos` nanoseconds, or a
/// failure (timeout, unreachable host, protocol error).
#[derive(Clone, Copy, Debug)]
pub enum Outcome {
    Success { nanos: u64 },
    Failure,
}

/// Counters kept for one probed key.
#[derive(Clone, Copy, Debug)]
pub struct Metrics {
    pub total_pings: u64,
    pub successful_pings: u64,
    /// Sum of the round-trip times of the successful exchanges, in nanoseconds.
    pub success_nanos: u64,
}

impl Metrics {
    pub open spec fn zero() -> Metrics {
        Metrics { total_pings: 0, successful_pings: 0, success_nanos: 0 }
    }

    /// Never more successes than attempts.
    pub open spec fn well_formed(self) -> bool {
        self.successful_pings <= self.total_pings
    }

    /// The counters after one more outcome.
    pub open spec fn recorded(self, o: Outcome) -> Metrics {
        match o {
            Outcome::Success { nanos } => Metrics {
                total_pings: (self.total_pings + 1) as u64,
                successful_pings: (self.successful_pings + 1) as u64,
                success_nanos: (self.success_nanos + nanos) as u64,
            },
            Outcome::Failure => Metrics {
                total_pings: (self.total_pings + 1) as u64,
                successful_pings: self.successful_pings,
                success_nanos: self.success_nanos,
            },
        }
    }

    /// One more outcome fits in the counters.
    pub open spec fn can_record(self, o: Outcome) -> bool {
        &&& self.total_pings < u64::MAX
        &&& self.successful_pings < u64::MAX
        &&& match o {
            Outcome::Success { nanos } => self.success_nanos + nanos <= u64::MAX,
            Outcome::Failure => true,
        }
    }

    /// Field-wise sum of two sets of counters.
    pub open spec fn combined(self, rhs: Metrics) -> Metrics {
        Metrics {
            total_pings: (self.total_pings + rhs.total_pings) as u64,
            successful_pings: (self.successful_pings + rhs.successful_pings) as u64,
            success_nanos: (self.success_nanos + rhs.success_nanos) as u64,
        }
    }

    pub open spec fn can_combine(self, rhs: Metrics) -> bool {
        &&& self.total_pings + rhs.total_pings <= u64::MAX
        &&& self.successful_pings + rhs.successful_pings <= u64::MAX
        &&& self.success_nanos + rhs.success_nanos <= u64::MAX
    }

    /// Counters with nothing recorded.
    pub fn new() -> (r: Metrics)
        ensures
            r == Metrics::zero(),
    {
        Metrics { total_pings: 0, successful_pings: 0, success_nanos: 0 }
    }

    /// The counters of a single exchange.
    pub fn from_outcome(o: Outcome) -> (r: Metrics)
        ensures
            r == Metrics::zero().recorded(o),
    {
        match o {
            Outcome::Success { nanos } => Metrics {
                total_pings: 1,
                successful_pings: 1,
                success_nanos: nanos,
            },
            Outcome::Failure => Metrics { total_pings: 1, successful_pings: 0, success_nanos: 0 },
        }
    }

    /// Whether one more outcome fits in the counters.
    pub fn has_room(&self, o: Outcome) -> (r: bool)
        ensures
            r == self.can_record(o),
    {
        self.total_pings < u64::MAX && self.successful_pings < u64::MAX && match o {
            Outcome::Success { nanos } => self.success_nanos <= u64::MAX - nanos,
            Outcome::Failure => true,
        }
    }

    /// Adds one outcome: one more attempt, and on success one more success and
    /// its round-trip time.
    pub fn record(&mut self, o: Outcome)
        requires
            old(self).can_record(o),
        ensures
            *final(self) == old(self).recorded(o),
    {
        self.total_pings = self.total_pings + 1;
        match o {
            Outcome::Success { nanos } => {
                self.successful_pings = self.successful_pings + 1;
                self.success_nanos = self.success_nanos + nanos;
            },
            Outcome::Failure => {},
        }
    }

    /// Adds another set of counters to these, field by field.
    pub fn merge(&mut self, rhs: Metrics)
        requires
            old(self).can_combine(rhs),
        ensures
            *final(self) == old(self).combined(rhs),
    {
        self.total_pings = self.total_pings + rhs.total_pings;
        self.successful_pings = self.successful_pings + rhs.successful_pings;
        self.success_nanos = self.success_nanos + rhs.success_nanos;
    }
}

/// The counters after a run of outcomes, applied in order.
pub open spec fn replay(m: Metrics, s: Seq<Outcome>) -> Metrics
    decreases s.len(),
{
    if s.len() == 0 {
        m
    } else {
        replay(m, s.drop_last()).recorded(s.last())
    }
}

pub open spec fn count_success(s: Seq<Outcome>) -> nat
    decreases s.len(),
{
    if s.len() == 0 {
        0
    } else {
        count_success(s.drop_last()) + if s.last() is Success { 1nat } else { 0nat }
    }
}

pub open spec fn sum_nanos(s: Seq<Outcome>) -> nat
    decreases s.len(),
{
    if s.len() == 0 {
        0
    } else {
        sum_nanos(s.drop_last()) + match s.last() {
            Outcome::Success { nanos } => nanos as nat,
            Outcome::Failure => 0nat,
        }
    }
}

/// Recording an outcome into consistent counters keeps them consistent.
pub proof fn lemma_record_well_formed(m: Metrics, o: Outcome)
    requires
        m.well_formed(),
        m.can_record(o),
    ensures
        m.recorded(o).well_formed(),
{
}

/// Whatever run of outcomes a key has seen, the counters hold the number of
/// attempts, the number of successes and the summed round-trip time, and so
/// never more successes than attempts.
pub proof fn lemma_replay_counts(s: Seq<Outcome>)
    requires
        s.len() <= u64::MAX,
        sum_nanos(s) <= u64::MAX,
    ensures
        replay(Metrics::zero(), s).total_pings == s.len(),
        replay(Metrics::zero(), s).successful_pings == count_success(s),
        replay(Metrics::zero(), s).success_nanos == sum_nanos(s),
        count_success(s) <= s.len(),
        replay(Metrics::zero(), s).well_formed(),
    decreases s.len(),
{
    if s.len() > 0 {
        lemma_replay_counts(s.drop_last());
    }
}

/// However the calls of several concurrent recorders interleave, k recorders
/// of m outcomes each leave exactly k * m attempts behind: every interleaving
/// is one run of k * m outcomes.
pub proof fn lemma_interleaved_total(s: Seq<Outcome>, k: nat, m: nat)
    requires
        s.len() == k * m,
        s.len() <= u64::MAX,
        sum_nanos(s) <= u64::MAX,
    ensures
        replay(Metrics::zero(), s).total_pings == k * m,
{
    lemma_replay_counts(s);
}

proof fn lemma_counts_concat(s: Seq<Outcome>, t: Seq<Outcome>)
    ensures
        count_success(s + t) == count_success(s) + count_success(t),
        sum_nanos(s + t) == sum_nanos(s) + sum_nanos(t),
    decreases t.len(),
{
    if t.len() == 0 {
        assert(s + t == s);
    } else {
        assert((s + t).drop_last() == s + t.drop_last());
        lemma_counts_concat(s, t.drop_last());
    }
}

/// Counters do not depend on the order in which two batches of outcomes
/// arrive: recording one caller's outcomes before another's, or after, gives
/// the same counters.
pub proof fn lemma_batches_commute(s: Seq<Outcome>, t: Seq<Outcome>)
    requires
        s.len() + t.len() <= u64::MAX,
        sum_nanos(s) + sum_nanos(t) <= u64::MAX,
    ensures
        replay(Metrics::zero(), s + t) == replay(Metrics::zero(), t + s),
{
    lemma_counts_concat(s, t);
    lemma_counts_concat(t, s);
    lemma_replay_counts(s + t);
    lemma_replay_counts(t + s);
}

/// The summed round-trip time never decreases, and it grows only on an
/// outcome that also adds a success.
pub proof fn lemma_duration_monotone(m: Metrics, o: Outcome)
    requires
        m.can_record(o),
    ensures
        m.recorded(o).success_nanos >= m.success_nanos,
        m.recorded(o).success_nanos > m.success_nanos ==> m.recorded(o).successful_pings
            == m.successful_pings + 1,
        m.recorded(o).successful_pings == m.successful_pings ==> m.recorded(o).success_nanos
            == m.success_nanos,
{
}

/// A failed exchange (a timeout among them) adds one attempt and nothing else.
pub proof fn lemma_failure_counts_attempt(m: Metrics)
    requires
        m.can_record(Outcome::Failure),
    ensures
        m.recorded(Outcome::Failure).total_pings == m.total_pings + 1,
        m.recorded(Outcome::Failure).successful_pings == m.successful_pings,
        m.recorded(Outcome::Failure).success_nanos == m.success_nanos,
{
}

/// Adding the counters of a single exchange is the same as recording its
/// outcome, and the order in which two sets of counters are added does not
/// matter, so exchanges that complete out of order give the same counters.
pub proof fn lemma_merge_is_record(m: Metrics, o: Outcome, rhs: Metrics)
    requires
        m.can_record(o),
        m.can_combine(rhs),
    ensures
        m.combined(Metrics::zero().recorded(o)) == m.recorded(o),
        m.combined(rhs) == rhs.combined(m),
{
}

} // verus!
