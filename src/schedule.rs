use vstd::prelude::*;

verus! {

/// Interval between two probes of a target when none is configured: one
/// second, in nanoseconds.
pub const DEFAULT_INTERVAL_NANOS: u64 = 1_000_000_000;

/// Next sequence id of an echo exchange: ids wrap modulo 65536.
pub fn next_sequence(id: u16) -> (r: u16)
    ensures
        r == (id + 1) % 65536,
{
    if id == u16::MAX {
        0
    } else {
        id + 1
    }
}

/// The sequence id after `n` exchanges that started at `id`.
pub open spec fn sequence_after(id: u16, n: nat) -> u16
    decreases n,
{
    if n == 0 {
        id
    } else {
        ((sequence_after(id, (n - 1) as nat) + 1) % 65536) as u16
    }
}

/// Sequence ids count modulo 65536: after `n` exchanges the id is
/// `(id + n) % 65536`, so 65536 exchanges bring it back where it started and
/// an id of 65535 is followed by 0.
pub proof fn lemma_sequence_wraps(id: u16, n: nat)
    ensures
        sequence_after(id, n) == (id + n) % 65536,
        sequence_after(id, 65536) == id,
        sequence_after(0, 65536) == 0,
        sequence_after(65535, 1) == 0,
{
    lemma_sequence_count(id, n);
    lemma_sequence_count(id, 65536);
    lemma_sequence_count(0, 65536);
    lemma_sequence_count(65535, 1);
}

proof fn lemma_sequence_count(id: u16, n: nat)
    ensures
        sequence_after(id, n) == (id + n) % 65536,
    decreases n,
{
    if n > 0 {
        lemma_sequence_count(id, (n - 1) as nat);
        assert(((id + (n - 1)) % 65536 + 1) % 65536 == (id + n) % 65536) by (nonlinear_arith);
    }
}

/// What a tick does about the pinger of its exchange.
#[derive(Clone, Copy, Debug)]
pub enum Dispatch {
    /// The previous exchange handed its pinger back: use it again with the
    /// sequence id it returned.
    Reuse { seq: u16 },
    /// No pinger came back in time: make a new one with this identifier and
    /// start its sequence ids at 0.
    Fresh { ident: u16 },
}

/// The scheduling state of one target. Times are nanoseconds on the task's
/// own clock.
#[derive(Clone, Copy, Debug)]
pub struct ProbeState {
    /// When the task started.
    pub origin: u64,
    pub interval: u64,
    /// Ticks taken so far.
    pub ticks: u64,
    /// Deadline of the last tick taken: the task sleeps until then.
    pub deadline: u64,
    /// Identifier of the next new pinger.
    pub next_ident: u16,
}

impl ProbeState {
    /// Deadlines are fixed points of the schedule: the k-th lies k intervals
    /// after the start, whatever the exchanges took.
    pub open spec fn well_formed(self) -> bool {
        self.deadline == self.origin + self.ticks * self.interval
    }

    /// One tick: the next deadline, and what becomes of the pinger.
    pub open spec fn stepped(self, returned: Option<u16>) -> (ProbeState, Dispatch) {
        let next = ProbeState {
            ticks: (self.ticks + 1) as u64,
            deadline: (self.deadline + self.interval) as u64,
            ..self
        };
        match returned {
            Some(seq) => (next, Dispatch::Reuse { seq }),
            None => (
                ProbeState { next_ident: ((self.next_ident + 1) % 65536) as u16, ..next },
                Dispatch::Fresh { ident: self.next_ident },
            ),
        }
    }

    pub open spec fn can_tick(self) -> bool {
        &&& self.deadline + self.interval <= u64::MAX
        &&& self.ticks < u64::MAX
    }

    /// A schedule that starts at `now`; with no interval given, one second.
    pub fn start(now: u64, interval: Option<u64>, first_ident: u16) -> (r: ProbeState)
        ensures
            r.well_formed(),
            r.origin == now,
            r.deadline == now,
            r.ticks == 0,
            r.next_ident == first_ident,
            r.interval == match interval {
                Some(i) => i,
                None => DEFAULT_INTERVAL_NANOS,
            },
    {
        let interval = match interval {
            Some(i) => i,
            None => DEFAULT_INTERVAL_NANOS,
        };
        ProbeState { origin: now, interval, ticks: 0, deadline: now, next_ident: first_ident }
    }

    /// Whether another tick fits the clock.
    pub fn has_next_tick(&self) -> (r: bool)
        ensures
            r == self.can_tick(),
    {
        self.ticks < u64::MAX && self.deadline <= u64::MAX - self.interval
    }

    /// Takes one tick. `returned` is what the pinger slot held: the sequence id
    /// that a finished exchange handed back with its pinger, or nothing when
    /// no exchange has finished since. The deadline moves one interval on,
    /// never measured from when an exchange ended.
    pub fn tick(&mut self, returned: Option<u16>) -> (d: Dispatch)
        requires
            old(self).well_formed(),
            old(self).can_tick(),
        ensures
            (*final(self), d) == old(self).stepped(returned),
            final(self).well_formed(),
    {
        proof {
            let t = self.ticks as int;
            let i = self.interval as int;
            assert((t + 1) * i == t * i + i) by (nonlinear_arith);
        }
        self.ticks = self.ticks + 1;
        self.deadline = self.deadline + self.interval;
        match returned {
            Some(seq) => Dispatch::Reuse { seq },
            None => {
                let ident = self.next_ident;
                self.next_ident = next_sequence(ident);
                Dispatch::Fresh { ident }
            },
        }
    }
}

/// The state after a run of ticks, each given what the pinger slot held.
pub open spec fn run(st: ProbeState, slots: Seq<Option<u16>>) -> ProbeState
    decreases slots.len(),
{
    if slots.len() == 0 {
        st
    } else {
        run(st, slots.drop_last()).stepped(slots.last()).0
    }
}

/// No drift: after any run of n ticks the deadline lies exactly n intervals
/// after the start, however long the exchanges took and whether or not their
/// pingers came back.
pub proof fn lemma_no_drift(st: ProbeState, slots: Seq<Option<u16>>)
    requires
        st.well_formed(),
        st.ticks == 0,
        st.origin + slots.len() * st.interval <= u64::MAX,
        slots.len() <= u64::MAX,
    ensures
        run(st, slots).deadline == st.origin + slots.len() * st.interval,
        run(st, slots).ticks == slots.len(),
        run(st, slots).interval == st.interval,
        run(st, slots).origin == st.origin,
    decreases slots.len(),
{
    if slots.len() > 0 {
        let n = slots.len() as int;
        let i = st.interval as int;
        assert((n - 1) * i <= n * i) by (nonlinear_arith)
            requires n >= 1, i >= 0;
        assert((n - 1) * i + i == n * i) by (nonlinear_arith);
        lemma_no_drift(st, slots.drop_last());
    }
}

} // verus!
