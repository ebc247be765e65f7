//! The reconnect schedule: after each ended connection attempt the exporter
//! waits.  The first wait, and the first wait after a successful connection,
//! is the initial wait; every later wait is twice the one before.  No wait is
//! ever longer than the maximum retry delay.

use vstd::prelude::*;

verus! {

/// `d` capped at `max`.
pub open spec fn capped(d: int, max: int) -> int {
    if d <= max {
        d
    } else {
        max
    }
}

/// The wait that follows a wait of `d`: twice as long, capped at `max`.
pub open spec fn next_delay(d: int, max: int) -> int {
    capped(2 * d, max)
}

/// The `k`-th wait since the start or the last successful connection,
/// counting from 0.
pub open spec fn delay_after(initial: int, max: int, k: nat) -> int
    decreases k,
{
    if k == 0 {
        capped(initial, max)
    } else {
        next_delay(delay_after(initial, max, (k - 1) as nat), max)
    }
}

/// The waits that follow a run of attempts, `outcomes[k]` telling whether
/// attempt `k` had connected: the first wait and each wait after a
/// connection is the capped initial wait, every other wait is the capped
/// double of the wait before it.
pub open spec fn sleeps(initial: int, max: int, outcomes: Seq<bool>) -> Seq<int>
    decreases outcomes.len(),
{
    if outcomes.len() == 0 {
        Seq::empty()
    } else {
        let before = sleeps(initial, max, outcomes.drop_last());
        let wait = if outcomes.last() || before.len() == 0 {
            capped(initial, max)
        } else {
            next_delay(before.last(), max)
        };
        before.push(wait)
    }
}

/// `n` doubled `k` times, that is `n * 2^k`.
pub open spec fn doubled(n: int, k: nat) -> int
    decreases k,
{
    if k == 0 {
        n
    } else {
        2 * doubled(n, (k - 1) as nat)
    }
}

/// The reconnect schedule of the exporter.
pub struct Backoff {
    initial: u64,
    max: u64,
    current: u64,
    waits: Ghost<nat>,
    outcomes: Ghost<Seq<bool>>,
}

impl Backoff {
    /// The initial wait.
    pub closed spec fn initial_delay(&self) -> int {
        self.initial as int
    }

    /// The maximum wait.
    pub closed spec fn max_delay(&self) -> int {
        self.max as int
    }

    /// How many waits have been taken since the start or the last successful connection.
    pub closed spec fn waits(&self) -> nat {
        self.waits@
    }

    /// Whether each attempt so far had connected, oldest first.
    pub closed spec fn outcomes(&self) -> Seq<bool> {
        self.outcomes@
    }

    /// The wait that the next attempt is followed by if it fails.
    pub closed spec fn pending(&self) -> int {
        self.current as int
    }

    #[verifier::type_invariant]
    closed spec fn schedule_kept(&self) -> bool {
        &&& self.current == delay_after(self.initial as int, self.max as int, self.waits@)
        &&& self.current <= self.max
        &&& sleeps(self.initial as int, self.max as int, self.outcomes@).len() == self.outcomes@.len()
        &&& self.current == if self.outcomes@.len() == 0 {
            capped(self.initial as int, self.max as int)
        } else {
            next_delay(sleeps(self.initial as int, self.max as int, self.outcomes@).last(), self.max as int)
        }
    }

    /// A schedule that starts from `initial` and never waits longer than `max`.
    pub fn new(initial: u64, max: u64) -> (b: Backoff)
        ensures
            b.initial_delay() == initial,
            b.max_delay() == max,
            b.waits() == 0,
            b.outcomes() == Seq::<bool>::empty(),
            b.pending() == capped(initial as int, max as int),
            b.pending() <= b.max_delay(),
    {
        let current = if initial <= max { initial } else { max };
        Backoff { initial, max, current, waits: Ghost(0), outcomes: Ghost(Seq::empty()) }
    }

    /// The wait that the next attempt is followed by if it fails.
    pub fn pending_delay(&self) -> (d: u64)
        ensures
            d == self.pending(),
            d <= self.max_delay(),
    {
        proof { use_type_invariant(self); }
        self.current
    }

    /// Decides the wait after an attempt has ended, `connected` telling
    /// whether it had connected.  A connection starts the schedule over from
    /// the capped initial wait; otherwise the pending wait is taken.  The wait
    /// after it is twice as long, capped at the maximum.
    pub fn next_wait(&mut self, connected: bool) -> (wait: u64)
        ensures
            final(self).initial_delay() == old(self).initial_delay(),
            final(self).max_delay() == old(self).max_delay(),
            wait <= old(self).max_delay(),
            wait == (if connected {
                capped(old(self).initial_delay(), old(self).max_delay())
            } else {
                old(self).pending()
            }),
            final(self).pending() == next_delay(wait as int, old(self).max_delay()),
            final(self).pending() <= final(self).max_delay(),
            final(self).waits() == (if connected { 1 } else { old(self).waits() + 1 }),
            wait == delay_after(old(self).initial_delay(), old(self).max_delay(), (final(self).waits() - 1) as nat),
            final(self).outcomes() == old(self).outcomes().push(connected),
            sleeps(old(self).initial_delay(), old(self).max_delay(), final(self).outcomes()).len()
                == final(self).outcomes().len(),
            wait == sleeps(old(self).initial_delay(), old(self).max_delay(), final(self).outcomes()).last(),
    {
        proof { use_type_invariant(&*self); }
        let initial = self.initial;
        let max = self.max;
        let start_over = if initial <= max { initial } else { max };
        let wait = if connected { start_over } else { self.current };
        let next = if wait > max / 2 { max } else { wait * 2 };
        let ghost w: nat = if connected { 0 } else { self.waits@ };
        let ghost before = self.outcomes@;
        let ghost after = before.push(connected);
        proof {
            assert(wait == delay_after(initial as int, max as int, w));
            assert(delay_after(initial as int, max as int, w + 1)
                == next_delay(delay_after(initial as int, max as int, w), max as int));
            assert(after.drop_last() =~= before);
            assert(next == next_delay(wait as int, max as int));
        }
        *self = Backoff { initial, max, current: next, waits: Ghost(w + 1), outcomes: Ghost(after) };
        wait
    }
}

/// Every wait of the schedule lies between 0 and the maximum, whatever the
/// outcomes of the attempts.
pub proof fn lemma_sleeps_bounded(initial: int, max: int, outcomes: Seq<bool>)
    requires
        initial >= 0,
        max >= 0,
    ensures
        sleeps(initial, max, outcomes).len() == outcomes.len(),
        forall|k: int| 0 <= k < outcomes.len() ==>
            0 <= #[trigger] sleeps(initial, max, outcomes)[k] <= max,
    decreases outcomes.len(),
{
    if outcomes.len() > 0 {
        lemma_sleeps_bounded(initial, max, outcomes.drop_last());
    }
}

/// The `k`-th wait since the start or a connection is the capped initial
/// wait doubled `k` times, capped at the maximum.
pub proof fn lemma_delay_closed_form(initial: int, max: int, k: nat)
    requires
        initial >= 0,
        max >= 0,
    ensures
        delay_after(initial, max, k) == capped(doubled(capped(initial, max), k), max),
    decreases k,
{
    if k > 0 {
        let prev = (k - 1) as nat;
        lemma_delay_closed_form(initial, max, prev);
        lemma_doubled_monotone(capped(initial, max), prev);
        assert(doubled(capped(initial, max), k) == 2 * doubled(capped(initial, max), prev));
    }
}

proof fn lemma_doubled_monotone(n: int, k: nat)
    requires
        n >= 0,
    ensures
        doubled(n, k) >= n,
    decreases k,
{
    if k > 0 {
        lemma_doubled_monotone(n, (k - 1) as nat);
    }
}

/// No wait is longer than the maximum.
pub proof fn lemma_delay_bounded(initial: int, max: int, k: nat)
    requires
        initial >= 0,
        max >= 0,
    ensures
        0 <= delay_after(initial, max, k) <= max,
    decreases k,
{
    if k > 0 {
        lemma_delay_bounded(initial, max, (k - 1) as nat);
    }
}

/// While attempts keep failing, waits never get shorter.
pub proof fn lemma_delay_non_decreasing(initial: int, max: int, k: nat)
    requires
        initial >= 0,
        max >= 0,
    ensures
        delay_after(initial, max, k) <= delay_after(initial, max, k + 1),
{
    lemma_delay_bounded(initial, max, k);
    assert(delay_after(initial, max, k + 1) == next_delay(delay_after(initial, max, k), max));
}

} // verus!
