//! Increasing 64-bit identifiers, handed out from a counter shared by a generator and its clones.
//!
//! The counter starts at `1`, or at a seed given to [`SequenceGenerator::new`]. Each call of
//! `next_id` returns the counter's value and advances it by one under a lock, so that no two
//! calls, from any thread, receive the same value. Identifiers are never negative, so `-1`
//! serves as the reserved value.
use crate::{Generator, GeneratorFromSeed, GeneratorFromStr, GeneratorWithInvalid};
use std::sync::Arc;
use vstd::prelude::*;
use vstd::rwlock::{RwLock, RwLockPredicate};
use vstd::std_specs::iter::IteratorSpec;

verus! {

/// The value a counter holds after it has handed out `v`. The counter stops at `i64::MAX`
/// rather than wrap round to negative values.
pub open spec fn successor(v: i64) -> i64 {
    if v < i64::MAX {
        (v + 1) as i64
    } else {
        v
    }
}

/// The first `n` identifiers that a counter holding `start` hands out, in order.
pub open spec fn issued_from(start: i64, n: nat) -> Seq<i64>
    decreases n,
{
    if n == 0 {
        Seq::empty()
    } else {
        seq![start] + issued_from(successor(start), (n - 1) as nat)
    }
}

/// As long as it does not pass `i64::MAX`, a counter holding `start` hands out consecutive
/// values: the `i`-th is `start + i`.
pub proof fn lemma_issued_consecutive(start: i64, n: nat)
    requires
        start + n <= i64::MAX + 1,
    ensures
        issued_from(start, n).len() == n,
        forall|i: int| 0 <= i < n ==> #[trigger] issued_from(start, n)[i] == start + i,
    decreases n,
{
    if n > 0 {
        let rest = issued_from(successor(start), (n - 1) as nat);
        if n > 1 {
            lemma_issued_consecutive(successor(start), (n - 1) as nat);
        }
        assert forall|i: int| 0 <= i < n implies #[trigger] issued_from(start, n)[i] == start + i by {
            if i > 0 {
                assert(issued_from(start, n)[i] == rest[i - 1]);
            }
        }
    }
}

/// The values that a counter hands out, from any non-negative start and as long as it does
/// not pass `i64::MAX`, are strictly increasing, hence pairwise distinct: `n` calls give `n`
/// different identifiers.
pub proof fn lemma_issued_strictly_increasing(start: i64, n: nat)
    requires
        start >= 0,
        start + n <= i64::MAX + 1,
    ensures
        forall|i: int, j: int|
            0 <= i < j < n ==> #[trigger] issued_from(start, n)[i] < #[trigger] issued_from(
                start,
                n,
            )[j],
        issued_from(start, n).no_duplicates(),
        issued_from(start, n).to_set().len() == n,
{
    lemma_issued_consecutive(start, n);
    issued_from(start, n).unique_seq_to_set();
}

/// A counter started at `seed` hands out `seed` first and `seed + 1` second.
pub proof fn lemma_seed_determinism(seed: i64)
    requires
        0 <= seed < i64::MAX,
    ensures
        issued_from(seed, 2) == seq![seed, (seed + 1) as i64],
{
    lemma_issued_consecutive(seed, 2);
    assert(issued_from(seed, 2) =~= seq![seed, (seed + 1) as i64]);
}

/// Is `c` a decimal digit?
pub open spec fn is_decimal_digit(c: char) -> bool {
    '0' <= c && c <= '9'
}

/// The state of a sequence: the next identifier to hand out.
#[derive(Clone, Copy, Debug)]
pub struct Counter {
    next: i64,
}

impl Counter {
    /// The next identifier that this counter hands out.
    pub closed spec fn peek(self) -> i64 {
        self.next
    }

    /// A counter never holds a negative value.
    pub open spec fn wf(self) -> bool {
        self.peek() >= 0
    }

    /// A counter whose first identifier is `seed`.
    pub fn starting_at(seed: i64) -> (c: Counter)
        requires
            seed >= 0,
        ensures
            c.peek() == seed,
            c.wf(),
    {
        Counter { next: seed }
    }

    /// The next identifier that this counter hands out.
    pub fn next_value(&self) -> (v: i64)
        ensures
            v == self.peek(),
    {
        self.next
    }

    /// Hands out the counter's value and advances it.
    pub fn issue(&mut self) -> (id: i64)
        ensures
            id == old(self).peek(),
            final(self).peek() == successor(old(self).peek()),
            old(self).wf() ==> final(self).wf(),
    {
        let id = self.next;
        if self.next < i64::MAX {
            self.next = self.next + 1;
        }
        id
    }
}

/// The invariant of the shared counter: it is well formed.
pub struct CounterWellFormed;

impl RwLockPredicate<Counter> for CounterWellFormed {
    open spec fn inv(self, c: Counter) -> bool {
        c.wf()
    }
}

/// Generates increasing `i64` values from a counter shared with its clones. The reserved value
/// is `-1`: no negative value is handed out.
#[derive(Clone)]
pub struct SequenceGenerator {
    counter: Arc<RwLock<Counter, CounterWellFormed>>,
}

impl SequenceGenerator {
    fn from_counter(c: Counter) -> (g: SequenceGenerator)
        requires
            c.wf(),
    {
        SequenceGenerator { counter: Arc::new(RwLock::new(c, Ghost(CounterWellFormed))) }
    }

    /// Sets the counter shared by this generator and its clones to `seed`, so that the next
    /// identifier any of them hands out is `seed`. A call racing with `next_id` on another
    /// thread may come before or after it.
    pub fn reseed(&self, seed: i64)
        requires
            seed >= 0,
    {
        let (_, handle) = self.counter.acquire_write();
        handle.release_write(Counter::starting_at(seed));
    }
}

impl Default for SequenceGenerator {
    /// A generator whose first identifier is `1`.
    fn default() -> (g: Self) {
        SequenceGenerator::from_counter(Counter::starting_at(1))
    }
}

impl Generator<i64> for SequenceGenerator {
    open spec fn issuable(id: i64) -> bool {
        id >= 0
    }

    fn next_id(&self) -> (id: i64) {
        let (mut c, handle) = self.counter.acquire_write();
        let id = c.issue();
        handle.release_write(c);
        id
    }
}

impl GeneratorWithInvalid<i64> for SequenceGenerator {
    open spec fn is_reserved(id: i64) -> bool {
        id == -1
    }

    proof fn lemma_reserved_not_issuable(id: i64) {
    }

    fn invalid_id() -> (id: i64) {
        -1
    }
}

impl GeneratorFromStr<i64> for SequenceGenerator {
    open spec fn valid_text(s: Seq<char>) -> bool {
        forall|i: int| 0 <= i < s.len() ==> is_decimal_digit(#[trigger] s[i])
    }

    fn is_valid_value(s: &str) -> (r: bool) {
        let mut chars = s.chars();
        let ghost mut seen: int = 0;
        loop
            invariant
                0 <= seen <= s@.len(),
                chars.remaining() == s@.skip(seen),
                forall|i: int| 0 <= i < seen ==> is_decimal_digit(#[trigger] s@[i]),
            decreases s@.len() - seen,
        {
            match chars.next() {
                Some(c) => {
                    if !('0' <= c && c <= '9') {
                        assert(s@[seen] == c);
                        return false;
                    }
                    proof {
                        seen = seen + 1;
                    }
                },
                None => {
                    return true;
                },
            }
        }
    }
}

impl GeneratorFromSeed<i64> for SequenceGenerator {
    open spec fn seed_allowed(seed: i64) -> bool {
        seed >= 0
    }

    /// A generator whose first identifier is `seed`.
    fn new(seed: i64) -> (g: Self) {
        SequenceGenerator::from_counter(Counter::starting_at(seed))
    }
}

} // verus!
