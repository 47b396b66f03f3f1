use vstd::prelude::*;

use crate::errors::RrcpError;

verus! {

/// The idle-count threshold below which a checkout asks for background
/// replenishment.
pub const LOW_WATER_MARK: usize = 5;

/// The mathematical model of a pool: the idle tokens, newest last, and the
/// next token that replenishment will hand out.
pub ghost struct PoolModel {
    pub idle: Seq<u64>,
    pub next: u64,
}

/// No token occurs twice.
pub open spec fn distinct_tokens(s: Seq<u64>) -> bool {
    forall|i: int, j: int| 0 <= i < j < s.len() ==> s[i] != s[j]
}

/// The idle side of the stream pool: which pre-opened streams are ready for
/// one-time use, each named by a token. Opening and carrying the streams
/// themselves is transport work and stays with the embedding application,
/// which keys them by these tokens; this core decides what every checkout
/// and refill may decide: which token leaves, when the pool is exhausted,
/// and when to replenish.
pub struct StreamPool {
    idle: Vec<u64>,
    next_id: u64,
}

impl View for StreamPool {
    type V = PoolModel;

    closed spec fn view(&self) -> PoolModel {
        PoolModel { idle: self.idle@, next: self.next_id }
    }
}

impl StreamPool {
    /// Well-formedness: no token is idle twice, and every idle token was
    /// handed out by the pool's counter. `new` establishes it and every
    /// operation preserves it.
    pub closed spec fn well_formed(self) -> bool {
        &&& distinct_tokens(self.idle@)
        &&& forall|i: int| 0 <= i < self.idle@.len() ==> self.idle@[i] < self.next_id
    }

    /// A pool of `pool_size` idle entries, holding the tokens
    /// `0 .. pool_size` in order: the idle count starts at exactly
    /// `pool_size`.
    pub fn new(pool_size: usize) -> (p: StreamPool)
        ensures
            p@.idle == Seq::new(pool_size as nat, |i: int| i as u64),
            p@.idle.len() == pool_size,
            p@.next == pool_size as u64,
            distinct_tokens(p@.idle),
            p.well_formed(),
    {
        let mut idle: Vec<u64> = Vec::with_capacity(pool_size);
        for i in 0..pool_size
            invariant
                idle@ =~= Seq::new(i as nat, |k: int| k as u64),
        {
            idle.push(i as u64);
        }
        proof {
            assert(idle@ =~= Seq::new(pool_size as nat, |i: int| i as u64));
        }
        StreamPool { idle, next_id: pool_size as u64 }
    }

    /// Removes and returns the most recently added idle token, or fails
    /// with `PoolExhausted` when none is idle, leaving the pool unchanged.
    /// It never blocks waiting for an entry, and a returned token is no
    /// longer in the pool, so no later checkout can return it again.
    pub fn get_bi_stream(&mut self) -> (r: Result<u64, RrcpError>)
        requires
            old(self).well_formed(),
        ensures
            final(self).well_formed(),
            old(self)@.idle.len() > 0 ==> r == Ok::<u64, RrcpError>(old(self)@.idle.last())
                && final(self)@.idle == old(self)@.idle.drop_last(),
            old(self)@.idle.len() == 0 ==> r == Err::<u64, RrcpError>(RrcpError::PoolExhausted)
                && final(self)@.idle == old(self)@.idle,
            final(self)@.next == old(self)@.next,
            r matches Ok(t) ==> !final(self)@.idle.contains(t),
            distinct_tokens(final(self)@.idle),
    {
        match self.idle.pop() {
            Some(t) => {
                proof {
                    assert forall|i: int| 0 <= i < self@.idle.len() implies self@.idle[i]
                        != t by {
                        assert(old(self)@.idle[i] != old(self)@.idle[old(self)@.idle.len() - 1]);
                    }
                }
                Ok(t)
            },
            Option::None => Err(RrcpError::PoolExhausted),
        }
    }

    /// Whether the idle count has dropped below the low-water mark, so that
    /// the caller should start a background refill.
    pub fn needs_refill(&self) -> (r: bool)
        ensures
            r == (self@.idle.len() < LOW_WATER_MARK),
    {
        self.idle.len() < LOW_WATER_MARK
    }

    /// Whether a refill token is still available.
    pub fn can_add(&self) -> (r: bool)
        ensures
            r == (self@.next < u64::MAX),
    {
        self.next_id < u64::MAX
    }

    /// Adds one freshly opened entry to the idle set and returns its token,
    /// which has never been in the pool before.
    pub fn add_stream(&mut self) -> (t: u64)
        requires
            old(self).well_formed(),
            old(self)@.next < u64::MAX,
        ensures
            final(self).well_formed(),
            t == old(self)@.next,
            final(self)@.idle == old(self)@.idle.push(t),
            final(self)@.next == old(self)@.next + 1,
            !old(self)@.idle.contains(t),
            distinct_tokens(final(self)@.idle),
    {
        let t = self.next_id;
        self.idle.push(t);
        self.next_id = self.next_id + 1;
        t
    }

    /// How many idle entries the pool holds right now.
    pub fn idle_count(&self) -> (n: usize)
        ensures
            n == self@.idle.len(),
    {
        self.idle.len()
    }
}

/// The idle tokens left after `k` checkouts with no replenishment in
/// between.
pub open spec fn spec_drain(s: Seq<u64>, k: int) -> Seq<u64>
    recommends
        0 <= k <= s.len(),
{
    s.take(s.len() - k)
}

/// Pool bound: starting from `new(pool_size)`, whose idle count is exactly
/// `pool_size`, each successful checkout turns the idle tokens from
/// `spec_drain(s, k)` into `spec_drain(s, k + 1)` (that is the checkout
/// contract's `drop_last`), so after `pool_size` sequential checkouts with
/// no replenishment the pool is empty and the next checkout reports
/// `PoolExhausted`.
pub proof fn lemma_pool_depletion(s: Seq<u64>, k: int)
    requires
        0 <= k <= s.len(),
    ensures
        spec_drain(s, 0) == s,
        spec_drain(s, k).len() == s.len() - k,
        k < s.len() ==> spec_drain(s, k + 1) == spec_drain(s, k).drop_last(),
        k == s.len() ==> spec_drain(s, k) == Seq::<u64>::empty(),
{
    assert(spec_drain(s, 0) =~= s);
    if k < s.len() {
        assert(spec_drain(s, k + 1) =~= spec_drain(s, k).drop_last());
    }
    if k == s.len() {
        assert(spec_drain(s, k) =~= Seq::<u64>::empty());
    }
}

/// Concurrency safety: checkouts hold the pool's lock one at a time, so the
/// `i`-th of a burst of checkouts on idle tokens `s` receives
/// `s[s.len() - 1 - i]`; for any two of them the tokens differ, so no two
/// callers ever receive the same entry.
pub proof fn lemma_concurrent_checkouts_distinct(s: Seq<u64>, i: int, j: int)
    requires
        distinct_tokens(s),
        0 <= i < j < s.len(),
    ensures
        s[s.len() - 1 - i] != s[s.len() - 1 - j],
{
}

} // verus!
