//! Counter-based deterministic entropy for use inside a workflow.
//!
//! Each draw mixes the seed with the number of draws made so far, so the
//! values depend only on the seed and the position in the sequence.

use vstd::prelude::*;

use crate::entropy::{since_epoch, unix_millis_of, wall_time_unix_millis, TimeSpan, WallTime};
use crate::text::{hex_fixed, push_hex};

verus! {

/// The multiplier of the final mixing step.
pub const MIX_MULTIPLIER: u64 = 0x2545F4914F6CDD1D;

/// The value drawn at position `counter` by a source seeded with `seed`.
pub open spec fn workflow_mix(seed: u64, counter: u64) -> u64 {
    let s0 = seed.wrapping_add(counter);
    let s1 = s0 ^ (s0 >> 12u64);
    let s2 = s1 ^ (s1 << 25u64);
    let s3 = s2 ^ (s2 >> 27u64);
    s3.wrapping_mul(MIX_MULTIPLIER)
}

/// The first `n` values drawn by a source seeded with `seed`.
pub open spec fn workflow_stream(seed: u64, n: nat) -> Seq<u64> {
    Seq::new(n, |i: int| workflow_mix(seed, i as u64))
}

/// The UUID text built from the draws `a` and `b`: 8-4-4-4-12 lowercase hex
/// groups, the third starting with the version digit `4` and the fourth
/// carrying the variant bits.
pub open spec fn workflow_uuid_text(a: u64, b: u64) -> Seq<char> {
    hex_fixed((a >> 32u64) as nat, 8) + seq!['-'] + hex_fixed(((a >> 16u64) & 0xffff) as nat, 4)
        + seq!['-', '4'] + hex_fixed(((a >> 4u64) & 0x0fff) as nat, 3) + seq!['-'] + hex_fixed(
        (((b >> 48u64) & 0x3fff) | 0x8000) as nat,
        4,
    ) + seq!['-'] + hex_fixed((b & 0xffff_ffff_ffff) as nat, 12)
}

/// Random source that derives every value from the workflow's seed and a
/// draw counter, so that a replay sees the same values.
#[derive(Debug)]
pub struct WorkflowRandomSource {
    seed: u64,
    counter: u64,
}

impl WorkflowRandomSource {
    /// The seed.
    pub closed spec fn seed_spec(&self) -> u64 {
        self.seed
    }

    /// The number of draws made so far (wrapping).
    pub closed spec fn counter_spec(&self) -> u64 {
        self.counter
    }

    /// Create a new workflow random source with the given seed.
    pub fn new(seed: u64) -> (r: Self)
        ensures
            r.seed_spec() == seed,
            r.counter_spec() == 0,
    {
        WorkflowRandomSource { seed, counter: 0 }
    }

    fn next_u64(&mut self) -> (r: u64)
        ensures
            r == workflow_mix(old(self).seed_spec(), old(self).counter_spec()),
            final(self).seed_spec() == old(self).seed_spec(),
            final(self).counter_spec() == old(self).counter_spec().wrapping_add(1),
    {
        let counter = self.counter;
        self.counter = counter.wrapping_add(1);
        let mut state = self.seed.wrapping_add(counter);
        state ^= state >> 12u64;
        state ^= state << 25u64;
        state ^= state >> 27u64;
        state.wrapping_mul(MIX_MULTIPLIER)
    }

    /// A UUID-shaped string built from the next two draws.
    pub fn uuid(&mut self) -> (r: String)
        ensures
            r@ == workflow_uuid_text(
                workflow_mix(old(self).seed_spec(), old(self).counter_spec()),
                workflow_mix(old(self).seed_spec(), old(self).counter_spec().wrapping_add(1)),
            ),
            final(self).seed_spec() == old(self).seed_spec(),
            final(self).counter_spec() == old(self).counter_spec().wrapping_add(1).wrapping_add(
                1,
            ),
    {
        let a = self.next_u64();
        let b = self.next_u64();
        proof {
            reveal_strlit("-");
            reveal_strlit("-4");
        }
        let mut s = String::new();
        push_hex(&mut s, a >> 32u64, 8);
        s.append("-");
        push_hex(&mut s, (a >> 16u64) & 0xffff, 4);
        s.append("-4");
        push_hex(&mut s, (a >> 4u64) & 0x0fff, 3);
        s.append("-");
        push_hex(&mut s, ((b >> 48u64) & 0x3fff) | 0x8000, 4);
        s.append("-");
        push_hex(&mut s, b & 0xffff_ffff_ffff, 12);
        assert(s@ =~= workflow_uuid_text(a, b));
        s
    }

    /// The next draw.
    pub fn u64(&mut self) -> (r: u64)
        ensures
            r == workflow_mix(old(self).seed_spec(), old(self).counter_spec()),
            final(self).seed_spec() == old(self).seed_spec(),
            final(self).counter_spec() == old(self).counter_spec().wrapping_add(1),
    {
        self.next_u64()
    }
}

/// Clock that reports the workflow's logical time rather than the OS clock.
#[derive(Debug)]
pub struct WorkflowClock {
    workflow_time: WallTime,
}

impl WorkflowClock {
    /// The configured workflow time.
    pub closed spec fn time_spec(&self) -> WallTime {
        self.workflow_time
    }

    /// Create a new workflow clock with the given time.
    pub fn new(workflow_time: WallTime) -> (r: Self)
        ensures
            r.time_spec() == workflow_time,
    {
        WorkflowClock { workflow_time }
    }

    /// The workflow's current time as elapsed time since the epoch (zero
    /// before it).
    pub fn now(&self) -> (r: TimeSpan)
        ensures
            r == since_epoch(self.time_spec()),
    {
        if self.workflow_time.secs < 0 {
            TimeSpan { secs: 0, nanos: 0 }
        } else {
            TimeSpan { secs: self.workflow_time.secs as u64, nanos: self.workflow_time.nanos }
        }
    }

    /// The workflow's current time.
    pub fn wall_time(&self) -> (r: WallTime)
        ensures
            r == self.time_spec(),
    {
        self.workflow_time
    }

    /// Milliseconds since the Unix epoch (zero before it).
    pub fn unix_millis(&self) -> (r: u64)
        ensures
            r == unix_millis_of(self.time_spec()),
    {
        wall_time_unix_millis(self.workflow_time)
    }
}

/// Replay safety: what a source yields depends on its seed and draw count
/// alone, so two sources built from one seed give the same values in the
/// same order, and a longer run extends a shorter one.
pub proof fn lemma_workflow_stream_prefix(seed: u64, m: nat, n: nat)
    requires
        m <= n,
    ensures
        workflow_stream(seed, n).len() == n,
        workflow_stream(seed, m) == workflow_stream(seed, n).subrange(0, m as int),
{
    assert(workflow_stream(seed, m) =~= workflow_stream(seed, n).subrange(0, m as int));
}

} // verus!
