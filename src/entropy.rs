//! Deterministic entropy providers backed by the workflow context.
//!
//! A workflow body must not read the OS random pool or the wall clock:
//! these providers draw from the engine's per-workflow random seed and its
//! logical time instead, so that a replay observes the same values.

use vstd::prelude::*;

use crate::text::hex_char;

verus! {

// ---------------------------------------------------------------------------
// Time values
// ---------------------------------------------------------------------------

pub const NANOS_PER_SEC: u32 = 1_000_000_000;

pub const NANOS_PER_MILLI: u32 = 1_000_000;

/// A point in time, as whole seconds since the Unix epoch (negative before
/// it) and the nanoseconds into that second.
#[derive(Debug, Clone, Copy, PartialEq, Eq, Structural, PartialOrd, Ord, Hash)]
pub struct WallTime {
    pub secs: i64,
    pub nanos: u32,
}

/// A length of time, as whole seconds and the nanoseconds beyond them.
#[derive(Debug, Clone, Copy, PartialEq, Eq, Structural, PartialOrd, Ord, Hash)]
pub struct TimeSpan {
    pub secs: u64,
    pub nanos: u32,
}

impl WallTime {
    pub open spec fn wf(self) -> bool {
        self.nanos < NANOS_PER_SEC
    }

    /// The instant as a number of nanoseconds relative to the epoch.
    pub open spec fn total_nanos(self) -> int {
        self.secs * 1_000_000_000 + self.nanos
    }

    /// The Unix epoch itself.
    pub fn epoch() -> (r: WallTime)
        ensures
            r.wf(),
            r.total_nanos() == 0,
    {
        WallTime { secs: 0, nanos: 0 }
    }

    /// The instant `secs` whole seconds after the epoch.
    pub fn from_secs(secs: i64) -> (r: WallTime)
        ensures
            r.wf(),
            r.secs == secs,
            r.nanos == 0,
    {
        WallTime { secs, nanos: 0 }
    }
}

/// `t` moved `ms` milliseconds forward.
pub open spec fn add_millis(t: WallTime, ms: u64) -> WallTime {
    let n = t.nanos + (ms % 1000) * 1_000_000;
    WallTime {
        secs: (t.secs + ms / 1000 + n / 1_000_000_000) as i64,
        nanos: (n % 1_000_000_000) as u32,
    }
}

/// Whether `add_millis(t, ms)` stays inside the range of `WallTime`.
pub open spec fn can_add_millis(t: WallTime, ms: u64) -> bool {
    t.secs + ms / 1000 + 1 <= i64::MAX
}

/// Milliseconds since the epoch as a `u64` (the low 64 bits of the exact
/// count), or zero for an instant before the epoch.
pub open spec fn unix_millis_of(t: WallTime) -> u64 {
    if t.secs < 0 {
        0
    } else {
        ((t.secs * 1000 + t.nanos / 1_000_000) % 0x1_0000_0000_0000_0000) as u64
    }
}

/// The time elapsed since the epoch, or zero for an instant before it.
pub open spec fn since_epoch(t: WallTime) -> TimeSpan {
    if t.secs < 0 {
        TimeSpan { secs: 0, nanos: 0 }
    } else {
        TimeSpan { secs: t.secs as u64, nanos: t.nanos }
    }
}

/// Moving `t` by `ms` milliseconds adds `ms` million nanoseconds.
pub proof fn lemma_add_millis_total(t: WallTime, ms: u64)
    requires
        t.wf(),
        can_add_millis(t, ms),
    ensures
        add_millis(t, ms).wf(),
        add_millis(t, ms).total_nanos() == t.total_nanos() + ms * 1_000_000,
{
    let q = ms / 1000;
    let rem = ms % 1000;
    let n = t.nanos + rem * 1_000_000;
    let c = n / 1_000_000_000;
    let d = n % 1_000_000_000;
    vstd::arithmetic::div_mod::lemma_fundamental_div_mod(ms as int, 1000);
    vstd::arithmetic::div_mod::lemma_fundamental_div_mod(n as int, 1_000_000_000);
    assert(0 <= c <= 1);
    let r = add_millis(t, ms);
    assert(r.secs == t.secs + q + c);
    assert(r.nanos == d);
}

/// Computes `add_millis(t, ms)`.
pub fn wall_time_plus_millis(t: WallTime, ms: u64) -> (r: WallTime)
    requires
        t.wf(),
        can_add_millis(t, ms),
    ensures
        r == add_millis(t, ms),
        r.wf(),
        r.total_nanos() == t.total_nanos() + ms * 1_000_000,
{
    let rem: u64 = ms % 1000;
    assert(rem * 1_000_000 < 1_000_000_000) by (nonlinear_arith)
        requires
            rem < 1000,
    ;
    let n: u64 = t.nanos as u64 + rem * 1_000_000;
    let carry: u64 = if n >= 1_000_000_000 {
        1
    } else {
        0
    };
    let nanos: u32 = (n - carry * 1_000_000_000) as u32;
    assert(carry == n / 1_000_000_000 && nanos == n % 1_000_000_000) by (nonlinear_arith)
        requires
            n < 2_000_000_000,
            carry == (if n >= 1_000_000_000 { 1int } else { 0int }),
            nanos == n - carry * 1_000_000_000,
    ;
    let secs: i64 = t.secs + (ms / 1000) as i64 + carry as i64;
    proof {
        lemma_add_millis_total(t, ms);
    }
    WallTime { secs, nanos }
}

/// Computes `unix_millis_of(t)`.
pub fn wall_time_unix_millis(t: WallTime) -> (r: u64)
    ensures
        r == unix_millis_of(t),
{
    if t.secs < 0 {
        0
    } else {
        let s = t.secs as u64;
        let r = s.wrapping_mul(1000).wrapping_add((t.nanos / NANOS_PER_MILLI) as u64);
        assert(r == unix_millis_of(t)) by (nonlinear_arith)
            requires
                r == ((((s * 1000) % 0x1_0000_0000_0000_0000) + t.nanos / 1_000_000)
                    % 0x1_0000_0000_0000_0000),
                s == t.secs,
                t.secs >= 0,
                unix_millis_of(t) == ((t.secs * 1000 + t.nanos / 1_000_000)
                    % 0x1_0000_0000_0000_0000) as u64,
        ;
        r
    }
}

// ---------------------------------------------------------------------------
// UUID text
// ---------------------------------------------------------------------------

/// Two lowercase hex digits per byte, in order.
pub open spec fn hex_bytes(b: Seq<u8>) -> Seq<char>
    decreases b.len(),
{
    if b.len() == 0 {
        Seq::empty()
    } else {
        let last = b.last() as nat;
        hex_bytes(b.drop_last()) + seq![hex_char(last / 16), hex_char(last % 16)]
    }
}

/// The hyphenated form of a UUID's 16 bytes: 32 lowercase hex digits in
/// groups of 8-4-4-4-12.
pub open spec fn uuid_text(b: Seq<u8>) -> Seq<char> {
    let h = hex_bytes(b);
    h.subrange(0, 8) + seq!['-'] + h.subrange(8, 12) + seq!['-'] + h.subrange(12, 16)
        + seq!['-'] + h.subrange(16, 20) + seq!['-'] + h.subrange(20, 32)
}

/// Byte `i` (0 = least significant) of `x`.
pub open spec fn le_byte(x: u64, i: u64) -> u8 {
    ((x >> (8 * i)) & 0xff) as u8
}

/// The 8 bytes of `x`, least significant first.
pub open spec fn le_bytes(x: u64) -> Seq<u8> {
    Seq::new(8, |i: int| le_byte(x, i as u64))
}

/// The 16 bytes of a version-4 UUID whose body is `a` then `b`, both
/// little-endian, with the version nibble and the RFC 4122 variant bits set.
pub open spec fn uuid_v4_bytes(a: u64, b: u64) -> Seq<u8> {
    le_bytes(a).update(6, (le_byte(a, 6) & 0x0f) | 0x40) + le_bytes(b).update(
        0,
        (le_byte(b, 0) & 0x3f) | 0x80,
    )
}

/// Relies on uuid::Uuid::from_slice, which accepts exactly 16 bytes, and on
/// the Display of Uuid, which writes them in order as lowercase hex in
/// hyphenated 8-4-4-4-12 groups.
#[verifier::external_body]
fn uuid_from_slice_text(bytes: &[u8]) -> (r: Option<String>)
    ensures
        r is Some <==> bytes@.len() == 16,
        r matches Some(s) ==> s@ == uuid_text(bytes@),
{
    uuid::Uuid::from_slice(bytes).ok().map(|u| u.to_string())
}

fn push_le_bytes(v: &mut Vec<u8>, x: u64)
    ensures
        final(v)@ == old(v)@ + le_bytes(x),
{
    let mut i: u64 = 0;
    while i < 8
        invariant
            i <= 8,
            v@ == old(v)@ + le_bytes(x).subrange(0, i as int),
        decreases 8 - i,
    {
        v.push(((x >> (8 * i)) & 0xff) as u8);
        i = i + 1;
        assert(v@ =~= old(v)@ + le_bytes(x).subrange(0, i as int));
    }
    assert(le_bytes(x).subrange(0, 8) =~= le_bytes(x));
}

/// The bytes of `uuid_v4_bytes(a, b)`.
pub fn uuid_v4_byte_vec(a: u64, b: u64) -> (r: Vec<u8>)
    ensures
        r@ == uuid_v4_bytes(a, b),
{
    let mut v: Vec<u8> = Vec::new();
    push_le_bytes(&mut v, a);
    push_le_bytes(&mut v, b);
    let b6 = (v[6] & 0x0f) | 0x40;
    v[6] = b6;
    let b8 = (v[8] & 0x3f) | 0x80;
    v[8] = b8;
    assert(v@ =~= uuid_v4_bytes(a, b));
    v
}

// ---------------------------------------------------------------------------
// TemporalRandomSource
// ---------------------------------------------------------------------------

/// The seed that stands in for zero, which xorshift would never leave.
pub const ZERO_SEED_REPLACEMENT: u64 = 0xDEAD_BEEF_CAFE_BABE;

/// The initial xorshift state for `seed`.
pub open spec fn xorshift_start(seed: u64) -> u64 {
    if seed == 0 {
        ZERO_SEED_REPLACEMENT
    } else {
        seed
    }
}

/// One xorshift64 step (shifts 13, 7, 17).
pub open spec fn xorshift_step(x: u64) -> u64 {
    let x1 = x ^ (x << 13u64);
    let x2 = x1 ^ (x1 >> 7u64);
    x2 ^ (x2 << 17u64)
}

/// The state after `n` steps from `x`.
pub open spec fn xorshift_iter(x: u64, n: nat) -> u64
    decreases n,
{
    if n == 0 {
        x
    } else {
        xorshift_step(xorshift_iter(x, (n - 1) as nat))
    }
}

/// The first `n` values drawn from a source seeded with `seed`.
pub open spec fn xorshift_stream(seed: u64, n: nat) -> Seq<u64>
    decreases n,
{
    if n == 0 {
        Seq::empty()
    } else {
        xorshift_stream(seed, (n - 1) as nat).push(xorshift_iter(xorshift_start(seed), n))
    }
}

/// Deterministic random source seeded from the workflow's random seed.
///
/// Uses xorshift64, so that equal seeds give equal sequences on replay.
#[derive(Debug)]
pub struct TemporalRandomSource {
    state: u64,
}

impl View for TemporalRandomSource {
    type V = u64;

    /// The xorshift state.
    closed spec fn view(&self) -> u64 {
        self.state
    }
}

impl TemporalRandomSource {
    pub fn new(seed: u64) -> (r: Self)
        ensures
            r@ == xorshift_start(seed),
    {
        let seed = if seed == 0 {
            ZERO_SEED_REPLACEMENT
        } else {
            seed
        };
        TemporalRandomSource { state: seed }
    }

    fn next_u64(&mut self) -> (r: u64)
        ensures
            r == xorshift_step(old(self)@),
            final(self)@ == r,
    {
        let mut x = self.state;
        x ^= x << 13u64;
        x ^= x >> 7u64;
        x ^= x << 17u64;
        self.state = x;
        x
    }

    /// A UUID-shaped string whose 16 bytes are the next two draws, with the
    /// version-4 and variant bits set.
    pub fn uuid(&mut self) -> (r: String)
        ensures
            r@ == uuid_text(uuid_v4_bytes(xorshift_step(old(self)@), final(self)@)),
            final(self)@ == xorshift_step(xorshift_step(old(self)@)),
    {
        let a = self.next_u64();
        let b = self.next_u64();
        let bytes = uuid_v4_byte_vec(a, b);
        match uuid_from_slice_text(bytes.as_slice()) {
            Some(s) => s,
            None => String::new(),
        }
    }

    /// The next draw.
    pub fn u64(&mut self) -> (r: u64)
        ensures
            r == xorshift_step(old(self)@),
            final(self)@ == r,
    {
        self.next_u64()
    }

    /// The next draw with its low 11 bits dropped: a 53-bit integer `k`, so
    /// that `k / 2^53` lies in `[0, 1)`.
    pub fn unit_fraction_bits(&mut self) -> (r: u64)
        ensures
            r == xorshift_step(old(self)@) >> 11u64,
            r < 0x20_0000_0000_0000,
            final(self)@ == xorshift_step(old(self)@),
    {
        let x = self.next_u64();
        let r = x >> 11u64;
        assert(x >> 11u64 < 0x20_0000_0000_0000u64) by (bit_vector);
        r
    }
}

// ---------------------------------------------------------------------------
// TemporalClock
// ---------------------------------------------------------------------------

/// Deterministic clock backed by the workflow's logical time.
///
/// `wall_time()` returns the workflow start time plus one millisecond per
/// earlier reading or advance, so successive readings strictly increase.
#[derive(Debug)]
pub struct TemporalClock {
    epoch: WallTime,
    tick: u64,
}

impl TemporalClock {
    /// The workflow start time.
    pub closed spec fn epoch_spec(&self) -> WallTime {
        self.epoch
    }

    /// The number of readings and advances so far (wrapping).
    pub closed spec fn tick_spec(&self) -> u64 {
        self.tick
    }

    pub open spec fn wf(&self) -> bool {
        self.epoch_spec().wf()
    }

    /// Whether the next reading is representable.
    pub open spec fn can_read(&self) -> bool {
        can_add_millis(self.epoch_spec(), self.tick_spec())
    }

    pub fn new(workflow_time: WallTime) -> (r: Self)
        requires
            workflow_time.wf(),
        ensures
            r.wf(),
            r.epoch_spec() == workflow_time,
            r.tick_spec() == 0,
    {
        TemporalClock { epoch: workflow_time, tick: 0 }
    }

    /// Notes that the engine advanced logical time: the tick moves on by one.
    pub fn advance(&mut self, _new_time: WallTime)
        ensures
            final(self).epoch_spec() == old(self).epoch_spec(),
            final(self).tick_spec() == old(self).tick_spec().wrapping_add(1),
    {
        self.tick = self.tick.wrapping_add(1);
    }

    /// The logical wall-clock reading: the start time plus the tick in
    /// milliseconds; the tick then moves on by one.
    pub fn wall_time(&mut self) -> (r: WallTime)
        requires
            old(self).wf(),
            old(self).can_read(),
        ensures
            r == add_millis(old(self).epoch_spec(), old(self).tick_spec()),
            r.wf(),
            final(self).epoch_spec() == old(self).epoch_spec(),
            final(self).tick_spec() == old(self).tick_spec().wrapping_add(1),
    {
        let ticks = self.tick;
        self.tick = self.tick.wrapping_add(1);
        wall_time_plus_millis(self.epoch, ticks)
    }

    /// Milliseconds since the epoch of the next reading (see `wall_time`).
    pub fn unix_millis(&mut self) -> (r: u64)
        requires
            old(self).wf(),
            old(self).can_read(),
        ensures
            r == unix_millis_of(add_millis(old(self).epoch_spec(), old(self).tick_spec())),
            final(self).epoch_spec() == old(self).epoch_spec(),
            final(self).tick_spec() == old(self).tick_spec().wrapping_add(1),
    {
        let t = self.wall_time();
        wall_time_unix_millis(t)
    }
}

/// Replay safety: what a source yields is fixed by its seed. The draw that
/// follows `n` earlier draws (from state `xorshift_iter(start, n)`, see
/// `u64`) is the next element of the seed's stream, and a longer run
/// extends a shorter one, so two sources built from one seed give the same
/// values in the same order.
pub proof fn lemma_same_seed_same_stream(seed: u64, m: nat, n: nat)
    requires
        m <= n,
    ensures
        xorshift_stream(seed, n).len() == n,
        xorshift_stream(seed, n + 1) == xorshift_stream(seed, n).push(
            xorshift_step(xorshift_iter(xorshift_start(seed), n)),
        ),
        xorshift_stream(seed, m) == xorshift_stream(seed, n).subrange(0, m as int),
    decreases n,
{
    assert(xorshift_iter(xorshift_start(seed), n + 1) == xorshift_step(
        xorshift_iter(xorshift_start(seed), n),
    ));
    if n > 0 {
        lemma_same_seed_same_stream(seed, if m < n { m } else { (n - 1) as nat }, (n - 1) as nat);
        if m < n {
            assert(xorshift_stream(seed, m) =~= xorshift_stream(seed, n).subrange(0, m as int));
        } else {
            assert(xorshift_stream(seed, n) =~= xorshift_stream(seed, n).subrange(0, n as int));
        }
    }
}

/// Successive clock readings strictly increase, by one millisecond each.
pub proof fn lemma_readings_increase(epoch: WallTime, tick: u64)
    requires
        epoch.wf(),
        tick < u64::MAX,
        can_add_millis(epoch, (tick + 1) as u64),
    ensures
        add_millis(epoch, tick).total_nanos() + 1_000_000 == add_millis(
            epoch,
            (tick + 1) as u64,
        ).total_nanos(),
{
    lemma_add_millis_total(epoch, tick);
    lemma_add_millis_total(epoch, (tick + 1) as u64);
}

} // verus!
