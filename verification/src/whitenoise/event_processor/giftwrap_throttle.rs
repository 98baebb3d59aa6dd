//! A per-account token bucket that bounds how many gift wraps are decrypted.
//!
//! Gift wraps are addressed to a public key by anyone who knows it, and who
//! sent one shows only after it has been decrypted. Without a bound anybody
//! could make a recipient's device spend any amount of work.
//!
//! Time is counted in nanoseconds from any fixed origin, and the refill rate
//! in millionths of a token per second. The level is kept in parts of a token
//! so small that no refill is ever rounded.

use vstd::prelude::*;

verus! {

/// The parts that make up one token: nanoseconds per second times millionths.
pub const PARTS_PER_TOKEN: u128 = 1_000_000_000_000_000;

/// Token bucket sized for the gift-wrap decryption budget of one account.
///
/// It refills continuously up to its capacity. Taking a token never blocks:
/// where there is none the gift wrap is left for the relay to deliver again.
#[derive(Debug)]
pub struct GiftwrapThrottle {
    capacity: u32,
    /// Millionths of a token per second, which is parts per nanosecond.
    refill_micros_per_sec: u64,
    level: u128,
    /// When the level was last brought up to date.
    last_refill: u64,
}

/// What a [`GiftwrapThrottle`] stands for.
pub struct Bucket {
    pub capacity: nat,
    /// Parts of a token per nanosecond.
    pub rate: nat,
    /// Parts of a token.
    pub level: nat,
    pub last_refill: nat,
}

impl Bucket {
    /// The level of a full bucket.
    pub open spec fn full(self) -> nat {
        self.capacity * PARTS_PER_TOKEN as nat
    }

    pub open spec fn wf(self) -> bool {
        self.capacity > 0 && self.rate > 0 && self.level <= self.full()
    }

    /// The level at `now`. A clock that went back adds nothing.
    pub open spec fn level_at(self, now: nat) -> nat {
        let elapsed = if now >= self.last_refill {
            (now - self.last_refill) as nat
        } else {
            0
        };
        if self.level + elapsed * self.rate >= self.full() {
            self.full()
        } else {
            self.level + elapsed * self.rate
        }
    }

    /// Whether a token can be taken at `now`.
    pub open spec fn grants(self, now: nat) -> bool {
        self.level_at(now) >= PARTS_PER_TOKEN
    }

    /// The bucket after an attempt to take a token at `now`.
    pub open spec fn after(self, now: nat) -> Bucket {
        Bucket {
            level: if self.grants(now) {
                (self.level_at(now) - PARTS_PER_TOKEN) as nat
            } else {
                self.level_at(now)
            },
            last_refill: now,
            ..self
        }
    }

    /// The bucket after attempts at all of `times`, in order.
    pub open spec fn after_all(self, times: Seq<nat>) -> Bucket
        decreases times.len(),
    {
        if times.len() == 0 {
            self
        } else {
            self.after_all(times.drop_last()).after(times.last())
        }
    }

    /// How many of the attempts at `times` succeed.
    pub open spec fn granted(self, times: Seq<nat>) -> nat
        decreases times.len(),
    {
        if times.len() == 0 {
            0
        } else {
            self.granted(times.drop_last()) + if self.after_all(times.drop_last()).grants(
                times.last(),
            ) {
                1nat
            } else {
                0
            }
        }
    }
}

impl View for GiftwrapThrottle {
    type V = Bucket;

    closed spec fn view(&self) -> Bucket {
        Bucket {
            capacity: self.capacity as nat,
            rate: self.refill_micros_per_sec as nat,
            level: self.level as nat,
            last_refill: self.last_refill as nat,
        }
    }
}

impl GiftwrapThrottle {
    #[verifier::type_invariant]
    spec fn wf(self) -> bool {
        &&& self.capacity > 0
        &&& self.refill_micros_per_sec > 0
        &&& self.level <= self.capacity * PARTS_PER_TOKEN
    }

    /// A full bucket at the time `now`.
    ///
    /// `capacity` is how many gift wraps may be decrypted in a burst after an
    /// idle period, `refill_micros_per_sec` the sustained rate in millionths.
    pub fn new(capacity: u32, refill_micros_per_sec: u64, now: u64) -> (t: GiftwrapThrottle)
        requires
            capacity > 0,
            refill_micros_per_sec > 0,
        ensures
            t@.wf(),
            t@ == (Bucket {
                capacity: capacity as nat,
                rate: refill_micros_per_sec as nat,
                level: t@.full(),
                last_refill: now as nat,
            }),
    {
        assert(capacity * PARTS_PER_TOKEN <= u32::MAX * PARTS_PER_TOKEN) by (nonlinear_arith)
            requires
                capacity <= u32::MAX,
        ;
        let level: u128 = capacity as u128 * PARTS_PER_TOKEN;
        GiftwrapThrottle { capacity, refill_micros_per_sec, level, last_refill: now }
    }

    /// The bucket of a real user: bursts of 60, and two tokens a second.
    pub fn default_for_account(now: u64) -> (t: GiftwrapThrottle)
        ensures
            t@.wf(),
            t@ == (Bucket {
                capacity: 60,
                rate: 2_000_000,
                level: 60 * PARTS_PER_TOKEN as nat,
                last_refill: now as nat,
            }),
    {
        GiftwrapThrottle::new(60, 2_000_000, now)
    }

    /// Takes one token if there is one at `now`; says whether there was.
    pub fn try_acquire(&mut self, now: u64) -> (taken: bool)
        ensures
            final(self)@.wf(),
            final(self)@ == old(self)@.after(now as nat),
            taken == old(self)@.grants(now as nat),
            taken <==> old(self)@.level_at(now as nat) >= 1_000_000_000_000_000,
            taken ==> final(self)@.level + 1_000_000_000_000_000 == old(self)@.level_at(now as nat),
            !taken ==> final(self)@.level == old(self)@.level_at(now as nat),
    {
        self.try_acquire_at(now)
    }

    /// Takes one token if there is one at `now`; says whether there was.
    pub fn try_acquire_at(&mut self, now: u64) -> (taken: bool)
        ensures
            final(self)@.wf(),
            final(self)@ == old(self)@.after(now as nat),
            taken == old(self)@.grants(now as nat),
    {
        proof {
            use_type_invariant(&*self);
        }
        let elapsed: u64 = if now >= self.last_refill {
            now - self.last_refill
        } else {
            0
        };
        let rate: u64 = self.refill_micros_per_sec;
        let capacity: u32 = self.capacity;
        assert(elapsed * rate <= u64::MAX * u64::MAX) by (nonlinear_arith)
            requires
                elapsed <= u64::MAX,
                rate <= u64::MAX,
        ;
        assert(capacity * PARTS_PER_TOKEN <= u32::MAX * PARTS_PER_TOKEN) by (nonlinear_arith)
            requires
                capacity <= u32::MAX,
        ;
        let refill: u128 = elapsed as u128 * rate as u128;
        let full: u128 = capacity as u128 * PARTS_PER_TOKEN;
        let level: u128 = if refill >= full - self.level {
            full
        } else {
            self.level + refill
        };
        assert(level as nat == old(self)@.level_at(now as nat));
        let taken = level >= PARTS_PER_TOKEN;
        let left: u128 = if taken {
            level - PARTS_PER_TOKEN
        } else {
            level
        };
        *self = GiftwrapThrottle {
            capacity,
            refill_micros_per_sec: rate,
            level: left,
            last_refill: now,
        };
        taken
    }

    /// The level after the last attempt, in parts of a token.
    pub fn tokens(&self) -> (level: u128)
        ensures
            level == self@.level,
            self@.wf(),
    {
        proof {
            use_type_invariant(self);
        }
        self.level
    }
}

/// Whether a gift wrap may be decrypted, given what the bucket said; none
/// where the bucket could not be reached. Such a bucket does not lock the
/// account out.
pub fn fail_open(taken: Option<bool>) -> (go: bool)
    ensures
        go == (taken is None || taken == Some(true)),
        !go <==> taken == Some(false),
{
    match taken {
        Some(taken) => taken,
        None => true,
    }
}

/// The level to report, given what the bucket said; none where the bucket
/// could not be reached.
pub fn reported_level(level: Option<u128>) -> (parts: u128)
    ensures
        level matches Some(l) ==> parts == l,
        level is None ==> parts == 0,
{
    match level {
        Some(level) => level,
        None => 0,
    }
}

// ---------------------------------------------------------------------------
// What the bucket promises
// ---------------------------------------------------------------------------

/// `times` never goes back, and starts no earlier than `start`.
pub open spec fn moves_forward(start: nat, times: Seq<nat>) -> bool {
    &&& forall|i: int| 0 <= i < times.len() ==> start <= #[trigger] times[i]
    &&& forall|i: int, j: int| 0 <= i < j < times.len() ==> times[i] <= times[j]
}

/// The level rises by the rate for every nanosecond that passes, to the brim
/// and no further, and a clock that went back adds nothing. A token is a
/// million times a thousand million parts.
pub proof fn levels_rise_with_time_to_the_brim(b: Bucket, now: nat)
    requires
        b.wf(),
    ensures
        b.full() == b.capacity * 1_000_000_000_000_000,
        now <= b.last_refill ==> b.level_at(now) == b.level,
        now >= b.last_refill && b.level + (now - b.last_refill) * b.rate <= b.full() ==> b.level_at(now)
            == b.level + (now - b.last_refill) * b.rate,
        now >= b.last_refill && b.level + (now - b.last_refill) * b.rate >= b.full() ==> b.level_at(now)
            == b.full(),
{
    assert(0 * b.rate == 0) by (nonlinear_arith);
    if now >= b.last_refill {
        let elapsed = (now - b.last_refill) as nat;
        assert(elapsed * b.rate >= 0) by (nonlinear_arith);
        if now == b.last_refill {
            assert(elapsed * b.rate == 0) by (nonlinear_arith)
                requires
                    elapsed == 0,
            ;
        }
    }
}

/// A token is granted exactly if a whole one is there. Taking it costs one
/// token and a refusal costs nothing; either way the level is that of the time
/// of the attempt, and the capacity and the rate stay.
pub proof fn a_granted_attempt_costs_one_token(b: Bucket, now: nat)
    requires
        b.wf(),
    ensures
        b.grants(now) <==> b.level_at(now) >= 1_000_000_000_000_000,
        b.grants(now) ==> b.after(now).level + 1_000_000_000_000_000 == b.level_at(now),
        !b.grants(now) ==> b.after(now).level == b.level_at(now),
        b.after(now).last_refill == now,
        b.after(now).capacity == b.capacity,
        b.after(now).rate == b.rate,
{
}

/// The bucket never holds more than its capacity, whatever the clock does.
pub proof fn level_never_exceeds_capacity(b: Bucket, times: Seq<nat>)
    requires
        b.wf(),
    ensures
        b.after_all(times).wf(),
        b.after_all(times).capacity == b.capacity,
        b.after_all(times).rate == b.rate,
    decreases times.len(),
{
    if times.len() > 0 {
        level_never_exceeds_capacity(b, times.drop_last());
    }
}

proof fn lemma_last_refill(b: Bucket, times: Seq<nat>)
    ensures
        b.after_all(times).last_refill == (if times.len() == 0 {
            b.last_refill
        } else {
            times.last()
        }),
{
}

/// Over any stretch of time the bucket grants no more than what it held at
/// the start and what flowed in since: with a full bucket, its capacity and
/// the rate times the elapsed time.
pub proof fn grants_are_bounded(b: Bucket, times: Seq<nat>)
    requires
        b.wf(),
        moves_forward(b.last_refill, times),
    ensures
        b.granted(times) * PARTS_PER_TOKEN + b.after_all(times).level <= b.level + (b.after_all(
            times,
        ).last_refill - b.last_refill) * b.rate,
    decreases times.len(),
{
    if times.len() > 0 {
        let rest = times.drop_last();
        assert(moves_forward(b.last_refill, rest)) by {
            assert forall|i: int| 0 <= i < rest.len() implies b.last_refill <= #[trigger] rest[i] by {
                assert(rest[i] == times[i]);
            }
        }
        grants_are_bounded(b, rest);
        level_never_exceeds_capacity(b, rest);
        lemma_last_refill(b, rest);
        let mid = b.after_all(rest);
        let now = times.last();
        assert(mid.last_refill <= now) by {
            if rest.len() > 0 {
                assert(times[rest.len() - 1] <= times[times.len() - 1]);
                assert(rest.last() == times[rest.len() - 1]);
            } else {
                assert(b.last_refill <= times[0]);
            }
        }
        let x = mid.last_refill - b.last_refill;
        let y = now - mid.last_refill;
        let rate = b.rate as int;
        assert((x + y) * rate == x * rate + y * rate) by (nonlinear_arith);
        let g = b.granted(rest) as int;
        assert((g + 1) * PARTS_PER_TOKEN == g * PARTS_PER_TOKEN + PARTS_PER_TOKEN) by (nonlinear_arith);
    }
}

/// A flood at one instant is granted what the bucket holds and no more: a
/// full bucket grants as many as its capacity.
pub proof fn burst_is_capped(b: Bucket, times: Seq<nat>)
    requires
        b.wf(),
        forall|i: int| 0 <= i < times.len() ==> #[trigger] times[i] == b.last_refill,
    ensures
        b.granted(times) == (if times.len() <= b.level / PARTS_PER_TOKEN as nat {
            times.len()
        } else {
            b.level / PARTS_PER_TOKEN as nat
        }),
        b.after_all(times).level == b.level - b.granted(times) * PARTS_PER_TOKEN,
        b.after_all(times).last_refill == b.last_refill,
    decreases times.len(),
{
    let parts = PARTS_PER_TOKEN as nat;
    assert(b.level / parts * parts <= b.level < (b.level / parts + 1) * parts) by (nonlinear_arith)
        requires
            parts > 0,
    ;
    if times.len() > 0 {
        let rest = times.drop_last();
        assert forall|i: int| 0 <= i < rest.len() implies #[trigger] rest[i] == b.last_refill by {
            assert(rest[i] == times[i]);
        }
        burst_is_capped(b, rest);
        level_never_exceeds_capacity(b, rest);
        let mid = b.after_all(rest);
        let g = b.granted(rest) as int;
        assert(times.last() == times[times.len() - 1]);
        assert(mid.last_refill == times.last());
        assert((times.last() - mid.last_refill) * mid.rate == 0) by (nonlinear_arith)
            requires
                times.last() == mid.last_refill,
        ;
        assert(mid.level_at(times.last()) == mid.level);
        assert((g + 1) * parts == g * parts + parts) by (nonlinear_arith);
        if rest.len() < b.level / parts {
            assert(g == rest.len());
            assert((g + 1) * parts <= b.level / parts * parts) by (nonlinear_arith)
                requires
                    g + 1 <= b.level / parts,
                    parts > 0,
            ;
            assert(mid.grants(times.last()));
        } else {
            assert(g == b.level / parts);
            assert(!mid.grants(times.last()));
        }
    } else {
        assert(b.granted(times) * PARTS_PER_TOKEN == 0) by (nonlinear_arith)
            requires
                b.granted(times) == 0,
        ;
    }
}

/// Traffic that starts with a token and leaves time for one to flow in before
/// each further attempt is never throttled.
pub proof fn trickle_is_never_throttled(b: Bucket, times: Seq<nat>)
    requires
        b.wf(),
        times.len() > 0 ==> b.grants(times[0]),
        moves_forward(b.last_refill, times),
        forall|i: int|
            #![trigger times[i]]
            0 < i < times.len() ==> (times[i] - times[i - 1]) * b.rate >= PARTS_PER_TOKEN,
    ensures
        b.granted(times) == times.len(),
    decreases times.len(),
{
    if times.len() > 0 {
        let rest = times.drop_last();
        assert(moves_forward(b.last_refill, rest)) by {
            assert forall|i: int| 0 <= i < rest.len() implies b.last_refill <= #[trigger] rest[i] by {
                assert(rest[i] == times[i]);
            }
        }
        assert forall|i: int|
            #![trigger rest[i]]
            0 < i < rest.len() implies (rest[i] - rest[i - 1]) * b.rate >= PARTS_PER_TOKEN by {
            assert(rest[i] == times[i]);
            assert(rest[i - 1] == times[i - 1]);
        }
        trickle_is_never_throttled(b, rest);
        level_never_exceeds_capacity(b, rest);
        lemma_last_refill(b, rest);
        let mid = b.after_all(rest);
        let now = times.last();
        assert(now == times[times.len() - 1]);
        assert(b.full() >= PARTS_PER_TOKEN) by (nonlinear_arith)
            requires
                b.capacity >= 1,
                b.full() == b.capacity * PARTS_PER_TOKEN as nat,
        ;
        assert(mid.full() == b.full());
        if rest.len() == 0 {
            assert(mid == b);
        } else {
            assert(rest.last() == times[times.len() - 2]);
            assert((times[times.len() - 1] - times[times.len() - 2]) * b.rate >= PARTS_PER_TOKEN);
            assert(times[times.len() - 2] <= times[times.len() - 1]);
        }
        assert(mid.grants(now));
    }
}

/// A pause long enough to fill the bucket leaves it exactly full, however
/// long it lasts.
pub proof fn idling_fills_the_bucket_and_no_more(b: Bucket, now: nat)
    requires
        b.wf(),
        now >= b.last_refill,
        b.level + (now - b.last_refill) * b.rate >= b.full(),
    ensures
        b.level_at(now) == b.full(),
{
}

} // verus!
