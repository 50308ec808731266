//! The sensor filter's ring buffer: averages the change between successive
//! accelerometer magnitudes to provide a stable "jolt" signal.
//!
//! Raw magnitudes arrive as plain integers in thousandths of a g (the vector
//! norm itself is computed where the readings are taken). Each new magnitude
//! contributes the absolute change against its predecessor; the reported
//! jolt is the mean over the last twenty changes, rounded to hundredths.
//! This smooths instantaneous sensor noise and auto-calibrates away constant
//! bias: a motionless (or uniformly moving) enclosure settles to zero.

use vstd::prelude::*;
use vstd::arithmetic::div_mod::{
    lemma_add_mod_noop, lemma_add_mod_noop_right, lemma_div_is_ordered, lemma_fundamental_div_mod,
    lemma_mod_bound, lemma_mod_multiples_vanish, lemma_small_mod,
};

verus! {

/// Number of samples the ring buffer averages over.
pub const BUFFER_SLOTS: usize = 20;

/// The absolute change between two successive magnitudes.
pub open spec fn jolt_delta(current: u32, previous: u32) -> u32 {
    if current >= previous {
        (current - previous) as u32
    } else {
        (previous - current) as u32
    }
}

/// The sum of all buffer entries.
pub open spec fn sum_of(s: Seq<u32>) -> int
    decreases s.len(),
{
    if s.len() == 0 {
        0
    } else {
        s[0] + sum_of(s.drop_first())
    }
}

/// The mean of the twenty thousandth-unit slots, converted to hundredths and
/// rounded to nearest: the filter reports jolt to two decimal places.
pub open spec fn average_centi(s: Seq<u32>) -> int {
    (sum_of(s) + 100) / 200
}

/// Appending an entry adds it to the sum.
pub proof fn lemma_sum_push(s: Seq<u32>, x: u32)
    ensures
        sum_of(s.push(x)) == sum_of(s) + x,
    decreases s.len(),
{
    reveal_with_fuel(sum_of, 3);
    if s.len() == 0 {
        assert(s.push(x).drop_first() =~= Seq::<u32>::empty());
    } else {
        assert(s.push(x).drop_first() =~= s.drop_first().push(x));
        lemma_sum_push(s.drop_first(), x);
    }
}

/// A buffer of zeroes sums to zero.
pub proof fn lemma_sum_zero(s: Seq<u32>)
    requires
        forall|k: int| 0 <= k < s.len() ==> s[k] == 0,
    ensures
        sum_of(s) == 0,
    decreases s.len(),
{
    if s.len() > 0 {
        lemma_sum_zero(s.drop_first());
    }
}

/// A ring buffer which averages accelerometer readings to provide the change
/// in acceleration.
pub struct MovingAverage {
    pub buffer: Vec<u32>,
    pub index: usize,
    pub current_magnitude: u32,
    pub previous_magnitude: u32,
}

/// The filter state after feeding the same magnitude `n` more times:
/// `(buffer, index, previous_magnitude)` with each step writing the change
/// against the previous magnitude into the current slot and advancing the
/// wrap-around index.
pub open spec fn feed_constant(
    buffer: Seq<u32>,
    index: int,
    previous: u32,
    magnitude: u32,
    n: nat,
) -> (Seq<u32>, int, u32)
    decreases n,
{
    if n == 0 {
        (buffer, index, previous)
    } else {
        let fed = feed_constant(buffer, index, previous, magnitude, (n - 1) as nat);
        (fed.0.update(fed.1, jolt_delta(magnitude, fed.2)), (fed.1 + 1) % 20, magnitude)
    }
}

impl MovingAverage {
    /// Twenty slots, with the write index inside them.
    pub open spec fn wf(self) -> bool {
        &&& self.buffer@.len() == BUFFER_SLOTS
        &&& self.index < BUFFER_SLOTS
    }

    pub fn new() -> (filter: Self)
        ensures
            filter.wf(),
            filter.index == 0,
            filter.previous_magnitude == 0,
            filter.current_magnitude == 0,
            forall|k: int| 0 <= k < BUFFER_SLOTS ==> filter.buffer@[k] == 0,
    {
        let mut buffer: Vec<u32> = Vec::new();
        let mut i: usize = 0;
        while i < BUFFER_SLOTS
            invariant
                i <= BUFFER_SLOTS,
                buffer@.len() == i,
                forall|k: int| 0 <= k < i ==> buffer@[k] == 0,
            decreases BUFFER_SLOTS - i,
        {
            buffer.push(0);
            i += 1;
        }
        Self { buffer, index: 0, current_magnitude: 0, previous_magnitude: 0 }
    }

    /// Add a new magnitude measurement, in thousandths, to the ring buffer.
    ///
    /// The slot at the current index receives the absolute change between
    /// this and the previous magnitude — the jerk, the change of
    /// acceleration over time. This senses how much the enclosure moves
    /// while auto-calibrating away the accelerometer's constant bias, and is
    /// the main interaction point for the game modes.
    pub fn add(&mut self, magnitude: u32)
        requires
            old(self).wf(),
        ensures
            final(self).wf(),
            final(self).current_magnitude == magnitude,
            final(self).previous_magnitude == magnitude,
            final(self).index == (old(self).index + 1) % 20,
            final(self).buffer@ == old(self).buffer@.update(
                old(self).index as int,
                jolt_delta(magnitude, old(self).previous_magnitude),
            ),
            (final(self).buffer@, final(self).index as int, final(self).previous_magnitude)
                == feed_constant(
                old(self).buffer@,
                old(self).index as int,
                old(self).previous_magnitude,
                magnitude,
                1,
            ),
    {
        proof {
            reveal_with_fuel(feed_constant, 2);
        }
        self.current_magnitude = magnitude;
        let delta = if self.current_magnitude >= self.previous_magnitude {
            self.current_magnitude - self.previous_magnitude
        } else {
            self.previous_magnitude - self.current_magnitude
        };
        self.buffer[self.index] = delta;
        self.previous_magnitude = self.current_magnitude;
        self.advance();
    }

    /// Calculate the average of all buffer entries, in hundredths.
    pub fn get_average_delta(&self) -> (average: u32)
        requires
            self.wf(),
        ensures
            average == average_centi(self.buffer@),
    {
        let ghost s = self.buffer@;
        let mut sum: u64 = 0;
        let mut i: usize = 0;
        while i < BUFFER_SLOTS
            invariant
                i <= BUFFER_SLOTS,
                s == self.buffer@,
                s.len() == BUFFER_SLOTS,
                sum == sum_of(s.take(i as int)),
                sum <= i * 0xFFFF_FFFFu64,
            decreases BUFFER_SLOTS - i,
        {
            proof {
                assert(s.take(i + 1 as int) =~= s.take(i as int).push(s[i as int]));
                lemma_sum_push(s.take(i as int), s[i as int]);
            }
            sum = sum + self.buffer[i] as u64;
            i += 1;
        }
        proof {
            assert(s.take(BUFFER_SLOTS as int) =~= s);
            lemma_div_is_ordered(sum as int + 100, 20 * 0xFFFF_FFFFi64 + 100, 200);
        }
        ((sum + 100) / 200) as u32
    }

    /// Increase the index by one if possible, or wrap back around.
    fn advance(&mut self)
        requires
            old(self).wf(),
        ensures
            final(self).wf(),
            final(self).index == (old(self).index + 1) % 20,
            final(self).buffer == old(self).buffer,
            final(self).current_magnitude == old(self).current_magnitude,
            final(self).previous_magnitude == old(self).previous_magnitude,
    {
        if self.index < BUFFER_SLOTS - 1 {
            self.index = self.index + 1;
        } else {
            self.index = 0;
        }
    }
}

/// After `n >= 1` constant samples: the previous magnitude is that constant,
/// the index has advanced `n` slots around the ring, and every slot written
/// from the second sample on holds zero (the first sample may record the
/// transient against whatever magnitude came before).
proof fn lemma_feed_constant_shape(
    buffer: Seq<u32>,
    index: int,
    previous: u32,
    magnitude: u32,
    n: nat,
)
    requires
        buffer.len() == 20,
        0 <= index < 20,
        1 <= n <= 21,
    ensures
        ({
            let fed = feed_constant(buffer, index, previous, magnitude, n);
            &&& fed.2 == magnitude
            &&& fed.1 == (index + n) % 20
            &&& fed.0.len() == 20
            &&& forall|j: int| 2 <= j <= n ==> #[trigger] fed.0[(index + j - 1) % 20] == 0
        }),
    decreases n,
{
    reveal_with_fuel(feed_constant, 2);
    let fed = feed_constant(buffer, index, previous, magnitude, n);
    if n == 1 {
        lemma_mod_bound(index + 1, 20);
    } else {
        lemma_feed_constant_shape(buffer, index, previous, magnitude, (n - 1) as nat);
        let prior = feed_constant(buffer, index, previous, magnitude, (n - 1) as nat);
        lemma_mod_bound(index + n - 1, 20);
        lemma_mod_bound(index + n, 20);
        assert(jolt_delta(magnitude, magnitude) == 0);
        lemma_add_mod_noop(index + n - 1, 1, 20);
        lemma_small_mod(1, 20);
        assert(((index + n - 1) % 20 + 1) % 20 == (index + n) % 20);
        assert forall|j: int| 2 <= j <= n implies #[trigger] fed.0[(index + j - 1) % 20] == 0 by {
            lemma_mod_bound(index + j - 1, 20);
            if j == n {
                assert(fed.0[(index + n - 1) % 20] == 0);
            } else {
                assert(prior.0[(index + j - 1) % 20] == 0);
            }
        }
    }
}

/// After enough constant samples to overwrite every slot, the whole ring
/// holds zeroes, the write index stays inside the ring and the previous
/// magnitude is the constant — and one further constant sample keeps it so.
proof fn lemma_feed_constant_zeroes(
    buffer: Seq<u32>,
    index: int,
    previous: u32,
    magnitude: u32,
    n: nat,
)
    requires
        buffer.len() == 20,
        0 <= index < 20,
        n >= 21,
    ensures
        ({
            let fed = feed_constant(buffer, index, previous, magnitude, n);
            &&& fed.0.len() == 20
            &&& 0 <= fed.1 < 20
            &&& fed.2 == magnitude
            &&& forall|k: int| 0 <= k < 20 ==> fed.0[k] == 0
        }),
    decreases n,
{
    let fed = feed_constant(buffer, index, previous, magnitude, n);
    if n == 21 {
        lemma_feed_constant_shape(buffer, index, previous, magnitude, 21);
        lemma_mod_bound(index + 21, 20);
        assert forall|k: int| 0 <= k < 20 implies fed.0[k] == 0 by {
            let d = (k - index) % 20;
            lemma_mod_bound(k - index, 20);
            let j = if d == 0 { 21int } else { d + 1 };
            if d == 0 {
                // Twenty slots on from the write position is the write
                // position again.
                lemma_fundamental_div_mod(k - index, 20);
                let q = (k - index) / 20;
                assert(k - index == 20 * q);
                assert(-20 < 20 * q < 20);
                assert(q == 0) by (nonlinear_arith)
                    requires
                        -20 < 20 * q < 20,
                ;
                assert(k == index);
                lemma_mod_multiples_vanish(1, index, 20);
                lemma_small_mod(index as nat, 20);
                assert((index + j - 1) % 20 == k);
            } else {
                lemma_add_mod_noop_right(index, k - index, 20);
                lemma_small_mod(k as nat, 20);
                assert((index + j - 1) % 20 == (index + (k - index)) % 20);
                assert((index + j - 1) % 20 == k);
            }
            assert(fed.0[(index + j - 1) % 20] == 0);
        }
    } else {
        // One more constant sample writes another zero into a settled ring.
        lemma_feed_constant_zeroes(buffer, index, previous, magnitude, (n - 1) as nat);
        assert(jolt_delta(magnitude, magnitude) == 0);
        lemma_mod_bound(feed_constant(buffer, index, previous, magnitude, (n - 1) as nat).1 + 1, 20);
    }
}

/// LAW (moving average settles): feeding a constant magnitude stream long
/// enough to fill every slot — one sample more than the window, so the
/// initial transient against the pre-existing magnitude is overwritten too —
/// drives the average jolt to exactly 0.00.
pub proof fn lemma_constant_stream_settles(
    buffer: Seq<u32>,
    index: int,
    previous: u32,
    magnitude: u32,
    n: nat,
)
    requires
        buffer.len() == 20,
        0 <= index < 20,
        n >= BUFFER_SLOTS + 1,
    ensures
        average_centi(feed_constant(buffer, index, previous, magnitude, n).0) == 0,
{
    let fed = feed_constant(buffer, index, previous, magnitude, n);
    lemma_feed_constant_zeroes(buffer, index, previous, magnitude, n);
    lemma_sum_zero(fed.0);
}

} // verus!
