//! A small seeded random number generator.
//!
//! It serves only to vary how things look. The same seed gives the same
//! numbers on every machine; sums wrap around.
use crate::fixed::ONE;
use vstd::prelude::*;

verus! {

/// What is added to every seed, so that small seeds do not give a weak start:
/// `u64::MAX / 7 * 4`.
pub const SEED_OFFSET: u64 = 10_540_996_613_548_315_208;

/// By how much the counter grows in every step.
pub const COUNTER_STEP: u64 = 362_437;

/// A seeded generator of `u64` values.
#[derive(Debug, Clone, Copy)]
pub struct RandGen {
    state: [u64; 5],
}

/// The state of a generator that was made from `seed`.
pub open spec fn seeded(seed: u64) -> Seq<u64> {
    let s = SEED_OFFSET.wrapping_add(seed);
    seq![s, (s % 865_941) as u64, (s % 45_129) as u64, (s % 963) as u64, (s % 7_437) as u64]
}

/// The value that one step mixes from the state: the fourth word, shifted and
/// folded onto itself, folded with the first word and the first word shifted.
pub open spec fn mixed(state: Seq<u64>) -> u64 {
    let t0 = state[3];
    let t1 = t0 ^ (t0 >> 2);
    let t2 = t1 ^ (t1 << 1);
    let s = state[0];
    let t3 = t2 ^ s;
    t3 ^ (s << 4)
}

/// The state after one step: the mixed value comes first, the first three words
/// move back by one, and the counter grows by `COUNTER_STEP`.
pub open spec fn advanced(state: Seq<u64>) -> Seq<u64> {
    seq![mixed(state), state[0], state[1], state[2], state[4].wrapping_add(COUNTER_STEP)]
}

/// The number that one step gives: the mixed value plus the new counter.
pub open spec fn output(state: Seq<u64>) -> u64 {
    mixed(state).wrapping_add(state[4].wrapping_add(COUNTER_STEP))
}

/// The state after `n` steps.
pub open spec fn advanced_by(state: Seq<u64>, n: nat) -> Seq<u64>
    decreases n,
{
    if n == 0 {
        state
    } else {
        advanced(advanced_by(state, (n - 1) as nat))
    }
}

/// A number as a share of the greatest number, in fixed point: `n / u64::MAX`,
/// from zero to `ONE`, rounded down.
pub open spec fn spec_fraction(n: u64) -> i64 {
    (n * ONE / (u64::MAX as int)) as i64
}

impl View for RandGen {
    type V = Seq<u64>;

    closed spec fn view(&self) -> Seq<u64> {
        self.state@
    }
}

impl RandGen {
    /// Makes a generator from a seed.
    pub fn new(seed: u64) -> (r: RandGen)
        ensures
            r@ == seeded(seed),
    {
        let s = SEED_OFFSET.wrapping_add(seed);
        let r = RandGen { state: [s, s % 865_941, s % 45_129, s % 963, s % 7_437] };
        assert(r.state@ =~= seeded(seed));
        r
    }

    /// Makes `n` steps and returns a copy of the generator as it then is.
    pub fn skip(&mut self, n: usize) -> (r: RandGen)
        ensures
            final(self)@ == advanced_by(old(self)@, n as nat),
            r@ == final(self)@,
    {
        let mut i: usize = 0;
        while i < n
            invariant
                i <= n,
                self@ == advanced_by(old(self)@, i as nat),
            decreases n - i,
        {
            self.next();
            i += 1;
        }
        *self
    }

    /// Makes one step and returns its number.
    pub fn next(&mut self) -> (r: u64)
        ensures
            final(self)@ == advanced(old(self)@),
            r == output(old(self)@),
    {
        let mut t = self.state[3];
        t ^= t >> 2;
        t ^= t << 1;
        self.state[3] = self.state[2];
        self.state[2] = self.state[1];
        self.state[1] = self.state[0];
        let s = self.state[0];
        t ^= s;
        t ^= s << 4;
        self.state[0] = t;
        self.state[4] = self.state[4].wrapping_add(COUNTER_STEP);
        assert(self.state@ =~= advanced(old(self).state@));
        t.wrapping_add(self.state[4])
    }

    /// Makes one step and returns its number as a share of the greatest number,
    /// from zero to `ONE`.
    pub fn fraction(&mut self) -> (r: i64)
        ensures
            final(self)@ == advanced(old(self)@),
            r == spec_fraction(output(old(self)@)),
            0 <= r <= ONE,
    {
        let n = self.next();
        let wide: u128 = n as u128 * ONE as u128;
        let most: u128 = u64::MAX as u128;
        assert(wide / most <= ONE) by (nonlinear_arith)
            requires
                wide <= most * ONE,
                most > 0,
        ;
        (wide / most) as i64
    }
}

} // verus!
