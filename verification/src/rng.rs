//! The game's random numbers: the same sequence as Lua 5.4's `math.random`
//! for the same seed.
//!
//! xoshiro256\*\*, seeded and sampled as that library seeds it and reduces
//! draws into integer ranges (by rejection, without modulo bias). The whole generator is integer
//! arithmetic, so its every output is pinned down by the spec functions below;
//! the conversion of a draw to a float in `[0, 1)` is left to the caller.
use vstd::prelude::*;

verus! {

/// The generator's four words of state, as the spec functions see them.
pub type RngState = (u64, u64, u64, u64);

/// Rotate left by `k` bits, for `0 < k < 64`.
pub open spec fn rotl(x: u64, k: u64) -> u64 {
    (x << k) | (x >> ((64 - k) as u64))
}

/// The 64-bit output that the state `s` produces (`nextrand`'s result).
pub open spec fn output(s: RngState) -> u64 {
    rotl(s.1.wrapping_mul(5), 7).wrapping_mul(9)
}

/// The state that follows `s` (`nextrand`'s update).
pub open spec fn step(s: RngState) -> RngState {
    let s2 = s.2 ^ s.0;
    let s3 = s.3 ^ s.1;
    (s.0 ^ s3, s.1 ^ s2, s2 ^ (s.1 << 17u64), rotl(s3, 45))
}

/// The state after `k` draws from `s`.
pub open spec fn advance(s: RngState, k: nat) -> RngState
    decreases k,
{
    if k == 0 {
        s
    } else {
        advance(step(s), (k - 1) as nat)
    }
}

/// `math.randomseed(n1, n2)`: the raw seed, then sixteen discarded draws.
pub open spec fn seeded(n1: i64, n2: i64) -> RngState {
    advance((n1 as u64, 0xffu64, n2 as u64, 0u64), 16)
}

/// The smallest `2^b - 1` that is at least `n`: every bit below the top set
/// bit of `n` switched on.
pub open spec fn fill_below(n: u64) -> u64 {
    let l1 = n | (n >> 1u64);
    let l2 = l1 | (l1 >> 2u64);
    let l4 = l2 | (l2 >> 4u64);
    let l8 = l4 | (l4 >> 8u64);
    let l16 = l8 | (l8 >> 16u64);
    l16 | (l16 >> 32u64)
}

/// Whether `n + 1` is a power of two (or `n` is `u64::MAX`), in which case
/// masking alone reduces a draw into `[0, n]` without bias.
pub open spec fn is_low_mask(n: u64) -> bool {
    n & n.wrapping_add(1) == 0
}

/// The number of redraws `project` allows itself before it stops rejecting.
pub open spec fn redraw_limit() -> nat {
    u64::MAX as nat
}

/// Rejection sampling as lmathlib.c's `project` does it: mask the draw `ran`
/// with `lim`, accept it if it is at most `n`, otherwise draw again from `s`.
/// After `fuel` rejections it stops and reduces the last draw modulo `n + 1`.
/// Returns the value and the state after the redraws.
pub open spec fn reject(s: RngState, ran: u64, n: u64, lim: u64, fuel: nat) -> (u64, RngState)
    decreases fuel,
{
    if ran & lim <= n {
        (ran & lim, s)
    } else if fuel == 0 {
        ((ran % ((n + 1) as u64)) as u64, s)
    } else {
        reject(step(s), output(s), n, lim, (fuel - 1) as nat)
    }
}

/// `project(ran, n, state)` in lmathlib.c: `ran` reduced into `[0, n]`.
pub open spec fn project_spec(s: RngState, ran: u64, n: u64) -> (u64, RngState) {
    if is_low_mask(n) {
        (ran & n, s)
    } else {
        reject(s, ran, n, fill_below(n), redraw_limit())
    }
}

/// `math.random(m, n)` from state `s`, for `m <= n`: the value and the state
/// that follows.
pub open spec fn range_spec(s: RngState, m: i64, n: i64) -> (i64, RngState) {
    let width = (n - m) as u64;
    let p = project_spec(step(s), output(s), width);
    ((m + p.0) as i64, p.1)
}

/// The xoshiro256\*\* generator behind Lua 5.4's `math.random`.
#[derive(Clone, Debug, PartialEq, Eq)]
pub struct LuaRng {
    s0: u64,
    s1: u64,
    s2: u64,
    s3: u64,
}

impl View for LuaRng {
    type V = RngState;

    closed spec fn view(&self) -> RngState {
        (self.s0, self.s1, self.s2, self.s3)
    }
}

impl LuaRng {
    /// Equivalent to `math.randomseed(n1, n2)`. `math.randomseed(n)` passes
    /// `n2 = 0`.
    pub fn new(n1: i64, n2: i64) -> (rng: Self)
        ensures
            rng@ == seeded(n1, n2),
    {
        // the second word is 0xff rather than 0 so that the state can't be all
        // zeroes, which xoshiro cannot escape from
        let mut rng = LuaRng { s0: n1 as u64, s1: 0xff, s2: n2 as u64, s3: 0 };
        let ghost start = rng@;
        let mut i: usize = 0;
        // discarded to "spread" the seed, per lmathlib.c
        while i < 16
            invariant
                i <= 16,
                advance(start, 16) == advance(rng@, (16 - i) as nat),
            decreases 16 - i,
        {
            rng.next_u64();
            i = i + 1;
        }
        rng
    }

    /// The raw 64-bit output. `Rand64 nextrand (Rand64 *state)` in lmathlib.c.
    pub fn next_u64(&mut self) -> (result: u64)
        ensures
            result == output(old(self)@),
            final(self)@ == step(old(self)@),
    {
        let state0 = self.s0;
        let state1 = self.s1;
        let state2 = self.s2 ^ state0;
        let state3 = self.s3 ^ state1;

        let m5 = state1.wrapping_mul(5);
        let result = ((m5 << 7u64) | (m5 >> 57u64)).wrapping_mul(9);

        self.s0 = state0 ^ state3;
        self.s1 = state1 ^ state2;
        self.s2 = state2 ^ (state1 << 17u64);
        self.s3 = (state3 << 45u64) | (state3 >> 19u64);

        result
    }

    /// Equivalent to `math.random(m, n)`: an integer in `[m, n]`. An empty
    /// interval (`m > n`) is an error of the caller's.
    pub fn next_range(&mut self, m: i64, n: i64) -> (r: i64)
        requires
            m <= n,
        ensures
            (r, final(self)@) == range_spec(old(self)@, m, n),
            m <= r <= n,
    {
        // the width of the interval can be as large as u64::MAX (the full
        // range), which no i64 holds
        let width = (n as i128 - m as i128) as u64;
        let ran = self.next_u64();
        let p = self.project(ran, width);
        proof {
            lemma_project_bounded(step(old(self)@), ran, width);
        }
        (m as i128 + p as i128) as i64
    }

    /// Reduce `ran` into `[0, n]`
    /// without the modulo bias, by masking to the next power of two and
    /// redrawing until the value lands in range.
    fn project(&mut self, first: u64, n: u64) -> (p: u64)
        ensures
            (p, final(self)@) == project_spec(old(self)@, first, n),
    {
        if n & n.wrapping_add(1) == 0 {
            // n + 1 is a power of two, so masking alone is unbiased
            return first & n;
        }

        // smallest 2^b - 1 that is >= n
        let mut lim = n;
        lim = lim | (lim >> 1u64);
        lim = lim | (lim >> 2u64);
        lim = lim | (lim >> 4u64);
        lim = lim | (lim >> 8u64);
        lim = lim | (lim >> 16u64);
        lim = lim | (lim >> 32u64);

        proof {
            assert(n & n.wrapping_add(1) != 0 ==> n != u64::MAX) by (bit_vector);
        }
        let mut ran = first;
        let mut redraws_left: u64 = u64::MAX;
        loop
            invariant
                n != u64::MAX,
                lim == fill_below(n),
                !is_low_mask(n),
                reject(self@, ran, n, lim, redraws_left as nat) == project_spec(
                    old(self)@,
                    first,
                    n,
                ),
            decreases redraws_left,
        {
            if ran & lim <= n {
                return ran & lim;
            }
            if redraws_left == 0 {
                return ran % (n + 1);
            }
            ran = self.next_u64();
            redraws_left = redraws_left - 1;
        }
    }
}

/// Rejection never leaves `[0, n]`.
proof fn lemma_reject_bounded(s: RngState, ran: u64, n: u64, lim: u64, fuel: nat)
    requires
        n < u64::MAX,
    ensures
        reject(s, ran, n, lim, fuel).0 <= n,
    decreases fuel,
{
    if ran & lim <= n {
    } else if fuel == 0 {
        assert((ran % ((n + 1) as u64)) < n + 1);
    } else {
        lemma_reject_bounded(step(s), output(s), n, lim, (fuel - 1) as nat);
    }
}

proof fn lemma_project_bounded(s: RngState, ran: u64, n: u64)
    ensures
        project_spec(s, ran, n).0 <= n,
{
    if is_low_mask(n) {
        assert(ran & n <= n) by (bit_vector);
    } else {
        assert(n & n.wrapping_add(1) != 0 ==> n != u64::MAX) by (bit_vector);
        lemma_reject_bounded(s, ran, n, fill_below(n), redraw_limit());
    }
}

/// Every draw from `math.random(m, n)` lies in `[m, n]`, whatever the state.
pub proof fn lemma_range_in_bounds(s: RngState, m: i64, n: i64)
    requires
        m <= n,
    ensures
        m <= range_spec(s, m, n).0 <= n,
{
    let width = (n - m) as u64;
    lemma_project_bounded(step(s), output(s), width);
}

/// `math.random(m, m)` is always `m`, and costs exactly one draw.
pub proof fn lemma_single_value_range(s: RngState, m: i64)
    ensures
        range_spec(s, m, m) == (m, step(s)),
{
    assert(0u64 & 0u64.wrapping_add(1) == 0) by (bit_vector);
    assert(forall|x: u64| #![auto] x & 0u64 == 0) by (bit_vector);
}

/// When the width of the interval is one less than a power of two, the draw is
/// simply masked: one draw, never a redraw.
pub proof fn lemma_masked_range_takes_one_draw(s: RngState, m: i64, n: i64)
    requires
        m <= n,
        is_low_mask((n - m) as u64),
    ensures
        range_spec(s, m, n) == ((m + (output(s) & ((n - m) as u64))) as i64, step(s)),
{
}

/// The mask `project` reduces a draw with is the smallest `2^b - 1` at or
/// above the width: it covers the width, it is one less than a power of two
/// (so masking is unbiased), and the next smaller such mask falls short of the
/// width -- so the mask is less than twice the width, and fewer than half the
/// masked draws are rejected.
pub proof fn lemma_the_mask_is_the_next_power_of_two_less_one(n: u64)
    ensures
        fill_below(n) >= n,
        is_low_mask(fill_below(n)),
        n > 0 ==> (fill_below(n) >> 1u64) < n,
        fill_below(n) as int <= 2 * (n as int),
{
    let f = fill_below(n);
    assert(f >= n && f & f.wrapping_add(1) == 0 && (n > 0 ==> (f >> 1u64) < n)) by (bit_vector)
        requires
            f == fill_below(n),
    ;
    assert((n > 0 ==> f == 2 * (f >> 1u64) + 1) && (n == 0 ==> f == 0)) by (bit_vector)
        requires
            f == fill_below(n),
    ;
}

/// A draw whose masked value already lies in `[0, n - m]` is taken as it is:
/// `math.random(m, n)` returns `m` plus it, after exactly one draw. In
/// particular the top of the interval, `n`, comes out of any state whose
/// masked draw is `n - m`.
pub proof fn lemma_a_draw_that_fits_is_taken(s: RngState, m: i64, n: i64)
    requires
        m <= n,
        (output(s) & fill_below((n - m) as u64)) <= (n - m) as u64,
    ensures
        range_spec(s, m, n) == ((m + (output(s) & fill_below((n - m) as u64))) as i64, step(s)),
{
    let w = (n - m) as u64;
    let f = fill_below(w);
    if is_low_mask(w) {
        assert(f == w) by (bit_vector)
            requires
                f == fill_below(w),
                w & w.wrapping_add(1) == 0,
        ;
    }
}

} // verus!
