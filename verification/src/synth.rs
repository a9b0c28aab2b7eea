//! Deterministic synthetic-history generator for demo mode: a seedable
//! 32-bit PRNG, a non-cryptographic seed hash over an account identifier,
//! and a bounded backward random walk that ends exactly at a given target
//! balance. Everything is exact integer arithmetic, so a fixed set of
//! inputs reproduces the same series bit for bit on every run.

use vstd::prelude::*;
use vstd::wrapping::u32_specs;
use crate::types::AccountTypeName;

verus! {

/// FNV-1a 32-bit offset basis.
pub const FNV_OFFSET: u32 = 2_166_136_261;

/// FNV-1a 32-bit prime.
pub const FNV_PRIME: u32 = 16_777_619;

/// Fallback PRNG state used when a seed of 0 is supplied, which the
/// xorshift mixing function would keep at 0 forever.
pub const SEED_FALLBACK: u32 = 0x9E37_79B9;

/// Largest balance magnitude, in minor units, that the generator will
/// produce; the backward walk is clamped into this band so that a long
/// history can never overflow 64-bit minor-unit arithmetic.
pub const BAL_LIMIT: i64 = 100_000_000_000_000;

/// Denominator of a unit draw: a raw 32-bit draw `u` stands for the
/// fraction `u / 2^32` in `[0, 1)`.
pub const UNIT_DEN: u64 = 0x1_0000_0000;

/// Volatility is expressed in basis points, ten-thousandths.
pub const VOL_DEN: u64 = 10_000;

/// One FNV-1a step: fold a byte into the accumulator.
pub open spec fn fnv1a_step(acc: u32, b: u8) -> u32 {
    u32_specs::wrapping_mul(acc ^ (b as u32), FNV_PRIME)
}

/// FNV-1a folded over `bytes`, starting from accumulator `acc`.
pub open spec fn fnv1a_acc(bytes: Seq<u8>, acc: u32) -> u32
    decreases bytes.len(),
{
    if bytes.len() == 0 {
        acc
    } else {
        fnv1a_acc(bytes.drop_first(), fnv1a_step(acc, bytes[0]))
    }
}

/// The 32-bit FNV-1a hash of a byte string.
pub open spec fn fnv1a(bytes: Seq<u8>) -> u32 {
    fnv1a_acc(bytes, FNV_OFFSET)
}

/// FNV-1a hash of `bytes`: accumulator starts at the offset basis; each
/// byte is XORed in and the accumulator multiplied by the FNV prime with
/// wraparound.
pub fn seed_hash(bytes: &Vec<u8>) -> (r: u32)
    ensures
        r == fnv1a(bytes@),
{
    let n = bytes.len();
    let mut acc: u32 = FNV_OFFSET;
    proof {
        assert(bytes@.subrange(0, n as int) =~= bytes@);
    }
    let mut i: usize = 0;
    while i < n
        invariant
            i <= n,
            n == bytes@.len(),
            fnv1a(bytes@) == fnv1a_acc(bytes@.subrange(i as int, n as int), acc),
        decreases n - i,
    {
        let ghost s = bytes@.subrange(i as int, n as int);
        proof {
            assert(s[0] == bytes@[i as int]);
            assert(s.drop_first() =~= bytes@.subrange(i + 1, n as int));
        }
        acc = (acc ^ (bytes[i] as u32)).wrapping_mul(FNV_PRIME);
        i = i + 1;
    }
    proof {
        assert(bytes@.subrange(n as int, n as int) =~= Seq::<u8>::empty());
    }
    acc
}

/// The decimal digits of `n`, most significant first, as ASCII bytes.
pub open spec fn dec_digits(n: nat) -> Seq<u8>
    decreases n,
{
    if n < 10 {
        seq![(48 + n) as u8]
    } else {
        dec_digits(n / 10).push((48 + n % 10) as u8)
    }
}

/// The decimal rendering of `id` as ASCII bytes, with a leading minus
/// sign when negative.
pub open spec fn decimal_bytes(id: i64) -> Seq<u8> {
    if id >= 0 {
        dec_digits(id as nat)
    } else {
        seq![45u8] + dec_digits((-(id as int)) as nat)
    }
}

/// Append the decimal digits of `n` to `out`, most significant first.
fn push_decimal(n: u64, out: &mut Vec<u8>)
    ensures
        final(out)@ == old(out)@ + dec_digits(n as nat),
    decreases n,
{
    if n < 10 {
        out.push(48 + n as u8);
        proof {
            assert(final(out)@ =~= old(out)@ + dec_digits(n as nat));
        }
    } else {
        push_decimal(n / 10, out);
        out.push(48 + (n % 10) as u8);
        proof {
            assert(final(out)@ =~= old(out)@ + dec_digits(n as nat));
        }
    }
}

/// The stable per-account PRNG seed: the FNV-1a hash of the account id's
/// decimal rendering. The same account always yields the same seed.
pub fn account_seed(account_id: i64) -> (r: u32)
    ensures
        r == fnv1a(decimal_bytes(account_id)),
{
    let mut bytes: Vec<u8> = Vec::new();
    if account_id >= 0 {
        push_decimal(account_id as u64, &mut bytes);
    } else {
        bytes.push(45u8);
        let magnitude: u64 = (-(account_id as i128)) as u64;
        push_decimal(magnitude, &mut bytes);
        proof {
            assert(bytes@ =~= decimal_bytes(account_id));
        }
    }
    seed_hash(&bytes)
}

/// The state a fresh PRNG starts in for a given seed.
pub open spec fn initial_state(seed: u32) -> u32 {
    if seed == 0 {
        SEED_FALLBACK
    } else {
        seed
    }
}

/// One xorshift step of the 32-bit PRNG state; the new state is also the
/// raw draw.
pub open spec fn next_state(s: u32) -> u32 {
    let a = s ^ (s << 13u32);
    let b = a ^ (a >> 17u32);
    b ^ (b << 5u32)
}

/// A small, fast, seedable 32-bit xorshift generator. Its raw draws `u`
/// stand for fractions `u / 2^32` uniformly spread over `[0, 1)`. Not
/// cryptographically secure; it only shapes cosmetic demo data.
pub struct SeededRng {
    pub state: u32,
}

impl SeededRng {
    /// A generator in the deterministic start state for `seed`.
    pub fn new(seed: u32) -> (r: SeededRng)
        ensures
            r.state == initial_state(seed),
    {
        if seed == 0 {
            SeededRng { state: SEED_FALLBACK }
        } else {
            SeededRng { state: seed }
        }
    }

    /// The next raw 32-bit draw.
    pub fn next_u32(&mut self) -> (r: u32)
        ensures
            final(self).state == next_state(old(self).state),
            r == next_state(old(self).state),
    {
        let mut x = self.state;
        x = x ^ (x << 13u32);
        x = x ^ (x >> 17u32);
        x = x ^ (x << 5u32);
        self.state = x;
        x
    }
}

/// The integer a raw draw `u` selects from the inclusive range
/// `[lo, hi]`: `lo + floor((u / 2^32) * (hi - lo + 1))`, or `lo` when the
/// range is empty or a single point.
pub open spec fn range_draw(u: u32, lo: int, hi: int) -> int {
    if lo >= hi {
        lo
    } else {
        lo + (u * (hi - lo + 1)) / (UNIT_DEN as int)
    }
}

/// A range draw always lands inside the range.
pub proof fn lemma_range_draw_bounds(u: u32, lo: int, hi: int)
    requires
        lo <= hi,
    ensures
        lo <= range_draw(u, lo, hi) <= hi,
{
    if lo < hi {
        let span = hi - lo + 1;
        assert(u * span >= 0) by (nonlinear_arith)
            requires u >= 0 && span > 0;
        assert(u * span <= (UNIT_DEN - 1) * span) by (nonlinear_arith)
            requires u <= UNIT_DEN - 1 && span > 0;
        assert((u * span) / (UNIT_DEN as int) < span) by (nonlinear_arith)
            requires 0 <= u * span <= (UNIT_DEN - 1) * span && span > 0 && UNIT_DEN > 0;
    }
}

/// Draw an integer from the inclusive range `[lo, hi]`; when `lo >= hi`
/// the answer is `lo` and no randomness is consumed.
pub fn draw_in_range(rng: &mut SeededRng, lo: i64, hi: i64) -> (r: i64)
    ensures
        lo >= hi ==> r == lo && *final(rng) == *old(rng),
        lo < hi ==> final(rng).state == next_state(old(rng).state)
            && r == range_draw(next_state(old(rng).state), lo as int, hi as int),
        lo <= hi ==> lo <= r <= hi,
{
    if lo >= hi {
        return lo;
    }
    let u = rng.next_u32();
    let span: i128 = hi as i128 - lo as i128 + 1;
    proof {
        assert(0 <= u as int * span <= 0xffff_ffff * 0x2_0000_0000_0000_0000) by (nonlinear_arith)
            requires 0 <= u <= 0xffff_ffff && 0 < span <= 0x2_0000_0000_0000_0000;
    }
    let scaled: i128 = (u as i128 * span) / (UNIT_DEN as i128);
    proof {
        lemma_range_draw_bounds(u, lo as int, hi as int);
    }
    (lo as i128 + scaled) as i64
}

/// Per-category shape of a synthetic history: how many days it spans
/// (drawn from an inclusive range) and how jumpy it is day to day. The
/// volatility is a fraction of the current balance magnitude in basis
/// points; the magnitude is floored at `min_scale_minor` so that
/// near-zero balances still move.
#[derive(Debug, Clone, Copy)]
pub struct CategoryProfile {
    pub min_days: u16,
    pub max_days: u16,
    pub vol_bp: u16,
    pub min_scale_minor: i64,
}

/// A profile is well formed: at least one day, a nonempty day range, a
/// volatility of at most 100%, and a positive magnitude floor within the
/// balance band.
pub open spec fn profile_wf(p: CategoryProfile) -> bool {
    &&& 1 <= p.min_days <= p.max_days
    &&& 1 <= p.vol_bp <= 10_000
    &&& 1 <= p.min_scale_minor <= BAL_LIMIT
}

/// The configured history shape of each account category. Steadier,
/// longer-lived categories (pensions, loans) get longer and calmer
/// histories than day-to-day ones.
pub open spec fn spec_category_profile(cat: AccountTypeName) -> CategoryProfile {
    match cat {
        AccountTypeName::Current => CategoryProfile {
            min_days: 120, max_days: 240, vol_bp: 150, min_scale_minor: 10_000,
        },
        AccountTypeName::Savings => CategoryProfile {
            min_days: 180, max_days: 360, vol_bp: 80, min_scale_minor: 10_000,
        },
        AccountTypeName::CreditCard => CategoryProfile {
            min_days: 90, max_days: 210, vol_bp: 200, min_scale_minor: 10_000,
        },
        AccountTypeName::Isa => CategoryProfile {
            min_days: 240, max_days: 480, vol_bp: 120, min_scale_minor: 10_000,
        },
        AccountTypeName::Investment => CategoryProfile {
            min_days: 240, max_days: 540, vol_bp: 300, min_scale_minor: 10_000,
        },
        AccountTypeName::Pension => CategoryProfile {
            min_days: 540, max_days: 900, vol_bp: 100, min_scale_minor: 10_000,
        },
        AccountTypeName::Cash => CategoryProfile {
            min_days: 60, max_days: 150, vol_bp: 100, min_scale_minor: 5_000,
        },
        AccountTypeName::Loan => CategoryProfile {
            min_days: 360, max_days: 720, vol_bp: 60, min_scale_minor: 10_000,
        },
    }
}

/// Every configured profile is well formed.
pub proof fn lemma_profiles_wf(cat: AccountTypeName)
    ensures
        profile_wf(spec_category_profile(cat)),
{
}

/// The configured history shape of an account category.
pub fn category_profile(cat: AccountTypeName) -> (p: CategoryProfile)
    ensures
        p == spec_category_profile(cat),
        profile_wf(p),
{
    match cat {
        AccountTypeName::Current => CategoryProfile {
            min_days: 120, max_days: 240, vol_bp: 150, min_scale_minor: 10_000,
        },
        AccountTypeName::Savings => CategoryProfile {
            min_days: 180, max_days: 360, vol_bp: 80, min_scale_minor: 10_000,
        },
        AccountTypeName::CreditCard => CategoryProfile {
            min_days: 90, max_days: 210, vol_bp: 200, min_scale_minor: 10_000,
        },
        AccountTypeName::Isa => CategoryProfile {
            min_days: 240, max_days: 480, vol_bp: 120, min_scale_minor: 10_000,
        },
        AccountTypeName::Investment => CategoryProfile {
            min_days: 240, max_days: 540, vol_bp: 300, min_scale_minor: 10_000,
        },
        AccountTypeName::Pension => CategoryProfile {
            min_days: 540, max_days: 900, vol_bp: 100, min_scale_minor: 10_000,
        },
        AccountTypeName::Cash => CategoryProfile {
            min_days: 60, max_days: 150, vol_bp: 100, min_scale_minor: 5_000,
        },
        AccountTypeName::Loan => CategoryProfile {
            min_days: 360, max_days: 720, vol_bp: 60, min_scale_minor: 10_000,
        },
    }
}

/// Division rounded to the nearest integer with halves away from zero;
/// `den` must be positive.
pub open spec fn round_div_away(num: int, den: int) -> int {
    let a = if num < 0 { -num } else { num };
    let q = a / den;
    let r = a % den;
    let m = if 2 * r >= den { q + 1 } else { q };
    if num < 0 { -m } else { m }
}

/// Clamp a candidate balance into the supported magnitude band, then onto
/// the side of zero that the account's sign convention allows: positive
/// accounts never go below 0, debt accounts never go above 0.
pub open spec fn clamp_value(v: int, sign: i32) -> int {
    let b = if v > BAL_LIMIT { BAL_LIMIT as int } else if v < -BAL_LIMIT { -(BAL_LIMIT as int) } else { v };
    if sign == 1 {
        if b < 0 { 0 } else { b }
    } else {
        if b > 0 { 0 } else { b }
    }
}

/// One backward step of the walk from balance `cur` using raw draw `u`:
/// the draw becomes a noise fraction in `(-1, 1)` with denominator
/// `2^31`, scaled by the profile volatility and by the balance magnitude
/// (floored at the profile's minimum scale), rounded half away from zero
/// to whole minor units, subtracted, and clamped by `clamp_value`.
pub open spec fn walk_prev(cur: i64, u: u32, p: CategoryProfile, sign: i32) -> int {
    let noise = u - 0x8000_0000;
    let a = if cur < 0 { -(cur as int) } else { cur as int };
    let magnitude = if a < p.min_scale_minor { p.min_scale_minor as int } else { a };
    let delta = round_div_away(noise * p.vol_bp * magnitude, 0x8000_0000 * (VOL_DEN as int));
    clamp_value(cur - delta, sign)
}

/// The values the backward walk visits from `cur` (exclusive), most
/// recent first: `k` further days into the past, each produced from the
/// previous by `walk_prev` with one fresh draw.
pub open spec fn walk_rev(state: u32, cur: i64, p: CategoryProfile, sign: i32, k: nat) -> Seq<i64>
    decreases k,
{
    if k == 0 {
        Seq::empty()
    } else {
        let u = next_state(state);
        let prev = walk_prev(cur, u, p, sign) as i64;
        seq![prev] + walk_rev(u, prev, p, sign, (k - 1) as nat)
    }
}

/// A clamped value lies in the magnitude band and on the allowed side of
/// zero, whatever the candidate was.
pub proof fn lemma_clamp_bounds(sign: i32)
    requires
        sign == 1 || sign == -1,
    ensures
        sign == 1 ==> forall|v: int| 0 <= #[trigger] clamp_value(v, sign) <= BAL_LIMIT,
        sign == -1 ==> forall|v: int| -BAL_LIMIT <= #[trigger] clamp_value(v, sign) <= 0,
{
}

/// The backward walk visits exactly `k` values.
pub proof fn lemma_walk_rev_len(state: u32, cur: i64, p: CategoryProfile, sign: i32, k: nat)
    ensures
        walk_rev(state, cur, p, sign, k).len() == k,
    decreases k,
{
    if k > 0 {
        let u = next_state(state);
        let prev = walk_prev(cur, u, p, sign) as i64;
        lemma_walk_rev_len(u, prev, p, sign, (k - 1) as nat);
    }
}

/// Every value the backward walk produces is clamped: within the
/// magnitude band, and on the allowed side of zero for the sign.
pub proof fn lemma_walk_rev_clamped(state: u32, cur: i64, p: CategoryProfile, sign: i32, k: nat)
    requires
        sign == 1 || sign == -1,
    ensures
        forall|i: int| 0 <= i < walk_rev(state, cur, p, sign, k).len()
            ==> {
                let v = #[trigger] walk_rev(state, cur, p, sign, k)[i];
                &&& sign == 1 ==> 0 <= v <= BAL_LIMIT
                &&& sign == -1 ==> -BAL_LIMIT <= v <= 0
            },
    decreases k,
{
    lemma_clamp_bounds(sign);
    if k > 0 {
        let u = next_state(state);
        let prev = walk_prev(cur, u, p, sign) as i64;
        lemma_walk_rev_clamped(u, prev, p, sign, (k - 1) as nat);
        let w = walk_rev(state, cur, p, sign, k);
        let rest = walk_rev(u, prev, p, sign, (k - 1) as nat);
        assert forall|i: int| 0 <= i < w.len() implies {
            let v = #[trigger] w[i];
            &&& sign == 1 ==> 0 <= v <= BAL_LIMIT
            &&& sign == -1 ==> -BAL_LIMIT <= v <= 0
        } by {
            if i == 0 {
                assert(w[0] == prev);
            } else {
                assert(w[i] == rest[i - 1]);
            }
        }
    }
}

/// One backward step of the walk, executed.
fn walk_step(cur: i64, u: u32, p: &CategoryProfile, sign: i32) -> (r: i64)
    requires
        profile_wf(*p),
        sign == 1 || sign == -1,
        -BAL_LIMIT <= cur <= BAL_LIMIT,
    ensures
        r == walk_prev(cur, u, *p, sign),
        sign == 1 ==> 0 <= r <= BAL_LIMIT,
        sign == -1 ==> -BAL_LIMIT <= r <= 0,
{
    let noise: i64 = u as i64 - 0x8000_0000;
    let a: i64 = if cur < 0 { -cur } else { cur };
    let magnitude: i64 = if a < p.min_scale_minor { p.min_scale_minor } else { a };
    proof {
        assert(-0x8000_0000 * 0x1_0000 <= noise as int * (p.vol_bp as int) <= 0x8000_0000 * 0x1_0000)
            by (nonlinear_arith)
            requires -0x8000_0000 <= noise <= 0x8000_0000 && 0 <= p.vol_bp <= 0x1_0000;
        assert(-0x8000_0000 * 0x1_0000 * BAL_LIMIT
            <= noise as int * (p.vol_bp as int) * (magnitude as int)
            <= 0x8000_0000 * 0x1_0000 * BAL_LIMIT) by (nonlinear_arith)
            requires
                -0x8000_0000 * 0x1_0000 <= noise as int * (p.vol_bp as int) <= 0x8000_0000 * 0x1_0000
                    && 0 <= magnitude <= BAL_LIMIT;
    }
    let num: i128 = noise as i128 * p.vol_bp as i128 * magnitude as i128;
    let den: i128 = 0x8000_0000i128 * VOL_DEN as i128;
    let abs_num: i128 = if num < 0 { -num } else { num };
    let q: i128 = abs_num / den;
    let rem: i128 = abs_num % den;
    let m: i128 = if 2 * rem >= den { q + 1 } else { q };
    let delta: i128 = if num < 0 { -m } else { m };
    let candidate: i128 = cur as i128 - delta;
    let banded: i128 = if candidate > BAL_LIMIT as i128 {
        BAL_LIMIT as i128
    } else if candidate < -(BAL_LIMIT as i128) {
        -(BAL_LIMIT as i128)
    } else {
        candidate
    };
    let clamped: i128 = if sign == 1 {
        if banded < 0 { 0 } else { banded }
    } else {
        if banded > 0 { 0 } else { banded }
    };
    proof {
        lemma_clamp_bounds(sign);
    }
    clamped as i64
}

/// The backward walk itself: `k` days into the past from `cur`, most
/// recent first, consuming one draw per day.
fn walk_backward(rng: &mut SeededRng, cur: i64, p: &CategoryProfile, sign: i32, k: usize)
    -> (r: Vec<i64>)
    requires
        profile_wf(*p),
        sign == 1 || sign == -1,
        -BAL_LIMIT <= cur <= BAL_LIMIT,
    ensures
        r@ == walk_rev(old(rng).state, cur, *p, sign, k as nat),
    decreases k,
{
    if k == 0 {
        Vec::new()
    } else {
        let u = rng.next_u32();
        let prev = walk_step(cur, u, p, sign);
        let mut out: Vec<i64> = Vec::new();
        out.push(prev);
        let mut rest = walk_backward(rng, prev, p, sign, k - 1);
        out.append(&mut rest);
        proof {
            assert(out@ =~= walk_rev(old(rng).state, cur, *p, sign, k as nat));
        }
        out
    }
}

/// The series `generate` produces for these inputs, and the day its
/// history starts, as a pure function: the whole output is determined by
/// the account id, category, target, sign and date alone.
pub open spec fn generate_spec(
    account_id: i64,
    category: AccountTypeName,
    target_minor: i64,
    sign: i32,
    today: i64,
) -> (int, Seq<i64>) {
    let p = spec_category_profile(category);
    let s0 = initial_state(fnv1a(decimal_bytes(account_id)));
    let len = if p.min_days >= p.max_days {
        p.min_days as int
    } else {
        range_draw(next_state(s0), p.min_days as int, p.max_days as int)
    };
    let s1 = if p.min_days >= p.max_days { s0 } else { next_state(s0) };
    let series = walk_rev(s1, target_minor, p, sign, (len - 1) as nat).reverse().push(target_minor);
    (today - len + 1, series)
}

/// Generate a plausible dense daily history for a demo account: the
/// returned pair is the day the history starts and one known balance per
/// day from that day through `today`, whose last entry equals
/// `target_minor` exactly. The length is drawn from the category's
/// configured range and the values walk backward from the target with
/// category-scaled noise, clamped to the side of zero that `sign`
/// allows. The output is a pure function of the five inputs.
pub fn generate(
    account_id: i64,
    category: AccountTypeName,
    target_minor: i64,
    sign: i32,
    today: i64,
) -> (r: (i64, Vec<i64>))
    requires
        sign == 1 || sign == -1,
        sign == 1 ==> 0 <= target_minor <= BAL_LIMIT,
        sign == -1 ==> -BAL_LIMIT <= target_minor <= 0,
        crate::valid_day(today),
    ensures
        r.0 == generate_spec(account_id, category, target_minor, sign, today).0,
        r.1@ == generate_spec(account_id, category, target_minor, sign, today).1,
        spec_category_profile(category).min_days <= r.1@.len()
            <= spec_category_profile(category).max_days,
        r.0 == today - r.1@.len() + 1,
        r.1@.last() == target_minor,
        sign == 1 ==> forall|i: int| 0 <= i < r.1@.len() ==> 0 <= #[trigger] r.1@[i] <= BAL_LIMIT,
        sign == -1 ==> forall|i: int| 0 <= i < r.1@.len() ==> -BAL_LIMIT <= #[trigger] r.1@[i] <= 0,
{
    let p = category_profile(category);
    let seed = account_seed(account_id);
    let mut rng = SeededRng::new(seed);

    let len_draw: i64 = draw_in_range(&mut rng, p.min_days as i64, p.max_days as i64);
    let len: usize = len_draw as usize;
    let ghost s1 = rng.state;

    let rev = walk_backward(&mut rng, target_minor, &p, sign, len - 1);
    let ghost rev_seq = walk_rev(s1, target_minor, p, sign, (len - 1) as nat);
    proof {
        lemma_walk_rev_len(s1, target_minor, p, sign, (len - 1) as nat);
    }

    let mut out: Vec<i64> = Vec::new();
    let rev_len = rev.len();
    let mut j: usize = rev_len;
    while j > 0
        invariant
            j <= rev_len,
            rev_len == rev_seq.len(),
            rev@ == rev_seq,
            out@.len() == rev_len - j,
            forall|i: int| 0 <= i < out@.len()
                ==> #[trigger] out@[i] == rev_seq[rev_len - 1 - i],
        decreases j,
    {
        j = j - 1;
        out.push(rev[j]);
    }
    proof {
        assert(out@ =~= rev_seq.reverse());
    }
    out.push(target_minor);
    proof {
        assert(out@ =~= generate_spec(account_id, category, target_minor, sign, today).1);
        lemma_walk_rev_clamped(s1, target_minor, p, sign, (len - 1) as nat);
    }
    let start_day: i64 = today - (len as i64) + 1;
    (start_day, out)
}

/// Determinism: any two outputs that satisfy the generator's contract for
/// the same inputs are identical, so repeated calls with the same account
/// id, category, target, sign and date reproduce the series exactly.
pub proof fn lemma_generate_deterministic(
    account_id: i64,
    category: AccountTypeName,
    target_minor: i64,
    sign: i32,
    today: i64,
    r1: (int, Seq<i64>),
    r2: (int, Seq<i64>),
)
    requires
        r1 == generate_spec(account_id, category, target_minor, sign, today),
        r2 == generate_spec(account_id, category, target_minor, sign, today),
    ensures
        r1 == r2,
{
}

} // verus!
