use vstd::prelude::*;
use crate::units::SCALE;

verus! {

/// Blocks per day at ten minutes a block.
pub const BLOCKS_PER_DAY: u64 = 144;

/// Days over which freshness halves.
pub const FRESHNESS_HALF_LIFE_DAYS: u64 = 30;

/// An unspent output, with the height of the block that created it.
#[derive(Debug, Clone, Copy)]
pub struct UtxoEntry {
    pub txid: [u8; 32],
    pub vout: u32,
    /// Value in satoshis.
    pub amount: u64,
    pub height: u64,
}

/// Blocks since the output was created; none for an output above `current_height`.
pub open spec fn age_blocks(u: UtxoEntry, current_height: u64) -> int {
    if current_height >= u.height {
        current_height - u.height
    } else {
        0
    }
}

/// Total value of the outputs.
pub open spec fn amount_total(us: Seq<UtxoEntry>) -> int
    decreases us.len(),
{
    if us.len() == 0 {
        0
    } else {
        amount_total(us.drop_last()) + us.last().amount
    }
}

/// Sum of value times age in blocks.
pub open spec fn amount_age_total(us: Seq<UtxoEntry>, current_height: u64) -> int
    decreases us.len(),
{
    if us.len() == 0 {
        0
    } else {
        amount_age_total(us.drop_last(), current_height) + us.last().amount * age_blocks(
            us.last(),
            current_height,
        )
    }
}

/// Value-weighted average age in billionths of a day (144 blocks), rounded
/// down once; 0 when no output holds value (outputs of value 0 weigh nothing).
pub open spec fn weighted_age_days(us: Seq<UtxoEntry>, current_height: u64) -> int {
    if amount_total(us) == 0 {
        0
    } else {
        amount_age_total(us, current_height) * SCALE / (amount_total(us) * (BLOCKS_PER_DAY as int))
    }
}

/// Freshness in billionths: `1 / (1 + days / 30)`, rounded down.
pub open spec fn freshness_of(age_days: int) -> int {
    SCALE * (FRESHNESS_HALF_LIFE_DAYS * SCALE) / (FRESHNESS_HALF_LIFE_DAYS * SCALE + age_days)
}

proof fn lemma_amount_prefix(us: Seq<UtxoEntry>, i: int)
    requires
        0 <= i <= us.len(),
    ensures
        0 <= amount_total(us.take(i)) <= amount_total(us),
    decreases us.len(),
{
    if i < us.len() {
        assert(us.drop_last().take(i) == us.take(i));
        lemma_amount_prefix(us.drop_last(), i);
    } else {
        assert(us.take(i) == us);
        lemma_amount_nonneg(us);
    }
}

proof fn lemma_amount_nonneg(us: Seq<UtxoEntry>)
    ensures
        amount_total(us) >= 0,
    decreases us.len(),
{
    if us.len() > 0 {
        lemma_amount_nonneg(us.drop_last());
    }
}

proof fn lemma_age_prefix(us: Seq<UtxoEntry>, i: int, h: u64)
    requires
        0 <= i <= us.len(),
    ensures
        0 <= amount_age_total(us.take(i), h),
    decreases i,
{
    if i > 0 {
        assert(us.take(i).drop_last() == us.take(i - 1));
        lemma_age_prefix(us, i - 1, h);
        let u = us.take(i).last();
        assert(u.amount * age_blocks(u, h) >= 0) by (nonlinear_arith)
            requires
                u.amount >= 0,
                age_blocks(u, h) >= 0,
        ;
    }
}

/// Total value of the outputs; it always fits 128 bits.
fn total_value(utxos: &Vec<UtxoEntry>) -> (t: u128)
    ensures
        t == amount_total(utxos@),
{
    let n = utxos.len();
    let mut total: u128 = 0;
    let mut i: usize = 0;
    while i < n
        invariant
            n == utxos@.len(),
            i <= n,
            total == amount_total(utxos@.take(i as int)),
            total <= (i as int) * (u64::MAX as int),
        decreases n - i,
    {
        assert(utxos@.take(i + 1).drop_last() == utxos@.take(i as int));
        let a = utxos[i].amount as u128;
        assert((i as int + 1) * (u64::MAX as int) <= (usize::MAX as int) * (u64::MAX as int))
            by (nonlinear_arith)
            requires
                i + 1 <= usize::MAX,
        ;
        total = total + a;
        i = i + 1;
    }
    assert(utxos@.take(n as int) == utxos@);
    total
}

/// Powers of ten.
pub open spec fn pow10(k: nat) -> int
    decreases k,
{
    if k == 0 {
        1
    } else {
        10 * pow10((k - 1) as nat)
    }
}

/// `r * 10^9 / t` rounded down, for `r < t`, by decimal long division so that
/// nothing overflows.
fn scaled_fraction(r: u128, t: u128) -> (q: u128)
    requires
        r < t,
    ensures
        q == (r as int) * (SCALE as int) / (t as int),
        q < SCALE,
{
    let mut quot: u128 = 0;
    let mut y: u128 = r;
    let mut k: u32 = 0;
    while k < 9
        invariant
            k <= 9,
            y < t,
            (r as int) * pow10(k as nat) == (quot as int) * (t as int) + (y as int),
            quot < pow10(k as nat),
            pow10(k as nat) <= 1_000_000_000,
        decreases 9 - k,
    {
        // ten times y, as d * t + acc
        let mut d: u128 = 0;
        let mut acc: u128 = 0;
        let mut j: u32 = 0;
        while j < 10
            invariant
                j <= 10,
                y < t,
                acc < t,
                d <= j,
                (j as int) * (y as int) == (d as int) * (t as int) + (acc as int),
            decreases 10 - j,
        {
            assert(((j as int) + 1) * (y as int) == (j as int) * (y as int) + (y as int)) by (nonlinear_arith);
            if acc >= t - y {
                assert(((d as int) + 1) * (t as int) == (d as int) * (t as int) + (t as int)) by (nonlinear_arith);
                acc = acc - (t - y);
                d = d + 1;
            } else {
                acc = acc + y;
            }
            j = j + 1;
        }
        assert(d < 10) by (nonlinear_arith)
            requires
                10 * y == d * t + acc,
                y < t,
                acc >= 0,
                d >= 0,
        ;
        assert(pow10((k + 1) as nat) == 10 * pow10(k as nat));
        assert(pow10(k as nat) <= 100_000_000) by {
            reveal_with_fuel(pow10, 10);
        }
        assert((r as int) * pow10((k + 1) as nat) == (10 * quot + d) * (t as int) + (acc as int))
            by (nonlinear_arith)
            requires
                (r as int) * pow10(k as nat) == (quot as int) * (t as int) + (y as int),
                pow10((k + 1) as nat) == 10 * pow10(k as nat),
                10 * y == d * t + acc,
        ;
        quot = 10 * quot + d;
        y = acc;
        k = k + 1;
    }
    assert(pow10(9) == 1_000_000_000) by {
        reveal_with_fuel(pow10, 10);
    }
    proof {
        vstd::arithmetic::div_mod::lemma_fundamental_div_mod_converse(
            (r as int) * (SCALE as int),
            t as int,
            quot as int,
            y as int,
        );
    }
    quot
}

/// Value-weighted average age of the outputs, in billionths of a day, at ten
/// minutes a block. Outputs of value 0 are ignored; none at all give 0.
pub fn weighted_utxo_age_days(utxos: &Vec<UtxoEntry>, current_height: u64) -> (r: u128)
    ensures
        r == weighted_age_days(utxos@, current_height),
        r <= u64::MAX * SCALE,
{
    let total = total_value(utxos);
    if total == 0 {
        return 0;
    }
    let ghost m = u64::MAX as int;
    // sum of value times age, as q * total + rem
    let mut q: u128 = 0;
    let mut rem: u128 = 0;
    let mut i: usize = 0;
    while i < utxos.len()
        invariant
            i <= utxos@.len(),
            total == amount_total(utxos@),
            total > 0,
            m == u64::MAX as int,
            rem < total,
            (q as int) * (total as int) + (rem as int) == amount_age_total(utxos@.take(i as int), current_height),
            amount_age_total(utxos@.take(i as int), current_height) <= amount_total(utxos@.take(i as int)) * m,
            amount_total(utxos@.take(i as int)) <= total,
            q <= u64::MAX,
        decreases utxos@.len() - i,
    {
        let ghost pre = utxos@.take(i as int);
        assert(utxos@.take(i + 1).drop_last() == pre);
        assert(utxos@.take(i + 1).last() == utxos@[i as int]);
        proof {
            lemma_amount_prefix(utxos@, i + 1);
            lemma_age_prefix(utxos@, i as int, current_height);
        }
        let u = utxos[i];
        let age: u64 = if current_height >= u.height {
            current_height - u.height
        } else {
            0
        };
        let a = u.amount as u128;
        assert(a * age <= a * m) by (nonlinear_arith)
            requires
                age <= m,
                a >= 0,
        ;
        assert(a * age <= m * m) by (nonlinear_arith)
            requires
                age <= m,
                a <= m,
                a >= 0,
                age >= 0,
        ;
        let term = a * (age as u128);
        let qt = term / total;
        let rt = term % total;
        let ghost w_new = amount_age_total(utxos@.take(i + 1), current_height);
        let ghost a_new = amount_total(utxos@.take(i + 1));
        assert(age as int == age_blocks(utxos@[i as int], current_height));
        assert(w_new == amount_age_total(pre, current_height) + term);
        assert(a_new == amount_total(pre) + a);
        assert(a_new * m == amount_total(pre) * m + a * m) by (nonlinear_arith)
            requires
                a_new == amount_total(pre) + a,
        ;
        proof {
            vstd::arithmetic::div_mod::lemma_fundamental_div_mod(term as int, total as int);
            vstd::arithmetic::div_mod::lemma_mod_bound(term as int, total as int);
        }
        assert(term as int == (total as int) * (qt as int) + (rt as int));
        assert(rt < total);
        let carry: u128 = if rem >= total - rt { 1 } else { 0 };
        let ghost q_new = (q as int) + (qt as int) + (carry as int);
        let ghost rem_new: int = if carry == 1 { rem + rt - total } else { rem + rt };
        assert(q_new * (total as int) == (q as int) * (total as int) + (qt as int) * (total as int)
            + (carry as int) * (total as int)) by (nonlinear_arith)
            requires
                q_new == (q as int) + (qt as int) + (carry as int),
        ;
        assert((total as int) * (qt as int) == (qt as int) * (total as int)) by (nonlinear_arith);
        assert(q_new * (total as int) + rem_new == w_new);
        assert(q_new <= m) by (nonlinear_arith)
            requires
                q_new * (total as int) + rem_new == w_new,
                0 <= rem_new,
                w_new <= a_new * m,
                a_new <= total,
                total > 0,
                m > 0,
        ;
        q = q + qt + carry;
        rem = if carry == 1 {
            rem - (total - rt)
        } else {
            rem + rt
        };
        i = i + 1;
    }
    assert(utxos@.take(utxos@.len() as int) == utxos@);
    let frac = scaled_fraction(rem, total);
    let r = (q * (SCALE as u128) + frac) / (BLOCKS_PER_DAY as u128);
    proof {
        let w = amount_age_total(utxos@, current_height);
        let t = total as int;
        let sc = SCALE as int;
        let y = (rem as int) * sc % t;
        vstd::arithmetic::div_mod::lemma_fundamental_div_mod((rem as int) * sc, t);
        vstd::arithmetic::div_mod::lemma_mod_bound((rem as int) * sc, t);
        assert(w * sc == ((q as int) * sc + (frac as int)) * t + y) by (nonlinear_arith)
            requires
                w == (q as int) * t + (rem as int),
                (rem as int) * sc == t * (frac as int) + y,
        ;
        vstd::arithmetic::div_mod::lemma_fundamental_div_mod_converse(
            w * sc,
            t,
            (q as int) * sc + (frac as int),
            y,
        );
        lemma_age_prefix(utxos@, utxos@.len() as int, current_height);
        vstd::arithmetic::div_mod::lemma_div_denominator(w * sc, t, 144);
        assert(r <= u64::MAX * SCALE) by (nonlinear_arith)
            requires
                r == (q * SCALE + frac) / 144,
                0 <= q <= u64::MAX,
                0 <= frac < SCALE,
        ;
    }
    r
}

/// Freshness in billionths for an age in billionths of a day: 1 at age 0,
/// one half at 30 days, one quarter at 90 days.
pub fn utxo_freshness_score(age_days: u128) -> (r: u64)
    requires
        age_days <= u64::MAX * SCALE,
    ensures
        r == freshness_of(age_days as int),
        r <= SCALE,
{
    let half: u128 = 30_000_000_000;
    let num: u128 = 30_000_000_000_000_000_000;
    assert(half == FRESHNESS_HALF_LIFE_DAYS * SCALE);
    let den = half + age_days;
    assert(num / den <= SCALE) by (nonlinear_arith)
        requires
            num == SCALE * half,
            den >= half,
            half > 0,
    ;
    (num / den) as u64
}

} // verus!
