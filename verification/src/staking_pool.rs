//! The arithmetic of the staking pool: how compute credits convert to claim
//! tokens and back, how a fee is split, and why the exchange rate never falls.
use vstd::prelude::*;

verus! {

/// Claim tokens minted for `amount` compute credits staked into a pool that
/// holds `total_compute` credits against `total_staked` claim tokens.
///
/// The first stake into a pool without claims is 1:1; later stakes mint
/// `floor(amount * total_staked / total_compute)`.
pub open spec fn minted_claims(total_compute: nat, total_staked: nat, amount: nat) -> nat {
    if total_staked == 0 {
        amount
    } else {
        amount * total_staked / total_compute
    }
}

/// Compute credits paid out for `staked_amount` claim tokens:
/// `floor(staked_amount * total_compute / total_staked)`.
pub open spec fn redeemed_compute(
    total_compute: nat,
    total_staked: nat,
    staked_amount: nat,
) -> nat {
    staked_amount * total_compute / total_staked
}

/// The part of `amount` that goes to stakers at `share` percent:
/// `floor(amount * share / 100)`.
pub open spec fn staker_portion(amount: nat, share: nat) -> nat {
    amount * share / 100
}

/// The exchange rate in billionths of a credit per claim token:
/// `floor(total_compute * 10^9 / total_staked)`.
pub open spec fn scaled_rate(total_compute: nat, total_staked: nat) -> nat {
    total_compute * 1_000_000_000 / total_staked
}

/// The totals of a staking pool.
pub struct Pool {
    pub total_compute: nat,
    pub total_staked: nat,
}

/// One state change of a pool.
pub enum PoolOp {
    /// Stake this many compute credits.
    Stake(nat),
    /// Redeem this many claim tokens.
    Unstake(nat),
    /// Credit this staker portion of a fee to the pool.
    Settle(nat),
}

impl Pool {
    /// The exchange rate of `self` is at most that of `later`; both pools
    /// have claims outstanding. Stated without division:
    /// `self.total_compute / self.total_staked <= later.total_compute / later.total_staked`.
    pub open spec fn rate_le(self, later: Pool) -> bool {
        self.total_compute * later.total_staked <= later.total_compute * self.total_staked
    }

    /// The exchange rate of `self` is strictly below that of `later`.
    pub open spec fn rate_lt(self, later: Pool) -> bool {
        self.total_compute * later.total_staked < later.total_compute * self.total_staked
    }

    /// Whether `op` succeeds on this pool.
    pub open spec fn accepts(self, op: PoolOp) -> bool {
        match op {
            PoolOp::Stake(amount) => amount > 0 && (self.total_staked == 0 || self.total_compute
                > 0),
            PoolOp::Unstake(staked_amount) => 0 < self.total_staked && staked_amount
                <= self.total_staked,
            PoolOp::Settle(_) => true,
        }
    }

    /// The pool after `op`.
    pub open spec fn apply(self, op: PoolOp) -> Pool {
        match op {
            PoolOp::Stake(amount) => Pool {
                total_compute: self.total_compute + amount,
                total_staked: self.total_staked + minted_claims(
                    self.total_compute,
                    self.total_staked,
                    amount,
                ),
            },
            PoolOp::Unstake(staked_amount) => Pool {
                total_compute: (self.total_compute - redeemed_compute(
                    self.total_compute,
                    self.total_staked,
                    staked_amount,
                )) as nat,
                total_staked: (self.total_staked - staked_amount) as nat,
            },
            PoolOp::Settle(portion) => Pool {
                total_compute: self.total_compute + portion,
                total_staked: self.total_staked,
            },
        }
    }

    /// Every operation of `ops`, taken in order from this pool, succeeds and
    /// leaves claims outstanding.
    pub open spec fn accepts_all(self, ops: Seq<PoolOp>) -> bool
        decreases ops.len(),
    {
        if ops.len() == 0 {
            true
        } else {
            &&& self.accepts(ops[0])
            &&& self.apply(ops[0]).total_staked > 0
            &&& self.apply(ops[0]).accepts_all(ops.drop_first())
        }
    }

    /// The pool after all of `ops`, taken in order.
    pub open spec fn apply_all(self, ops: Seq<PoolOp>) -> Pool
        decreases ops.len(),
    {
        if ops.len() == 0 {
            self
        } else {
            self.apply(ops[0]).apply_all(ops.drop_first())
        }
    }
}

/// `q` is the floor of `x / d`: the two bounds that pin a quotient down.
proof fn lemma_floor_bounds(x: nat, d: nat)
    requires
        d > 0,
    ensures
        d * (x / d) <= x < d * (x / d) + d,
{
    vstd::arithmetic::div_mod::lemma_fundamental_div_mod(x as int, d as int);
    vstd::arithmetic::div_mod::lemma_mod_bound(x as int, d as int);
}

/// A quotient is at most `bound` when the dividend is below `d * (bound + 1)`.
proof fn lemma_floor_le(x: nat, d: nat, bound: nat)
    requires
        d > 0,
        x < d * (bound + 1),
    ensures
        x / d <= bound,
{
    lemma_floor_bounds(x, d);
    assert(x / d <= bound) by (nonlinear_arith)
        requires
            d > 0,
            d * (x / d) <= x,
            x < d * (bound + 1),
    ;
}

/// A fee split never hands stakers more than the fee, for any share up to
/// one hundred percent; nothing at zero percent and everything at one hundred.
pub proof fn lemma_staker_portion_bounds(amount: nat, share: nat)
    requires
        share <= 100,
    ensures
        staker_portion(amount, share) <= amount,
        share == 0 ==> staker_portion(amount, share) == 0,
        share == 100 ==> staker_portion(amount, share) == amount,
{
    assert(amount * share <= amount * 100) by (nonlinear_arith)
        requires
            share <= 100,
    ;
    assert(amount * share < 100 * (amount + 1)) by (nonlinear_arith)
        requires
            amount * share <= amount * 100,
    ;
    lemma_floor_le(amount * share, 100, amount);
    if share == 0 {
        assert(amount * share == 0) by (nonlinear_arith)
            requires
                share == 0,
        ;
    }
    if share == 100 {
        assert(amount * share == amount * 100);
    }
}

/// Staking into a pool with claims outstanding mints no more claims than the
/// current rate allows, so the rate does not fall; it rises by less than one
/// rounding step: `0 <= (tc + a) * ts - tc * (ts + minted) < tc`.
pub proof fn lemma_stake_keeps_rate(pool: Pool, amount: nat)
    requires
        pool.total_staked > 0,
        pool.total_compute > 0,
    ensures
        pool.rate_le(pool.apply(PoolOp::Stake(amount))),
        pool.apply(PoolOp::Stake(amount)).total_compute * pool.total_staked
            - pool.total_compute * pool.apply(PoolOp::Stake(amount)).total_staked
            < pool.total_compute,
{
    let tc = pool.total_compute;
    let ts = pool.total_staked;
    let m = minted_claims(tc, ts, amount);
    lemma_floor_bounds(amount * ts, tc);
    assert(tc * (ts + m) <= (tc + amount) * ts && (tc + amount) * ts - tc * (ts + m) < tc)
        by (nonlinear_arith)
        requires
            tc * m <= amount * ts,
            amount * ts < tc * m + tc,
    ;
}

/// Redeeming claims pays out no more than the current rate allows, so the
/// rate of what stays in the pool does not fall; it rises by less than one
/// rounding step: `0 <= (tc - paid) * ts - tc * (ts - s) < ts`. The payout
/// never exceeds what the pool holds.
pub proof fn lemma_unstake_keeps_rate(pool: Pool, staked_amount: nat)
    requires
        pool.total_staked > 0,
        staked_amount <= pool.total_staked,
    ensures
        redeemed_compute(pool.total_compute, pool.total_staked, staked_amount)
            <= pool.total_compute,
        pool.rate_le(pool.apply(PoolOp::Unstake(staked_amount))),
        pool.apply(PoolOp::Unstake(staked_amount)).total_compute * pool.total_staked
            - pool.total_compute * pool.apply(PoolOp::Unstake(staked_amount)).total_staked
            < pool.total_staked,
{
    let tc = pool.total_compute;
    let ts = pool.total_staked;
    let c = redeemed_compute(tc, ts, staked_amount);
    lemma_floor_bounds(staked_amount * tc, ts);
    assert(c <= tc) by (nonlinear_arith)
        requires
            ts * c <= staked_amount * tc,
            staked_amount <= ts,
            ts > 0,
    ;
    assert(tc * (ts - staked_amount) <= (tc - c) * ts && (tc - c) * ts - tc * (ts
        - staked_amount) < ts) by (nonlinear_arith)
        requires
            ts * c <= staked_amount * tc,
            staked_amount * tc < ts * c + ts,
    ;
}

/// Crediting a staker portion to a pool with claims outstanding never lowers
/// the rate, and raises it when the portion is positive.
pub proof fn lemma_settle_raises_rate(pool: Pool, portion: nat)
    requires
        pool.total_staked > 0,
    ensures
        pool.rate_le(pool.apply(PoolOp::Settle(portion))),
        portion > 0 ==> pool.rate_lt(pool.apply(PoolOp::Settle(portion))),
{
    let tc = pool.total_compute;
    let ts = pool.total_staked;
    assert(tc * ts <= (tc + portion) * ts && (portion > 0 ==> tc * ts < (tc + portion) * ts))
        by (nonlinear_arith)
        requires
            ts > 0,
    ;
}

/// Any single operation that a pool with claims outstanding accepts, and
/// that leaves claims outstanding, does not lower the exchange rate.
pub proof fn lemma_step_keeps_rate(pool: Pool, op: PoolOp)
    requires
        pool.total_staked > 0,
        pool.accepts(op),
    ensures
        pool.rate_le(pool.apply(op)),
{
    match op {
        PoolOp::Stake(amount) => {
            lemma_stake_keeps_rate(pool, amount);
        },
        PoolOp::Unstake(staked_amount) => {
            lemma_unstake_keeps_rate(pool, staked_amount);
        },
        PoolOp::Settle(portion) => {
            lemma_settle_raises_rate(pool, portion);
        },
    }
}

/// The order of exchange rates is transitive across pools with claims
/// outstanding.
pub proof fn lemma_rate_le_transitive(a: Pool, b: Pool, c: Pool)
    requires
        a.total_staked > 0,
        b.total_staked > 0,
        c.total_staked > 0,
        a.rate_le(b),
        b.rate_le(c),
    ensures
        a.rate_le(c),
{
    let (x, p) = (a.total_compute, a.total_staked);
    let (y, q) = (b.total_compute, b.total_staked);
    let (z, r) = (c.total_compute, c.total_staked);
    assert((x * r) * q <= (z * p) * q) by (nonlinear_arith)
        requires
            x * q <= y * p,
            y * r <= z * q,
            p > 0,
            q > 0,
            r > 0,
    ;
    assert(x * r <= z * p) by (nonlinear_arith)
        requires
            (x * r) * q <= (z * p) * q,
            q > 0,
    ;
}

/// Across any interleaving of stakes, redemptions and fee settlements that
/// all succeed and never empty the pool of claims, the exchange rate
/// `total_compute / total_staked` at the end is at least the rate at the
/// start.
pub proof fn lemma_rate_never_falls(pool: Pool, ops: Seq<PoolOp>)
    requires
        pool.total_staked > 0,
        pool.accepts_all(ops),
    ensures
        pool.apply_all(ops).total_staked > 0,
        pool.rate_le(pool.apply_all(ops)),
    decreases ops.len(),
{
    if ops.len() == 0 {
        assert(pool.total_compute * pool.total_staked <= pool.total_compute * pool.total_staked);
    } else {
        let next = pool.apply(ops[0]);
        lemma_step_keeps_rate(pool, ops[0]);
        lemma_rate_never_falls(next, ops.drop_first());
        lemma_rate_le_transitive(pool, next, next.apply_all(ops.drop_first()));
    }
}

/// An interleaving that holds a fee settlement with a positive staker
/// portion ends at a strictly higher exchange rate than it began.
pub proof fn lemma_rate_rises_with_fees(
    pool: Pool,
    before: Seq<PoolOp>,
    portion: nat,
    after: Seq<PoolOp>,
)
    requires
        pool.total_staked > 0,
        portion > 0,
        pool.accepts_all(before),
        pool.apply_all(before).apply(PoolOp::Settle(portion)).accepts_all(after),
    ensures
        pool.rate_lt(
            pool.apply_all(before).apply(PoolOp::Settle(portion)).apply_all(after),
        ),
{
    let mid = pool.apply_all(before);
    lemma_rate_never_falls(pool, before);
    let paid = mid.apply(PoolOp::Settle(portion));
    lemma_settle_raises_rate(mid, portion);
    let end = paid.apply_all(after);
    lemma_rate_never_falls(paid, after);
    let (x, p) = (pool.total_compute, pool.total_staked);
    let (y, q) = (mid.total_compute, mid.total_staked);
    let (w, s) = (paid.total_compute, paid.total_staked);
    let (z, r) = (end.total_compute, end.total_staked);
    assert(s == q);
    assert((x * r) * q < (z * p) * q) by (nonlinear_arith)
        requires
            x * q <= y * p,
            y * q < w * q,
            w * r <= z * q,
            p > 0,
            q > 0,
            r > 0,
    ;
    assert(x * r < z * p) by (nonlinear_arith)
        requires
            (x * r) * q < (z * p) * q,
            q > 0,
    ;
}

/// Staking `amount` and at once redeeming the claims it minted pays back at
/// most `amount`: rounding loses value to the pool and never gains it.
///
/// The pool either has claims outstanding and holds credits, or is wholly
/// empty.
pub proof fn lemma_round_trip_non_expansive(pool: Pool, amount: nat)
    requires
        amount > 0,
        pool.total_staked == 0 ==> pool.total_compute == 0,
        pool.total_staked > 0 ==> pool.total_compute > 0,
    ensures
        ({
            let staked = pool.apply(PoolOp::Stake(amount));
            let minted = minted_claims(pool.total_compute, pool.total_staked, amount);
            &&& staked.total_staked > 0
            &&& redeemed_compute(staked.total_compute, staked.total_staked, minted) <= amount
        }),
{
    let tc = pool.total_compute;
    let ts = pool.total_staked;
    let m = minted_claims(tc, ts, amount);
    if m == 0 {
        assert(m * (tc + amount) == 0) by (nonlinear_arith)
            requires
                m == 0,
        ;
    } else {
        if ts == 0 {
            assert(m * (tc + amount) < (ts + m) * (amount + 1)) by (nonlinear_arith)
                requires
                    ts == 0,
                    tc == 0,
                    m == amount,
                    m > 0,
            ;
        } else {
            lemma_floor_bounds(amount * ts, tc);
            assert(m * (tc + amount) < (ts + m) * (amount + 1)) by (nonlinear_arith)
                requires
                    tc * m <= amount * ts,
                    ts > 0,
                    m > 0,
            ;
        }
        lemma_floor_le(m * (tc + amount), ts + m, amount);
    }
}

} // verus!
