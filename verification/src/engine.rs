//! The progression engine: one discrete tick advances every resource's
//! fractional progress by `level * progress_per_tick`, credits the whole
//! part to the banked amount (saturating at the machine word), and keeps
//! only the fractional remainder.

use vstd::prelude::*;
use vstd::arithmetic::div_mod::lemma_fundamental_div_mod;
use vstd::arithmetic::div_mod::lemma_fundamental_div_mod_converse_div;
use vstd::arithmetic::div_mod::lemma_fundamental_div_mod_converse_mod;
use crate::PROGRESS_DENOM;
use crate::economy::{GameState, Resource, wf_state};

verus! {

/// Clamp a nonnegative mathematical integer into a `u64`.
pub open spec fn sat_u64(x: int) -> u64 {
    if x > u64::MAX {
        u64::MAX
    } else if x < 0 {
        0
    } else {
        x as u64
    }
}

/// One tick of a single resource: add `level * progress_per_tick` to the
/// fractional progress, credit the whole part (saturating), keep the rest.
pub open spec fn ticked(r: Resource) -> Resource {
    let total = r.progress + r.level * r.progress_per_tick;
    Resource {
        amount: sat_u64(r.amount + total / (PROGRESS_DENOM as int)),
        progress: (total % (PROGRESS_DENOM as int)) as u64,
        ..r
    }
}

/// One tick of the whole roster, each resource independently.
pub open spec fn ticked_all(rs: Seq<Resource>) -> Seq<Resource> {
    rs.map_values(|r: Resource| ticked(r))
}

/// `n` ticks in sequence.
pub open spec fn tick_n(rs: Seq<Resource>, n: nat) -> Seq<Resource>
    decreases n,
{
    if n == 0 {
        rs
    } else {
        ticked_all(tick_n(rs, (n - 1) as nat))
    }
}

/// The closed form of `n` ticks of one resource with no level change in
/// between: accumulate `n * level * progress_per_tick` at once and carry
/// the whole part with the same floor rule.
pub open spec fn accrued(r: Resource, n: nat) -> Resource {
    let total = r.progress + n * (r.level * r.progress_per_tick);
    Resource {
        amount: sat_u64(r.amount + total / (PROGRESS_DENOM as int)),
        progress: (total % (PROGRESS_DENOM as int)) as u64,
        ..r
    }
}

/// One tick of one resource, executably.
fn ticked_resource(r: &Resource) -> (out: Resource)
    ensures
        out == ticked(*r),
{
    proof {
        assert(r.level * r.progress_per_tick <= (u64::MAX as int) * (u64::MAX as int))
            by (nonlinear_arith)
            requires r.level <= u64::MAX, r.progress_per_tick <= u64::MAX;
    }
    let total: u128 = r.progress as u128 + (r.level as u128) * (r.progress_per_tick as u128);
    let whole: u128 = total / (PROGRESS_DENOM as u128);
    let progress: u64 = (total % (PROGRESS_DENOM as u128)) as u64;
    let amount: u64 = if whole > (u64::MAX - r.amount) as u128 {
        u64::MAX
    } else {
        r.amount + (whole as u64)
    };
    Resource {
        resource_type: r.resource_type,
        amount,
        level: r.level,
        cost: r.cost,
        progress,
        progress_per_tick: r.progress_per_tick,
    }
}

/// One tick of every resource in `rs`, in order.
fn ticked_vec(rs: &Vec<Resource>) -> (out: Vec<Resource>)
    ensures
        out@ == ticked_all(rs@),
{
    let mut out: Vec<Resource> = Vec::new();
    let mut i: usize = 0;
    while i < rs.len()
        invariant
            i <= rs.len(),
            out@.len() == i,
            forall|j: int| 0 <= j < i ==> out@[j] == ticked(rs@[j]),
        decreases rs.len() - i,
    {
        out.push(ticked_resource(&rs[i]));
        i = i + 1;
    }
    proof {
        assert(out@ =~= ticked_all(rs@));
    }
    out
}

impl GameState {
    /// Advance every resource by one tick, in collection order. After the
    /// tick every resource's fractional progress is again a proper fraction,
    /// and a well-formed state stays well formed.
    pub fn tick(&mut self)
        ensures
            final(self).resources@ == ticked_all(old(self).resources@),
            final(self).resources@.len() == old(self).resources@.len(),
            forall|i: int|
                0 <= i < final(self).resources@.len()
                    ==> (#[trigger] final(self).resources@[i]).progress < PROGRESS_DENOM,
            wf_state(old(self).resources@) ==> wf_state(final(self).resources@),
    {
        self.resources = ticked_vec(&self.resources);
    }
}

/// A resource at level zero does not change at all under a tick: the rate
/// term is zero, so nothing accrues and the fraction is kept as it is.
pub proof fn lemma_ticked_level_zero(r: Resource)
    requires
        r.level == 0,
        r.progress < PROGRESS_DENOM,
    ensures
        ticked(r) == r,
{
    assert(r.level * r.progress_per_tick == 0);
    assert((r.progress as int) % (PROGRESS_DENOM as int) == r.progress);
    assert((r.progress as int) / (PROGRESS_DENOM as int) == 0);
}

/// For any number of ticks, a resource at level zero keeps its amount (and
/// every other field) unchanged.
pub proof fn lemma_level_zero_never_accrues(rs: Seq<Resource>, n: nat, i: int)
    requires
        0 <= i < rs.len(),
        rs[i].level == 0,
        rs[i].progress < PROGRESS_DENOM,
    ensures
        tick_n(rs, n).len() == rs.len(),
        tick_n(rs, n)[i] == rs[i],
    decreases n,
{
    if n > 0 {
        lemma_level_zero_never_accrues(rs, (n - 1) as nat, i);
        lemma_ticked_level_zero(rs[i]);
    }
}

/// Carrying in two steps is carrying in one: splitting `x + g` at `x` loses
/// nothing, for the remainder or for the carried whole parts.
proof fn lemma_carry_step(x: int, g: int)
    requires
        x >= 0,
        g >= 0,
    ensures
        (x % (PROGRESS_DENOM as int) + g) % (PROGRESS_DENOM as int)
            == (x + g) % (PROGRESS_DENOM as int),
        x / (PROGRESS_DENOM as int) + (x % (PROGRESS_DENOM as int) + g) / (PROGRESS_DENOM as int)
            == (x + g) / (PROGRESS_DENOM as int),
{
    let d = PROGRESS_DENOM as int;
    let q1 = x / d;
    let r1 = x % d;
    let q2 = (r1 + g) / d;
    let r2 = (r1 + g) % d;
    lemma_fundamental_div_mod(x, d);
    lemma_fundamental_div_mod(r1 + g, d);
    assert(x + g == d * (q1 + q2) + r2) by (nonlinear_arith)
        requires x == d * q1 + r1, r1 + g == d * q2 + r2;
    lemma_fundamental_div_mod_converse_div(x + g, d, q1 + q2, r2);
    lemma_fundamental_div_mod_converse_mod(x + g, d, q1 + q2, r2);
}

/// Ticking `n` times is the same, per resource, as accruing
/// `n * level * progress_per_tick` in one combined computation with the
/// same floor-and-remainder rule, as long as the level does not change in
/// between (a tick never changes it).
pub proof fn lemma_tick_n_accrues(rs: Seq<Resource>, n: nat, i: int)
    requires
        0 <= i < rs.len(),
        rs[i].progress < PROGRESS_DENOM,
    ensures
        tick_n(rs, n).len() == rs.len(),
        tick_n(rs, n)[i] == accrued(rs[i], n),
    decreases n,
{
    let r = rs[i];
    let d = PROGRESS_DENOM as int;
    let g = r.level * r.progress_per_tick;
    vstd::arithmetic::mul::lemma_mul_nonnegative(r.level as int, r.progress_per_tick as int);
    if n == 0 {
        assert((r.progress as int) % d == r.progress);
        assert((r.progress as int) / d == 0);
        assert(accrued(r, 0) == r);
    } else {
        lemma_tick_n_accrues(rs, (n - 1) as nat, i);
        let x = r.progress + (n - 1) * g;
        vstd::arithmetic::mul::lemma_mul_nonnegative(n - 1, g);
        let prev = accrued(r, (n - 1) as nat);
        assert(tick_n(rs, n)[i] == ticked(prev));
        lemma_carry_step(x, g);
        assert((n - 1) * g + g == n * g) by (nonlinear_arith);
        // The remainders agree.
        assert(ticked(prev).progress == accrued(r, n).progress);
        // The saturating credits agree: carrying in two saturating steps
        // lands where one saturating step does.
        let a = r.amount as int;
        let w1 = x / d;
        let w2 = (x % d + g) / d;
        assert(w1 >= 0 && w2 >= 0);
        assert(sat_u64(sat_u64(a + w1) + w2) == sat_u64(a + w1 + w2));
        assert(ticked(prev).amount == accrued(r, n).amount);
    }
}

} // verus!
