//! Value types of the economy: resource kinds, costs, resources, and the
//! whole game state, together with the exponential upgrade-cost curve.

use vstd::prelude::*;
use vstd::arithmetic::power::pow;
use vstd::arithmetic::power::lemma_pow_strictly_increases;
use crate::PROGRESS_DENOM;

verus! {

/// The closed set of resource kinds.
#[derive(Debug, Copy, Clone, PartialEq, Eq, Structural)]
pub enum ResourceType {
    Wood,
    Stone,
    Iron,
    Diamond,
}

/// The display name of a resource kind.
pub open spec fn label_spec(kind: ResourceType) -> Seq<char> {
    match kind {
        ResourceType::Wood => "Wood"@,
        ResourceType::Stone => "Stone"@,
        ResourceType::Iron => "Iron"@,
        ResourceType::Diamond => "Diamond"@,
    }
}

impl ResourceType {
    /// The stable display name of this kind.
    pub fn label(&self) -> (r: String)
        ensures
            r@ == label_spec(*self),
    {
        match self {
            ResourceType::Wood => "Wood".to_string(),
            ResourceType::Stone => "Stone".to_string(),
            ResourceType::Iron => "Iron".to_string(),
            ResourceType::Diamond => "Diamond".to_string(),
        }
    }
}

/// The character of a single decimal digit.
pub open spec fn digit_char(d: int) -> char {
    if d == 0 { '0' }
    else if d == 1 { '1' }
    else if d == 2 { '2' }
    else if d == 3 { '3' }
    else if d == 4 { '4' }
    else if d == 5 { '5' }
    else if d == 6 { '6' }
    else if d == 7 { '7' }
    else if d == 8 { '8' }
    else if d == 9 { '9' }
    else { ' ' }
}

/// The decimal notation of `n`, most significant digit first, no leading
/// zeroes (a single `'0'` for zero itself).
pub open spec fn dec_str(n: nat) -> Seq<char>
    decreases n,
{
    if n < 10 {
        seq![digit_char(n as int)]
    } else {
        dec_str(n / 10).push(digit_char((n % 10) as int))
    }
}

/// Relies on String::push: it appends the given character to the end of
/// the string.
#[verifier::external_body]
fn push_char(s: &mut String, c: char)
    ensures
        final(s)@ == old(s)@.push(c),
{
    s.push(c);
}

/// Relies on String::push_str: it appends the given text to the end of
/// the string.
#[verifier::external_body]
fn push_str(s: &mut String, other: &str)
    ensures
        final(s)@ == old(s)@ + other@,
{
    s.push_str(other);
}

/// The character of a single decimal digit.
fn digit_char_ex(d: u64) -> (c: char)
    requires
        d < 10,
    ensures
        c == digit_char(d as int),
{
    if d == 0 { '0' }
    else if d == 1 { '1' }
    else if d == 2 { '2' }
    else if d == 3 { '3' }
    else if d == 4 { '4' }
    else if d == 5 { '5' }
    else if d == 6 { '6' }
    else if d == 7 { '7' }
    else if d == 8 { '8' }
    else { '9' }
}

/// Append the decimal notation of `n`.
fn push_decimal(s: &mut String, n: u64)
    ensures
        final(s)@ == old(s)@ + dec_str(n as nat),
    decreases n,
{
    if n < 10 {
        push_char(s, digit_char_ex(n));
        proof {
            assert(old(s)@.push(digit_char(n as int)) =~= old(s)@ + dec_str(n as nat));
        }
    } else {
        push_decimal(s, n / 10);
        push_char(s, digit_char_ex(n % 10));
        proof {
            assert((old(s)@ + dec_str((n / 10) as nat)).push(digit_char((n % 10) as int))
                =~= old(s)@ + dec_str(n as nat));
        }
    }
}

/// A price: an amount of some resource kind. The kind may differ from the
/// resource the price is charged for.
#[derive(Debug, Copy, Clone, PartialEq, Eq, Structural)]
pub struct Cost {
    pub amount: u64,
    pub resource_type: ResourceType,
}

/// A price in words: the amount in decimal, a space, the kind's name.
pub open spec fn cost_label_spec(c: Cost) -> Seq<char> {
    dec_str(c.amount as nat).push(' ') + label_spec(c.resource_type)
}

impl Cost {
    pub fn new(amount: u64, resource_type: ResourceType) -> (r: Self)
        ensures
            r.amount == amount,
            r.resource_type == resource_type,
    {
        Self { amount, resource_type }
    }

    /// The price in words: the amount and the kind it is paid in.
    pub fn label(&self) -> (r: String)
        ensures
            r@ == cost_label_spec(*self),
    {
        let mut s = String::new();
        push_decimal(&mut s, self.amount);
        push_char(&mut s, ' ');
        let name = self.resource_type.label();
        push_str(&mut s, name.as_str());
        s
    }
}

/// The mutable unit of the economy.
///
/// `progress` is the fractional accrual carried between ticks, in units of
/// `1 / PROGRESS_DENOM` of a whole resource unit; it stays below
/// `PROGRESS_DENOM`. `progress_per_tick` is the fixed base rate, in units of
/// `1 / RATE_DENOM`: one tick adds `level * progress_per_tick` to `progress`.
#[derive(Debug, Copy, Clone, PartialEq, Eq, Structural)]
pub struct Resource {
    pub resource_type: ResourceType,
    pub amount: u64,
    pub level: u64,
    pub cost: Cost,
    pub progress: u64,
    pub progress_per_tick: u64,
}

/// A resource is well formed when its fractional progress is a proper
/// fraction and its base rate is positive.
pub open spec fn wf_resource(r: Resource) -> bool {
    &&& r.progress < PROGRESS_DENOM
    &&& r.progress_per_tick >= 1
}

/// The mathematical price of raising `r` from its current level to the next:
/// `cost.amount` raised to the power `level + 1`, denominated in
/// `cost.resource_type`.
pub open spec fn upgrade_cost_spec(r: Resource) -> int {
    pow(r.cost.amount as int, (r.level + 1) as nat)
}

impl Resource {
    /// A fresh resource of the given kind: nothing banked, level zero, no
    /// fractional progress.
    pub fn new(name: ResourceType, progress_per_tick: u64, cost: Cost) -> (r: Self)
        requires
            progress_per_tick >= 1,
        ensures
            r == (Resource {
                resource_type: name,
                amount: 0,
                level: 0,
                cost: cost,
                progress: 0,
                progress_per_tick: progress_per_tick,
            }),
            wf_resource(r),
    {
        Self {
            resource_type: name,
            progress_per_tick,
            cost,
            amount: 0,
            level: 0,
            progress: 0,
        }
    }

    /// The same resource with its banked amount replaced.
    pub fn start_with(self, amount: u64) -> (r: Self)
        ensures
            r == (Resource { amount: amount, ..self }),
    {
        Self { amount, ..self }
    }

    /// The price of the next level, whenever it fits the machine word.
    pub fn upgrade_cost(&self) -> (r: Cost)
        requires
            self.level < u64::MAX,
            upgrade_cost_spec(*self) <= u64::MAX,
        ensures
            r.amount == upgrade_cost_spec(*self),
            r.resource_type == self.cost.resource_type,
    {
        let amount = match pow_checked(self.cost.amount, self.level + 1) {
            Some(a) => a,
            None => 0,  // unreachable: the cost fits by the precondition
        };
        Cost::new(amount, self.cost.resource_type)
    }
}

/// `base` to the power `exp`, or `None` where the result exceeds `u64::MAX`.
///
/// This is the total companion of `Resource::upgrade_cost`: a cost too large
/// for the machine word exceeds any amount a resource can bank, so callers
/// treat `None` as an unaffordable price.
pub fn pow_checked(base: u64, exp: u64) -> (r: Option<u64>)
    ensures
        match r {
            Some(v) => v == pow(base as int, exp as nat),
            None => pow(base as int, exp as nat) > u64::MAX,
        },
{
    let mut result: u64 = 1;
    let mut i: u64 = 0;
    proof {
        vstd::arithmetic::power::lemma_pow0(base as int);
    }
    while i < exp
        invariant
            i <= exp,
            result == pow(base as int, i as nat),
        decreases exp - i,
    {
        proof {
            lemma_pow_unfold_right(base as int, i as nat);
        }
        result = match result.checked_mul(base) {
            Some(v) => v,
            None => {
                proof {
                    lemma_pow_overflow(base, i as nat, exp as nat);
                }
                return None;
            },
        };
        i = i + 1;
    }
    Some(result)
}

/// Multiplying one more factor onto `pow(b, e)` gives `pow(b, e + 1)`.
proof fn lemma_pow_unfold_right(b: int, e: nat)
    ensures
        pow(b, e) * b == pow(b, (e + 1) as nat),
    decreases e,
{
    reveal(pow);
    if e == 0 {
    } else {
        lemma_pow_unfold_right(b, (e - 1) as nat);
        assert(pow(b, (e + 1) as nat) == b * pow(b, e));
        assert(b * (pow(b, (e - 1) as nat) * b) == (b * pow(b, (e - 1) as nat)) * b)
            by (nonlinear_arith);
    }
}

/// Once a partial power exceeds the machine word, the full power does too.
proof fn lemma_pow_overflow(base: u64, i: nat, exp: nat)
    requires
        i < exp,
        pow(base as int, i as nat) * base > u64::MAX,
    ensures
        pow(base as int, exp) > u64::MAX,
    decreases exp - i,
{
    lemma_pow_unfold_right(base as int, i);
    if i + 1 == exp {
    } else {
        assert(base >= 1) by {
            if base == 0 {
                assert(pow(0int, i as nat) * 0 == 0) by (nonlinear_arith);
            }
        }
        lemma_pow_unfold_right(base as int, (i + 1) as nat);
        assert(pow(base as int, (i + 1) as nat) * base >= pow(base as int, (i + 1) as nat))
            by (nonlinear_arith)
            requires base >= 1, pow(base as int, (i + 1) as nat) >= 0;
        assert(pow(base as int, (i + 1) as nat) >= 0) by {
            vstd::arithmetic::power::lemma_pow_positive(base as int, (i + 1) as nat);
        }
        lemma_pow_overflow(base, (i + 1) as nat, exp);
    }
}

/// The upgrade cost grows strictly with the level whenever the base cost is
/// more than one unit: the price at level `level + 1` exceeds the price at
/// `level`.
pub proof fn lemma_upgrade_cost_strictly_increases(r: Resource, bumped: Resource)
    requires
        r.cost.amount > 1,
        bumped.cost == r.cost,
        bumped.level == r.level + 1,
    ensures
        upgrade_cost_spec(r) < upgrade_cost_spec(bumped),
{
    lemma_pow_strictly_increases(
        r.cost.amount as nat,
        (r.level + 1) as nat,
        (bumped.level + 1) as nat,
    );
}

/// The whole persisted unit: one resource per kind, in a fixed order.
#[derive(Debug, Clone)]
pub struct GameState {
    pub resources: Vec<Resource>,
}

/// No two resources share a kind.
pub open spec fn unique_kinds(rs: Seq<Resource>) -> bool {
    forall|i: int, j: int|
        0 <= i < j < rs.len() ==> #[trigger] rs[i].resource_type != #[trigger] rs[j].resource_type
}

/// Every resource is well formed and no two share a kind.
pub open spec fn wf_state(rs: Seq<Resource>) -> bool {
    &&& forall|i: int| 0 <= i < rs.len() ==> wf_resource(#[trigger] rs[i])
    &&& unique_kinds(rs)
}

/// The fixed roster a fresh game starts from: each kind priced in the
/// previous tier's resource, except Wood, which is priced in itself.
pub open spec fn default_roster() -> Seq<Resource> {
    seq![
        Resource {
            resource_type: ResourceType::Wood,
            amount: 2,
            level: 0,
            cost: Cost { amount: 2, resource_type: ResourceType::Wood },
            progress: 0,
            progress_per_tick: 1000,
        },
        Resource {
            resource_type: ResourceType::Stone,
            amount: 0,
            level: 0,
            cost: Cost { amount: 3, resource_type: ResourceType::Wood },
            progress: 0,
            progress_per_tick: 500,
        },
        Resource {
            resource_type: ResourceType::Iron,
            amount: 0,
            level: 0,
            cost: Cost { amount: 4, resource_type: ResourceType::Stone },
            progress: 0,
            progress_per_tick: 100,
        },
        Resource {
            resource_type: ResourceType::Diamond,
            amount: 0,
            level: 0,
            cost: Cost { amount: 5, resource_type: ResourceType::Iron },
            progress: 0,
            progress_per_tick: 10,
        },
    ]
}

impl Default for GameState {
    /// The default roster.
    fn default() -> (r: Self)
        ensures
            r.resources@ == default_roster(),
            wf_state(r.resources@),
    {
        let mut resources: Vec<Resource> = Vec::new();
        resources.push(
            Resource::new(
                ResourceType::Wood,
                1000,
                Cost::new(2, ResourceType::Wood),
            ).start_with(2),
        );
        resources.push(Resource::new(
            ResourceType::Stone,
            500,
            Cost::new(3, ResourceType::Wood),
        ));
        resources.push(Resource::new(
            ResourceType::Iron,
            100,
            Cost::new(4, ResourceType::Stone),
        ));
        resources.push(Resource::new(
            ResourceType::Diamond,
            10,
            Cost::new(5, ResourceType::Iron),
        ));
        proof {
            assert(resources@ =~= default_roster());
        }
        GameState { resources }
    }
}

} // verus!
