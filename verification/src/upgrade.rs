//! The upgrade resolver: validate and apply a purchase. The price of the
//! next level is paid in the cost resource named by the target's base cost;
//! on success that resource is debited and the target's level rises by one.

use vstd::prelude::*;
use crate::economy::{GameState, Resource, ResourceType, pow_checked, upgrade_cost_spec, wf_state};

verus! {

/// What an upgrade attempt did.
#[derive(Debug, Copy, Clone, PartialEq, Eq, Structural)]
pub enum UpgradeOutcome {
    /// The cost was debited and the target's level rose by one.
    Applied,
    /// The cost resource's banked amount was below the price; nothing changed.
    InsufficientFunds,
    /// No resource of the cost's kind is in the roster; nothing changed.
    NoCostResource,
    /// No target was selected; nothing changed.
    NoSelection,
}

/// The index of the first resource of kind `k`, or `rs.len()` where there
/// is none.
pub open spec fn first_kind_index(rs: Seq<Resource>, k: ResourceType) -> int
    decreases rs.len(),
{
    if rs.len() == 0 {
        0
    } else if rs[0].resource_type == k {
        0
    } else {
        1 + first_kind_index(rs.drop_first(), k)
    }
}

/// What `first_kind_index` means: it is the least index holding kind `k`,
/// and it is `rs.len()` exactly when no index holds `k`.
pub proof fn lemma_first_kind_index(rs: Seq<Resource>, k: ResourceType)
    ensures
        0 <= first_kind_index(rs, k) <= rs.len(),
        first_kind_index(rs, k) < rs.len() ==> rs[first_kind_index(rs, k)].resource_type == k,
        forall|l: int| 0 <= l < first_kind_index(rs, k) ==> (#[trigger] rs[l]).resource_type != k,
    decreases rs.len(),
{
    if rs.len() == 0 {
    } else if rs[0].resource_type == k {
    } else {
        lemma_first_kind_index(rs.drop_first(), k);
        assert forall|l: int| 0 <= l < first_kind_index(rs, k) implies
            (#[trigger] rs[l]).resource_type != k by {
            if l > 0 {
                assert(rs[l] == rs.drop_first()[l - 1]);
            }
        }
    }
}

/// The index of the first resource of kind `k` in `rs`, or `rs.len()`.
fn find_kind(rs: &Vec<Resource>, k: ResourceType) -> (j: usize)
    ensures
        j == first_kind_index(rs@, k),
{
    proof {
        lemma_first_kind_index(rs@, k);
    }
    let mut j: usize = 0;
    while j < rs.len() && rs[j].resource_type != k
        invariant
            j <= rs@.len(),
            forall|l: int| 0 <= l < j ==> (#[trigger] rs@[l]).resource_type != k,
        decreases rs@.len() - j,
    {
        j = j + 1;
    }
    proof {
        lemma_first_kind_index(rs@, k);
    }
    j
}

/// The roster after a successful upgrade of `rs[target]` paid from `rs[j]`:
/// `cost` leaves the cost resource's bank, then the target's level rises by
/// one. When the target prices itself, both fall on the same entry.
pub open spec fn apply_upgrade(rs: Seq<Resource>, target: int, j: int, cost: int) -> Seq<Resource> {
    let debited = rs.update(j, Resource { amount: (rs[j].amount - cost) as u64, ..rs[j] });
    debited.update(target, Resource { level: (debited[target].level + 1) as u64, ..debited[target] })
}

/// The outcome an upgrade of `rs[target]` resolves to: `NoCostResource`
/// where no resource of the price's kind exists, `InsufficientFunds` where
/// its bank is below the price, `Applied` otherwise.
pub open spec fn upgrade_outcome_spec(rs: Seq<Resource>, target: int) -> UpgradeOutcome {
    let cost = upgrade_cost_spec(rs[target]);
    let j = first_kind_index(rs, rs[target].cost.resource_type);
    if j == rs.len() {
        UpgradeOutcome::NoCostResource
    } else if rs[j].amount < cost {
        UpgradeOutcome::InsufficientFunds
    } else {
        UpgradeOutcome::Applied
    }
}

/// The roster an upgrade of `rs[target]` leaves behind: unchanged unless it
/// applies, and debited-and-levelled where it does.
pub open spec fn upgraded_state_spec(rs: Seq<Resource>, target: int) -> Seq<Resource> {
    let cost = upgrade_cost_spec(rs[target]);
    let j = first_kind_index(rs, rs[target].cost.resource_type);
    if j == rs.len() || rs[j].amount < cost {
        rs
    } else {
        apply_upgrade(rs, target, j, cost)
    }
}

impl GameState {
    /// Attempt to raise `self.resources[target]` by one level.
    ///
    /// The price is `upgrade_cost_spec` of the target, paid in the kind its
    /// base cost names. A missing cost resource and an unaffordable price
    /// are strict no-ops; on success the cost resource is debited and the
    /// target's level rises by one.
    pub fn upgrade(&mut self, target: usize) -> (r: UpgradeOutcome)
        requires
            target < old(self).resources@.len(),
            old(self).resources@[target as int].level < u64::MAX,
        ensures
            final(self).resources@.len() == old(self).resources@.len(),
            wf_state(old(self).resources@) ==> wf_state(final(self).resources@),
            r == upgrade_outcome_spec(old(self).resources@, target as int),
            final(self).resources@ == upgraded_state_spec(old(self).resources@, target as int),
    {
        let ghost rs = self.resources@;
        let cost_kind = self.resources[target].cost.resource_type;

        // Locate the resource the price is paid in: the first of its kind.
        let j = find_kind(&self.resources, cost_kind);
        proof {
            lemma_first_kind_index(rs, cost_kind);
        }
        if j == self.resources.len() {
            return UpgradeOutcome::NoCostResource;
        }

        // The mathematical price; a price beyond the machine word exceeds
        // any amount a resource can bank.
        let target_res = self.resources[target];
        let funds = self.resources[j].amount;
        let price = match pow_checked(target_res.cost.amount, target_res.level + 1) {
            Some(p) => p,
            None => {
                assert(funds < upgrade_cost_spec(rs[target as int]));
                return UpgradeOutcome::InsufficientFunds;
            },
        };
        if funds < price {
            return UpgradeOutcome::InsufficientFunds;
        }

        // Debit the price, then raise the target's level.
        let debited = self.resources[j].start_with(funds - price);
        self.resources.set(j, debited);
        let bumped = self.resources[target];
        self.resources.set(
            target,
            Resource { level: bumped.level + 1, ..bumped },
        );
        proof {
            assert(self.resources@ =~= apply_upgrade(
                rs,
                target as int,
                j as int,
                upgrade_cost_spec(rs[target as int]),
            ));
        }
        UpgradeOutcome::Applied
    }
}

/// Spending never overdraws: an upgrade is applied only when the cost
/// resource's bank covers the price, and then the bank after is exactly the
/// old bank less the price — never negative. The target's level rises by
/// exactly one, whether or not it pays for itself.
pub proof fn lemma_applied_never_negative(rs: Seq<Resource>, target: int, j: int, cost: int)
    requires
        0 <= target < rs.len(),
        0 <= j < rs.len(),
        0 <= cost <= rs[j].amount,
        rs[target].level < u64::MAX,
    ensures
        apply_upgrade(rs, target, j, cost)[j].amount == rs[j].amount - cost,
        apply_upgrade(rs, target, j, cost)[j].amount >= 0,
        apply_upgrade(rs, target, j, cost)[target].level == rs[target].level + 1,
{
}

} // verus!
