use vstd::prelude::*;
use vstd::std_specs::iter::IteratorSpec;

use crate::grant::{Error, GrantContract, ReserveAllocation};
use crate::Address;

verus! {

broadcast use vstd::std_specs::hash::group_hash_axioms;

/// Largest share of the unstreamed treasury that may be put to yield, in percent.
pub const MAX_YIELD_ALLOCATION_PERCENT: u32 = 70;

/// Buffer over the next 30 days of obligations that must stay liquid when
/// allocating, in percent of those obligations.
pub const ALLOCATION_LIQUIDITY_BUFFER_PERCENT: u128 = 120;

/// Buffer over the next 30 days of obligations that the liquid balance must
/// cover to be safe, in percent of those obligations.
pub const SAFETY_LIQUIDITY_BUFFER_PERCENT: u128 = 110;

/// Amount that allocating `percentage` percent of `total_unstreamed` moves.
pub open spec fn allocation_amount(total_unstreamed: u128, percentage: u32) -> int {
    total_unstreamed * percentage / 100
}

/// Liquidity that must remain when the next 30 days oblige `next_30_days`.
pub open spec fn minimum_liquid(next_30_days: u128) -> int {
    next_30_days * ALLOCATION_LIQUIDITY_BUFFER_PERCENT / 100
}

/// What an allocation counts for toward the amount in yield.
pub open spec fn in_yield_weight() -> spec_fn(ReserveAllocation) -> int {
    |a: ReserveAllocation| a.allocated_amount as int
}

/// What an allocation counts for toward the accrued yield.
pub open spec fn accrued_weight() -> spec_fn(ReserveAllocation) -> int {
    |a: ReserveAllocation| a.yield_accrued as int
}

/// One step of summing `w` over the allocations of `m`: adds that of `asset`.
pub open spec fn add_weight(m: Map<Address, ReserveAllocation>, w: spec_fn(ReserveAllocation) -> int) -> spec_fn(int, Address) -> int {
    |acc: int, asset: Address| acc + w(m[asset])
}

/// `w` summed over every allocation of `m`.
pub open spec fn map_total(m: Map<Address, ReserveAllocation>, w: spec_fn(ReserveAllocation) -> int) -> int {
    m.dom().fold(0int, add_weight(m, w))
}

/// Total amount allocated to yield-bearing assets.
pub open spec fn total_in_yield(m: Map<Address, ReserveAllocation>) -> int {
    map_total(m, in_yield_weight())
}

/// Total yield accrued on the allocations.
pub open spec fn total_accrued(m: Map<Address, ReserveAllocation>) -> int {
    map_total(m, accrued_weight())
}

/// `w` summed over the allocations of the assets `s` lists, in order.
pub open spec fn seq_total(m: Map<Address, ReserveAllocation>, s: Seq<Address>, w: spec_fn(ReserveAllocation) -> int) -> int
    decreases s.len(),
{
    if s.len() == 0 {
        0
    } else {
        seq_total(m, s.drop_last(), w) + w(m[s.last()])
    }
}

/// Summing over a list of distinct assets is summing over the set of them.
proof fn lemma_seq_total_is_fold(m: Map<Address, ReserveAllocation>, s: Seq<Address>, w: spec_fn(ReserveAllocation) -> int)
    requires
        s.no_duplicates(),
    ensures
        seq_total(m, s, w) == s.to_set().fold(0int, add_weight(m, w)),
    decreases s.len(),
{
    let f = add_weight(m, w);
    if s.len() == 0 {
        assert(s.to_set() =~= Set::<Address>::empty());
        vstd::set::fold::lemma_fold_empty(0int, f);
    } else {
        let p = s.drop_last();
        assert(p.no_duplicates());
        lemma_seq_total_is_fold(m, p, w);
        assert(s =~= p.push(s.last()));
        p.lemma_push_to_set_commute(s.last());
        vstd::seq_lib::seq_to_set_is_finite(p);
        assert(!p.to_set().contains(s.last())) by {
            if p.contains(s.last()) {
                let j = choose|j: int| 0 <= j < p.len() && p[j] == s.last();
                assert(s[j] == s[s.len() - 1]);
            }
        }
        lemma_add_weight_commutes(m, w);
        vstd::set::fold::lemma_fold_insert(p.to_set(), 0int, f, s.last());
    }
}

/// With no negative weights, a prefix never sums to more than the whole list.
proof fn lemma_seq_total_prefix(m: Map<Address, ReserveAllocation>, s: Seq<Address>, w: spec_fn(ReserveAllocation) -> int, i: int)
    requires
        0 <= i <= s.len(),
        forall|a: ReserveAllocation| #[trigger] w(a) >= 0,
    ensures
        seq_total(m, s.take(i), w) <= seq_total(m, s, w),
    decreases s.len(),
{
    if i == s.len() {
        assert(s.take(i) =~= s);
    } else {
        let p = s.drop_last();
        assert(s.take(i) =~= p.take(i));
        lemma_seq_total_prefix(m, p, w, i);
        assert(w(m[s.last()]) >= 0);
    }
}

/// The order in which allocations are added up does not matter.
proof fn lemma_add_weight_commutes(m: Map<Address, ReserveAllocation>, w: spec_fn(ReserveAllocation) -> int)
    ensures
        vstd::set::fold::is_fun_commutative(add_weight(m, w)),
{
    let f = add_weight(m, w);
    assert forall|a1: Address, a2: Address, b: int| #[trigger] f(f(b, a2), a1) == f(f(b, a1), a2) by {}
}

/// Two ways of adding up that agree on every asset of `s` give the same total over `s`.
proof fn lemma_fold_agree(s: Set<Address>, f: spec_fn(int, Address) -> int, g: spec_fn(int, Address) -> int)
    requires
        s.finite(),
        vstd::set::fold::is_fun_commutative(f),
        vstd::set::fold::is_fun_commutative(g),
        forall|b: int, a: Address| s.contains(a) ==> #[trigger] f(b, a) == g(b, a),
    ensures
        s.fold(0int, f) == s.fold(0int, g),
    decreases s.len(),
{
    if s.len() == 0 {
        assert(s =~= Set::<Address>::empty()) by {
            assert forall|x: Address| !s.contains(x) by {
                if s.contains(x) {
                    assert(s.remove(x).len() == s.len() - 1);
                }
            }
        }
        vstd::set::fold::lemma_fold_empty(0int, f);
        vstd::set::fold::lemma_fold_empty(0int, g);
    } else {
        let a = s.choose();
        let r = s.remove(a);
        lemma_fold_agree(r, f, g);
        assert(r.insert(a) =~= s);
        vstd::set::fold::lemma_fold_insert(r, 0int, f, a);
        vstd::set::fold::lemma_fold_insert(r, 0int, g, a);
        assert(f(r.fold(0int, f), a) == g(r.fold(0int, f), a));
    }
}

/// Setting the allocation of `asset` replaces what it counted for in the total.
proof fn lemma_map_total_insert(
    m: Map<Address, ReserveAllocation>,
    asset: Address,
    a: ReserveAllocation,
    w: spec_fn(ReserveAllocation) -> int,
)
    requires
        m.dom().finite(),
    ensures
        map_total(m.insert(asset, a), w) == map_total(m.remove(asset), w) + w(a),
        m.contains_key(asset) ==> map_total(m, w) == map_total(m.remove(asset), w) + w(m[asset]),
        !m.contains_key(asset) ==> map_total(m.remove(asset), w) == map_total(m, w),
{
    let m2 = m.insert(asset, a);
    let r = m.remove(asset);
    lemma_add_weight_commutes(m, w);
    lemma_add_weight_commutes(m2, w);
    lemma_add_weight_commutes(r, w);
    assert(r.dom() =~= m.dom().remove(asset));
    assert(m2.dom() =~= r.dom().insert(asset));
    assert forall|b: int, k: Address| r.dom().contains(k) implies #[trigger] add_weight(m2, w)(b, k)
        == add_weight(r, w)(b, k) by {}
    lemma_fold_agree(r.dom(), add_weight(m2, w), add_weight(r, w));
    vstd::set::fold::lemma_fold_insert(r.dom(), 0int, add_weight(m2, w), asset);
    assert forall|b: int, k: Address| r.dom().contains(k) implies #[trigger] add_weight(m, w)(b, k)
        == add_weight(r, w)(b, k) by {}
    lemma_fold_agree(r.dom(), add_weight(m, w), add_weight(r, w));
    if m.contains_key(asset) {
        assert(m.dom() =~= r.dom().insert(asset));
        vstd::set::fold::lemma_fold_insert(r.dom(), 0int, add_weight(m, w), asset);
    } else {
        assert(r.dom() =~= m.dom());
    }
}

impl GrantContract {
    /// The error `allocate_to_yield` reports, if any.
    pub open spec fn allocation_error(percentage: u32, total_unstreamed: u128, next_30_days: u128) -> Option<Error> {
        if percentage > MAX_YIELD_ALLOCATION_PERCENT {
            Some(Error::InvalidAllocation)
        } else if allocation_amount(total_unstreamed, percentage) + minimum_liquid(next_30_days)
            > total_unstreamed {
            Some(Error::InsufficientLiquidity)
        } else {
            None
        }
    }

    /// Puts `percentage` percent of the `total_unstreamed` treasury into the
    /// yield-bearing `asset` at `now`, all of it as protected principal, and
    /// returns the amount, which the caller moves into the asset. Refused
    /// above 70%, or when what stays liquid would not cover the next 30 days
    /// of obligations (`next_30_days`) plus 20%: the contract aborts the
    /// invocation with the error returned, and nothing is recorded.
    pub fn allocate_to_yield(
        &mut self,
        asset: Address,
        percentage: u32,
        total_unstreamed: u128,
        next_30_days: u128,
        now: u64,
    ) -> (r: Result<u128, Error>)
        requires
            old(self).wf(),
            percentage <= MAX_YIELD_ALLOCATION_PERCENT ==> {
                &&& total_unstreamed * percentage <= u128::MAX
                &&& next_30_days * ALLOCATION_LIQUIDITY_BUFFER_PERCENT <= u128::MAX
                &&& allocation_amount(total_unstreamed, percentage) + minimum_liquid(next_30_days)
                    <= u128::MAX
            },
        ensures
            final(self).wf(),
            final(self).grants@ == old(self).grants@,
            final(self).count == old(self).count,
            match Self::allocation_error(percentage, total_unstreamed, next_30_days) {
                Some(e) => r == Err::<u128, Error>(e) && final(self).allocations@ == old(
                    self,
                ).allocations@,
                None => {
                    let amount = allocation_amount(total_unstreamed, percentage);
                    &&& r == Ok::<u128, Error>(amount as u128)
                    &&& final(self).allocations@ == old(self).allocations@.insert(
                        asset,
                        ReserveAllocation {
                            asset,
                            allocated_amount: amount as u128,
                            principal_reserved: amount as u128,
                            yield_accrued: 0,
                            allocation_timestamp: now,
                        },
                    )
                },
            },
    {
        if percentage > MAX_YIELD_ALLOCATION_PERCENT {
            return Err(Error::InvalidAllocation);
        }
        let amount_to_allocate: u128 = (total_unstreamed * percentage as u128) / 100;
        let minimum_liquid: u128 = next_30_days * ALLOCATION_LIQUIDITY_BUFFER_PERCENT / 100;
        if amount_to_allocate + minimum_liquid > total_unstreamed {
            return Err(Error::InsufficientLiquidity);
        }
        let allocation = ReserveAllocation {
            asset,
            allocated_amount: amount_to_allocate,
            principal_reserved: amount_to_allocate,
            yield_accrued: 0,
            allocation_timestamp: now,
        };
        self.allocations.insert(asset, allocation);
        Ok(amount_to_allocate)
    }

    /// Takes the yield earned on `asset`: what the contract holds of it
    /// (`current_balance`) beyond the allocated amount, or nothing. The
    /// yield is added to the allocation's accrued yield and returned; the
    /// caller sends it to the DAO treasury when positive.
    pub fn harvest_yield(&mut self, asset: Address, current_balance: u128) -> (yield_earned: u128)
        requires
            old(self).wf(),
            old(self).allocations@.contains_key(asset),
            current_balance > old(self).allocations@[asset].allocated_amount ==> old(
                self,
            ).allocations@[asset].yield_accrued + (current_balance - old(
                self,
            ).allocations@[asset].allocated_amount) <= u128::MAX,
        ensures
            final(self).wf(),
            final(self).grants@ == old(self).grants@,
            final(self).count == old(self).count,
            ({
                let a = old(self).allocations@[asset];
                &&& yield_earned == (if current_balance > a.allocated_amount {
                    current_balance - a.allocated_amount
                } else {
                    0
                })
                &&& final(self).allocations@ == old(self).allocations@.insert(
                    asset,
                    ReserveAllocation {
                        yield_accrued: (a.yield_accrued + yield_earned) as u128,
                        ..a
                    },
                )
            }),
    {
        let mut allocation: ReserveAllocation = *self.allocations.get(&asset).unwrap();
        let yield_earned: u128 = current_balance.saturating_sub(allocation.allocated_amount);
        if yield_earned > 0 {
            allocation.yield_accrued = allocation.yield_accrued + yield_earned;
        }
        self.allocations.insert(asset, allocation);
        yield_earned
    }

    /// Whether the `liquid_balance` covers the next 30 days of obligations
    /// (`next_30_days`) plus 10%.
    pub fn check_liquidity_safety(next_30_days: u128, liquid_balance: u128) -> (safe: bool)
        requires
            next_30_days * SAFETY_LIQUIDITY_BUFFER_PERCENT <= u128::MAX,
        ensures
            safe == (liquid_balance >= next_30_days * SAFETY_LIQUIDITY_BUFFER_PERCENT / 100),
    {
        liquid_balance >= next_30_days * SAFETY_LIQUIDITY_BUFFER_PERCENT / 100
    }

    /// The reserve's breakdown: the `liquid_balance` the contract holds
    /// across its supported assets, the total allocated to yield-bearing
    /// assets, and the total yield accrued on them, summed over the stored
    /// allocations.
    pub fn get_reserve_status(&self, liquid_balance: u128) -> (r: (u128, u128, u128))
        requires
            total_in_yield(self.allocations@) <= u128::MAX,
            total_accrued(self.allocations@) <= u128::MAX,
        ensures
            r.0 == liquid_balance,
            r.1 == total_in_yield(self.allocations@),
            r.2 == total_accrued(self.allocations@),
    {
        let ghost m = self.allocations@;
        let ghost v = vstd::std_specs::hash::spec_hash_map_iter(&self.allocations).remaining();
        let ghost keys = v.map_values(|p: (&Address, &ReserveAllocation)| *p.0);
        proof {
            assert(m.dom().finite());
            assert forall|i: int| 0 <= i < keys.len() implies #[trigger] m.contains_key(keys[i])
                && m[keys[i]] == *v[i].1 by {
                assert(m.contains_key(*v[i].0));
            }
            assert(keys.to_set() =~= m.dom()) by {
                assert forall|k: Address| m.dom().contains(k) implies keys.to_set().contains(k) by {
                    assert(v.contains((&k, &m[k])));
                    let i = choose|i: int| 0 <= i < v.len() && v[i] == (&k, &m[k]);
                    assert(keys[i] == k);
                }
            }
            keys.lemma_no_dup_set_cardinality();
            lemma_seq_total_is_fold(m, keys, in_yield_weight());
            lemma_seq_total_is_fold(m, keys, accrued_weight());
        }
        let mut in_yield: u128 = 0;
        let mut accrued: u128 = 0;
        for entry in it: self.allocations.iter()
            invariant
                m == self.allocations@,
                it.seq() == v,
                keys == v.map_values(|p: (&Address, &ReserveAllocation)| *p.0),
                keys.len() == v.len(),
                forall|i: int| 0 <= i < keys.len() ==> #[trigger] m.contains_key(keys[i])
                    && m[keys[i]] == *v[i].1,
                seq_total(m, keys, in_yield_weight()) <= u128::MAX,
                seq_total(m, keys, accrued_weight()) <= u128::MAX,
                in_yield == seq_total(m, keys.take(it.index()), in_yield_weight()),
                accrued == seq_total(m, keys.take(it.index()), accrued_weight()),
        {
            let (_asset, allocation) = entry;
            proof {
                let i = it.index();
                let t = keys.take(i + 1);
                assert(t.drop_last() =~= keys.take(i));
                assert(t.last() == keys[i]);
                lemma_seq_total_prefix(m, keys, in_yield_weight(), i + 1);
                lemma_seq_total_prefix(m, keys, accrued_weight(), i + 1);
            }
            in_yield = in_yield + allocation.allocated_amount;
            accrued = accrued + allocation.yield_accrued;
        }
        proof {
            assert(keys.take(keys.len() as int) =~= keys);
        }
        (liquid_balance, in_yield, accrued)
    }
}


/// An allocation that goes through leaves liquid what the next 30 days of
/// obligations need plus 20%, and never moves more than 70% of the
/// unstreamed treasury.
pub proof fn lemma_allocation_keeps_liquidity(percentage: u32, total_unstreamed: u128, next_30_days: u128)
    requires
        GrantContract::allocation_error(percentage, total_unstreamed, next_30_days) is None,
    ensures
        total_unstreamed - allocation_amount(total_unstreamed, percentage) >= minimum_liquid(
            next_30_days,
        ),
        allocation_amount(total_unstreamed, percentage) <= total_unstreamed
            * MAX_YIELD_ALLOCATION_PERCENT / 100,
{
    assert(total_unstreamed * percentage / 100 <= total_unstreamed * 70 / 100) by (nonlinear_arith)
        requires
            percentage <= 70,
    ;
}

/// Harvesting keeps the principal: the amount in yield is unchanged, and
/// the accrued yield grows by exactly what was harvested.
pub proof fn lemma_harvest_keeps_principal(m: Map<Address, ReserveAllocation>, asset: Address, yield_earned: u128)
    requires
        m.dom().finite(),
        m.contains_key(asset),
        m[asset].yield_accrued + yield_earned <= u128::MAX,
    ensures
        ({
            let a = m[asset];
            let m2 = m.insert(
                asset,
                ReserveAllocation { yield_accrued: (a.yield_accrued + yield_earned) as u128, ..a },
            );
            &&& total_in_yield(m2) == total_in_yield(m)
            &&& total_accrued(m2) == total_accrued(m) + yield_earned
        }),
{
    let a = m[asset];
    let a2 = ReserveAllocation { yield_accrued: (a.yield_accrued + yield_earned) as u128, ..a };
    lemma_map_total_insert(m, asset, a2, in_yield_weight());
    lemma_map_total_insert(m, asset, a2, accrued_weight());
}

/// Allocating to an asset puts exactly the allocated amount into yield, in
/// place of what that asset held before, and starts it with no accrued yield.
pub proof fn lemma_allocation_adds_to_yield(m: Map<Address, ReserveAllocation>, asset: Address, a: ReserveAllocation)
    requires
        m.dom().finite(),
        a.yield_accrued == 0,
    ensures
        total_in_yield(m.insert(asset, a)) == total_in_yield(m) + a.allocated_amount - (if m.contains_key(asset) {
            m[asset].allocated_amount as int
        } else {
            0
        }),
        total_accrued(m.insert(asset, a)) == total_accrued(m) - (if m.contains_key(asset) {
            m[asset].yield_accrued as int
        } else {
            0
        }),
{
    lemma_map_total_insert(m, asset, a, in_yield_weight());
    lemma_map_total_insert(m, asset, a, accrued_weight());
}

/// The allocation rule: at most 70% of the unstreamed treasury, the amount
/// moved being that percentage of it rounded down, and only when what stays
/// liquid covers the next 30 days of obligations plus 20% (rounded down).
pub proof fn lemma_allocation_rule(percentage: u32, total_unstreamed: u128, next_30_days: u128)
    ensures
        percentage > 70 ==> GrantContract::allocation_error(percentage, total_unstreamed, next_30_days)
            == Some(Error::InvalidAllocation),
        allocation_amount(total_unstreamed, percentage) * 100 <= total_unstreamed * percentage
            < (allocation_amount(total_unstreamed, percentage) + 1) * 100,
        percentage <= 70 ==> (GrantContract::allocation_error(
            percentage,
            total_unstreamed,
            next_30_days,
        ) is None <==> total_unstreamed - allocation_amount(total_unstreamed, percentage)
            >= next_30_days * 120 / 100),
        percentage <= 70 && GrantContract::allocation_error(percentage, total_unstreamed, next_30_days)
            is Some ==> GrantContract::allocation_error(percentage, total_unstreamed, next_30_days)
            == Some(Error::InsufficientLiquidity),
{
    let x = total_unstreamed * percentage;
    vstd::arithmetic::div_mod::lemma_fundamental_div_mod(x, 100);
    vstd::arithmetic::div_mod::lemma_mod_bound(x, 100);
}

} // verus!
