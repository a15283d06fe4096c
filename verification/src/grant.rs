use std::collections::HashMap;
use vstd::prelude::*;

use crate::Address;

verus! {

broadcast use vstd::std_specs::hash::group_hash_axioms;

/// A token stream from an admin to a grantee, paid out at `flow_rate`
/// tokens per second from the deposited `balance`.
#[derive(Clone, Copy, Debug, PartialEq, Eq, Structural)]
pub struct Grant {
    pub admin: Address,
    pub grantee: Address,
    pub flow_rate: i128,
    pub balance: i128,
    pub last_claim_time: u64,
    pub is_paused: bool,
    pub token: Address,
}

/// Keys under which the grant contract keeps its state.
#[derive(Clone, Copy, Debug, PartialEq, Eq, Structural)]
pub enum DataKey {
    Grant(u64),
    Count,
}

/// Errors of the grant contract.
#[derive(Clone, Copy, Debug, PartialEq, Eq, Structural)]
pub enum Error {
    InvalidAmount,
    InvalidRate,
    InvalidState,
    InsufficientReserve,
    InvalidAllocation,
    InsufficientLiquidity,
}

/// Stake a proposer deposits with a grant proposal, in stroops (10 XLM).
pub const PROPOSAL_STAKE_AMOUNT: i128 = 100_000_000;

/// Share of the votes cast against a proposal from which its rejection is a
/// landslide, in basis points.
pub const LANDSLIDE_REJECTION_THRESHOLD: u32 = 7500;

/// Share of the voting power that must have voted before a stake can be
/// burned, in basis points.
pub const MIN_VOTING_PARTICIPATION_FOR_STAKE_BURN: u32 = 5000;

/// Part of the unstreamed treasury moved into a yield-bearing asset.
#[derive(Clone, Copy, Debug, PartialEq, Eq, Structural)]
pub struct ReserveAllocation {
    pub asset: Address,
    pub allocated_amount: u128,
    pub principal_reserved: u128,
    pub yield_accrued: u128,
    pub allocation_timestamp: u64,
}

/// The grant contract's state: its grants by id, the last id handed out,
/// and its yield allocations by asset.
pub struct GrantContract {
    pub grants: HashMap<u64, Grant>,
    pub count: Option<u64>,
    pub allocations: HashMap<Address, ReserveAllocation>,
}

/// Whether a rejected proposal's stake is burned: at least half of the
/// voting power took part, and at least 75% of the votes cast were against.
pub open spec fn stake_burns(votes_for: int, votes_against: int, total_voting_power: int) -> bool {
    let cast = votes_for + votes_against;
    &&& total_voting_power > 0
    &&& cast > 0
    &&& cast * 10000 >= MIN_VOTING_PARTICIPATION_FOR_STAKE_BURN * total_voting_power
    &&& votes_against * 10000 >= LANDSLIDE_REJECTION_THRESHOLD * cast
}

/// Holds when `result` is a call that the contract refused with `expected`.
pub open spec fn is_contract_error<T, C, E>(result: Result<Result<T, C>, Result<Error, E>>, expected: Error) -> bool {
    match result {
        Err(Ok(err)) => err == expected,
        _ => false,
    }
}

/// States that `result`, the outcome of a contract call, is the contract's
/// refusal with `expected`; a caller must establish it.
pub fn assert_contract_error<T, C, E>(result: Result<Result<T, C>, Result<Error, E>>, expected: Error)
    requires
        is_contract_error(result, expected),
{
}

/// Amount that has accrued on `g` between its last claim and `now`.
pub open spec fn amount_due(g: Grant, now: u64) -> int {
    g.flow_rate * (now - g.last_claim_time)
}

/// What a withdrawal at `now` pays out: the accrued amount, capped by the balance.
pub open spec fn payout_of(g: Grant, now: u64) -> int {
    if g.balance >= amount_due(g, now) {
        amount_due(g, now)
    } else {
        g.balance as int
    }
}

/// The grant after a withdrawal at `now`: only a positive payout changes it.
pub open spec fn grant_after_withdraw(g: Grant, now: u64) -> Grant {
    if payout_of(g, now) > 0 {
        Grant { balance: (g.balance - payout_of(g, now)) as i128, last_claim_time: now, ..g }
    } else {
        g
    }
}

/// What a withdrawal of grant `grant_id` at `now` needs: the grant exists,
/// is not paused, the clock has not gone backwards and the accrued amount fits.
pub open spec fn can_withdraw(c: &GrantContract, grant_id: u64, now: u64) -> bool {
    &&& c.grants@.contains_key(grant_id)
    &&& !c.grants@[grant_id].is_paused
    &&& now >= c.grants@[grant_id].last_claim_time
    &&& i128::MIN <= amount_due(c.grants@[grant_id], now) <= i128::MAX
}

/// For a positive divisor and a positive bound, the quotient rounded toward
/// zero reaches the bound exactly when the dividend reaches bound times divisor.
proof fn lemma_div_at_least(n: int, d: int, k: int)
    requires
        d > 0,
        k > 0,
    ensures
        (if n >= 0 {
            n / d
        } else {
            -((-n) / d)
        }) >= k <==> n >= k * d,
{
    if n >= 0 {
        if n >= k * d {
            assert(n / d >= k) by (nonlinear_arith)
                requires
                    n >= k * d,
                    d > 0,
            ;
        } else {
            assert(n / d < k) by (nonlinear_arith)
                requires
                    0 <= n < k * d,
                    d > 0,
            ;
        }
    } else {
        assert((-n) / d >= 0) by (nonlinear_arith)
            requires
                -n > 0,
                d > 0,
        ;
        assert(k * d > 0) by (nonlinear_arith)
            requires
                k > 0,
                d > 0,
        ;
    }
}

impl GrantContract {
    /// Well-formedness: every stored grant id lies between 1 and the counter.
    pub open spec fn wf(&self) -> bool {
        forall|id: u64| #[trigger]
            self.grants@.contains_key(id) ==> 1 <= id <= self.last_id()
    }

    /// The last grant id handed out (0 before the first grant).
    pub open spec fn last_id(&self) -> u64 {
        match self.count {
            Some(n) => n,
            None => 0,
        }
    }

    /// A contract with no grants.
    pub fn new() -> (c: Self)
        ensures
            c.wf(),
            c.grants@ == Map::<u64, Grant>::empty(),
            c.count is None,
            c.allocations@ == Map::<Address, ReserveAllocation>::empty(),
    {
        GrantContract { grants: HashMap::new(), count: None, allocations: HashMap::new() }
    }

    /// Whether the stake of a proposal that got `votes_for` and
    /// `votes_against` out of `total_voting_power` is burned.
    pub fn should_burn_stake(votes_for: i128, votes_against: i128, total_voting_power: i128) -> (r:
        bool)
        requires
            i128::MIN <= votes_for + votes_against <= i128::MAX,
            i128::MIN <= (votes_for + votes_against) * 10000 <= i128::MAX,
            i128::MIN <= votes_against * 10000 <= i128::MAX,
        ensures
            r == stake_burns(votes_for as int, votes_against as int, total_voting_power as int),
    {
        if total_voting_power <= 0 {
            return false;
        }
        let total_votes: i128 = votes_for + votes_against;
        if total_votes <= 0 {
            return false;
        }
        let participation: i128 = (total_votes * 10000) / total_voting_power;
        proof {
            lemma_div_at_least(
                total_votes * 10000,
                total_voting_power as int,
                MIN_VOTING_PARTICIPATION_FOR_STAKE_BURN as int,
            );
        }
        if participation < MIN_VOTING_PARTICIPATION_FOR_STAKE_BURN as i128 {
            return false;
        }
        let rejection: i128 = (votes_against * 10000) / total_votes;
        proof {
            lemma_div_at_least(
                votes_against * 10000,
                total_votes as int,
                LANDSLIDE_REJECTION_THRESHOLD as int,
            );
        }
        rejection >= LANDSLIDE_REJECTION_THRESHOLD as i128
    }

    /// Whether the state holds a value under `key`.
    pub fn has(&self, key: DataKey) -> (r: bool)
        ensures
            r == match key {
                DataKey::Grant(id) => self.grants@.contains_key(id),
                DataKey::Count => self.count is Some,
            },
    {
        match key {
            DataKey::Grant(id) => self.grants.contains_key(&id),
            DataKey::Count => self.count.is_some(),
        }
    }

    /// Opens a new grant funded with `deposit`; returns its id, one past the
    /// previous one. The caller moves `deposit` of `token` from `admin` to the contract.
    pub fn create_grant(
        &mut self,
        admin: Address,
        grantee: Address,
        deposit: i128,
        flow_rate: i128,
        token: Address,
        now: u64,
    ) -> (id: u64)
        requires
            old(self).wf(),
            old(self).last_id() < u64::MAX,
        ensures
            final(self).wf(),
            id == old(self).last_id() + 1,
            final(self).count == Some(id),
            final(self).allocations@ == old(self).allocations@,
            final(self).grants@ == old(self).grants@.insert(
                id,
                Grant {
                    admin,
                    grantee,
                    flow_rate,
                    balance: deposit,
                    last_claim_time: now,
                    is_paused: false,
                    token,
                },
            ),
    {
        let mut count: u64 = match self.count {
            Some(n) => n,
            None => 0,
        };
        count = count + 1;
        let grant = Grant {
            admin,
            grantee,
            flow_rate,
            balance: deposit,
            last_claim_time: now,
            is_paused: false,
            token,
        };
        self.grants.insert(count, grant);
        self.count = Some(count);
        count
    }

    /// Pays out what has accrued on `grant_id` since its last claim, at most
    /// its balance; returns the payout, which the caller transfers to the
    /// grantee when it is positive.
    pub fn withdraw(&mut self, grant_id: u64, now: u64) -> (payout: i128)
        requires
            old(self).wf(),
            can_withdraw(old(self), grant_id, now),
        ensures
            final(self).wf(),
            final(self).count == old(self).count,
            final(self).allocations@ == old(self).allocations@,
            payout == payout_of(old(self).grants@[grant_id], now),
            final(self).grants@ == old(self).grants@.insert(
                grant_id,
                grant_after_withdraw(old(self).grants@[grant_id], now),
            ),
    {
        let mut grant: Grant = *self.grants.get(&grant_id).unwrap();
        let seconds_passed: u64 = now - grant.last_claim_time;
        let amount_due: i128 = grant.flow_rate * (seconds_passed as i128);
        let payout: i128 = if grant.balance >= amount_due {
            amount_due
        } else {
            grant.balance
        };
        if payout > 0 {
            grant.balance = grant.balance - payout;
            grant.last_claim_time = now;
            self.grants.insert(grant_id, grant);
        } else {
            proof {
                assert(old(self).grants@.insert(grant_id, grant) =~= old(self).grants@);
            }
        }
        payout
    }

    /// Sets the paused flag of an existing grant.
    pub fn set_pause(&mut self, grant_id: u64, pause_state: bool)
        requires
            old(self).wf(),
            old(self).grants@.contains_key(grant_id),
        ensures
            final(self).wf(),
            final(self).count == old(self).count,
            final(self).allocations@ == old(self).allocations@,
            final(self).grants@ == old(self).grants@.insert(
                grant_id,
                Grant { is_paused: pause_state, ..old(self).grants@[grant_id] },
            ),
    {
        let mut grant: Grant = *self.grants.get(&grant_id).unwrap();
        grant.is_paused = pause_state;
        self.grants.insert(grant_id, grant);
    }
}


/// A withdrawal moves exactly its payout out of the grant's balance; a
/// withdrawal that pays nothing leaves the grant as it was.
pub proof fn lemma_withdraw_conserves_balance(g: Grant, now: u64)
    requires
        i128::MIN <= amount_due(g, now) <= i128::MAX,
    ensures
        payout_of(g, now) > 0 ==> grant_after_withdraw(g, now).balance + payout_of(g, now)
            == g.balance,
        payout_of(g, now) <= 0 ==> grant_after_withdraw(g, now) == g,
{
}

/// A withdrawal never pays more than the grant holds, nor more than has
/// accrued; a grant that was not overdrawn stays so.
pub proof fn lemma_payout_bounded(g: Grant, now: u64)
    requires
        i128::MIN <= amount_due(g, now) <= i128::MAX,
    ensures
        payout_of(g, now) <= g.balance,
        payout_of(g, now) <= amount_due(g, now),
        g.balance >= 0 ==> grant_after_withdraw(g, now).balance >= 0,
{
}

/// Withdrawing twice at the same instant pays out nothing the second time.
pub proof fn lemma_withdraw_twice_pays_once(g: Grant, now: u64)
    requires
        now >= g.last_claim_time,
        i128::MIN <= amount_due(g, now) <= i128::MAX,
    ensures
        payout_of(grant_after_withdraw(g, now), now) <= 0,
{
    let g2 = grant_after_withdraw(g, now);
    if payout_of(g, now) > 0 {
        assert(g2.last_claim_time == now);
        assert(g2.flow_rate * (now - g2.last_claim_time) == 0) by (nonlinear_arith)
            requires
                g2.last_claim_time == now,
        ;
    }
}

/// A paused grant pays nothing out: no withdrawal from it can go through.
pub proof fn lemma_paused_grant_cannot_withdraw(c: GrantContract, grant_id: u64, now: u64)
    requires
        c.grants@.contains_key(grant_id),
        c.grants@[grant_id].is_paused,
    ensures
        !can_withdraw(&c, grant_id, now),
{
}

/// A new grant never takes the place of an existing one.
pub proof fn lemma_new_grant_id_is_fresh(c: GrantContract)
    requires
        c.wf(),
        c.last_id() < u64::MAX,
    ensures
        !c.grants@.contains_key((c.last_id() + 1) as u64),
{
}

/// A stake is only burned for a proposal rejected by a clear majority: an
/// approved or evenly split proposal never loses its stake.
pub proof fn lemma_burn_only_on_rejection(votes_for: int, votes_against: int, total_voting_power: int)
    requires
        stake_burns(votes_for, votes_against, total_voting_power),
    ensures
        votes_against > votes_for,
        votes_against > 0,
{
}

/// A withdrawal pays what has streamed over the whole time since the last
/// claim: the flow rate times the seconds elapsed when the balance covers
/// it, and the whole balance when it does not.
pub proof fn lemma_payout_is_streamed_amount(g: Grant, now: u64)
    requires
        now >= g.last_claim_time,
    ensures
        g.balance >= g.flow_rate * (now - g.last_claim_time) ==> payout_of(g, now) == g.flow_rate
            * (now - g.last_claim_time),
        g.balance < g.flow_rate * (now - g.last_claim_time) ==> payout_of(g, now) == g.balance,
{
}

/// Claiming in two steps pays the same as claiming once at the end, as long
/// as the balance covers everything that streamed: nothing is lost or paid
/// twice by claiming often or rarely.
pub proof fn lemma_withdrawals_add_up(g: Grant, t1: u64, t2: u64)
    requires
        g.last_claim_time <= t1 <= t2,
        g.flow_rate >= 0,
        g.balance >= g.flow_rate * (t2 - g.last_claim_time),
    ensures
        payout_of(g, t1) + payout_of(grant_after_withdraw(g, t1), t2) == payout_of(g, t2),
        payout_of(g, t2) == g.flow_rate * (t2 - g.last_claim_time),
{
    let r = g.flow_rate as int;
    let d1 = t1 - g.last_claim_time;
    let d2 = t2 - t1;
    assert(r * d1 <= r * (d1 + d2) && r * (d1 + d2) == r * d1 + r * d2 && r * d1 >= 0 && r * d2
        >= 0) by (nonlinear_arith)
        requires
            r >= 0,
            d1 >= 0,
            d2 >= 0,
    ;
    assert(t2 - g.last_claim_time == d1 + d2);
}

/// A rejected proposal's stake burns exactly when at least half of the
/// voting power took part and at least three quarters of the votes cast
/// were against; with too little participation it never burns, however
/// lopsided the votes.
pub proof fn lemma_burn_needs_participation_and_landslide(votes_for: int, votes_against: int, total_voting_power: int)
    requires
        total_voting_power > 0,
        votes_for >= 0,
        votes_against >= 0,
    ensures
        stake_burns(votes_for, votes_against, total_voting_power) <==> {
            &&& 2 * (votes_for + votes_against) >= total_voting_power
            &&& 4 * votes_against >= 3 * (votes_for + votes_against)
            &&& votes_against > 0
        },
{
}

} // verus!
