use std::collections::HashMap;
use vstd::prelude::*;

use crate::Address;

verus! {

broadcast use vstd::std_specs::hash::group_hash_axioms;

/// Length of a round before it can be finalized, in seconds (7 days).
pub const ROUND_DURATION: u64 = 7 * 24 * 60 * 60;

/// Fewest members a round may start with.
pub const MIN_MEMBERS: u32 = 3;

/// Most members the circle accepts.
pub const MAX_MEMBERS: u32 = 50;

/// Share of the platform fee paid to whoever finalizes a round, in basis points.
pub const GAS_BOUNTY_BPS: u32 = 10;

/// Share of the pot kept as platform fee, in basis points.
pub const PLATFORM_FEE_BPS: u32 = 50;

/// Recovery surcharge on a deficit, in basis points, split among the members.
pub const RECOVERY_SURCHARGE_BPS: u32 = 500;

/// Length of the deficit vote, in seconds (3 days).
pub const VOTING_PERIOD: u64 = 3 * 24 * 60 * 60;

/// Approval needed to skip a round's payout, in basis points.
pub const DEFICIT_VOTING_THRESHOLD: u32 = 6600;

/// Reliability score that a member must exceed to get grant priority.
pub const MIN_RELIABILITY_SCORE: u32 = 900;

/// Reliability score of a member who has not taken part in a round yet.
pub const PERFECT_SCORE: u32 = 1000;

/// A registered member of the savings circle.
#[derive(Clone, Copy, Debug, PartialEq, Eq, Structural)]
pub struct Member {
    pub address: Address,
    pub contribution: i128,
    pub reliability_score: u32,
    pub rounds_participated: u32,
    pub rounds_won: u32,
}

/// Where a round stands.
#[derive(Clone, Copy, Debug, PartialEq, Eq, Structural)]
pub enum RoundStatus {
    Active,
    Finalized,
    DeficitPaused,
    Skipped,
}

/// A round of the circle: its members pool their contributions into a pot
/// that one winner takes.
#[derive(Clone, Debug, PartialEq, Eq)]
pub struct Round {
    pub round_id: u32,
    pub members: Vec<Address>,
    pub total_pot: i128,
    pub winner: Option<Address>,
    pub status: RoundStatus,
    pub started_at: u64,
    pub finalized_at: Option<u64>,
    pub finalized_by: Option<Address>,
    pub gas_bounty_paid: i128,
    pub deficit_amount: i128,
    pub recovery_surcharge_per_member: i128,
    pub deficit_vote_passed: bool,
}

/// The members' vote on whether to skip the payout of a round in deficit.
#[derive(Clone, Copy, Debug, PartialEq, Eq, Structural)]
pub struct DeficitVote {
    pub round_id: u32,
    pub votes_for_skip: u32,
    pub votes_against_skip: u32,
    pub total_voting_power: u32,
    pub voting_deadline: u64,
    pub executed: bool,
}

/// A cached answer to a grant-priority query about a member.
#[derive(Clone, Copy, Debug, PartialEq, Eq, Structural)]
pub struct GrantPriorityCache {
    pub user: Address,
    pub reliability_score: u32,
    pub priority_enabled: bool,
    pub last_verified: u64,
    pub sorususu_contract: Address,
}

/// Keys under which the circle keeps its state.
#[derive(Clone, Copy, Debug, PartialEq, Eq, Structural)]
pub enum DataKey {
    Admin,
    PlatformFeeTreasury,
    GrantStreamContract,
    GrantToken,
    Member(Address),
    MemberCount,
    CurrentRound,
    RoundHistory(u32),
    DeficitVote(u32),
    TotalReliabilityScore(Address),
    PlatformFeePool,
}

/// Errors of the savings circle.
#[derive(Clone, Copy, Debug, PartialEq, Eq, Structural)]
pub enum SusuError {
    NotInitialized,
    NotAuthorized,
    InvalidAmount,
    InvalidMember,
    RoundNotFound,
    RoundAlreadyFinalized,
    InsufficientFunds,
    MemberLimitReached,
    TooFewMembers,
    DeficitDetected,
    VotingPeriodActive,
    VotingPeriodEnded,
    ThresholdNotMet,
    InvalidReliabilityScore,
    GrantStreamContractNotSet,
    MathOverflow,
    AlreadyInitialized,
}

/// The numeric code the contract reports for an error.
pub open spec fn susu_error_code(e: SusuError) -> u32 {
    match e {
        SusuError::NotInitialized => 1,
        SusuError::NotAuthorized => 2,
        SusuError::InvalidAmount => 3,
        SusuError::InvalidMember => 4,
        SusuError::RoundNotFound => 5,
        SusuError::RoundAlreadyFinalized => 6,
        SusuError::InsufficientFunds => 7,
        SusuError::MemberLimitReached => 8,
        SusuError::TooFewMembers => 9,
        SusuError::DeficitDetected => 10,
        SusuError::VotingPeriodActive => 11,
        SusuError::VotingPeriodEnded => 12,
        SusuError::ThresholdNotMet => 13,
        SusuError::InvalidReliabilityScore => 14,
        SusuError::GrantStreamContractNotSet => 15,
        SusuError::MathOverflow => 16,
        SusuError::AlreadyInitialized => 17,
    }
}

impl SusuError {
    /// The error's numeric code as the contract reports it.
    pub fn code(&self) -> (c: u32)
        ensures
            c == susu_error_code(*self),
    {
        match self {
            SusuError::NotInitialized => 1,
            SusuError::NotAuthorized => 2,
            SusuError::InvalidAmount => 3,
            SusuError::InvalidMember => 4,
            SusuError::RoundNotFound => 5,
            SusuError::RoundAlreadyFinalized => 6,
            SusuError::InsufficientFunds => 7,
            SusuError::MemberLimitReached => 8,
            SusuError::TooFewMembers => 9,
            SusuError::DeficitDetected => 10,
            SusuError::VotingPeriodActive => 11,
            SusuError::VotingPeriodEnded => 12,
            SusuError::ThresholdNotMet => 13,
            SusuError::InvalidReliabilityScore => 14,
            SusuError::GrantStreamContractNotSet => 15,
            SusuError::MathOverflow => 16,
            SusuError::AlreadyInitialized => 17,
        }
    }
}

/// The token movements that finalizing a round calls for: the pot less the
/// platform fee to the winner, the fee less the bounty to the treasury, and
/// the bounty to whoever finalized the round (when positive).
#[derive(Clone, Copy, Debug, PartialEq, Eq, Structural)]
pub struct RoundSettlement {
    pub winner: Address,
    pub winner_amount: i128,
    pub treasury: Address,
    pub net_fee: i128,
    pub caller: Address,
    pub gas_bounty: i128,
}

/// Whether `x` occurs in `v`.
pub fn contains_address(v: &Vec<Address>, x: Address) -> (r: bool)
    ensures
        r == v@.contains(x),
{
    let mut i: usize = 0;
    while i < v.len()
        invariant
            0 <= i <= v@.len(),
            forall|j: int| 0 <= j < i ==> v@[j] != x,
        decreases v@.len() - i,
    {
        if v[i] == x {
            return true;
        }
        i = i + 1;
    }
    false
}

/// The savings circle's state.
pub struct SoroSusuContract {
    pub admin: Option<Address>,
    pub platform_fee_treasury: Option<Address>,
    pub grant_stream_contract: Option<Address>,
    pub grant_token: Option<Address>,
    pub members: HashMap<Address, Member>,
    pub member_count: Option<u32>,
    pub current_round: Option<u32>,
    pub rounds: HashMap<u32, Round>,
    pub deficit_votes: HashMap<u32, DeficitVote>,
    pub platform_fee_pool: Option<i128>,
}

/// Every address of `s` is a registered member.
pub open spec fn all_present(m: Map<Address, Member>, s: Seq<Address>) -> bool {
    forall|i: int| 0 <= i < s.len() ==> m.contains_key(#[trigger] s[i])
}

/// Sum of the contributions of the members listed in `s` (with repetitions).
pub open spec fn contributions_sum(m: Map<Address, Member>, s: Seq<Address>) -> int
    decreases s.len(),
{
    if s.len() == 0 {
        0
    } else {
        contributions_sum(m, s.drop_last()) + m[s.last()].contribution
    }
}

/// Every running total that starting a round over `s` computes fits in an `i128`.
pub open spec fn pot_fits(m: Map<Address, Member>, s: Seq<Address>) -> bool {
    forall|k: int|
        0 <= k <= s.len() && all_present(m, #[trigger] s.take(k)) ==> contributions_sum(
            m,
            s.take(k),
        ) <= i128::MAX
}

/// A member's record is consistent: wins never exceed rounds played, the
/// score is at most perfect and the contribution is positive.
pub open spec fn member_wf(mb: Member) -> bool {
    &&& mb.rounds_won <= mb.rounds_participated
    &&& mb.reliability_score <= PERFECT_SCORE
    &&& mb.contribution > 0
}

/// A stored round is consistent: it has enough members for a vote, their
/// count fits a `u32`, its pot is not negative and it sits under its own id.
pub open spec fn round_wf(r: Round, id: u32) -> bool {
    &&& MIN_MEMBERS <= r.members@.len() <= u32::MAX
    &&& r.total_pot >= 0
    &&& r.round_id == id
}

/// A member's record after a round: one more round played, one more won if
/// `won`, and the score recomputed as wins per thousand rounds, at most perfect.
pub open spec fn member_after_round(mb: Member, won: bool) -> Member {
    let participated = (mb.rounds_participated + 1) as u32;
    let wins = (if won {
        mb.rounds_won + 1
    } else {
        mb.rounds_won as int
    }) as u32;
    let base = (wins * 1000) as int / participated as int;
    Member {
        rounds_participated: participated,
        rounds_won: wins,
        reliability_score: (if base <= PERFECT_SCORE {
            base
        } else {
            PERFECT_SCORE as int
        }) as u32,
        ..mb
    }
}

/// The counters of `mb` can be advanced by a round without overflow.
pub open spec fn member_can_advance(mb: Member, won: bool) -> bool {
    &&& mb.rounds_participated < u32::MAX
    &&& (if won {
        mb.rounds_won + 1
    } else {
        mb.rounds_won as int
    }) * 1000 <= u32::MAX
}

/// Platform fee on a pot.
pub open spec fn platform_fee(pot: int) -> int {
    pot * PLATFORM_FEE_BPS / 10000
}

/// Bounty paid out of a platform fee to whoever finalizes the round,
/// rounded up so that a finalizer is paid whenever the pot carries a fee.
pub open spec fn gas_bounty(fee: int) -> int {
    (fee * GAS_BOUNTY_BPS + 9999) / 10000
}

/// Recovery surcharge each of `n` members owes on a deficit.
pub open spec fn surcharge_per_member(deficit: int, n: int) -> int {
    deficit * RECOVERY_SURCHARGE_BPS / (n * 10000)
}

impl SoroSusuContract {
    /// Well-formedness of the whole state.
    pub open spec fn wf(&self) -> bool {
        &&& forall|a: Address| #[trigger]
            self.members@.contains_key(a) ==> member_wf(self.members@[a])
        &&& forall|id: u32| #[trigger]
            self.rounds@.contains_key(id) ==> round_wf(self.rounds@[id], id)
        &&& forall|id: u32| #[trigger]
            self.deficit_votes@.contains_key(id) ==> self.deficit_votes@[id].total_voting_power
                >= MIN_MEMBERS
    }

    /// A circle that has not been initialized.
    pub fn new() -> (c: Self)
        ensures
            c.wf(),
            c.admin is None,
            c.platform_fee_treasury is None,
            c.grant_stream_contract is None,
            c.grant_token is None,
            c.members@ == Map::<Address, Member>::empty(),
            c.member_count is None,
            c.current_round is None,
            c.rounds@ == Map::<u32, Round>::empty(),
            c.deficit_votes@ == Map::<u32, DeficitVote>::empty(),
            c.platform_fee_pool is None,
    {
        SoroSusuContract {
            admin: None,
            platform_fee_treasury: None,
            grant_stream_contract: None,
            grant_token: None,
            members: HashMap::new(),
            member_count: None,
            current_round: None,
            rounds: HashMap::new(),
            deficit_votes: HashMap::new(),
            platform_fee_pool: None,
        }
    }

    /// Whether the state holds a value under `key`.
    pub fn has(&self, key: DataKey) -> (r: bool)
        ensures
            r == match key {
                DataKey::Admin => self.admin is Some,
                DataKey::PlatformFeeTreasury => self.platform_fee_treasury is Some,
                DataKey::GrantStreamContract => self.grant_stream_contract is Some,
                DataKey::GrantToken => self.grant_token is Some,
                DataKey::Member(a) => self.members@.contains_key(a),
                DataKey::MemberCount => self.member_count is Some,
                DataKey::CurrentRound => self.current_round is Some,
                DataKey::RoundHistory(id) => self.rounds@.contains_key(id),
                DataKey::DeficitVote(id) => self.deficit_votes@.contains_key(id),
                DataKey::TotalReliabilityScore(_) => false,
                DataKey::PlatformFeePool => self.platform_fee_pool is Some,
            },
    {
        match key {
            DataKey::Admin => self.admin.is_some(),
            DataKey::PlatformFeeTreasury => self.platform_fee_treasury.is_some(),
            DataKey::GrantStreamContract => self.grant_stream_contract.is_some(),
            DataKey::GrantToken => self.grant_token.is_some(),
            DataKey::Member(a) => self.members.contains_key(&a),
            DataKey::MemberCount => self.member_count.is_some(),
            DataKey::CurrentRound => self.current_round.is_some(),
            DataKey::RoundHistory(id) => self.rounds.contains_key(&id),
            DataKey::DeficitVote(id) => self.deficit_votes.contains_key(&id),
            DataKey::TotalReliabilityScore(_) => false,
            DataKey::PlatformFeePool => self.platform_fee_pool.is_some(),
        }
    }

    /// Sets the admin and the fee treasury, with no members and no rounds
    /// yet; refused once an admin is set.
    pub fn initialize(&mut self, admin: Address, platform_fee_treasury: Address) -> (r: Result<
        (),
        SusuError,
    >)
        requires
            old(self).wf(),
        ensures
            final(self).wf(),
            old(self).admin is Some ==> r == Err::<(), SusuError>(SusuError::AlreadyInitialized)
                && *final(self) == *old(self),
            old(self).admin is None ==> r is Ok && *final(self) == (SoroSusuContract {
                admin: Some(admin),
                platform_fee_treasury: Some(platform_fee_treasury),
                member_count: Some(0u32),
                current_round: Some(0u32),
                platform_fee_pool: Some(0i128),
                ..*old(self)
            }),
    {
        if self.admin.is_some() {
            return Err(SusuError::AlreadyInitialized);
        }
        self.admin = Some(admin);
        self.platform_fee_treasury = Some(platform_fee_treasury);
        self.member_count = Some(0);
        self.current_round = Some(0);
        self.platform_fee_pool = Some(0);
        Ok(())
    }
}


/// `opt` read with a default of 0, as the contract reads its counters.
pub open spec fn or_zero(opt: Option<u32>) -> u32 {
    match opt {
        Some(n) => n,
        None => 0,
    }
}

/// The round that `start_round` records.
pub open spec fn started_round(r: Round, id: u32, members: Seq<Address>, pot: int, now: u64) -> bool {
    &&& r.round_id == id
    &&& r.members@ == members
    &&& r.total_pot == pot
    &&& r.winner is None
    &&& r.status == RoundStatus::Active
    &&& r.started_at == now
    &&& r.finalized_at is None
    &&& r.finalized_by is None
    &&& r.gas_bounty_paid == 0
    &&& r.deficit_amount == 0
    &&& r.recovery_surcharge_per_member == 0
    &&& !r.deficit_vote_passed
}

/// A round after it has been paid out.
pub open spec fn finalized_round(r: Round, winner: Address, now: u64, caller: Address, bounty: int) -> Round {
    Round {
        winner: Some(winner),
        status: RoundStatus::Finalized,
        finalized_at: Some(now),
        finalized_by: Some(caller),
        gas_bounty_paid: bounty as i128,
        ..r
    }
}

/// A round after a deficit of `deficit` has paused it.
pub open spec fn paused_round(r: Round, deficit: int) -> Round {
    Round {
        status: RoundStatus::DeficitPaused,
        deficit_amount: deficit as i128,
        recovery_surcharge_per_member: surcharge_per_member(deficit, r.members@.len() as int) as i128,
        ..r
    }
}

/// The vote opened on a round in deficit at `now`.
pub open spec fn opened_vote(r: Round, id: u32, now: u64) -> DeficitVote {
    DeficitVote {
        round_id: id,
        votes_for_skip: 0,
        votes_against_skip: 0,
        total_voting_power: r.members@.len() as u32,
        voting_deadline: (now + VOTING_PERIOD) as u64,
        executed: false,
    }
}

/// Two states agree on everything but the members and the member count.
pub open spec fn same_but_members(a: &SoroSusuContract, b: &SoroSusuContract) -> bool {
    &&& a.admin == b.admin
    &&& a.platform_fee_treasury == b.platform_fee_treasury
    &&& a.grant_stream_contract == b.grant_stream_contract
    &&& a.grant_token == b.grant_token
    &&& a.current_round == b.current_round
    &&& a.rounds@ == b.rounds@
    &&& a.deficit_votes@ == b.deficit_votes@
    &&& a.platform_fee_pool == b.platform_fee_pool
}

/// Two states agree on everything but the rounds, the votes and the members.
pub open spec fn same_settings(a: &SoroSusuContract, b: &SoroSusuContract) -> bool {
    &&& a.admin == b.admin
    &&& a.platform_fee_treasury == b.platform_fee_treasury
    &&& a.grant_stream_contract == b.grant_stream_contract
    &&& a.grant_token == b.grant_token
    &&& a.member_count == b.member_count
    &&& a.current_round == b.current_round
    &&& a.platform_fee_pool == b.platform_fee_pool
}

impl SoroSusuContract {
    /// The error `register_member` reports, if any.
    pub open spec fn register_error(&self, initial_contribution: i128) -> Option<SusuError> {
        if self.admin is None {
            Some(SusuError::NotInitialized)
        } else if initial_contribution <= 0 {
            Some(SusuError::InvalidAmount)
        } else if or_zero(self.member_count) >= MAX_MEMBERS {
            Some(SusuError::MemberLimitReached)
        } else {
            None
        }
    }

    /// Records `member` with its contribution and a perfect score, and counts
    /// it; the admin authorizes the call. A member registered again is
    /// overwritten and counted again.
    pub fn register_member(&mut self, member: Address, initial_contribution: i128) -> (r: Result<
        (),
        SusuError,
    >)
        requires
            old(self).wf(),
        ensures
            final(self).wf(),
            match old(self).register_error(initial_contribution) {
                Some(e) => r == Err::<(), SusuError>(e) && *final(self) == *old(self),
                None => {
                    &&& r is Ok
                    &&& same_but_members(final(self), old(self))
                    &&& final(self).member_count == Some((or_zero(old(self).member_count) + 1) as u32)
                    &&& final(self).members@ == old(self).members@.insert(
                        member,
                        Member {
                            address: member,
                            contribution: initial_contribution,
                            reliability_score: PERFECT_SCORE,
                            rounds_participated: 0,
                            rounds_won: 0,
                        },
                    )
                },
            },
    {
        if self.admin.is_none() {
            return Err(SusuError::NotInitialized);
        }
        if initial_contribution <= 0 {
            return Err(SusuError::InvalidAmount);
        }
        let member_count: u32 = match self.member_count {
            Some(n) => n,
            None => 0,
        };
        if member_count >= MAX_MEMBERS {
            return Err(SusuError::MemberLimitReached);
        }
        let member_data = Member {
            address: member,
            contribution: initial_contribution,
            reliability_score: PERFECT_SCORE,
            rounds_participated: 0,
            rounds_won: 0,
        };
        self.members.insert(member, member_data);
        self.member_count = Some(member_count + 1);
        Ok(())
    }

    /// The error `start_round` reports for `members`, if any.
    pub open spec fn start_round_error(&self, members: Seq<Address>) -> Option<SusuError> {
        if self.admin is None {
            Some(SusuError::NotInitialized)
        } else if members.len() < MIN_MEMBERS {
            Some(SusuError::TooFewMembers)
        } else if !all_present(self.members@, members) {
            Some(SusuError::InvalidMember)
        } else {
            None
        }
    }

    /// Opens the next round over `members` at `now`, its pot the sum of their
    /// contributions; returns the round's id, one past the current one. The
    /// admin authorizes the call.
    pub fn start_round(&mut self, members: Vec<Address>, now: u64) -> (r: Result<u32, SusuError>)
        requires
            old(self).wf(),
            members@.len() <= u32::MAX,
            old(self).admin is Some && members@.len() >= MIN_MEMBERS ==> or_zero(
                old(self).current_round,
            ) < u32::MAX,
            old(self).admin is Some && members@.len() >= MIN_MEMBERS ==> pot_fits(
                old(self).members@,
                members@,
            ),
        ensures
            final(self).wf(),
            match old(self).start_round_error(members@) {
                Some(e) => r == Err::<u32, SusuError>(e) && *final(self) == *old(self),
                None => {
                    let id = (or_zero(old(self).current_round) + 1) as u32;
                    &&& r == Ok::<u32, SusuError>(id)
                    &&& final(self).current_round == Some(id)
                    &&& final(self).rounds@ == old(self).rounds@.insert(id, final(self).rounds@[id])
                    &&& started_round(
                        final(self).rounds@[id],
                        id,
                        members@,
                        contributions_sum(old(self).members@, members@),
                        now,
                    )
                    &&& final(self).admin == old(self).admin
                    &&& final(self).platform_fee_treasury == old(self).platform_fee_treasury
                    &&& final(self).grant_stream_contract == old(self).grant_stream_contract
                    &&& final(self).grant_token == old(self).grant_token
                    &&& final(self).member_count == old(self).member_count
                    &&& final(self).members@ == old(self).members@
                    &&& final(self).deficit_votes@ == old(self).deficit_votes@
                    &&& final(self).platform_fee_pool == old(self).platform_fee_pool
                },
            },
    {
        if self.admin.is_none() {
            return Err(SusuError::NotInitialized);
        }
        if members.len() < MIN_MEMBERS as usize {
            return Err(SusuError::TooFewMembers);
        }
        let current_round_id: u32 = match self.current_round {
            Some(n) => n,
            None => 0,
        };
        let new_round_id: u32 = current_round_id + 1;
        let n: usize = members.len();
        let mut total_pot: i128 = 0;
        let mut i: usize = 0;
        while i < n
            invariant
                self.wf(),
                n == members@.len(),
                0 <= i <= n,
                all_present(self.members@, members@.take(i as int)),
                total_pot == contributions_sum(self.members@, members@.take(i as int)),
                total_pot >= 0,
                pot_fits(self.members@, members@),
                self.admin is Some,
                members@.len() >= MIN_MEMBERS,
            decreases n - i,
        {
            let a: Address = members[i];
            match self.members.get(&a) {
                None => {
                    proof {
                        assert(!all_present(self.members@, members@)) by {
                            assert(members@[i as int] == a);
                        }
                    }
                    return Err(SusuError::InvalidMember);
                },
                Some(mb) => {
                    proof {
                        let t = members@.take(i as int + 1);
                        assert(t.drop_last() =~= members@.take(i as int));
                        assert(t.last() == a);
                        assert(all_present(self.members@, t));
                        assert(contributions_sum(self.members@, t) == total_pot + mb.contribution);
                        assert(member_wf(self.members@[a]));
                    }
                    total_pot = total_pot + mb.contribution;
                },
            }
            i = i + 1;
        }
        proof {
            assert(members@.take(n as int) =~= members@);
        }
        let round = Round {
            round_id: new_round_id,
            members,
            total_pot,
            winner: None,
            status: RoundStatus::Active,
            started_at: now,
            finalized_at: None,
            finalized_by: None,
            gas_bounty_paid: 0,
            deficit_amount: 0,
            recovery_surcharge_per_member: 0,
            deficit_vote_passed: false,
        };
        self.current_round = Some(new_round_id);
        self.rounds.insert(new_round_id, round);
        Ok(new_round_id)
    }
}


impl SoroSusuContract {
    /// The error `finalize_round` reports, if any, when `contract_balance`
    /// is what the contract holds of the circle's token; without a recorded
    /// token the round cannot be settled.
    pub open spec fn finalize_error(
        &self,
        round_id: u32,
        winner: Address,
        now: u64,
        contract_balance: i128,
    ) -> Option<SusuError> {
        let r = self.rounds@[round_id];
        if !self.rounds@.contains_key(round_id) {
            Some(SusuError::RoundNotFound)
        } else if r.status != RoundStatus::Active {
            Some(SusuError::RoundAlreadyFinalized)
        } else if now < r.started_at + ROUND_DURATION {
            Some(SusuError::VotingPeriodActive)
        } else if self.grant_token is None {
            Some(SusuError::NotInitialized)
        } else if contract_balance < r.total_pot {
            Some(SusuError::DeficitDetected)
        } else if self.platform_fee_treasury is None {
            Some(SusuError::NotInitialized)
        } else if !self.members@.contains_key(winner) {
            Some(SusuError::InvalidMember)
        } else {
            None
        }
    }

    /// `post` is this state after round `round_id` was paused for a deficit
    /// against `contract_balance` at `now`: the round records the deficit
    /// and the surcharge, and a vote on skipping its payout is open.
    pub open spec fn round_paused(&self, post: &Self, round_id: u32, now: u64, contract_balance: i128) -> bool {
        let rd = self.rounds@[round_id];
        &&& same_settings(post, self)
        &&& post.rounds@ == self.rounds@.insert(
            round_id,
            paused_round(rd, rd.total_pot - contract_balance),
        )
        &&& post.deficit_votes@ == self.deficit_votes@.insert(
            round_id,
            opened_vote(rd, round_id, now),
        )
        &&& post.members@ == self.members@
    }

    /// `post` is this state after round `round_id` was paid out to `winner`
    /// at the request of `caller` at `now`: the round is finalized with the
    /// bounty it paid, and the winner's record counts a won round.
    pub open spec fn round_finalized(&self, post: &Self, round_id: u32, winner: Address, caller: Address, now: u64) -> bool {
        let rd = self.rounds@[round_id];
        let bounty = gas_bounty(platform_fee(rd.total_pot as int));
        &&& same_settings(post, self)
        &&& post.rounds@ == self.rounds@.insert(
            round_id,
            finalized_round(rd, winner, now, caller, bounty),
        )
        &&& post.deficit_votes@ == self.deficit_votes@
        &&& post.members@ == self.members@.insert(
            winner,
            member_after_round(self.members@[winner], true),
        )
    }

    /// The arithmetic `finalize_round` does on these inputs stays in range.
    pub open spec fn finalize_fits(
        &self,
        round_id: u32,
        winner: Address,
        now: u64,
        contract_balance: i128,
    ) -> bool {
        let r = self.rounds@[round_id];
        self.rounds@.contains_key(round_id) && r.status == RoundStatus::Active ==> {
            &&& r.started_at + ROUND_DURATION <= u64::MAX
            &&& (now >= r.started_at + ROUND_DURATION && self.grant_token is Some) ==> {
                &&& contract_balance < r.total_pot ==> {
                    &&& (r.total_pot - contract_balance) * RECOVERY_SURCHARGE_BPS <= i128::MAX
                    &&& now + VOTING_PERIOD <= u64::MAX
                }
                &&& contract_balance >= r.total_pot ==> {
                    &&& r.total_pot * PLATFORM_FEE_BPS <= i128::MAX
                    &&& (self.platform_fee_treasury is Some && self.members@.contains_key(winner))
                        ==> member_can_advance(self.members@[winner], true)
                }
            }
        }
    }

    /// Pays out round `round_id` to `winner` once the round has run its
    /// course; anyone may call it, and `caller` earns the gas bounty.
    ///
    /// When the contract holds less of the token than the pot, the round is
    /// paused with its deficit and a per-member recovery surcharge, a
    /// deficit vote is opened, and `DeficitDetected` is returned. Otherwise
    /// the round is marked finalized, the winner's record counts a won
    /// round, and the token movements are returned: the pot less the 0.5%
    /// platform fee to the winner, the fee less a 0.1% bounty (rounded up)
    /// to the treasury, the bounty to the caller. Any other refusal leaves
    /// the state as it was.
    pub fn finalize_round(
        &mut self,
        round_id: u32,
        winner: Address,
        caller: Address,
        now: u64,
        contract_balance: i128,
    ) -> (r: Result<RoundSettlement, SusuError>)
        requires
            old(self).wf(),
            old(self).finalize_fits(round_id, winner, now, contract_balance),
        ensures
            final(self).wf(),
            same_settings(final(self), old(self)),
            ({
                let rd = old(self).rounds@[round_id];
                let fee = platform_fee(rd.total_pot as int);
                let bounty = gas_bounty(fee);
                match old(self).finalize_error(round_id, winner, now, contract_balance) {
                    Some(SusuError::DeficitDetected) => {
                        &&& r == Err::<RoundSettlement, SusuError>(SusuError::DeficitDetected)
                        &&& old(self).round_paused(final(self), round_id, now, contract_balance)
                    },
                    Some(e) => r == Err::<RoundSettlement, SusuError>(e) && *final(self)
                        == *old(self),
                    None => {
                        &&& r == Ok::<RoundSettlement, SusuError>(
                            RoundSettlement {
                                winner,
                                winner_amount: (rd.total_pot - fee) as i128,
                                treasury: old(self).platform_fee_treasury->0,
                                net_fee: (fee - bounty) as i128,
                                caller,
                                gas_bounty: bounty as i128,
                            },
                        )
                        &&& old(self).round_finalized(final(self), round_id, winner, caller, now)
                    },
                }
            }),
    {
        let round: &Round = match self.rounds.get(&round_id) {
            Some(rd) => rd,
            None => {
                return Err(SusuError::RoundNotFound);
            },
        };
        if round.status != RoundStatus::Active {
            return Err(SusuError::RoundAlreadyFinalized);
        }
        if now < round.started_at + ROUND_DURATION {
            return Err(SusuError::VotingPeriodActive);
        }
        if self.grant_token.is_none() {
            return Err(SusuError::NotInitialized);
        }
        let total_pot: i128 = round.total_pot;
        if contract_balance < total_pot {
            return self.activate_deficit_resolution(round_id, contract_balance, now);
        }
        let platform_fee: i128 = (total_pot * PLATFORM_FEE_BPS as i128) / 10000;
        let winner_amount: i128 = total_pot - platform_fee;
        let gas_bounty: i128 = (platform_fee * GAS_BOUNTY_BPS as i128 + 9999) / 10000;
        let net_fee: i128 = platform_fee - gas_bounty;
        let treasury: Address = match self.platform_fee_treasury {
            Some(t) => t,
            None => {
                return Err(SusuError::NotInitialized);
            },
        };
        if !self.members.contains_key(&winner) {
            return Err(SusuError::InvalidMember);
        }
        let mut round: Round = self.rounds.remove(&round_id).unwrap();
        round.winner = Some(winner);
        round.status = RoundStatus::Finalized;
        round.finalized_at = Some(now);
        round.finalized_by = Some(caller);
        round.gas_bounty_paid = gas_bounty;
        self.rounds.insert(round_id, round);
        proof {
            assert(self.rounds@ =~= old(self).rounds@.insert(
                round_id,
                finalized_round(old(self).rounds@[round_id], winner, now, caller, gas_bounty as int),
            ));
        }
        match self.update_member_reliability(winner, true) {
            Ok(()) => {},
            Err(e) => {
                return Err(e);
            },
        }
        Ok(
            RoundSettlement {
                winner,
                winner_amount,
                treasury,
                net_fee,
                caller,
                gas_bounty,
            },
        )
    }

    /// Pauses round `round_id` for a deficit against `actual_balance` and
    /// opens the vote on skipping its payout; always reports `DeficitDetected`.
    fn activate_deficit_resolution(&mut self, round_id: u32, actual_balance: i128, now: u64) -> (r:
        Result<RoundSettlement, SusuError>)
        requires
            old(self).wf(),
            old(self).rounds@.contains_key(round_id),
            actual_balance < old(self).rounds@[round_id].total_pot,
            (old(self).rounds@[round_id].total_pot - actual_balance) * RECOVERY_SURCHARGE_BPS
                <= i128::MAX,
            now + VOTING_PERIOD <= u64::MAX,
        ensures
            final(self).wf(),
            same_settings(final(self), old(self)),
            r == Err::<RoundSettlement, SusuError>(SusuError::DeficitDetected),
            final(self).rounds@ == old(self).rounds@.insert(
                round_id,
                paused_round(
                    old(self).rounds@[round_id],
                    old(self).rounds@[round_id].total_pot - actual_balance,
                ),
            ),
            final(self).deficit_votes@ == old(self).deficit_votes@.insert(
                round_id,
                opened_vote(old(self).rounds@[round_id], round_id, now),
            ),
            final(self).members@ == old(self).members@,
    {
        let mut round: Round = self.rounds.remove(&round_id).unwrap();
        let deficit_amount: i128 = round.total_pot - actual_balance;
        let n: usize = round.members.len();
        round.status = RoundStatus::DeficitPaused;
        round.deficit_amount = deficit_amount;
        let surcharge_per_member: i128 = (deficit_amount * RECOVERY_SURCHARGE_BPS as i128) / (
        n as i128 * 10000);
        round.recovery_surcharge_per_member = surcharge_per_member;
        let vote = DeficitVote {
            round_id,
            votes_for_skip: 0,
            votes_against_skip: 0,
            total_voting_power: n as u32,
            voting_deadline: now + VOTING_PERIOD,
            executed: false,
        };
        self.rounds.insert(round_id, round);
        self.deficit_votes.insert(round_id, vote);
        proof {
            assert(self.rounds@ =~= old(self).rounds@.insert(
                round_id,
                paused_round(old(self).rounds@[round_id], deficit_amount as int),
            ));
        }
        Err(SusuError::DeficitDetected)
    }

    /// Counts a round played (and won, if `won`) in `member`'s record and
    /// recomputes its reliability score.
    fn update_member_reliability(&mut self, member: Address, won: bool) -> (r: Result<(), SusuError>)
        requires
            old(self).wf(),
            old(self).members@.contains_key(member) ==> member_can_advance(
                old(self).members@[member],
                won,
            ),
        ensures
            final(self).wf(),
            same_settings(final(self), old(self)),
            final(self).rounds@ == old(self).rounds@,
            final(self).deficit_votes@ == old(self).deficit_votes@,
            old(self).members@.contains_key(member) ==> r is Ok && final(self).members@ == old(
                self,
            ).members@.insert(member, member_after_round(old(self).members@[member], won)),
            !old(self).members@.contains_key(member) ==> r == Err::<(), SusuError>(
                SusuError::InvalidMember,
            ) && final(self).members@ == old(self).members@,
    {
        let mut member_data: Member = match self.members.get(&member) {
            Some(mb) => *mb,
            None => {
                return Err(SusuError::InvalidMember);
            },
        };
        member_data.rounds_participated = member_data.rounds_participated + 1;
        if won {
            member_data.rounds_won = member_data.rounds_won + 1;
        }
        let base_score: u32 = if member_data.rounds_participated > 0 {
            (member_data.rounds_won * 1000) / member_data.rounds_participated
        } else {
            PERFECT_SCORE
        };
        member_data.reliability_score = if base_score < PERFECT_SCORE {
            base_score
        } else {
            PERFECT_SCORE
        };
        proof {
            assert((member_data.rounds_won as int * 1000) / (member_data.rounds_participated as int) <= 1000) by (
            nonlinear_arith)
                requires
                    member_data.rounds_won <= member_data.rounds_participated,
                    member_data.rounds_participated > 0,
            ;
        }
        self.members.insert(member, member_data);
        Ok(())
    }
}


impl SoroSusuContract {
    /// The error `vote_on_deficit` reports, if any.
    pub open spec fn vote_error(&self, round_id: u32, voter: Address, now: u64) -> Option<SusuError> {
        if !self.rounds@.contains_key(round_id) {
            Some(SusuError::RoundNotFound)
        } else if !self.rounds@[round_id].members@.contains(voter) {
            Some(SusuError::InvalidMember)
        } else if !self.deficit_votes@.contains_key(round_id) {
            Some(SusuError::VotingPeriodActive)
        } else if now > self.deficit_votes@[round_id].voting_deadline {
            Some(SusuError::VotingPeriodEnded)
        } else {
            None
        }
    }

    /// `voter`, a member of round `round_id`, casts a vote on skipping its
    /// payout before the vote's deadline. Nothing stops a member from
    /// voting more than once.
    pub fn vote_on_deficit(&mut self, round_id: u32, vote_for_skip: bool, voter: Address, now: u64) -> (r:
        Result<(), SusuError>)
        requires
            old(self).wf(),
            old(self).vote_error(round_id, voter, now) is None ==> {
                let v = old(self).deficit_votes@[round_id];
                if vote_for_skip {
                    v.votes_for_skip < u32::MAX
                } else {
                    v.votes_against_skip < u32::MAX
                }
            },
        ensures
            final(self).wf(),
            match old(self).vote_error(round_id, voter, now) {
                Some(e) => r == Err::<(), SusuError>(e) && *final(self) == *old(self),
                None => {
                    let v = old(self).deficit_votes@[round_id];
                    &&& r is Ok
                    &&& same_settings(final(self), old(self))
                    &&& final(self).rounds@ == old(self).rounds@
                    &&& final(self).members@ == old(self).members@
                    &&& final(self).deficit_votes@ == old(self).deficit_votes@.insert(
                        round_id,
                        if vote_for_skip {
                            DeficitVote { votes_for_skip: (v.votes_for_skip + 1) as u32, ..v }
                        } else {
                            DeficitVote { votes_against_skip: (v.votes_against_skip + 1) as u32, ..v }
                        },
                    )
                },
            },
    {
        let is_member: bool = match self.rounds.get(&round_id) {
            Some(rd) => contains_address(&rd.members, voter),
            None => {
                return Err(SusuError::RoundNotFound);
            },
        };
        if !is_member {
            return Err(SusuError::InvalidMember);
        }
        let mut vote: DeficitVote = match self.deficit_votes.get(&round_id) {
            Some(v) => *v,
            None => {
                return Err(SusuError::VotingPeriodActive);
            },
        };
        if now > vote.voting_deadline {
            return Err(SusuError::VotingPeriodEnded);
        }
        if vote_for_skip {
            vote.votes_for_skip = vote.votes_for_skip + 1;
        } else {
            vote.votes_against_skip = vote.votes_against_skip + 1;
        }
        self.deficit_votes.insert(round_id, vote);
        Ok(())
    }

    /// Share of the voting power that voted to skip, in basis points.
    pub open spec fn approval_bps(v: DeficitVote) -> int {
        (v.votes_for_skip * 10000) as int / v.total_voting_power as int
    }

    /// The error `execute_deficit_vote` reports, if any.
    pub open spec fn execute_vote_error(&self, round_id: u32, now: u64) -> Option<SusuError> {
        let v = self.deficit_votes@[round_id];
        if self.admin is None {
            Some(SusuError::NotInitialized)
        } else if !self.deficit_votes@.contains_key(round_id) {
            Some(SusuError::VotingPeriodActive)
        } else if now < v.voting_deadline {
            Some(SusuError::VotingPeriodActive)
        } else if Self::approval_bps(v) < DEFICIT_VOTING_THRESHOLD {
            Some(SusuError::ThresholdNotMet)
        } else if !self.rounds@.contains_key(round_id) {
            Some(SusuError::RoundNotFound)
        } else {
            None
        }
    }

    /// Once the vote's deadline has passed and at least 66% of the voting
    /// power voted to skip, marks round `round_id` as skipped. The admin
    /// authorizes the call.
    pub fn execute_deficit_vote(&mut self, round_id: u32, now: u64) -> (r: Result<(), SusuError>)
        requires
            old(self).wf(),
            old(self).admin is Some && old(self).deficit_votes@.contains_key(round_id) && now
                >= old(self).deficit_votes@[round_id].voting_deadline ==> old(
                self,
            ).deficit_votes@[round_id].votes_for_skip * 10000 <= u32::MAX,
        ensures
            final(self).wf(),
            match old(self).execute_vote_error(round_id, now) {
                Some(e) => r == Err::<(), SusuError>(e) && *final(self) == *old(self),
                None => {
                    &&& r is Ok
                    &&& same_settings(final(self), old(self))
                    &&& final(self).members@ == old(self).members@
                    &&& final(self).deficit_votes@ == old(self).deficit_votes@
                    &&& final(self).rounds@ == old(self).rounds@.insert(
                        round_id,
                        Round {
                            status: RoundStatus::Skipped,
                            deficit_vote_passed: true,
                            ..old(self).rounds@[round_id]
                        },
                    )
                },
            },
    {
        if self.admin.is_none() {
            return Err(SusuError::NotInitialized);
        }
        let vote: DeficitVote = match self.deficit_votes.get(&round_id) {
            Some(v) => *v,
            None => {
                return Err(SusuError::VotingPeriodActive);
            },
        };
        if now < vote.voting_deadline {
            return Err(SusuError::VotingPeriodActive);
        }
        let approval_percentage: u32 = (vote.votes_for_skip * 10000) / vote.total_voting_power;
        if approval_percentage < DEFICIT_VOTING_THRESHOLD {
            return Err(SusuError::ThresholdNotMet);
        }
        if !self.rounds.contains_key(&round_id) {
            return Err(SusuError::RoundNotFound);
        }
        let mut round: Round = self.rounds.remove(&round_id).unwrap();
        round.status = RoundStatus::Skipped;
        round.deficit_vote_passed = true;
        self.rounds.insert(round_id, round);
        proof {
            assert(self.rounds@ =~= old(self).rounds@.insert(
                round_id,
                Round {
                    status: RoundStatus::Skipped,
                    deficit_vote_passed: true,
                    ..old(self).rounds@[round_id]
                },
            ));
        }
        Ok(())
    }

    /// The reliability score of member `user`.
    pub fn get_reliability_score(&self, user: Address) -> (r: Result<u32, SusuError>)
        ensures
            self.members@.contains_key(user) ==> r == Ok::<u32, SusuError>(
                self.members@[user].reliability_score,
            ),
            !self.members@.contains_key(user) ==> r == Err::<u32, SusuError>(
                SusuError::InvalidMember,
            ),
    {
        match self.members.get(&user) {
            Some(mb) => Ok(mb.reliability_score),
            None => Err(SusuError::InvalidMember),
        }
    }

    /// Whether member `user` qualifies for grant priority: its score exceeds 900.
    pub fn verify_grant_priority_eligible(&self, user: Address) -> (r: Result<bool, SusuError>)
        ensures
            self.members@.contains_key(user) ==> r == Ok::<bool, SusuError>(
                self.members@[user].reliability_score > MIN_RELIABILITY_SCORE,
            ),
            !self.members@.contains_key(user) ==> r == Err::<bool, SusuError>(
                SusuError::InvalidMember,
            ),
    {
        let score: u32 = match self.get_reliability_score(user) {
            Ok(s) => s,
            Err(e) => {
                return Err(e);
            },
        };
        Ok(score > MIN_RELIABILITY_SCORE)
    }

    /// The error an admin-only setter reports for `admin`, if any.
    pub open spec fn admin_error(&self, admin: Address) -> Option<SusuError> {
        match self.admin {
            None => Some(SusuError::NotInitialized),
            Some(a) => if a != admin {
                Some(SusuError::NotAuthorized)
            } else {
                None
            },
        }
    }

    /// Records the Grant-Stream contract that queries reliability scores;
    /// only the stored admin may do so.
    pub fn set_grant_stream_contract(&mut self, admin: Address, contract_addr: Address) -> (r:
        Result<(), SusuError>)
        requires
            old(self).wf(),
        ensures
            final(self).wf(),
            match old(self).admin_error(admin) {
                Some(e) => r == Err::<(), SusuError>(e) && *final(self) == *old(self),
                None => r is Ok && *final(self) == (SoroSusuContract {
                    grant_stream_contract: Some(contract_addr),
                    ..*old(self)
                }),
            },
    {
        let stored_admin: Address = match self.admin {
            Some(a) => a,
            None => {
                return Err(SusuError::NotInitialized);
            },
        };
        if admin != stored_admin {
            return Err(SusuError::NotAuthorized);
        }
        self.grant_stream_contract = Some(contract_addr);
        Ok(())
    }

    /// Records the token the circle's pots are held in; only the stored
    /// admin may do so.
    pub fn set_grant_token(&mut self, admin: Address, token: Address) -> (r: Result<(), SusuError>)
        requires
            old(self).wf(),
        ensures
            final(self).wf(),
            match old(self).admin_error(admin) {
                Some(e) => r == Err::<(), SusuError>(e) && *final(self) == *old(self),
                None => r is Ok && *final(self) == (SoroSusuContract {
                    grant_token: Some(token),
                    ..*old(self)
                }),
            },
    {
        let stored_admin: Address = match self.admin {
            Some(a) => a,
            None => {
                return Err(SusuError::NotInitialized);
            },
        };
        if admin != stored_admin {
            return Err(SusuError::NotAuthorized);
        }
        self.grant_token = Some(token);
        Ok(())
    }

    /// Round `round_id`.
    pub fn get_round(&self, round_id: u32) -> (r: Result<&Round, SusuError>)
        ensures
            self.rounds@.contains_key(round_id) ==> r is Ok && *r->Ok_0 == self.rounds@[round_id],
            !self.rounds@.contains_key(round_id) ==> r is Err && r->Err_0
                == SusuError::RoundNotFound,
    {
        match self.rounds.get(&round_id) {
            Some(rd) => Ok(rd),
            None => Err(SusuError::RoundNotFound),
        }
    }

    /// The record of member `member`.
    pub fn get_member(&self, member: Address) -> (r: Result<Member, SusuError>)
        ensures
            self.members@.contains_key(member) ==> r == Ok::<Member, SusuError>(
                self.members@[member],
            ),
            !self.members@.contains_key(member) ==> r == Err::<Member, SusuError>(
                SusuError::InvalidMember,
            ),
    {
        match self.members.get(&member) {
            Some(mb) => Ok(*mb),
            None => Err(SusuError::InvalidMember),
        }
    }

    /// The id of the latest round.
    pub fn get_current_round(&self) -> (r: Result<u32, SusuError>)
        ensures
            match self.current_round {
                Some(n) => r == Ok::<u32, SusuError>(n),
                None => r == Err::<u32, SusuError>(SusuError::RoundNotFound),
            },
    {
        match self.current_round {
            Some(n) => Ok(n),
            None => Err(SusuError::RoundNotFound),
        }
    }
}


/// Finalizing a round splits the pot exactly: what the winner, the
/// treasury and the finalizer receive adds up to the pot, and none of it
/// is negative; whenever the pot carries a fee, the finalizer is paid.
pub proof fn lemma_settlement_splits_pot(total_pot: i128)
    requires
        total_pot >= 0,
    ensures
        ({
            let fee = platform_fee(total_pot as int);
            let bounty = gas_bounty(fee);
            &&& (total_pot - fee) + (fee - bounty) + bounty == total_pot
            &&& 0 <= bounty <= fee <= total_pot
            &&& fee > 0 ==> bounty > 0
        }),
{
    let fee = platform_fee(total_pot as int);
    assert(0 <= fee <= total_pot) by (nonlinear_arith)
        requires
            fee == total_pot * 50 / 10000,
            total_pot >= 0,
    ;
    assert(0 <= gas_bounty(fee) <= fee) by (nonlinear_arith)
        requires
            gas_bounty(fee) == (fee * 10 + 9999) / 10000,
            fee >= 0,
    ;
}

/// A round is paid out at most once: after it has been finalized, every
/// further request to finalize it is refused as already finalized.
pub proof fn lemma_round_finalizes_once(
    pre: SoroSusuContract,
    post: SoroSusuContract,
    round_id: u32,
    winner: Address,
    caller: Address,
    now: u64,
    contract_balance: i128,
)
    requires
        pre.wf(),
        pre.finalize_error(round_id, winner, now, contract_balance) is None,
        pre.round_finalized(&post, round_id, winner, caller, now),
    ensures
        forall|w: Address, t: u64, b: i128| #[trigger] post.finalize_error(round_id, w, t, b)
            == Some(SusuError::RoundAlreadyFinalized),
{
    assert(post.rounds@[round_id].status == RoundStatus::Finalized);
}

/// A round paused for a deficit records a positive deficit, cannot be paid
/// out any more, and its members can vote on skipping it until the deadline.
pub proof fn lemma_paused_round(
    pre: SoroSusuContract,
    post: SoroSusuContract,
    round_id: u32,
    winner: Address,
    now: u64,
    contract_balance: i128,
)
    requires
        pre.wf(),
        pre.finalize_fits(round_id, winner, now, contract_balance),
        pre.finalize_error(round_id, winner, now, contract_balance) == Some(
            SusuError::DeficitDetected,
        ),
        pre.round_paused(&post, round_id, now, contract_balance),
    ensures
        post.rounds@[round_id].deficit_amount > 0,
        forall|w: Address, t: u64, b: i128| #[trigger] post.finalize_error(round_id, w, t, b)
            == Some(SusuError::RoundAlreadyFinalized),
        forall|v: Address| #[trigger]
            pre.rounds@[round_id].members@.contains(v) ==> post.vote_error(round_id, v, now) is None,
{
}

/// A member who has won every round it played keeps a perfect score after
/// winning another, and so keeps qualifying for grant priority.
pub proof fn lemma_winning_streak_keeps_perfect_score(mb: Member)
    requires
        mb.rounds_won == mb.rounds_participated,
        member_can_advance(mb, true),
    ensures
        member_after_round(mb, true).reliability_score == PERFECT_SCORE,
        member_after_round(mb, true).reliability_score > MIN_RELIABILITY_SCORE,
{
    let p = mb.rounds_participated + 1;
    assert((p * 1000) / p == 1000) by (nonlinear_arith)
        requires
            p > 0,
    ;
}

/// A member's score never exceeds a perfect score, and its wins never
/// exceed the rounds it played, whatever rounds it goes through.
pub proof fn lemma_member_record_stays_consistent(mb: Member, won: bool)
    requires
        member_wf(mb),
        member_can_advance(mb, won),
    ensures
        member_wf(member_after_round(mb, won)),
{
    let m2 = member_after_round(mb, won);
    assert((m2.rounds_won as int * 1000) / (m2.rounds_participated as int) <= 1000) by (
    nonlinear_arith)
        requires
            m2.rounds_won <= m2.rounds_participated,
            m2.rounds_participated > 0,
    ;
}

/// Rounding a share of basis points down never lets a share reach a
/// threshold that the exact share misses, nor the other way round.
proof fn lemma_bps_at_least(part: int, whole: int, threshold: int)
    requires
        part >= 0,
        whole > 0,
        threshold >= 0,
    ensures
        (part * 10000) / whole >= threshold <==> part * 10000 >= threshold * whole,
{
    let x = part * 10000;
    let q = x / whole;
    vstd::arithmetic::div_mod::lemma_fundamental_div_mod(x, whole);
    vstd::arithmetic::div_mod::lemma_mod_bound(x, whole);
    if q >= threshold {
        assert(q * whole >= threshold * whole) by (nonlinear_arith)
            requires
                q >= threshold,
                whole > 0,
        ;
    } else {
        assert(q * whole + whole <= threshold * whole) by (nonlinear_arith)
            requires
                q + 1 <= threshold,
                whole > 0,
        ;
    }
}

/// Skipping a round's payout takes two thirds of the round's whole voting
/// power: once the vote is closed, it passes exactly when the votes to skip,
/// in basis points of every member of the round (those who abstained or
/// voted against alike), reach 6600.
pub proof fn lemma_skip_needs_two_thirds_of_members(c: SoroSusuContract, round_id: u32, now: u64)
    requires
        c.admin is Some,
        c.deficit_votes@.contains_key(round_id),
        c.rounds@.contains_key(round_id),
        c.deficit_votes@[round_id].total_voting_power > 0,
        now >= c.deficit_votes@[round_id].voting_deadline,
    ensures
        ({
            let v = c.deficit_votes@[round_id];
            &&& c.execute_vote_error(round_id, now) is None <==> v.votes_for_skip * 10000 >= 6600
                * v.total_voting_power
            &&& c.execute_vote_error(round_id, now) is Some ==> c.execute_vote_error(round_id, now)
                == Some(SusuError::ThresholdNotMet)
        }),
{
    let v = c.deficit_votes@[round_id];
    lemma_bps_at_least(v.votes_for_skip as int, v.total_voting_power as int, 6600);
}

/// Only the round's own members vote on its deficit: any other voter,
/// registered in the circle or not, is refused, and every member of the
/// round may vote while the vote is open.
pub proof fn lemma_only_round_members_vote(c: SoroSusuContract, round_id: u32, voter: Address, now: u64)
    requires
        c.rounds@.contains_key(round_id),
    ensures
        !c.rounds@[round_id].members@.contains(voter) ==> c.vote_error(round_id, voter, now) == Some(
            SusuError::InvalidMember,
        ),
        (c.rounds@[round_id].members@.contains(voter) && c.deficit_votes@.contains_key(round_id)
            && now <= c.deficit_votes@[round_id].voting_deadline) ==> c.vote_error(
            round_id,
            voter,
            now,
        ) is None,
{
}

} // verus!
