use grant_stream::sorususu::{
    DataKey, DeficitVote, RoundStatus, SoroSusuContract, SusuError, ROUND_DURATION, VOTING_PERIOD,
};

const ADMIN: u64 = 1;
const TREASURY: u64 = 2;
const TOKEN: u64 = 100;

fn circle_with_members(members: &[u64], contribution: i128) -> SoroSusuContract {
    let mut c = SoroSusuContract::new();
    c.initialize(ADMIN, TREASURY).unwrap();
    c.set_grant_token(ADMIN, TOKEN).unwrap();
    for m in members {
        c.register_member(*m, contribution).unwrap();
    }
    c
}

#[test]
fn test_set_grant_stream_contract() {
    let mut client = SoroSusuContract::new();
    let admin = 1;
    let treasury = 2;

    client.initialize(admin, treasury).unwrap();

    // Set Grant-Stream contract address
    let grant_stream_contract = 3;
    client.set_grant_stream_contract(admin, grant_stream_contract).unwrap();

    // Verify it was set (would be stored in DataKey::GrantStreamContract)
    // In production, Grant-Stream contract would call get_reliability_score
    let member = 4;
    client.register_member(member, 1000).unwrap();

    let score = client.get_reliability_score(member).unwrap();
    assert!(score >= 0);
}

#[test]
fn initialize_only_once() {
    let mut c = SoroSusuContract::new();
    assert_eq!(c.get_current_round(), Err(SusuError::RoundNotFound));
    assert_eq!(c.initialize(ADMIN, TREASURY), Ok(()));
    assert_eq!(c.get_current_round(), Ok(0));
    assert_eq!(c.member_count, Some(0));
    assert_eq!(c.platform_fee_pool, Some(0));
    assert_eq!(c.initialize(7, 8), Err(SusuError::AlreadyInitialized));
    assert_eq!(c.admin, Some(ADMIN));
    assert_eq!(c.platform_fee_treasury, Some(TREASURY));
}

#[test]
fn register_member_rules() {
    let mut c = SoroSusuContract::new();
    assert_eq!(c.register_member(10, 1000), Err(SusuError::NotInitialized));
    c.initialize(ADMIN, TREASURY).unwrap();
    assert_eq!(c.register_member(10, 0), Err(SusuError::InvalidAmount));
    assert_eq!(c.register_member(10, -3), Err(SusuError::InvalidAmount));
    for m in 0..50u64 {
        c.register_member(1000 + m, 5).unwrap();
    }
    assert_eq!(c.member_count, Some(50));
    assert_eq!(c.register_member(10, 1000), Err(SusuError::MemberLimitReached));
    let member = c.get_member(1000).unwrap();
    assert_eq!(member.address, 1000);
    assert_eq!(member.contribution, 5);
    assert_eq!(member.reliability_score, 1000);
    assert_eq!(member.rounds_participated, 0);
    assert_eq!(member.rounds_won, 0);
    assert_eq!(c.get_member(10), Err(SusuError::InvalidMember));
}

#[test]
fn start_round_sums_contributions() {
    let mut c = circle_with_members(&[10, 11, 12], 1000);
    c.register_member(13, 2500).unwrap();
    assert_eq!(c.start_round(vec![10, 11], 0), Err(SusuError::TooFewMembers));
    assert_eq!(c.start_round(vec![10, 11, 99], 0), Err(SusuError::InvalidMember));
    assert_eq!(c.get_current_round(), Ok(0));
    let id = c.start_round(vec![10, 11, 13], 500).unwrap();
    assert_eq!(id, 1);
    let round = c.get_round(id).unwrap();
    assert_eq!(round.round_id, 1);
    assert_eq!(round.members, vec![10, 11, 13]);
    assert_eq!(round.total_pot, 4500);
    assert_eq!(round.status, RoundStatus::Active);
    assert_eq!(round.started_at, 500);
    assert_eq!(round.winner, None);
    assert_eq!(c.start_round(vec![10, 11, 12], 600), Ok(2));
    assert_eq!(c.get_current_round(), Ok(2));
    assert_eq!(c.get_round(3).err(), Some(SusuError::RoundNotFound));
}

#[test]
fn start_round_needs_initialization() {
    let mut c = SoroSusuContract::new();
    assert_eq!(c.start_round(vec![10, 11, 12], 0), Err(SusuError::NotInitialized));
}

#[test]
fn finalize_pays_winner_treasury_and_finalizer() {
    let mut c = circle_with_members(&[10, 11, 12], 1000);
    let id = c.start_round(vec![10, 11, 12], 1000).unwrap();
    let now = 1000 + ROUND_DURATION + 3600;
    let settlement = c.finalize_round(id, 10, 50, now, 3000).unwrap();
    // 0.5% platform fee on 3000 is 15; 0.1% of it, rounded up, is 1.
    assert_eq!(settlement.winner, 10);
    assert_eq!(settlement.winner_amount, 2985);
    assert_eq!(settlement.treasury, TREASURY);
    assert_eq!(settlement.net_fee, 14);
    assert_eq!(settlement.caller, 50);
    assert_eq!(settlement.gas_bounty, 1);
    let round = c.get_round(id).unwrap();
    assert_eq!(round.status, RoundStatus::Finalized);
    assert_eq!(round.winner, Some(10));
    assert_eq!(round.finalized_at, Some(now));
    assert_eq!(round.finalized_by, Some(50));
    assert_eq!(round.gas_bounty_paid, 1);
    let winner = c.get_member(10).unwrap();
    assert_eq!(winner.rounds_participated, 1);
    assert_eq!(winner.rounds_won, 1);
    assert_eq!(winner.reliability_score, 1000);
    // A round is paid out once.
    assert_eq!(c.finalize_round(id, 11, 51, now + 1, 3000), Err(SusuError::RoundAlreadyFinalized));
}

#[test]
fn finalize_bounty_on_large_pot() {
    let members: Vec<u64> = (10..20).collect();
    let mut c = circle_with_members(&members, 100_000_000);
    let id = c.start_round(members.clone(), 0).unwrap();
    let s = c.finalize_round(id, 10, 77, ROUND_DURATION, 1_000_000_000).unwrap();
    assert_eq!(s.winner_amount, 995_000_000);
    assert_eq!(s.net_fee, 4_995_000);
    assert_eq!(s.gas_bounty, 5_000);
    assert_eq!(s.winner_amount + s.net_fee + s.gas_bounty, 1_000_000_000);
    assert_eq!(c.get_round(id).unwrap().gas_bounty_paid, 5_000);
}

#[test]
fn finalize_refusals() {
    let mut c = SoroSusuContract::new();
    c.initialize(ADMIN, TREASURY).unwrap();
    for m in [10u64, 11, 12] {
        c.register_member(m, 1000).unwrap();
    }
    let id = c.start_round(vec![10, 11, 12], 0).unwrap();
    assert_eq!(c.finalize_round(9, 10, 50, ROUND_DURATION, 3000), Err(SusuError::RoundNotFound));
    assert_eq!(
        c.finalize_round(id, 10, 50, ROUND_DURATION - 1, 3000),
        Err(SusuError::VotingPeriodActive)
    );
    // No token recorded yet.
    assert_eq!(c.finalize_round(id, 10, 50, ROUND_DURATION, 3000), Err(SusuError::NotInitialized));
    // Refusals leave the round as it was.
    assert_eq!(c.get_round(id).unwrap().status, RoundStatus::Active);
    assert_eq!(c.get_round(id).unwrap().finalized_by, None);
    c.set_grant_token(ADMIN, TOKEN).unwrap();
    assert!(c.finalize_round(id, 10, 50, ROUND_DURATION, 3000).is_ok());
}

#[test]
fn finalize_with_unregistered_winner_reports_invalid_member() {
    let mut c = circle_with_members(&[10, 11, 12], 1000);
    let id = c.start_round(vec![10, 11, 12], 0).unwrap();
    assert_eq!(c.finalize_round(id, 99, 50, ROUND_DURATION, 3000), Err(SusuError::InvalidMember));
    // Nothing was paid out: the round can still be finalized for a member.
    assert_eq!(c.get_round(id).unwrap().status, RoundStatus::Active);
    assert_eq!(c.get_round(id).unwrap().winner, None);
    assert!(c.finalize_round(id, 11, 50, ROUND_DURATION, 3000).is_ok());
    assert_eq!(c.get_member(11).unwrap().rounds_won, 1);
}

#[test]
fn deficit_pauses_round_and_opens_vote() {
    let mut c = circle_with_members(&[10, 11, 12], 1000);
    let id = c.start_round(vec![10, 11, 12], 0).unwrap();
    let now = ROUND_DURATION + 3600;
    assert_eq!(c.finalize_round(id, 10, 50, now, 2500), Err(SusuError::DeficitDetected));
    let round = c.get_round(id).unwrap();
    assert_eq!(round.status, RoundStatus::DeficitPaused);
    assert_eq!(round.deficit_amount, 500);
    // 5% of 500, split among 3 members, rounded down.
    assert_eq!(round.recovery_surcharge_per_member, 8);
    let vote = c.deficit_votes.get(&id).unwrap();
    assert_eq!(vote.round_id, id);
    assert_eq!(vote.total_voting_power, 3);
    assert_eq!(vote.voting_deadline, now + VOTING_PERIOD);
    assert_eq!((vote.votes_for_skip, vote.votes_against_skip), (0, 0));
    assert!(!vote.executed);
    // A paused round cannot be paid out.
    assert_eq!(c.finalize_round(id, 10, 50, now, 3000), Err(SusuError::RoundAlreadyFinalized));
}

#[test]
fn recovery_surcharge_split_among_members() {
    let members: Vec<u64> = (10..20).collect();
    let mut c = circle_with_members(&members, 1000);
    let id = c.start_round(members, 0).unwrap();
    assert_eq!(c.finalize_round(id, 10, 50, ROUND_DURATION, 4000), Err(SusuError::DeficitDetected));
    let round = c.get_round(id).unwrap();
    assert_eq!(round.deficit_amount, 6000);
    let expected_surcharge = (round.deficit_amount * 500) / (10 * 10000);
    assert_eq!(round.recovery_surcharge_per_member, expected_surcharge);
    assert_eq!(expected_surcharge, 30);
}

#[test]
fn deficit_vote_skips_payout_with_two_thirds() {
    let mut c = circle_with_members(&[10, 11, 12], 1000);
    let id = c.start_round(vec![10, 11, 12], 0).unwrap();
    let now = ROUND_DURATION;
    c.finalize_round(id, 10, 50, now, 0).unwrap_err();
    assert_eq!(c.vote_on_deficit(id, true, 99, now), Err(SusuError::InvalidMember));
    assert_eq!(c.vote_on_deficit(id + 1, true, 10, now), Err(SusuError::RoundNotFound));
    c.vote_on_deficit(id, true, 10, now).unwrap();
    c.vote_on_deficit(id, true, 11, now + 1).unwrap();
    c.vote_on_deficit(id, false, 12, now + VOTING_PERIOD).unwrap();
    assert_eq!(
        c.vote_on_deficit(id, false, 12, now + VOTING_PERIOD + 1),
        Err(SusuError::VotingPeriodEnded)
    );
    let vote = c.deficit_votes.get(&id).unwrap();
    assert_eq!((vote.votes_for_skip, vote.votes_against_skip), (2, 1));
    assert_eq!(c.execute_deficit_vote(id, now + VOTING_PERIOD - 1), Err(SusuError::VotingPeriodActive));
    // 2 of 3 is 6666 basis points, above the 6600 threshold.
    assert_eq!(c.execute_deficit_vote(id, now + VOTING_PERIOD), Ok(()));
    let round = c.get_round(id).unwrap();
    assert_eq!(round.status, RoundStatus::Skipped);
    assert!(round.deficit_vote_passed);
}

#[test]
fn deficit_vote_below_threshold_is_refused() {
    let mut c = circle_with_members(&[10, 11, 12], 1000);
    let id = c.start_round(vec![10, 11, 12], 0).unwrap();
    c.finalize_round(id, 10, 50, ROUND_DURATION, 0).unwrap_err();
    c.vote_on_deficit(id, true, 10, ROUND_DURATION).unwrap();
    c.vote_on_deficit(id, false, 11, ROUND_DURATION).unwrap();
    let deadline = ROUND_DURATION + VOTING_PERIOD;
    assert_eq!(c.execute_deficit_vote(id, deadline), Err(SusuError::ThresholdNotMet));
    assert_eq!(c.get_round(id).unwrap().status, RoundStatus::DeficitPaused);
}

#[test]
fn voting_needs_an_open_vote() {
    let mut c = circle_with_members(&[10, 11, 12], 1000);
    let id = c.start_round(vec![10, 11, 12], 0).unwrap();
    assert_eq!(c.vote_on_deficit(id, true, 10, 5), Err(SusuError::VotingPeriodActive));
    assert_eq!(c.execute_deficit_vote(id, 5), Err(SusuError::VotingPeriodActive));
    let mut fresh = SoroSusuContract::new();
    assert_eq!(fresh.execute_deficit_vote(1, 5), Err(SusuError::NotInitialized));
}

#[test]
fn test_reliability_score_grant_priority() {
    let mut client = SoroSusuContract::new();
    let admin = 1;
    let treasury = 2;

    client.initialize(admin, treasury).unwrap();
    client.set_grant_token(admin, TOKEN).unwrap();

    // Register member with perfect participation
    let good_member = 10;
    client.register_member(good_member, 1000).unwrap();

    // Simulate multiple successful rounds; the other members of each round
    // are registered, and each round runs its full course
    let mut now: u64 = 0;
    for i in 0..5u64 {
        let other1 = 100 + 2 * i;
        let other2 = 101 + 2 * i;
        client.register_member(other1, 1000).unwrap();
        client.register_member(other2, 1000).unwrap();
        let members = vec![good_member, other1, other2];

        let round_id = client.start_round(members, now).unwrap();

        // Advance time and finalize
        now = now + 1000 + 7 * 24 * 60 * 60 + 3600;
        client.finalize_round(round_id, good_member, 50, now, 3000).unwrap();
    }

    // Check reliability score
    let member_data = client.get_member(good_member).unwrap();
    assert!(member_data.reliability_score > 900); // Should have high score

    // Verify grant priority eligibility
    let eligible = client.verify_grant_priority_eligible(good_member).unwrap();
    assert!(eligible); // Should qualify for priority
}

#[test]
fn reliability_counts_every_round() {
    let mut c = circle_with_members(&[10, 11, 12], 1000);
    for i in 0..5u64 {
        let id = c.start_round(vec![10, 11, 12], i).unwrap();
        c.finalize_round(id, 10, 50, i + ROUND_DURATION, 3000).unwrap();
    }
    let member = c.get_member(10).unwrap();
    assert_eq!(member.rounds_participated, 5);
    assert_eq!(member.rounds_won, 5);
    assert_eq!(c.get_reliability_score(10), Ok(1000));
    assert_eq!(c.verify_grant_priority_eligible(10), Ok(true));
    assert_eq!(c.verify_grant_priority_eligible(99), Err(SusuError::InvalidMember));
    assert_eq!(c.get_reliability_score(99), Err(SusuError::InvalidMember));
}

#[test]
fn grant_priority_threshold_is_strict() {
    let mut c = circle_with_members(&[10], 1000);
    c.members.get_mut(&10).unwrap().reliability_score = 900;
    assert_eq!(c.verify_grant_priority_eligible(10), Ok(false));
    c.members.get_mut(&10).unwrap().reliability_score = 901;
    assert_eq!(c.verify_grant_priority_eligible(10), Ok(true));
}

#[test]
fn admin_only_setters() {
    let mut c = SoroSusuContract::new();
    assert_eq!(c.set_grant_stream_contract(ADMIN, 3), Err(SusuError::NotInitialized));
    assert_eq!(c.set_grant_token(ADMIN, 3), Err(SusuError::NotInitialized));
    c.initialize(ADMIN, TREASURY).unwrap();
    assert_eq!(c.set_grant_stream_contract(9, 3), Err(SusuError::NotAuthorized));
    assert_eq!(c.set_grant_token(9, 3), Err(SusuError::NotAuthorized));
    assert_eq!(c.grant_stream_contract, None);
    c.set_grant_stream_contract(ADMIN, 3).unwrap();
    assert_eq!(c.grant_stream_contract, Some(3));
    assert!(c.has(DataKey::GrantStreamContract));
    assert!(!c.has(DataKey::GrantToken));
}

#[test]
fn error_codes() {
    assert_eq!(SusuError::NotInitialized.code(), 1);
    assert_eq!(SusuError::DeficitDetected.code(), 10);
    assert_eq!(SusuError::MathOverflow.code(), 16);
    assert_eq!(SusuError::AlreadyInitialized.code(), 17);
}

#[test]
fn test_gas_bounty_finalize_round() {
    let mut client = SoroSusuContract::new();
    let admin = 1;
    let treasury = 2;

    // Initialize contract, with the token the pots are held in
    client.initialize(admin, treasury).unwrap();
    client.set_grant_token(admin, TOKEN).unwrap();

    // Register members
    let member1 = 3;
    let member2 = 4;
    let member3 = 5;

    client.register_member(member1, 1000).unwrap();
    client.register_member(member2, 1000).unwrap();
    client.register_member(member3, 1000).unwrap();

    // Start round
    let members = vec![member1, member2, member3];

    let round_id = client.start_round(members, 0).unwrap();

    // Advance time beyond round duration (7 days + 1 hour)
    let now = 1000 + 7 * 24 * 60 * 60 + 3600;

    // Anyone can finalize (permissionless)
    let random_user = 6;

    // Finalize round - random user should receive gas bounty; the contract
    // holds the whole pot
    client.finalize_round(round_id, member1, random_user, now, 3000).unwrap();

    // Verify round was finalized
    let round = client.get_round(round_id).unwrap();
    assert_eq!(round.status, RoundStatus::Finalized);
    assert_eq!(round.winner, Some(member1));
    assert!(round.finalized_by.is_some());
    assert!(round.gas_bounty_paid > 0);

    // Verify gas bounty was paid to the caller (random_user)
    // The caller should receive 0.1% of platform fee (0.5% of pot)
    let expected_pot = 3000; // 3 members * 1000
    let expected_platform_fee = (expected_pot * 50) / 10000; // 0.5% = 15
    let expected_gas_bounty = (expected_platform_fee * 10) / 10000; // 0.1% of fee = 0.015

    assert!(round.gas_bounty_paid >= expected_gas_bounty);
}

#[test]
fn test_deficit_vote_skip_payout() {
    let mut client = SoroSusuContract::new();
    let admin = 1;
    let treasury = 2;

    client.initialize(admin, treasury).unwrap();

    // Register members
    let member1 = 3;
    let member2 = 4;
    let member3 = 5;

    client.register_member(member1, 1000).unwrap();
    client.register_member(member2, 1000).unwrap();
    client.register_member(member3, 1000).unwrap();

    // Start round
    let members = vec![member1, member2, member3];

    let round_id = client.start_round(members, 0).unwrap();

    // Trigger deficit (manually set round status for testing)
    // In real scenario, this happens via finalize_round detecting balance < pot
    client.rounds.get_mut(&round_id).unwrap().status = RoundStatus::DeficitPaused;
    client.deficit_votes.insert(
        round_id,
        DeficitVote {
            round_id,
            votes_for_skip: 0,
            votes_against_skip: 0,
            total_voting_power: 3,
            voting_deadline: VOTING_PERIOD,
            executed: false,
        },
    );

    // Members vote to skip payout
    client.vote_on_deficit(round_id, true, member1, 0).unwrap(); // member1 votes for skip
    client.vote_on_deficit(round_id, true, member2, 0).unwrap(); // member2 votes for skip
    client.vote_on_deficit(round_id, false, member3, 0).unwrap(); // member3 votes against

    // Advance past voting period (3 days + 1 hour)
    let now = 1000 + 3 * 24 * 60 * 60 + 3600;

    // Execute vote (needs 66% approval)
    client.execute_deficit_vote(round_id, now).unwrap();

    // Verify round was skipped
    let round = client.get_round(round_id).unwrap();
    assert_eq!(round.status, RoundStatus::Skipped);
    assert!(round.deficit_vote_passed);
}
