use simple_voting::{Error, Proposal};
use soroban_sdk::testutils::{Address as _, EnvTestConfig};
use soroban_sdk::{Address, ConversionError, Env};

const T: u64 = 1_700_000_000;

fn host() -> Env {
    Env::new_with_config(EnvTestConfig {
        capture_snapshot_at_drop: false,
    })
}

fn tallied(env: &Env, votes: u32, target: u32, total_voters: u32) -> Proposal {
    Proposal::from_parts(T + 3600, votes, target, total_voters, soroban_sdk::Map::new(env))
}

#[test]
fn new_proposal_is_empty_and_open() {
    let env = host();
    let p = Proposal::new(&env, T + 3600, 5000, 3);
    assert_eq!(p.voting_end_time(), T + 3600);
    assert_eq!(p.votes(), 0);
    assert_eq!(p.target_approval_rate_bps(), 5000);
    assert_eq!(p.total_voters(), 3);
    assert_eq!(p.voters().len(), 0);
    assert!(!p.is_closed(T));
}

#[test]
fn from_parts_keeps_every_part() {
    let env = host();
    let a = Address::generate(&env);
    let mut voters: soroban_sdk::Map<Address, bool> = soroban_sdk::Map::new(&env);
    voters.set(a.clone(), true);
    let p = Proposal::from_parts(T + 7, 4, 6000, 9, voters);
    assert_eq!(p.voting_end_time(), T + 7);
    assert_eq!(p.votes(), 4);
    assert_eq!(p.target_approval_rate_bps(), 6000);
    assert_eq!(p.total_voters(), 9);
    assert_eq!(p.voters().len(), 1);
    assert_eq!(p.voters().get(a), Some(true));
}

#[test]
fn rate_is_zero_without_votes() {
    let env = host();
    assert_eq!(tallied(&env, 0, 5000, 10).approval_rate_bps(), Ok(0));
}

#[test]
fn rate_is_zero_without_votes_even_if_nobody_is_expected() {
    let env = host();
    assert_eq!(tallied(&env, 0, 5000, 0).approval_rate_bps(), Ok(0));
}

#[test]
fn rate_of_five_in_ten_is_half() {
    let env = host();
    assert_eq!(tallied(&env, 5, 5000, 10).approval_rate_bps(), Ok(5000));
}

#[test]
fn rate_rounds_down() {
    let env = host();
    assert_eq!(tallied(&env, 1, 5000, 3).approval_rate_bps(), Ok(3333));
    assert_eq!(tallied(&env, 2, 5000, 3).approval_rate_bps(), Ok(6666));
}

#[test]
fn rate_is_not_capped() {
    let env = host();
    assert_eq!(tallied(&env, 3, 5000, 2).approval_rate_bps(), Ok(15000));
}

#[test]
fn rate_overflows_when_the_product_leaves_u32() {
    let env = host();
    assert_eq!(
        tallied(&env, 429_496, 5000, 1_000_000).approval_rate_bps(),
        Ok(4294)
    );
    assert_eq!(
        tallied(&env, 429_497, 5000, 1_000_000).approval_rate_bps(),
        Err(Error::Overflow)
    );
    assert_eq!(
        tallied(&env, u32::MAX, 5000, u32::MAX).approval_rate_bps(),
        Err(Error::Overflow)
    );
}

#[test]
fn rate_overflows_when_nobody_is_expected() {
    let env = host();
    assert_eq!(
        tallied(&env, 1, 5000, 0).approval_rate_bps(),
        Err(Error::Overflow)
    );
}

#[test]
fn approved_at_the_target() {
    let env = host();
    assert!(tallied(&env, 5, 5000, 10).is_approved());
}

#[test]
fn not_approved_just_below_the_target() {
    let env = host();
    assert!(!tallied(&env, 5, 5001, 10).is_approved());
}

#[test]
fn approved_with_a_zero_target_before_any_vote() {
    let env = host();
    assert!(tallied(&env, 0, 0, 10).is_approved());
    assert!(!tallied(&env, 0, 1, 10).is_approved());
}

#[test]
fn accepted_vote_counts_and_registers() {
    let env = host();
    let a = Address::generate(&env);
    let mut p = Proposal::new(&env, T + 3600, 5000, 3);
    assert_eq!(p.vote(T, a.clone()), Ok(()));
    assert_eq!(p.votes(), 1);
    assert_eq!(p.voters().len(), 1);
    assert_eq!(p.voters().get(a), Some(true));
    assert_eq!(p.approval_rate_bps(), Ok(3333));
}

#[test]
fn second_vote_of_a_voter_is_refused() {
    let env = host();
    let a = Address::generate(&env);
    let mut p = Proposal::new(&env, T + 3600, 5000, 3);
    assert_eq!(p.vote(T, a.clone()), Ok(()));
    assert_eq!(p.vote(T + 1, a.clone()), Err(Error::AlreadyVoted));
    assert_eq!(p.votes(), 1);
    assert_eq!(p.voters().len(), 1);
}

#[test]
fn refused_vote_changes_nothing() {
    let env = host();
    let a = Address::generate(&env);
    let b = Address::generate(&env);
    let mut p = Proposal::new(&env, T + 3600, 5000, 3);
    assert_eq!(p.vote(T, a.clone()), Ok(()));
    let before = p.clone();
    assert_eq!(p.vote(T, a.clone()), Err(Error::AlreadyVoted));
    assert_eq!(p, before);
    assert_eq!(p.vote(T + 3600, b.clone()), Err(Error::VotingClosed));
    assert_eq!(p, before);
    assert_eq!(p.voters().get(b), None);
}

#[test]
fn votes_never_go_down() {
    let env = host();
    let a = Address::generate(&env);
    let b = Address::generate(&env);
    let mut p = Proposal::new(&env, T + 10, 5000, 5);
    let mut last = p.votes();
    for (at, voter) in [
        (T, a.clone()),
        (T + 1, a.clone()),
        (T + 2, b.clone()),
        (T + 10, a),
        (T + 11, b),
    ] {
        let _ = p.vote(at, voter);
        assert!(p.votes() >= last);
        last = p.votes();
    }
    assert_eq!(last, 2);
}

#[test]
fn poll_closes_at_the_deadline_not_before() {
    let env = host();
    let p = Proposal::new(&env, T + 10, 5000, 5);
    assert!(!p.is_closed(T + 9));
    assert!(p.is_closed(T + 10));
    assert!(p.is_closed(T + 11));
    assert!(p.is_closed(u64::MAX));
}

#[test]
fn vote_at_the_deadline_is_refused() {
    let env = host();
    let a = Address::generate(&env);
    let mut p = Proposal::new(&env, T + 10, 5000, 5);
    assert_eq!(p.vote(T + 10, a.clone()), Err(Error::VotingClosed));
    assert_eq!(p.vote(T + 9, a), Ok(()));
}

#[test]
fn poll_closes_when_the_registry_is_full() {
    let env = host();
    let a = Address::generate(&env);
    let b = Address::generate(&env);
    let c = Address::generate(&env);
    let mut p = Proposal::new(&env, T + 3600, 5000, 2);
    assert_eq!(p.vote(T, a), Ok(()));
    assert!(!p.is_closed(T));
    assert_eq!(p.vote(T, b), Ok(()));
    assert!(p.is_closed(T));
    assert_eq!(p.vote(T, c), Err(Error::VotingClosed));
    assert_eq!(p.votes(), 2);
}

#[test]
fn poll_for_nobody_is_closed_from_the_start() {
    let env = host();
    let a = Address::generate(&env);
    let mut p = Proposal::new(&env, T + 3600, 5000, 0);
    assert!(p.is_closed(T));
    assert_eq!(p.vote(T, a), Err(Error::VotingClosed));
}

#[test]
fn closure_is_reported_before_a_repeated_vote() {
    let env = host();
    let a = Address::generate(&env);
    let mut p = Proposal::new(&env, T + 10, 5000, 5);
    assert_eq!(p.vote(T, a.clone()), Ok(()));
    assert_eq!(p.vote(T + 10, a), Err(Error::VotingClosed));
}

#[test]
fn registry_past_its_size_stays_open() {
    let env = host();
    let a = Address::generate(&env);
    let b = Address::generate(&env);
    let c = Address::generate(&env);
    let mut voters: soroban_sdk::Map<Address, bool> = soroban_sdk::Map::new(&env);
    voters.set(a, true);
    voters.set(b, true);
    let mut p = Proposal::from_parts(T + 3600, 2, 5000, 1, voters);
    assert!(!p.is_closed(T));
    assert_eq!(p.vote(T, c), Ok(()));
    assert_eq!(p.approval_rate_bps(), Ok(30000));
}

#[test]
fn full_tally_refuses_the_vote_and_the_voter() {
    let env = host();
    let a = Address::generate(&env);
    let mut p = tallied(&env, u32::MAX, 5000, 10);
    assert_eq!(p.vote(T, a.clone()), Err(Error::Overflow));
    assert_eq!(p.votes(), u32::MAX);
    assert_eq!(p.voters().len(), 0);
    assert_eq!(p.voters().get(a), None);
}

#[test]
fn clone_is_equal_and_independent() {
    let env = host();
    let a = Address::generate(&env);
    let p = Proposal::new(&env, T + 3600, 5000, 3);
    let mut q = p.clone();
    assert_eq!(p, q);
    assert_eq!(q.vote(T, a), Ok(()));
    assert_eq!(p.votes(), 0);
    assert_eq!(p.voters().len(), 0);
    assert_eq!(q.voters().len(), 1);
    assert_ne!(p, q);
}

#[test]
fn conversion_error_becomes_conversion() {
    assert_eq!(Error::from(ConversionError), Error::Conversion);
}

#[test]
fn errors_are_ordered_as_declared() {
    assert!(Error::AlreadyInitialized < Error::Conversion);
    assert!(Error::Conversion < Error::KeyExpected);
    assert!(Error::KeyExpected < Error::AlreadyVoted);
    assert!(Error::AlreadyVoted < Error::Overflow);
    assert!(Error::Overflow < Error::VotingClosed);
}
