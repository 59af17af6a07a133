//! What holds of the contract over whole histories of calls. A history is a
//! sequence of calls, each applied to the records that the one before it
//! left. The clock is free: the laws hold whatever time each call comes at.

use crate::contract::RecordsView;
use crate::error::Error;
use crate::proposal::{ProposalView, BASIS_POINTS};
use soroban_sdk::Address;
use vstd::prelude::*;

verus! {

/// A call on the contract, with the time at which the host runs it.
pub enum Call {
    /// `init_voting`.
    InitVoting {
        current_time: u64,
        voting_period_secs: u64,
        target_approval_rate_bps: u32,
        total_voters: u32,
    },
    /// `vote`.
    Vote { current_time: u64, voter: Address },
}

/// The error with which `call` is refused in `records`, or `None` where it
/// succeeds.
pub open spec fn refusal(records: RecordsView, call: Call) -> Option<Error> {
    match call {
        Call::InitVoting { current_time, voting_period_secs, .. } => match records.init_result(
            current_time,
            voting_period_secs,
        ) {
            Ok(_) => None,
            Err(e) => Some(e),
        },
        Call::Vote { current_time, voter } => match records.vote_result(current_time, voter) {
            Ok(_) => None,
            Err(e) => Some(e),
        },
    }
}

/// The state that `call` leaves when applied to `records`.
pub open spec fn step(records: RecordsView, call: Call) -> RecordsView {
    match call {
        Call::InitVoting {
            current_time,
            voting_period_secs,
            target_approval_rate_bps,
            total_voters,
        } => records.after_init(
            current_time,
            voting_period_secs,
            target_approval_rate_bps,
            total_voters,
        ),
        Call::Vote { current_time, voter } => records.after_vote(current_time, voter),
    }
}

/// The state after all of `calls`, applied to `records` in order.
pub open spec fn run(records: RecordsView, calls: Seq<Call>) -> RecordsView
    decreases calls.len(),
{
    if calls.len() == 0 {
        records
    } else {
        step(run(records, calls.drop_last()), calls.last())
    }
}

/// The state in which the call at index `i` of `calls` finds the records.
pub open spec fn before(records: RecordsView, calls: Seq<Call>, i: int) -> RecordsView {
    run(records, calls.take(i))
}

/// The votes counted in `records`: those of its proposal, none without one.
pub open spec fn tally(records: RecordsView) -> nat {
    match records.proposal {
        Some(proposal) => proposal.votes as nat,
        None => 0,
    }
}

/// The flag and the proposal are created together, and neither is ever
/// deleted: the records of a contract hold no proposal without the flag.
pub open spec fn coherent(records: RecordsView) -> bool {
    records.proposal is Some ==> records.initialized
}

/// Each call starts where the one before it ended.
pub proof fn history_unfolds(records: RecordsView, calls: Seq<Call>, i: int)
    requires
        0 <= i < calls.len(),
    ensures
        before(records, calls, i + 1) == step(before(records, calls, i), calls[i]),
        before(records, calls, 0) == records,
        before(records, calls, calls.len() as int) == run(records, calls),
{
    assert(calls.take(i + 1).drop_last() == calls.take(i));
    assert(calls.take(i + 1).last() == calls[i]);
    assert(calls.take(0).len() == 0);
    assert(calls.take(calls.len() as int) == calls);
}

/// A refused call changes nothing: not the flag, not the tally, not the
/// registry.
pub proof fn refused_call_changes_nothing(records: RecordsView, call: Call)
    requires
        refusal(records, call) is Some,
    ensures
        step(records, call) == records,
{
}

/// Once set, the initialization flag stays set.
proof fn flag_stays_set(records: RecordsView, calls: Seq<Call>, i: int, j: int)
    requires
        0 <= i <= j <= calls.len(),
        before(records, calls, i).initialized,
    ensures
        before(records, calls, j).initialized,
    decreases j - i,
{
    if i < j {
        flag_stays_set(records, calls, i, j - 1);
        history_unfolds(records, calls, j - 1);
    }
}

/// Initialization succeeds at most once: in any history, every `init_voting`
/// that comes after a successful one is refused with `AlreadyInitialized`
/// and leaves the state, the proposal with it, as it was.
pub proof fn init_succeeds_at_most_once(records: RecordsView, calls: Seq<Call>, i: int, j: int)
    requires
        0 <= i < j < calls.len(),
        calls[i] is InitVoting,
        refusal(before(records, calls, i), calls[i]) is None,
        calls[j] is InitVoting,
    ensures
        refusal(before(records, calls, j), calls[j]) == Some(Error::AlreadyInitialized),
        before(records, calls, j + 1) == before(records, calls, j),
{
    history_unfolds(records, calls, i);
    flag_stays_set(records, calls, i + 1, j);
    history_unfolds(records, calls, j);
}

/// An accepted vote counts once and registers the voter: the tally and the
/// registry each grow by one, and the voter stands in the registry, marked.
pub proof fn accepted_vote_counts_once(proposal: ProposalView, current_time: u64, voter: Address)
    requires
        proposal.vote_result(current_time, voter) is Ok,
    ensures
        !proposal.voters.contains_key(voter),
        proposal.after_vote(current_time, voter).votes == proposal.votes + 1,
        proposal.after_vote(current_time, voter).registered == proposal.registered + 1,
        proposal.after_vote(current_time, voter).voters.contains_key(voter),
        proposal.after_vote(current_time, voter).voters[voter] == Some(true),
{
}

/// A proposal is in step when its tally, the size of its registry and the
/// number of distinct voters in the registry are one number, and that number
/// is at most the number of voters expected.
pub open spec fn in_step(proposal: ProposalView) -> bool {
    proposal.counted() && proposal.votes == proposal.registered && proposal.registered
        <= proposal.total_voters
}

/// The records are in step when the proposal, if there is one, is.
pub open spec fn records_in_step(records: RecordsView) -> bool {
    records.proposal matches Some(proposal) ==> in_step(proposal)
}

/// Nothing in `vote` enforces that a proposal is in step, yet every call
/// keeps it so.
pub proof fn call_keeps_step(records: RecordsView, call: Call)
    requires
        records_in_step(records),
    ensures
        records_in_step(step(records, call)),
{
}

/// Whatever a history builds from records in step, as the empty ones are, is
/// in step: each voter was counted exactly once, and no more voters than
/// were expected.
pub proof fn history_keeps_step(records: RecordsView, calls: Seq<Call>)
    requires
        records_in_step(records),
    ensures
        records_in_step(run(records, calls)),
    decreases calls.len(),
{
    if calls.len() > 0 {
        history_keeps_step(records, calls.drop_last());
        call_keeps_step(run(records, calls.drop_last()), calls.last());
    }
}

/// In a proposal that is in step no vote is refused for a full tally: the
/// poll closes first.
pub proof fn tally_in_step_has_room(proposal: ProposalView, current_time: u64, voter: Address)
    requires
        in_step(proposal),
    ensures
        proposal.vote_result(current_time, voter) matches Err(e) ==> e != Error::Overflow,
{
}

/// The rate is the ratio of votes to voters expected, in basis points and
/// rounded down: whenever `rate` voters-expected fit into ten thousand times
/// the votes and `rate + 1` do not, the approval rate is `rate`.
pub proof fn rate_is_the_floor(proposal: ProposalView, rate: u32)
    requires
        proposal.votes > 0,
        proposal.votes * BASIS_POINTS <= u32::MAX,
        rate * proposal.total_voters <= proposal.votes * BASIS_POINTS,
        proposal.votes * BASIS_POINTS < (rate + 1) * proposal.total_voters,
    ensures
        proposal.approval_rate() == Ok::<u32, Error>(rate),
{
    let scaled = proposal.votes * BASIS_POINTS;
    let total = proposal.total_voters as int;
    assert(total > 0) by (nonlinear_arith)
        requires
            0 <= scaled < (rate + 1) * total,
            rate >= 0,
    ;
    assert(scaled / total == rate) by (nonlinear_arith)
        requires
            total > 0,
            rate * total <= scaled < (rate + 1) * total,
    ;
}

/// In a proposal that is in step a rate that can be computed is at most one
/// hundred percent.
pub proof fn rate_in_step_is_capped(proposal: ProposalView)
    requires
        in_step(proposal),
    ensures
        proposal.approval_rate() matches Ok(rate) ==> rate <= BASIS_POINTS,
{
    if proposal.approval_rate() is Ok && proposal.votes > 0 {
        let votes = proposal.votes as int;
        let total = proposal.total_voters as int;
        let whole = BASIS_POINTS as int;
        assert(votes * whole / total <= whole) by (nonlinear_arith)
            requires
                0 < votes <= total,
                0 < whole,
        ;
    }
}

/// A voter votes once: when a vote was accepted and the poll has not closed
/// since, the same voter's next vote is refused with `AlreadyVoted`, and the
/// two calls together have raised the tally by exactly one.
pub proof fn second_vote_is_refused(
    records: RecordsView,
    first_time: u64,
    second_time: u64,
    voter: Address,
)
    requires
        records.vote_result(first_time, voter) is Ok,
        !records.after_vote(first_time, voter).proposal->Some_0.is_closed(second_time),
    ensures
        records.after_vote(first_time, voter).vote_result(second_time, voter) matches Err(
            Error::AlreadyVoted,
        ),
        tally(records.after_vote(first_time, voter).after_vote(second_time, voter)) == tally(records)
            + 1,
{
}

/// No call lowers the tally.
pub proof fn call_keeps_votes(records: RecordsView, call: Call)
    requires
        coherent(records),
    ensures
        coherent(step(records, call)),
        tally(records) <= tally(step(records, call)),
{
}

/// The tally never decreases, whatever the history.
pub proof fn votes_never_decrease(records: RecordsView, calls: Seq<Call>)
    requires
        coherent(records),
    ensures
        coherent(run(records, calls)),
        tally(records) <= tally(run(records, calls)),
    decreases calls.len(),
{
    if calls.len() > 0 {
        votes_never_decrease(records, calls.drop_last());
        call_keeps_votes(run(records, calls.drop_last()), calls.last());
    }
}

/// The terms of a proposal are fixed when it is created: no history moves
/// its deadline, its target or the number of voters expected.
pub proof fn terms_are_fixed(records: RecordsView, calls: Seq<Call>)
    requires
        coherent(records),
        records.proposal is Some,
    ensures
        coherent(run(records, calls)),
        run(records, calls).proposal is Some,
        run(records, calls).proposal->Some_0.voting_end_time
            == records.proposal->Some_0.voting_end_time,
        run(records, calls).proposal->Some_0.target_approval_rate_bps
            == records.proposal->Some_0.target_approval_rate_bps,
        run(records, calls).proposal->Some_0.total_voters == records.proposal->Some_0.total_voters,
    decreases calls.len(),
{
    if calls.len() > 0 {
        terms_are_fixed(records, calls.drop_last());
    }
}

/// Closure by time: whatever came before, a vote cast at or after the
/// deadline is refused with `VotingClosed`, whoever casts it and however
/// many voters are still expected.
pub proof fn vote_after_deadline_is_refused(records: RecordsView, calls: Seq<Call>, j: int)
    requires
        coherent(records),
        records.proposal is Some,
        0 <= j < calls.len(),
        calls[j] is Vote,
        calls[j]->Vote_current_time >= records.proposal->Some_0.voting_end_time,
    ensures
        refusal(before(records, calls, j), calls[j]) == Some(Error::VotingClosed),
        before(records, calls, j + 1) == before(records, calls, j),
{
    terms_are_fixed(records, calls.take(j));
    history_unfolds(records, calls, j);
}

/// A full registry ends the history: from then on every call is refused and
/// the state stays as it is.
proof fn full_registry_is_final(records: RecordsView, calls: Seq<Call>)
    requires
        coherent(records),
        records.proposal is Some,
        records.proposal->Some_0.registered == records.proposal->Some_0.total_voters,
    ensures
        run(records, calls) == records,
    decreases calls.len(),
{
    if calls.len() > 0 {
        full_registry_is_final(records, calls.drop_last());
    }
}

/// Closure by capacity: once the registry holds as many voters as were
/// expected, every later vote is refused with `VotingClosed`, even while
/// time remains.
pub proof fn vote_on_full_registry_is_refused(records: RecordsView, calls: Seq<Call>, j: int)
    requires
        coherent(records),
        records.proposal is Some,
        records.proposal->Some_0.registered == records.proposal->Some_0.total_voters,
        0 <= j < calls.len(),
        calls[j] is Vote,
    ensures
        refusal(before(records, calls, j), calls[j]) == Some(Error::VotingClosed),
        before(records, calls, j + 1) == records,
{
    full_registry_is_final(records, calls.take(j));
    history_unfolds(records, calls, j);
}

} // verus!
