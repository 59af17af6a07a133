//! The proposal: its tally, its voter registry, and the rules by which a vote
//! is accepted, the poll closes and the outcome is decided.

use crate::error::Error;
use crate::registry::{
    no_markers, registry_clone, registry_contains, registry_len, registry_markers, registry_new,
    registry_set, registry_size,
};
use soroban_sdk::{Address, Env};
use vstd::prelude::*;

verus! {

/// One hundred percent, in basis points.
pub const BASIS_POINTS: u32 = 10_000;

/// A proposal as a mathematical value: its numbers and what its registry
/// holds.
pub struct ProposalView {
    /// The second, counted from the epoch, from which no vote is accepted.
    pub voting_end_time: u64,
    /// The votes accepted so far.
    pub votes: u32,
    /// The rate, in basis points, from which the proposal is approved.
    pub target_approval_rate_bps: u32,
    /// The number of voters expected: the registry size that closes the
    /// poll, and the denominator of the approval rate.
    pub total_voters: u32,
    /// Who has voted: each registered address with its marker, `Some(true)`
    /// for every voter that `vote` accepted.
    pub voters: Map<Address, Option<bool>>,
    /// The size of the registry: the number of `voters`, in every registry
    /// that holds addresses only.
    pub registered: nat,
}

impl ProposalView {
    /// The size of the registry is the number of distinct voters in it.
    /// This holds of a new proposal, and every vote keeps it.
    pub open spec fn counted(self) -> bool {
        self.voters.dom().finite() && self.registered == self.voters.dom().len()
    }

    /// The poll is closed once the deadline is reached or the registry holds
    /// as many voters as were expected. Nothing is stored: this is decided
    /// anew from the clock and the registry each time.
    pub open spec fn is_closed(self, current_time: u64) -> bool {
        current_time >= self.voting_end_time || self.registered == self.total_voters
    }

    /// Why a vote would be refused, if it would be. Closure is reported
    /// before a repeated vote, and a repeated vote before a full tally.
    pub open spec fn vote_result(self, current_time: u64, voter: Address) -> Result<(), Error> {
        if self.is_closed(current_time) {
            Err(Error::VotingClosed)
        } else if self.voters.contains_key(voter) {
            Err(Error::AlreadyVoted)
        } else if self.votes == u32::MAX {
            Err(Error::Overflow)
        } else {
            Ok(())
        }
    }

    /// The proposal with one more vote counted and the voter registered.
    pub open spec fn with_vote(self, voter: Address) -> ProposalView {
        ProposalView {
            votes: (self.votes + 1) as u32,
            voters: self.voters.insert(voter, Some(true)),
            registered: self.registered + 1,
            ..self
        }
    }

    /// The proposal after a call of `vote`: changed by an accepted vote,
    /// untouched by a refused one.
    pub open spec fn after_vote(self, current_time: u64, voter: Address) -> ProposalView {
        if self.vote_result(current_time, voter) is Ok {
            self.with_vote(voter)
        } else {
            self
        }
    }

    /// The approval rate in basis points: zero while nobody has voted, else
    /// `votes * 10000 / total_voters` rounded down, or `Overflow` where the
    /// product leaves `u32` or nobody was expected to vote. The rate is not
    /// capped at 10000.
    pub open spec fn approval_rate(self) -> Result<u32, Error> {
        if self.votes == 0 {
            Ok(0u32)
        } else if self.votes * BASIS_POINTS > u32::MAX || self.total_voters == 0 {
            Err(Error::Overflow)
        } else {
            Ok((self.votes * BASIS_POINTS / (self.total_voters as int)) as u32)
        }
    }

    /// The proposal is approved when its rate has reached the target.
    pub open spec fn is_approved(self) -> bool
        recommends
            self.approval_rate() is Ok,
    {
        self.approval_rate()->Ok_0 >= self.target_approval_rate_bps
    }
}

/// The single votable item and its aggregate state. The registry is a map in
/// the Soroban host.
#[derive(Debug, PartialEq)]
pub struct Proposal {
    voting_end_time: u64,
    votes: u32,
    target_approval_rate_bps: u32,
    total_voters: u32,
    voters: soroban_sdk::Map<Address, bool>,
}

impl View for Proposal {
    type V = ProposalView;

    closed spec fn view(&self) -> ProposalView {
        ProposalView {
            voting_end_time: self.voting_end_time,
            votes: self.votes,
            target_approval_rate_bps: self.target_approval_rate_bps,
            total_voters: self.total_voters,
            voters: registry_markers(self.voters),
            registered: registry_size(self.voters),
        }
    }
}

impl Clone for Proposal {
    fn clone(&self) -> (copy: Proposal)
        ensures
            copy == *self,
    {
        Proposal {
            voting_end_time: self.voting_end_time,
            votes: self.votes,
            target_approval_rate_bps: self.target_approval_rate_bps,
            total_voters: self.total_voters,
            voters: registry_clone(&self.voters),
        }
    }
}

impl Proposal {
    /// A proposal on which nobody has voted yet, its registry a new map of
    /// the host.
    pub fn new(
        env: &Env,
        voting_end_time: u64,
        target_approval_rate_bps: u32,
        total_voters: u32,
    ) -> (proposal: Proposal)
        ensures
            proposal@ == (ProposalView {
                voting_end_time,
                votes: 0,
                target_approval_rate_bps,
                total_voters,
                voters: no_markers(),
                registered: 0,
            }),
    {
        Proposal {
            voting_end_time,
            votes: 0,
            target_approval_rate_bps,
            total_voters,
            voters: registry_new(env),
        }
    }

    /// Puts a proposal together from its stored parts, whatever they are.
    pub fn from_parts(
        voting_end_time: u64,
        votes: u32,
        target_approval_rate_bps: u32,
        total_voters: u32,
        voters: soroban_sdk::Map<Address, bool>,
    ) -> (proposal: Proposal)
        ensures
            proposal@ == (ProposalView {
                voting_end_time,
                votes,
                target_approval_rate_bps,
                total_voters,
                voters: registry_markers(voters),
                registered: registry_size(voters),
            }),
    {
        Proposal { voting_end_time, votes, target_approval_rate_bps, total_voters, voters }
    }

    /// The second from which no vote is accepted.
    pub fn voting_end_time(&self) -> (voting_end_time: u64)
        ensures
            voting_end_time == self@.voting_end_time,
    {
        self.voting_end_time
    }

    /// The votes accepted so far.
    pub fn votes(&self) -> (votes: u32)
        ensures
            votes == self@.votes,
    {
        self.votes
    }

    /// The rate, in basis points, from which the proposal is approved.
    pub fn target_approval_rate_bps(&self) -> (target_approval_rate_bps: u32)
        ensures
            target_approval_rate_bps == self@.target_approval_rate_bps,
    {
        self.target_approval_rate_bps
    }

    /// The number of voters expected.
    pub fn total_voters(&self) -> (total_voters: u32)
        ensures
            total_voters == self@.total_voters,
    {
        self.total_voters
    }

    /// The registry, as the host map that it is.
    pub fn voters(&self) -> (voters: &soroban_sdk::Map<Address, bool>)
        ensures
            registry_markers(*voters) == self@.voters,
            registry_size(*voters) == self@.registered,
    {
        &self.voters
    }

    /// Casts the vote of `voter` at `current_time`. A refused vote changes
    /// nothing; an accepted one counts once and registers the voter.
    pub fn vote(&mut self, current_time: u64, voter: Address) -> (res: Result<(), Error>)
        ensures
            res == old(self)@.vote_result(current_time, voter),
            final(self)@ == old(self)@.after_vote(current_time, voter),
            res is Err ==> *final(self) == *old(self),
    {
        if self.is_closed(current_time) {
            return Err(Error::VotingClosed);
        }
        if registry_contains(&self.voters, &voter) {
            return Err(Error::AlreadyVoted);
        }
        self.votes = self.votes.checked_add(1).ok_or(Error::Overflow)?;
        registry_set(&mut self.voters, voter, true);
        Ok(())
    }

    /// Whether the poll is closed at `current_time`.
    pub fn is_closed(&self, current_time: u64) -> (closed: bool)
        ensures
            closed == self@.is_closed(current_time),
    {
        current_time >= self.voting_end_time || registry_len(&self.voters) == self.total_voters
    }

    /// The approval rate in basis points.
    pub fn approval_rate_bps(&self) -> (res: Result<u32, Error>)
        ensures
            res == self@.approval_rate(),
    {
        if self.votes == 0 {
            return Ok(0);
        }
        self.votes.checked_mul(BASIS_POINTS).ok_or(Error::Overflow)?.checked_div(
            self.total_voters,
        ).ok_or(Error::Overflow)
    }

    /// Whether the approval rate has reached the target. A rate that cannot
    /// be computed is a fault, not a "no": such a proposal is not asked.
    pub fn is_approved(&self) -> (approved: bool)
        requires
            self@.approval_rate() is Ok,
        ensures
            approved == self@.is_approved(),
    {
        self.approval_rate_bps().unwrap() >= self.target_approval_rate_bps
    }
}

} // verus!
