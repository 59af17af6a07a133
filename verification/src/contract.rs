//! The contract's two operations, `init_voting` and `vote`, as transitions of
//! its persisted state. The caller reads the state and the clock from the
//! host, hands them in, and writes the state back when the call succeeded.

use crate::error::Error;
use crate::proposal::{Proposal, ProposalView};
use crate::registry::no_markers;
use soroban_sdk::{Address, Env};
use vstd::prelude::*;

verus! {

/// The keys of the two persisted records.
#[derive(Clone, Copy, Debug, PartialEq, Eq, Structural)]
pub enum DataKey {
    /// The flag that guards against a second initialization.
    AlreadyInitialized,
    /// The proposal.
    Proposal,
}

/// The persisted state as a mathematical value.
pub struct RecordsView {
    /// Whether the initialization flag is present.
    pub initialized: bool,
    /// The proposal record, if present.
    pub proposal: Option<ProposalView>,
}

impl RecordsView {
    /// Whether the record under `key` is present.
    pub open spec fn has(self, key: DataKey) -> bool {
        match key {
            DataKey::AlreadyInitialized => self.initialized,
            DataKey::Proposal => self.proposal is Some,
        }
    }

    /// The proposal that an initialization at `current_time` creates: no
    /// votes, nobody registered, and the deadline one voting period ahead.
    pub open spec fn fresh_proposal(
        current_time: u64,
        voting_period_secs: u64,
        target_approval_rate_bps: u32,
        total_voters: u32,
    ) -> ProposalView {
        ProposalView {
            voting_end_time: (current_time + voting_period_secs) as u64,
            votes: 0,
            target_approval_rate_bps,
            total_voters,
            voters: no_markers(),
            registered: 0,
        }
    }

    /// Why an initialization would be refused, if it would be.
    pub open spec fn init_result(self, current_time: u64, voting_period_secs: u64) -> Result<(), Error> {
        if self.initialized {
            Err(Error::AlreadyInitialized)
        } else if current_time + voting_period_secs > u64::MAX {
            Err(Error::Overflow)
        } else {
            Ok(())
        }
    }

    /// The state after a call of `init_voting`.
    pub open spec fn after_init(
        self,
        current_time: u64,
        voting_period_secs: u64,
        target_approval_rate_bps: u32,
        total_voters: u32,
    ) -> RecordsView {
        if self.init_result(current_time, voting_period_secs) is Ok {
            RecordsView {
                initialized: true,
                proposal: Some(
                    Self::fresh_proposal(
                        current_time,
                        voting_period_secs,
                        target_approval_rate_bps,
                        total_voters,
                    ),
                ),
            }
        } else {
            self
        }
    }

    /// What a call of `vote` returns: the new approval rate, or why the call
    /// was refused. A rate that cannot be computed refuses the call.
    pub open spec fn vote_result(self, current_time: u64, voter: Address) -> Result<u32, Error> {
        match self.proposal {
            None => Err(Error::KeyExpected),
            Some(proposal) => if proposal.vote_result(current_time, voter) is Ok {
                proposal.with_vote(voter).approval_rate()
            } else {
                Err(proposal.vote_result(current_time, voter)->Err_0)
            },
        }
    }

    /// The state after a call of `vote`.
    pub open spec fn after_vote(self, current_time: u64, voter: Address) -> RecordsView {
        if self.vote_result(current_time, voter) is Ok {
            RecordsView { proposal: Some(self.proposal->Some_0.with_vote(voter)), ..self }
        } else {
            self
        }
    }
}

/// The persisted state of the contract: the initialization flag and the
/// proposal, each a record of its own under its [`DataKey`].
#[derive(Debug, PartialEq)]
pub struct Records {
    initialized: bool,
    proposal: Option<Proposal>,
}

/// The view of a proposal record that may be absent.
pub open spec fn record_view(proposal: Option<Proposal>) -> Option<ProposalView> {
    match proposal {
        Some(proposal) => Some(proposal@),
        None => None,
    }
}

impl View for Records {
    type V = RecordsView;

    closed spec fn view(&self) -> RecordsView {
        RecordsView { initialized: self.initialized, proposal: record_view(self.proposal) }
    }
}

impl Records {
    /// The state before anything was persisted: no flag, no proposal.
    pub fn new() -> (records: Records)
        ensures
            records@ == (RecordsView { initialized: false, proposal: None }),
    {
        Records { initialized: false, proposal: None }
    }

    /// The state that holds the given records.
    pub fn from_parts(initialized: bool, proposal: Option<Proposal>) -> (records: Records)
        ensures
            records@.initialized == initialized,
            records@.proposal == record_view(proposal),
    {
        Records { initialized, proposal }
    }

    /// The records, for the caller to persist.
    pub fn into_parts(self) -> (parts: (bool, Option<Proposal>))
        ensures
            parts.0 == self@.initialized,
            record_view(parts.1) == self@.proposal,
    {
        (self.initialized, self.proposal)
    }

    /// The proposal record, if present.
    pub fn proposal(&self) -> (proposal: Option<&Proposal>)
        ensures
            proposal is Some <==> self@.proposal is Some,
            proposal matches Some(found) ==> self@.proposal == Some(found@),
    {
        self.proposal.as_ref()
    }

    /// Whether the record under `key` is present.
    pub fn has(&self, key: DataKey) -> (present: bool)
        ensures
            present == self@.has(key),
    {
        match key {
            DataKey::AlreadyInitialized => self.initialized,
            DataKey::Proposal => self.proposal.is_some(),
        }
    }
}

/// The voting contract.
pub struct SimpleVoting;

impl SimpleVoting {
    /// Initializes the contract at `current_time`: sets the flag and stores a
    /// fresh proposal whose poll ends `voting_period_secs` later. Succeeds
    /// once; refused, it changes nothing.
    pub fn init_voting(
        env: &Env,
        records: &mut Records,
        current_time: u64,
        voting_period_secs: u64,
        target_approval_rate_bps: u32,
        total_voters: u32,
    ) -> (res: Result<(), Error>)
        ensures
            res == old(records)@.init_result(current_time, voting_period_secs),
            final(records)@ == old(records)@.after_init(
                current_time,
                voting_period_secs,
                target_approval_rate_bps,
                total_voters,
            ),
            res is Err ==> *final(records) == *old(records),
    {
        if records.has(DataKey::AlreadyInitialized) {
            return Err(Error::AlreadyInitialized);
        }
        Self::create_proposal_voting(
            env,
            records,
            current_time,
            voting_period_secs,
            target_approval_rate_bps,
            total_voters,
        )?;
        records.initialized = true;
        Ok(())
    }

    /// Stores a fresh proposal, unless its deadline would leave `u64`.
    fn create_proposal_voting(
        env: &Env,
        records: &mut Records,
        current_time: u64,
        voting_period_secs: u64,
        target_approval_rate_bps: u32,
        total_voters: u32,
    ) -> (res: Result<(), Error>)
        ensures
            res is Ok <==> current_time + voting_period_secs <= u64::MAX,
            res is Err ==> res->Err_0 == Error::Overflow && *final(records) == *old(records),
            res is Ok ==> final(records)@ == (RecordsView {
                proposal: Some(
                    RecordsView::fresh_proposal(
                        current_time,
                        voting_period_secs,
                        target_approval_rate_bps,
                        total_voters,
                    ),
                ),
                ..old(records)@
            }),
    {
        let voting_end_time: u64 = current_time.checked_add(voting_period_secs).ok_or(
            Error::Overflow,
        )?;
        records.proposal = Some(
            Proposal::new(env, voting_end_time, target_approval_rate_bps, total_voters),
        );
        Ok(())
    }

    /// Casts the vote of `voter` at `current_time` and returns the approval
    /// rate that the vote brought about. Refused, it changes nothing.
    pub fn vote(records: &mut Records, current_time: u64, voter: Address) -> (res: Result<u32, Error>)
        ensures
            res == old(records)@.vote_result(current_time, voter),
            final(records)@ == old(records)@.after_vote(current_time, voter),
            res is Err ==> *final(records) == *old(records),
    {
        let mut proposal: Proposal = records.proposal.as_ref().ok_or(Error::KeyExpected)?.clone();
        proposal.vote(current_time, voter)?;
        let updated_approval_rate: u32 = proposal.approval_rate_bps()?;
        records.proposal = Some(proposal);
        Ok(updated_approval_rate)
    }
}

} // verus!
