//! The ways in which a call on the voting contract fails.

use soroban_sdk::ConversionError;
use vstd::prelude::*;
use vstd::std_specs::convert::FromSpecImpl;

verus! {

/// `soroban_sdk::ConversionError`, the host's complaint that a stored value
/// does not have the shape that was asked for. It carries no data.
#[verifier::external_type_specification]
#[verifier::external_body]
pub struct ExConversionError(ConversionError);

/// Why a call was refused. Every failure ends the call and leaves the
/// persisted state as it was.
#[derive(Clone, Copy, Debug, PartialEq, Eq, PartialOrd, Ord, Structural)]
pub enum Error {
    /// The contract was initialized before.
    AlreadyInitialized,
    /// A stored value did not decode into the expected shape.
    Conversion,
    /// A vote was cast where no proposal is stored.
    KeyExpected,
    /// The voter is in the registry already.
    AlreadyVoted,
    /// A sum, a count or a rate left the range of its type.
    Overflow,
    /// The deadline has passed or every expected voter has voted.
    VotingClosed,
}

impl From<ConversionError> for Error {
    fn from(_e: ConversionError) -> (res: Error) {
        Error::Conversion
    }
}

impl FromSpecImpl<ConversionError> for Error {
    open spec fn obeys_from_spec() -> bool {
        true
    }

    open spec fn from_spec(_e: ConversionError) -> Error {
        Error::Conversion
    }
}

} // verus!
