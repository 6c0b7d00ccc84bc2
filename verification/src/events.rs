use vstd::prelude::*;
use crate::pubkey::Pubkey;

verus! {

/// Told when the configuration record has been created.
#[derive(Clone, Copy, Debug, PartialEq, Eq)]
pub struct StateInitialized {
    pub authority: Pubkey,
}

/// Told after every accepted change of the configuration, with the values
/// that the record holds after it.
#[derive(Clone, Copy, Debug, PartialEq, Eq)]
pub struct ParamsChanged {
    pub authority: Pubkey,
    pub paused: bool,
}

/// Told after every accepted mirror of a validator, with the values that its
/// record holds after it.
#[derive(Clone, Copy, Debug, PartialEq, Eq)]
pub struct ValidatorUpserted {
    pub owner: Pubkey,
    pub status: u8,
    pub geo_iso2: [u8; 2],
    pub location: [u8; 32],
    pub last_active_timestamp: i64,
    pub last_active_slot: u64,
    pub metadata_hash: [u8; 32],
}

/// Why an operation was refused. A refused operation changes nothing.
#[derive(Clone, Copy, Debug, PartialEq, Eq)]
pub enum Errs {
    /// The caller is not the authority of the configuration record.
    Unauthorized,
    /// A validator was to be mirrored while the pause flag was set.
    Paused,
    /// The status code is none of the four.
    InvalidInput,
    /// The configuration record exists already.
    AlreadyInitialized,
}

impl Errs {
    /// The text that goes with each kind of refusal.
    pub open spec fn message_text(self) -> Seq<char> {
        match self {
            Errs::Unauthorized => "Unauthorized: signer is not the authority"@,
            Errs::Paused => "Program is paused"@,
            Errs::InvalidInput => "Invalid input"@,
            Errs::AlreadyInitialized => "State is already initialized"@,
        }
    }

    /// The text that goes with this kind of refusal.
    pub fn message(&self) -> (text: String)
        ensures
            text@ == self.message_text(),
    {
        match self {
            Errs::Unauthorized => "Unauthorized: signer is not the authority".to_string(),
            Errs::Paused => "Program is paused".to_string(),
            Errs::InvalidInput => "Invalid input".to_string(),
            Errs::AlreadyInitialized => "State is already initialized".to_string(),
        }
    }
}

} // verus!
