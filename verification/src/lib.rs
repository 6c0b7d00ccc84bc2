//! A small authenticated record store: one configuration record and one
//! status record per validator, changed by three guarded operations.
//!
//! - `pubkey`: the 32-byte key that names identities and addresses.
//! - `address`: the derivation of a record's address from its namespace and
//!   its owner.
//! - `state`: the two records and their stored form.
//! - `events`: what an accepted operation tells, and why one is refused.
//! - `ledger`: the store, with what holds of every ledger.
//! - `instructions`: the three operations, each with the statement of what
//!   it does to a ledger.
//! - `laws`: what follows for every ledger and every call.

pub mod address;
pub mod events;
pub mod instructions;
pub mod laws;
pub mod ledger;
pub mod pubkey;
pub mod state;

pub use address::{
    derive_address, id, state_address, validator_address, SEED_STATE, SEED_VALIDATOR,
};
pub use events::{Errs, ParamsChanged, StateInitialized, ValidatorUpserted};
pub use instructions::{
    authorize, init_state, set_params, upsert_validator_by_hub, Clock, InitState, Mirror,
    SetParams, UpsertValidatorByHub,
};
pub use ledger::Ledger;
pub use pubkey::Pubkey;
pub use state::{
    GlobalState, Validator, STATUS_ACTIVE, STATUS_BANNED, STATUS_PAUSED, STATUS_PENDING,
};
