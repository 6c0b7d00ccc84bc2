use vstd::prelude::*;
use crate::address::{
    derived, derives_to, state_address, state_seeds, validator_address, validator_seeds,
};
use crate::events::{Errs, ParamsChanged, StateInitialized, ValidatorUpserted};
use crate::ledger::{Ledger, LedgerView};
use crate::pubkey::Pubkey;
use crate::state::{GlobalState, Validator, STATUS_BANNED};

verus! {

/// The time source's reading at the moment of an operation.
#[derive(Clone, Copy, Debug, PartialEq, Eq)]
pub struct Clock {
    /// Wall-clock time, in seconds.
    pub unix_timestamp: i64,
    /// Sequence number of the ledger.
    pub slot: u64,
}

/// What `init_state` works on, as plain values.
pub struct InitStateView {
    /// The caller, who becomes the authority.
    pub authority: Pubkey,
    /// The address derived for the configuration record.
    pub state: Pubkey,
    /// The nonce of that address.
    pub bump: u8,
}

/// The accounts of `init_state`: the caller, and the address derived for the
/// configuration record with its nonce.
pub struct InitState {
    authority: Pubkey,
    state: Pubkey,
    bump: u8,
}

impl View for InitState {
    type V = InitStateView;

    closed spec fn view(&self) -> InitStateView {
        InitStateView { authority: self.authority, state: self.state, bump: self.bump }
    }
}

impl InitState {
    #[verifier::type_invariant]
    spec fn inv(&self) -> bool {
        derives_to(state_seeds(), self.state, self.bump)
    }

    /// The accounts for a call by `authority`.
    ///
    /// There are none exactly where no address can be derived for the
    /// configuration record.
    pub fn new(authority: Pubkey) -> (accounts: Option<InitState>)
        ensures
            accounts is Some <==> derived(state_seeds()) is Some,
            accounts matches Some(found) ==> found@.authority == authority && derives_to(
                state_seeds(),
                found@.state,
                found@.bump,
            ),
    {
        match state_address() {
            Some((state, bump)) => Some(InitState { authority, state, bump }),
            None => None,
        }
    }

    /// The caller.
    pub fn authority(&self) -> (key: Pubkey)
        ensures
            key == self@.authority,
    {
        self.authority
    }

    /// The address derived for the configuration record.
    pub fn state(&self) -> (key: Pubkey)
        ensures
            key == self@.state,
            derives_to(state_seeds(), self@.state, self@.bump),
    {
        proof {
            use_type_invariant(self);
        }
        self.state
    }

    /// The nonce of the address derived for the configuration record.
    pub fn bump(&self) -> (nonce: u8)
        ensures
            nonce == self@.bump,
            derives_to(state_seeds(), self@.state, self@.bump),
    {
        proof {
            use_type_invariant(self);
        }
        self.bump
    }
}

/// The accounts of `set_params`: the caller.
#[derive(Clone, Copy, Debug, PartialEq, Eq)]
pub struct SetParams {
    pub authority: Pubkey,
}

/// What `upsert_validator_by_hub` works on, as plain values.
pub struct UpsertValidatorByHubView {
    /// The caller.
    pub authority: Pubkey,
    /// The identity whose record is mirrored.
    pub owner: Pubkey,
    /// The address derived for the record of `owner`.
    pub validator: Pubkey,
    /// The nonce of that address.
    pub bump: u8,
}

/// The accounts of `upsert_validator_by_hub`: the caller, the owner of the
/// record, and the address derived from the owner with its nonce.
pub struct UpsertValidatorByHub {
    authority: Pubkey,
    owner: Pubkey,
    validator: Pubkey,
    bump: u8,
}

impl View for UpsertValidatorByHub {
    type V = UpsertValidatorByHubView;

    closed spec fn view(&self) -> UpsertValidatorByHubView {
        UpsertValidatorByHubView {
            authority: self.authority,
            owner: self.owner,
            validator: self.validator,
            bump: self.bump,
        }
    }
}

impl UpsertValidatorByHub {
    #[verifier::type_invariant]
    spec fn inv(&self) -> bool {
        derives_to(validator_seeds(self.owner), self.validator, self.bump)
    }

    /// The accounts for a call by `authority` that mirrors the validator of
    /// `owner`.
    ///
    /// There are none exactly where no address can be derived from `owner`.
    pub fn new(authority: Pubkey, owner: Pubkey) -> (accounts: Option<UpsertValidatorByHub>)
        ensures
            accounts is Some <==> derived(validator_seeds(owner)) is Some,
            accounts matches Some(found) ==> found@.authority == authority && found@.owner == owner
                && derives_to(validator_seeds(owner), found@.validator, found@.bump),
    {
        match validator_address(&owner) {
            Some((validator, bump)) => Some(
                UpsertValidatorByHub { authority, owner, validator, bump },
            ),
            None => None,
        }
    }

    /// The caller.
    pub fn authority(&self) -> (key: Pubkey)
        ensures
            key == self@.authority,
    {
        self.authority
    }

    /// The identity whose record is mirrored.
    pub fn owner(&self) -> (key: Pubkey)
        ensures
            key == self@.owner,
    {
        self.owner
    }

    /// The address derived for the record of the owner.
    pub fn validator(&self) -> (key: Pubkey)
        ensures
            key == self@.validator,
            derives_to(validator_seeds(self@.owner), self@.validator, self@.bump),
    {
        proof {
            use_type_invariant(self);
        }
        self.validator
    }

    /// The nonce of the address derived for the record of the owner.
    pub fn bump(&self) -> (nonce: u8)
        ensures
            nonce == self@.bump,
            derives_to(validator_seeds(self@.owner), self@.validator, self@.bump),
    {
        proof {
            use_type_invariant(self);
        }
        self.bump
    }
}

/// What `init_state` does to a ledger and what it answers.
///
/// Where the configuration record exists, nothing changes and the call is
/// refused. Otherwise the record is created with the caller as authority and
/// the pause flag clear.
pub open spec fn init_state_spec(pre: LedgerView, authority: Pubkey, bump: u8) -> (
    LedgerView,
    Result<StateInitialized, Errs>,
) {
    if pre.state is Some {
        (pre, Err(Errs::AlreadyInitialized))
    } else {
        (
            pre.with_state(GlobalState { authority, paused: false, bump }),
            Ok(StateInitialized { authority }),
        )
    }
}

/// Whether `caller` is the authority of the ledger's configuration record.
/// Nobody is while the record does not exist.
pub open spec fn is_authority(pre: LedgerView, caller: Pubkey) -> bool {
    pre.state matches Some(state) && state.authority == caller
}

/// The configuration record after `set_params`: each value that is given
/// replaces the stored one, each that is absent leaves it.
pub open spec fn updated_params(
    state: GlobalState,
    new_authority: Option<Pubkey>,
    paused: Option<bool>,
) -> GlobalState {
    GlobalState {
        authority: match new_authority {
            Some(key) => key,
            None => state.authority,
        },
        paused: match paused {
            Some(flag) => flag,
            None => state.paused,
        },
        bump: state.bump,
    }
}

/// What `set_params` does to a ledger and what it answers.
pub open spec fn set_params_spec(
    pre: LedgerView,
    caller: Pubkey,
    new_authority: Option<Pubkey>,
    paused: Option<bool>,
) -> (LedgerView, Result<ParamsChanged, Errs>) {
    if is_authority(pre, caller) {
        let next = updated_params(pre.state->0, new_authority, paused);
        (
            pre.with_state(next),
            Ok(ParamsChanged { authority: next.authority, paused: next.paused }),
        )
    } else {
        (pre, Err(Errs::Unauthorized))
    }
}

/// What the hub hands in of a validator: the values that a mirror copies
/// into the record.
#[derive(Clone, Copy, Debug, PartialEq, Eq)]
pub struct Mirror {
    pub geo_iso2: [u8; 2],
    pub location: [u8; 32],
    pub status: u8,
    pub metadata_hash: [u8; 32],
}

/// The record that a mirror writes: the owner and the nonce of the record
/// that stands at the address, or those of the call where none stands there,
/// and every other field from the call and the clock.
pub open spec fn mirrored(
    pre: LedgerView,
    accounts: UpsertValidatorByHubView,
    mirror: Mirror,
    clock: Clock,
) -> Validator {
    let existing = pre.validators.get(accounts.validator);
    Validator {
        owner: if existing is Some {
            existing->0.owner
        } else {
            accounts.owner
        },
        geo_iso2: mirror.geo_iso2,
        location: mirror.location,
        status: mirror.status,
        last_active_timestamp: clock.unix_timestamp,
        last_active_slot: clock.slot,
        metadata_hash: mirror.metadata_hash,
        bump: if existing is Some {
            existing->0.bump
        } else {
            accounts.bump
        },
    }
}

/// What is told of a mirrored record.
pub open spec fn upserted(record: Validator) -> ValidatorUpserted {
    ValidatorUpserted {
        owner: record.owner,
        status: record.status,
        geo_iso2: record.geo_iso2,
        location: record.location,
        last_active_timestamp: record.last_active_timestamp,
        last_active_slot: record.last_active_slot,
        metadata_hash: record.metadata_hash,
    }
}

/// What `upsert_validator_by_hub` does to a ledger and what it answers.
///
/// The call is refused, in this order, where the caller is not the
/// authority, where the pause flag is set, and where the status is none of
/// the four codes. Otherwise the mirrored record is written at the derived
/// address.
pub open spec fn upsert_validator_by_hub_spec(
    pre: LedgerView,
    accounts: UpsertValidatorByHubView,
    mirror: Mirror,
    clock: Clock,
) -> (LedgerView, Result<ValidatorUpserted, Errs>) {
    if !is_authority(pre, accounts.authority) {
        (pre, Err(Errs::Unauthorized))
    } else if pre.state->0.paused {
        (pre, Err(Errs::Paused))
    } else if mirror.status > STATUS_BANNED {
        (pre, Err(Errs::InvalidInput))
    } else {
        let record = mirrored(pre, accounts, mirror, clock);
        (pre.with_validator(accounts.validator, record), Ok(upserted(record)))
    }
}

/// Tells whether `caller` may act: the answer is the configuration record
/// where `caller` is its authority, and `Unauthorized` where the caller is
/// another or the record does not exist.
pub fn authorize(ledger: &Ledger, caller: &Pubkey) -> (result: Result<GlobalState, Errs>)
    ensures
        is_authority(ledger@, *caller) ==> result == Ok::<GlobalState, Errs>(ledger@.state->0),
        !is_authority(ledger@, *caller) ==> result == Err::<GlobalState, Errs>(
            Errs::Unauthorized,
        ),
        ledger@.well_formed(),
{
    match ledger.state() {
        Some(state) => {
            if state.authority == *caller {
                Ok(state)
            } else {
                Err(Errs::Unauthorized)
            }
        },
        None => Err(Errs::Unauthorized),
    }
}

/// Creates the configuration record, once.
///
/// The caller becomes the authority and the pause flag is clear. A call on a
/// ledger that holds the record already is refused with
/// `AlreadyInitialized` and changes nothing.
pub fn init_state(ledger: &mut Ledger, ctx: &InitState) -> (result: Result<StateInitialized, Errs>)
    ensures
        (final(ledger)@, result) == init_state_spec(old(ledger)@, ctx@.authority, ctx@.bump),
        old(ledger)@.well_formed(),
        final(ledger)@.well_formed(),
{
    proof {
        use_type_invariant(ctx);
    }
    match ledger.state() {
        Some(_) => Err(Errs::AlreadyInitialized),
        None => {
            let state = GlobalState { authority: ctx.authority, paused: false, bump: ctx.bump };
            assert(derives_to(state_seeds(), ctx.state, state.bump));
            ledger.store_state(state);
                    Ok(StateInitialized { authority: state.authority })
        },
    }
}

/// Changes the authority, the pause flag, both or neither.
///
/// Only the authority may call. A value that is absent leaves the stored one
/// as it is. The answer holds the values after the change.
pub fn set_params(
    ledger: &mut Ledger,
    ctx: &SetParams,
    new_authority: Option<Pubkey>,
    paused: Option<bool>,
) -> (result: Result<ParamsChanged, Errs>)
    ensures
        (final(ledger)@, result) == set_params_spec(
            old(ledger)@,
            ctx.authority,
            new_authority,
            paused,
        ),
        old(ledger)@.well_formed(),
        final(ledger)@.well_formed(),
{
    let mut state = match authorize(ledger, &ctx.authority) {
        Ok(state) => state,
        Err(refusal) => {
            return Err(refusal);
        },
    };
    if let Some(key) = new_authority {
        state.authority = key;
    }
    if let Some(flag) = paused {
        state.paused = flag;
    }
    proof {
        let stored = old(ledger)@.state->0;
        let address = choose|address: Pubkey| #[trigger]
            derives_to(state_seeds(), address, stored.bump);
        assert(derives_to(state_seeds(), address, state.bump));
    }
    ledger.store_state(state);
    Ok(ParamsChanged { authority: state.authority, paused: state.paused })
}

/// Mirrors a validator: creates its record or overwrites it.
///
/// Only the authority may call, only while the pause flag is clear, and only
/// with one of the four status codes. The record stands at the address
/// derived from the owner. The first mirror fixes its owner and nonce; every
/// mirror overwrites all other fields, the time and the sequence number with
/// the clock's reading. The reading is taken as it is: it is for the caller
/// to hand in readings that do not go back, and any of the four status codes
/// may follow any other.
pub fn upsert_validator_by_hub(
    ledger: &mut Ledger,
    ctx: &UpsertValidatorByHub,
    geo_iso2: [u8; 2],
    location: [u8; 32],
    status: u8,
    metadata_hash: [u8; 32],
    clock: &Clock,
) -> (result: Result<ValidatorUpserted, Errs>)
    ensures
        (final(ledger)@, result) == upsert_validator_by_hub_spec(
            old(ledger)@,
            ctx@,
            (Mirror { geo_iso2, location, status, metadata_hash }),
            *clock,
        ),
        old(ledger)@.well_formed(),
        final(ledger)@.well_formed(),
{
    proof {
        use_type_invariant(ctx);
    }
    let state = match authorize(ledger, &ctx.authority) {
        Ok(state) => state,
        Err(refusal) => {
            return Err(refusal);
        },
    };
    if state.paused {
        return Err(Errs::Paused);
    }
    if status > STATUS_BANNED {
        return Err(Errs::InvalidInput);
    }
    let (owner, bump) = match ledger.validator_at(&ctx.validator) {
        Some(existing) => (existing.owner, existing.bump),
        None => (ctx.owner, ctx.bump),
    };
    let record = Validator {
        owner,
        geo_iso2,
        location,
        status,
        last_active_timestamp: clock.unix_timestamp,
        last_active_slot: clock.slot,
        metadata_hash,
        bump,
    };
    ledger.store_validator(ctx.validator, record);
    Ok(
        ValidatorUpserted {
            owner: record.owner,
            status: record.status,
            geo_iso2: record.geo_iso2,
            location: record.location,
            last_active_timestamp: record.last_active_timestamp,
            last_active_slot: record.last_active_slot,
            metadata_hash: record.metadata_hash,
        },
    )
}

} // verus!
