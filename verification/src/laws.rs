use vstd::prelude::*;
use crate::address::{derives_to, state_seeds, validator_seeds};
use crate::events::{Errs, ParamsChanged, StateInitialized, ValidatorUpserted};
use crate::instructions::{
    init_state_spec, is_authority, mirrored, set_params_spec, updated_params, upserted,
    upsert_validator_by_hub_spec, Clock, Mirror, UpsertValidatorByHubView,
};
use crate::ledger::LedgerView;
use crate::pubkey::Pubkey;
use crate::state::{GlobalState, Validator, STATUS_BANNED};

verus! {

/// `set_params` refuses every caller who is not the authority with
/// `Unauthorized`, and leaves the ledger as it was.
pub proof fn law_set_params_needs_authority(
    pre: LedgerView,
    caller: Pubkey,
    new_authority: Option<Pubkey>,
    paused: Option<bool>,
)
    requires
        !is_authority(pre, caller),
    ensures
        set_params_spec(pre, caller, new_authority, paused) == (
            pre,
            Err::<ParamsChanged, Errs>(Errs::Unauthorized),
        ),
{
}

/// `upsert_validator_by_hub` refuses every caller who is not the authority
/// with `Unauthorized`, whatever else holds of the call, and leaves the
/// ledger as it was.
pub proof fn law_upsert_needs_authority(
    pre: LedgerView,
    accounts: UpsertValidatorByHubView,
    mirror: Mirror,
    clock: Clock,
)
    requires
        !is_authority(pre, accounts.authority),
    ensures
        upsert_validator_by_hub_spec(pre, accounts, mirror, clock) == (
            pre,
            Err::<ValidatorUpserted, Errs>(Errs::Unauthorized),
        ),
{
}

/// `init_state` succeeds exactly on a ledger without a configuration
/// record, so at most once: whoever calls after a call, and with whatever
/// nonce, is refused with `AlreadyInitialized`, and the record stays as the
/// first call left it.
pub proof fn law_init_state_once(
    pre: LedgerView,
    first: Pubkey,
    first_bump: u8,
    second: Pubkey,
    second_bump: u8,
)
    ensures
        ({
            let (mid, created) = init_state_spec(pre, first, first_bump);
            &&& created is Ok <==> pre.state is None
            &&& init_state_spec(mid, second, second_bump) == (
                mid,
                Err::<StateInitialized, Errs>(Errs::AlreadyInitialized),
            )
        }),
{
}

/// After `init_state` has succeeded for a caller, the configuration record
/// names that caller as authority and its pause flag is clear; the validator
/// records are untouched.
pub proof fn law_init_state_outcome(pre: LedgerView, authority: Pubkey, bump: u8)
    requires
        init_state_spec(pre, authority, bump).1 is Ok,
    ensures
        ({
            let (post, created) = init_state_spec(pre, authority, bump);
            &&& created == Ok::<StateInitialized, Errs>(StateInitialized { authority })
            &&& post.state == Some(GlobalState { authority, paused: false, bump })
            &&& post.validators == pre.validators
        }),
{
}

/// `set_params` by the authority changes the values that are given and no
/// others, and answers with the values that the record then holds. It never
/// touches the nonce or a validator record.
pub proof fn law_set_params_partial(
    pre: LedgerView,
    caller: Pubkey,
    new_authority: Option<Pubkey>,
    paused: Option<bool>,
)
    requires
        is_authority(pre, caller),
    ensures
        ({
            let (post, changed) = set_params_spec(pre, caller, new_authority, paused);
            &&& post.state is Some
            &&& post.state->0.authority == if new_authority is Some {
                new_authority->0
            } else {
                caller
            }
            &&& post.state->0.paused == if paused is Some {
                paused->0
            } else {
                pre.state->0.paused
            }
            &&& post.state->0.bump == pre.state->0.bump
            &&& post.validators == pre.validators
            &&& changed == Ok::<ParamsChanged, Errs>(
                ParamsChanged { authority: post.state->0.authority, paused: post.state->0.paused },
            )
        }),
{
}

/// `set_params` by the authority with no new authority and the pause flag
/// set changes the pause flag alone, and tells of the authority as it was
/// and of the flag as set.
pub proof fn law_pause_alone(pre: LedgerView, authority: Pubkey)
    requires
        is_authority(pre, authority),
    ensures
        set_params_spec(pre, authority, None, Some(true)) == (
            pre.with_state(GlobalState { authority, paused: true, bump: pre.state->0.bump }),
            Ok::<ParamsChanged, Errs>(ParamsChanged { authority, paused: true }),
        ),
{
}

/// While the pause flag is set, every `upsert_validator_by_hub` is refused
/// and the ledger stays as it was: with `Paused` where the authority calls,
/// with `Unauthorized` where another does.
pub proof fn law_paused_blocks_upsert(
    pre: LedgerView,
    accounts: UpsertValidatorByHubView,
    mirror: Mirror,
    clock: Clock,
)
    requires
        pre.state is Some,
        pre.state->0.paused,
    ensures
        ({
            let (post, refused) = upsert_validator_by_hub_spec(pre, accounts, mirror, clock);
            &&& post == pre
            &&& refused is Err
            &&& is_authority(pre, accounts.authority) ==> refused->Err_0 == Errs::Paused
            &&& !is_authority(pre, accounts.authority) ==> refused->Err_0 == Errs::Unauthorized
        }),
{
}

/// A status code above the largest is never accepted: the call is refused
/// and the ledger stays as it was. Where the authority calls and the pause
/// flag is clear, the refusal is `InvalidInput`.
pub proof fn law_status_out_of_range(
    pre: LedgerView,
    accounts: UpsertValidatorByHubView,
    mirror: Mirror,
    clock: Clock,
)
    requires
        mirror.status > STATUS_BANNED,
    ensures
        ({
            let (post, refused) = upsert_validator_by_hub_spec(pre, accounts, mirror, clock);
            &&& post == pre
            &&& refused is Err
            &&& is_authority(pre, accounts.authority) && !pre.state->0.paused ==> refused->Err_0
                == Errs::InvalidInput
        }),
{
}

/// An accepted `upsert_validator_by_hub` writes one record: at the derived
/// address afterwards stands a record with the call's region, location,
/// status and metadata hash and the clock's reading, under the owner and the
/// nonce that stood there before, or those of the call where nothing stood
/// there. What is told repeats that record.
pub proof fn law_upsert_outcome(
    pre: LedgerView,
    accounts: UpsertValidatorByHubView,
    mirror: Mirror,
    clock: Clock,
)
    requires
        is_authority(pre, accounts.authority),
        !pre.state->0.paused,
        mirror.status <= STATUS_BANNED,
    ensures
        ({
            let (post, told) = upsert_validator_by_hub_spec(pre, accounts, mirror, clock);
            let record = post.validators[accounts.validator];
            let before = pre.validators.get(accounts.validator);
            &&& post.state == pre.state
            &&& post.validators.contains_key(accounts.validator)
            &&& record.geo_iso2 == mirror.geo_iso2
            &&& record.location == mirror.location
            &&& record.status == mirror.status
            &&& record.metadata_hash == mirror.metadata_hash
            &&& record.last_active_timestamp == clock.unix_timestamp
            &&& record.last_active_slot == clock.slot
            &&& before is None ==> record.owner == accounts.owner && record.bump == accounts.bump
            &&& before is Some ==> record.owner == before->0.owner && record.bump
                == before->0.bump
            &&& told == Ok::<ValidatorUpserted, Errs>(upserted(record))
        }),
{
}

/// Two accepted mirrors of one owner, the first on a free address: the
/// first creates the record under that owner, the second overwrites status,
/// region, location, metadata hash, time and sequence number, and the owner
/// and the nonce stay those of the first.
pub proof fn law_second_upsert_keeps_owner(
    pre: LedgerView,
    accounts: UpsertValidatorByHubView,
    first: Mirror,
    first_clock: Clock,
    second: Mirror,
    second_clock: Clock,
)
    requires
        is_authority(pre, accounts.authority),
        !pre.state->0.paused,
        !pre.validators.contains_key(accounts.validator),
        first.status <= STATUS_BANNED,
        second.status <= STATUS_BANNED,
    ensures
        ({
            let (mid, created) = upsert_validator_by_hub_spec(pre, accounts, first, first_clock);
            let (post, updated) = upsert_validator_by_hub_spec(
                mid,
                accounts,
                second,
                second_clock,
            );
            &&& created is Ok
            &&& updated is Ok
            &&& mid.validators[accounts.validator].owner == accounts.owner
            &&& mid.validators[accounts.validator].status == first.status
            &&& post.validators[accounts.validator] == Validator {
                owner: accounts.owner,
                geo_iso2: second.geo_iso2,
                location: second.location,
                status: second.status,
                last_active_timestamp: second_clock.unix_timestamp,
                last_active_slot: second_clock.slot,
                metadata_hash: second.metadata_hash,
                bump: accounts.bump,
            }
        }),
{
}

/// Mirroring the same values twice leaves the record as the second mirror
/// alone would: as after the first, but for the time and the sequence
/// number, which are those of the second clock reading.
pub proof fn law_upsert_repeats_but_for_the_clock(
    pre: LedgerView,
    accounts: UpsertValidatorByHubView,
    mirror: Mirror,
    first_clock: Clock,
    second_clock: Clock,
)
    ensures
        ({
            let (mid, first) = upsert_validator_by_hub_spec(pre, accounts, mirror, first_clock);
            let (post, second) = upsert_validator_by_hub_spec(mid, accounts, mirror, second_clock);
            &&& first is Ok <==> second is Ok
            &&& first is Ok ==> post.validators == mid.validators.insert(
                accounts.validator,
                Validator {
                    last_active_timestamp: second_clock.unix_timestamp,
                    last_active_slot: second_clock.slot,
                    ..mid.validators[accounts.validator]
                },
            )
            &&& first is Ok ==> post == upsert_validator_by_hub_spec(
                pre,
                accounts,
                mirror,
                second_clock,
            ).0
        }),
{
    let mid = upsert_validator_by_hub_spec(pre, accounts, mirror, first_clock).0;
    let post = upsert_validator_by_hub_spec(mid, accounts, mirror, second_clock).0;
    let alone = upsert_validator_by_hub_spec(pre, accounts, mirror, second_clock).0;
    if upsert_validator_by_hub_spec(pre, accounts, mirror, first_clock).1 is Ok {
        assert(post.validators =~= alone.validators);
    }
}

/// A mirror reaches one address. Whatever the call and however it ends,
/// every other address holds after it what it held before, and so does the
/// configuration record: records at distinct addresses never interfere.
pub proof fn law_upsert_touches_one_address(
    pre: LedgerView,
    accounts: UpsertValidatorByHubView,
    mirror: Mirror,
    clock: Clock,
    other: Pubkey,
)
    requires
        other != accounts.validator,
    ensures
        ({
            let post = upsert_validator_by_hub_spec(pre, accounts, mirror, clock).0;
            &&& post.state == pre.state
            &&& post.validators.get(other) == pre.validators.get(other)
        }),
{
}

/// Mirrors of two owners whose derived addresses differ commute: the ledger
/// after both is the same in either order, and each is answered the same
/// whether it comes first or second.
pub proof fn law_upserts_at_distinct_addresses_commute(
    pre: LedgerView,
    one: UpsertValidatorByHubView,
    one_mirror: Mirror,
    one_clock: Clock,
    two: UpsertValidatorByHubView,
    two_mirror: Mirror,
    two_clock: Clock,
)
    requires
        one.validator != two.validator,
    ensures
        ({
            let (after_one, one_first) = upsert_validator_by_hub_spec(
                pre,
                one,
                one_mirror,
                one_clock,
            );
            let (after_two, two_first) = upsert_validator_by_hub_spec(
                pre,
                two,
                two_mirror,
                two_clock,
            );
            let (one_two, two_second) = upsert_validator_by_hub_spec(
                after_one,
                two,
                two_mirror,
                two_clock,
            );
            let (two_one, one_second) = upsert_validator_by_hub_spec(
                after_two,
                one,
                one_mirror,
                one_clock,
            );
            &&& one_two == two_one
            &&& one_first == one_second
            &&& two_first == two_second
        }),
{
    let after_one = upsert_validator_by_hub_spec(pre, one, one_mirror, one_clock).0;
    let after_two = upsert_validator_by_hub_spec(pre, two, two_mirror, two_clock).0;
    let one_two = upsert_validator_by_hub_spec(after_one, two, two_mirror, two_clock).0;
    let two_one = upsert_validator_by_hub_spec(after_two, one, one_mirror, one_clock).0;
    assert(one_two.validators =~= two_one.validators);
}

/// In a well-formed ledger an identity owns at most one record: the records
/// at two distinct addresses belong to distinct owners.
pub proof fn law_one_record_per_owner(ledger: LedgerView, one: Pubkey, two: Pubkey)
    requires
        ledger.well_formed(),
        ledger.validators.contains_key(one),
        ledger.validators.contains_key(two),
        one != two,
    ensures
        ledger.validators[one].owner != ledger.validators[two].owner,
{
    Pubkey::lemma_equal_by_bytes(one, two);
}

/// No operation deletes a record, and none changes the owner or the nonce
/// of a validator record: what stood at an address before still stands
/// there, under the same owner, and a configuration record that existed
/// still exists, with the same nonce.
pub proof fn law_records_stay(
    pre: LedgerView,
    caller: Pubkey,
    bump: u8,
    new_authority: Option<Pubkey>,
    paused: Option<bool>,
    accounts: UpsertValidatorByHubView,
    mirror: Mirror,
    clock: Clock,
    address: Pubkey,
)
    ensures
        ({
            let created = init_state_spec(pre, caller, bump).0;
            let changed = set_params_spec(pre, caller, new_authority, paused).0;
            let written = upsert_validator_by_hub_spec(pre, accounts, mirror, clock).0;
            &&& pre.state is Some ==> created.state == pre.state
            &&& pre.state is Some ==> changed.state is Some && changed.state->0.bump
                == pre.state->0.bump
            &&& written.state == pre.state
            &&& created.validators == pre.validators
            &&& changed.validators == pre.validators
            &&& pre.validators.contains_key(address) ==> written.validators.contains_key(address)
                && written.validators[address].owner == pre.validators[address].owner
                && written.validators[address].bump == pre.validators[address].bump
        }),
{
}

/// A refused operation changes nothing, whichever of the three it is.
pub proof fn law_refusal_changes_nothing(
    pre: LedgerView,
    caller: Pubkey,
    bump: u8,
    new_authority: Option<Pubkey>,
    paused: Option<bool>,
    accounts: UpsertValidatorByHubView,
    mirror: Mirror,
    clock: Clock,
)
    ensures
        ({
            let (created, first) = init_state_spec(pre, caller, bump);
            let (changed, second) = set_params_spec(pre, caller, new_authority, paused);
            let (written, third) = upsert_validator_by_hub_spec(pre, accounts, mirror, clock);
            &&& first is Err ==> created == pre
            &&& second is Err ==> changed == pre
            &&& third is Err ==> written == pre
        }),
{
}

/// The three operations keep a ledger well formed: the configuration
/// record's nonce stays the one of its derived address, and every validator
/// record keeps a status among the four codes and stands at the address
/// derived from its owner, with that derivation's nonce.
pub proof fn law_operations_keep_well_formed(
    pre: LedgerView,
    caller: Pubkey,
    state_address: Pubkey,
    state_bump: u8,
    new_authority: Option<Pubkey>,
    paused: Option<bool>,
    accounts: UpsertValidatorByHubView,
    mirror: Mirror,
    clock: Clock,
)
    requires
        pre.well_formed(),
        derives_to(state_seeds(), state_address, state_bump),
        derives_to(validator_seeds(accounts.owner), accounts.validator, accounts.bump),
    ensures
        init_state_spec(pre, caller, state_bump).0.well_formed(),
        set_params_spec(pre, caller, new_authority, paused).0.well_formed(),
        upsert_validator_by_hub_spec(pre, accounts, mirror, clock).0.well_formed(),
{
    let fresh = GlobalState { authority: caller, paused: false, bump: state_bump };
    assert(derives_to(state_seeds(), state_address, fresh.bump));
    if pre.state is Some {
        let stored = pre.state->0;
        let address = choose|address: Pubkey| #[trigger]
            derives_to(state_seeds(), address, stored.bump);
        let next = updated_params(stored, new_authority, paused);
        assert(derives_to(state_seeds(), address, next.bump));
    }
    let post = upsert_validator_by_hub_spec(pre, accounts, mirror, clock).0;
    assert forall|address: Pubkey| #[trigger]
        post.validators.contains_key(address) implies LedgerView::validator_fits(
        address,
        post.validators[address],
    ) by {
        if address != accounts.validator || post == pre {
            assert(pre.validators.contains_key(address));
        } else {
            assert(post.validators[address] == mirrored(pre, accounts, mirror, clock));
            if pre.validators.contains_key(accounts.validator) {
                assert(LedgerView::validator_fits(
                    accounts.validator,
                    pre.validators[accounts.validator],
                ));
            }
        }
    }
}

} // verus!
