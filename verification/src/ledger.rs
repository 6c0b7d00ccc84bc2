use vstd::prelude::*;
use crate::address::{derives_to, state_address, state_seeds, validator_address, validator_seeds};
use crate::pubkey::Pubkey;
use crate::state::{GlobalState, Validator, STATUS_BANNED};

verus! {

/// What a ledger holds: the configuration record, where it has been created,
/// and the validator records by the address each is stored at.
pub struct LedgerView {
    pub state: Option<GlobalState>,
    pub validators: Map<Pubkey, Validator>,
}

impl LedgerView {
    /// The ledger that holds nothing.
    pub open spec fn empty() -> LedgerView {
        LedgerView { state: None, validators: Map::empty() }
    }

    /// The ledger with the configuration record replaced by `state`.
    pub open spec fn with_state(self, state: GlobalState) -> LedgerView {
        LedgerView { state: Some(state), validators: self.validators }
    }

    /// The ledger with `record` written at `address`.
    pub open spec fn with_validator(self, address: Pubkey, record: Validator) -> LedgerView {
        LedgerView { state: self.state, validators: self.validators.insert(address, record) }
    }

    /// Whether the configuration record may stand in a ledger: its nonce is
    /// the one of the address derived for the configuration.
    pub open spec fn state_fits(state: GlobalState) -> bool {
        exists|address: Pubkey| #[trigger] derives_to(state_seeds(), address, state.bump)
    }

    /// Whether `record` may stand at `address`: its status is one of the four
    /// codes, and the address and the nonce are those derived from its owner.
    pub open spec fn validator_fits(address: Pubkey, record: Validator) -> bool {
        &&& record.well_formed()
        &&& derives_to(validator_seeds(record.owner), address, record.bump)
    }

    /// Whether every record of a stored ledger fits its place.
    pub open spec fn all_fit(
        state: Option<GlobalState>,
        records: Seq<(Pubkey, Validator)>,
    ) -> bool {
        &&& state matches Some(stored) ==> LedgerView::state_fits(stored)
        &&& forall|i: int|
            0 <= i < records.len() ==> LedgerView::validator_fits(
                (#[trigger] records[i]).0,
                records[i].1,
            )
    }

    /// The ledger that holds a stored configuration record and the stored
    /// validator records, each at its address. Of two records with one
    /// address the later stands.
    pub open spec fn restored(
        state: Option<GlobalState>,
        records: Seq<(Pubkey, Validator)>,
    ) -> LedgerView
        decreases records.len(),
    {
        if records.len() == 0 {
            LedgerView { state, validators: Map::empty() }
        } else {
            LedgerView::restored(state, records.drop_last()).with_validator(
                records.last().0,
                records.last().1,
            )
        }
    }

    /// What holds of every ledger: each record fits the place it stands at.
    pub open spec fn well_formed(self) -> bool {
        &&& self.state matches Some(state) ==> LedgerView::state_fits(state)
        &&& forall|address: Pubkey| #[trigger]
            self.validators.contains_key(address) ==> LedgerView::validator_fits(
                address,
                self.validators[address],
            )
    }
}

/// One stored validator record with its address.
struct Slot {
    address: Pubkey,
    record: Validator,
}

/// The store: a keyed collection of records that is read and written one
/// record at a time.
pub struct Ledger {
    state: Option<GlobalState>,
    slots: Vec<Slot>,
}

/// Whether some slot stands at `address`.
spec fn occupied(slots: Seq<Slot>, address: Pubkey) -> bool {
    exists|i: int| 0 <= i < slots.len() && (#[trigger] slots[i]).address == address
}

/// The index of a slot that stands at `address`.
spec fn position(slots: Seq<Slot>, address: Pubkey) -> int {
    choose|i: int| 0 <= i < slots.len() && (#[trigger] slots[i]).address == address
}

/// Whether no two slots share an address.
spec fn distinct(slots: Seq<Slot>) -> bool {
    forall|i: int, j: int|
        0 <= i < j < slots.len() ==> (#[trigger] slots[i]).address != (#[trigger] slots[j]).address
}

/// The records of the slots, by address.
spec fn records(slots: Seq<Slot>) -> Map<Pubkey, Validator> {
    Map::new(
        |address: Pubkey| occupied(slots, address),
        |address: Pubkey| slots[position(slots, address)].record,
    )
}

/// A slot's record is the one that the map holds at the slot's address.
proof fn lemma_records_at(slots: Seq<Slot>, i: int)
    requires
        distinct(slots),
        0 <= i < slots.len(),
    ensures
        records(slots).contains_key(slots[i].address),
        records(slots)[slots[i].address] == slots[i].record,
{
    let address = slots[i].address;
    assert(occupied(slots, address));
    let p = position(slots, address);
    assert(0 <= p < slots.len() && slots[p].address == address);
    if p < i {
        assert(slots[p].address != slots[i].address);
    } else if i < p {
        assert(slots[i].address != slots[p].address);
    }
}

/// A slot added at a free address adds its record to the map.
proof fn lemma_records_push(slots: Seq<Slot>, slot: Slot)
    requires
        distinct(slots),
        !occupied(slots, slot.address),
    ensures
        distinct(slots.push(slot)),
        records(slots.push(slot)) == records(slots).insert(slot.address, slot.record),
{
    let after = slots.push(slot);
    assert forall|i: int, j: int| 0 <= i < j < after.len() implies (#[trigger] after[i]).address
        != (#[trigger] after[j]).address by {
        if j == slots.len() {
            assert(after[i] == slots[i]);
        } else {
            assert(after[i] == slots[i] && after[j] == slots[j]);
        }
    }
    assert forall|address: Pubkey| occupied(after, address) <==> (occupied(slots, address)
        || address == slot.address) by {
        if occupied(after, address) {
            let p = position(after, address);
            if p < slots.len() {
                assert(slots[p].address == address);
            }
        }
        if occupied(slots, address) {
            let p = position(slots, address);
            assert(after[p].address == address);
        }
        if address == slot.address {
            assert(after[slots.len() as int].address == address);
        }
    }
    assert forall|address: Pubkey| occupied(after, address) implies #[trigger] records(
        after,
    )[address] == records(slots).insert(slot.address, slot.record)[address] by {
        if address == slot.address {
            lemma_records_at(after, slots.len() as int);
        } else {
            let p = position(slots, address);
            assert(after[p] == slots[p]);
            lemma_records_at(after, p);
            lemma_records_at(slots, p);
        }
    }
    assert(records(after) =~= records(slots).insert(slot.address, slot.record));
}

/// A record replaced in its slot is replaced in the map.
proof fn lemma_records_update(slots: Seq<Slot>, i: int, record: Validator)
    requires
        distinct(slots),
        0 <= i < slots.len(),
    ensures
        distinct(slots.update(i, Slot { address: slots[i].address, record })),
        records(slots.update(i, Slot { address: slots[i].address, record })) == records(
            slots,
        ).insert(slots[i].address, record),
{
    let slot = Slot { address: slots[i].address, record };
    let after = slots.update(i, slot);
    assert forall|j: int| 0 <= j < slots.len() implies (#[trigger] after[j]).address
        == slots[j].address by {}
    assert forall|a: int, b: int| 0 <= a < b < after.len() implies (#[trigger] after[a]).address
        != (#[trigger] after[b]).address by {
        assert(slots[a].address != slots[b].address);
    }
    assert forall|address: Pubkey| occupied(after, address) <==> occupied(slots, address) by {
        if occupied(after, address) {
            let p = position(after, address);
            assert(slots[p].address == address);
        }
        if occupied(slots, address) {
            let p = position(slots, address);
            assert(after[p].address == address);
        }
    }
    assert(occupied(slots, slot.address));
    assert forall|address: Pubkey| occupied(after, address) implies #[trigger] records(
        after,
    )[address] == records(slots).insert(slot.address, record)[address] by {
        let p = position(slots, address);
        lemma_records_at(after, p);
        lemma_records_at(slots, p);
        if address != slot.address {
            assert(p != i);
        }
    }
    assert(records(after) =~= records(slots).insert(slot.address, record));
}

impl View for Ledger {
    type V = LedgerView;

    closed spec fn view(&self) -> LedgerView {
        LedgerView { state: self.state, validators: records(self.slots@) }
    }
}

impl Ledger {
    #[verifier::type_invariant]
    spec fn inv(&self) -> bool {
        &&& distinct(self.slots@)
        &&& self@.well_formed()
    }

    /// A ledger that holds nothing.
    pub fn new() -> (ledger: Ledger)
        ensures
            ledger@ == LedgerView::empty(),
            ledger@.well_formed(),
    {
        let ledger = Ledger { state: None, slots: Vec::new() };
        assert(ledger@.validators =~= Map::empty());
        ledger
    }

    /// Builds a ledger from records as they were stored, checking each
    /// against its place.
    ///
    /// There is a ledger exactly where every record fits: the configuration
    /// record carries the nonce derived for it, and each validator record
    /// has a status among the four codes and stands at the address derived
    /// from its owner, with that derivation's nonce.
    pub fn restore(state: Option<GlobalState>, records: &Vec<(Pubkey, Validator)>) -> (ledger:
        Option<Ledger>)
        ensures
            ledger is Some <==> LedgerView::all_fit(state, records@),
            ledger matches Some(found) ==> found@ == LedgerView::restored(state, records@)
                && found@.well_formed(),
    {
        let mut ledger = Ledger::new();
        if let Some(stored) = state {
            match state_address() {
                Some((address, bump)) => {
                    if bump != stored.bump {
                        return None;
                    }
                    assert(derives_to(state_seeds(), address, stored.bump));
                },
                None => {
                    return None;
                },
            }
            ledger.store_state(stored);
        }
        assert(ledger@.validators =~= Map::empty());
        let mut i: usize = 0;
        while i < records.len()
            invariant
                0 <= i <= records@.len(),
                state matches Some(stored) ==> LedgerView::state_fits(stored),
                ledger@ == LedgerView::restored(state, records@.take(i as int)),
                forall|j: int|
                    0 <= j < i ==> LedgerView::validator_fits(
                        (#[trigger] records@[j]).0,
                        records@[j].1,
                    ),
            decreases records@.len() - i,
        {
            let address = records[i].0;
            let record = records[i].1;
            if record.status > STATUS_BANNED {
                return None;
            }
            match validator_address(&record.owner) {
                Some((derived, bump)) => {
                    if !(derived == address) || bump != record.bump {
                        proof {
                            Pubkey::lemma_equal_by_bytes(derived, address);
                        }
                        return None;
                    }
                },
                None => {
                    return None;
                },
            }
            ledger.store_validator(address, record);
            proof {
                let next = records@.take(i + 1);
                assert(next.drop_last() =~= records@.take(i as int));
                assert(next.last() == records@[i as int]);
            }
            i += 1;
        }
        proof {
            assert(records@.take(i as int) =~= records@);
            use_type_invariant(&ledger);
        }
        Some(ledger)
    }

    /// The index of the slot at `address`, where there is one.
    fn find(&self, address: &Pubkey) -> (found: Option<usize>)
        ensures
            found matches Some(i) ==> i < self.slots@.len() && self.slots@[i as int].address
                == *address,
            found is None ==> !occupied(self.slots@, *address),
    {
        let mut i: usize = 0;
        while i < self.slots.len()
            invariant
                0 <= i <= self.slots@.len(),
                forall|j: int| 0 <= j < i ==> (#[trigger] self.slots@[j]).address != *address,
            decreases self.slots@.len() - i,
        {
            if self.slots[i].address == *address {
                return Some(i);
            }
            i += 1;
        }
        None
    }

    /// The configuration record, where it has been created.
    pub fn state(&self) -> (state: Option<GlobalState>)
        ensures
            state == self@.state,
            self@.well_formed(),
    {
        proof {
            use_type_invariant(self);
        }
        self.state
    }

    /// The validator record stored at `address`, where there is one.
    pub fn validator_at(&self, address: &Pubkey) -> (record: Option<Validator>)
        ensures
            record == self@.validators.get(*address),
            self@.well_formed(),
    {
        proof {
            use_type_invariant(self);
        }
        match self.find(address) {
            Some(i) => {
                proof {
                    lemma_records_at(self.slots@, i as int);
                }
                Some(self.slots[i].record)
            },
            None => None,
        }
    }

    /// Writes the configuration record.
    pub(crate) fn store_state(&mut self, state: GlobalState)
        requires
            LedgerView::state_fits(state),
        ensures
            final(self)@ == old(self)@.with_state(state),
            final(self)@.well_formed(),
    {
        proof {
            use_type_invariant(&*self);
        }
        self.state = Some(state);
    }

    /// Writes `record` at `address`, in place of the record that stands
    /// there or as a new one.
    pub(crate) fn store_validator(&mut self, address: Pubkey, record: Validator)
        requires
            LedgerView::validator_fits(address, record),
        ensures
            final(self)@ == old(self)@.with_validator(address, record),
            final(self)@.well_formed(),
    {
        proof {
            use_type_invariant(&*self);
        }
        let found = self.find(&address);
        let mut slots: Vec<Slot> = Vec::new();
        proof {
            assert(records(slots@) =~= Map::empty());
        }
        std::mem::swap(&mut slots, &mut self.slots);
        match found {
            Some(i) => {
                proof {
                    lemma_records_update(slots@, i as int, record);
                }
                slots[i] = Slot { address, record };
            },
            None => {
                proof {
                    lemma_records_push(slots@, Slot { address, record });
                }
                slots.push(Slot { address, record });
            },
        }
        self.slots = slots;
    }
}

} // verus!
