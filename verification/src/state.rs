use vstd::prelude::*;
use vstd::bytes::{
    lemma_auto_spec_u64_to_from_le_bytes, spec_u64_from_le_bytes, spec_u64_to_le_bytes,
    u64_from_le_bytes, u64_to_le_bytes,
};
use vstd::slice::slice_subrange;
use crate::pubkey::Pubkey;

verus! {

/// Status code of a validator that has not been activated yet.
pub const STATUS_PENDING: u8 = 0;

/// Status code of an active validator.
pub const STATUS_ACTIVE: u8 = 1;

/// Status code of a validator that is paused.
pub const STATUS_PAUSED: u8 = 2;

/// Status code of a banned validator. It is the largest code there is.
pub const STATUS_BANNED: u8 = 3;

/// The configuration record, of which there is one.
#[derive(Clone, Copy, Debug, PartialEq, Eq)]
pub struct GlobalState {
    /// The one identity that may change the configuration and mirror validators.
    pub authority: Pubkey,
    /// While set, no validator record is created or changed.
    pub paused: bool,
    /// The nonce of the record's derived address.
    pub bump: u8,
}

/// The record of one validator, stored at the address derived from its owner.
#[derive(Clone, Copy, Debug, PartialEq, Eq)]
pub struct Validator {
    /// The identity the record belongs to, fixed when the record is created.
    pub owner: Pubkey,
    /// Two-byte region code, not interpreted.
    pub geo_iso2: [u8; 2],
    /// Location blob, not interpreted.
    pub location: [u8; 32],
    /// One of the four status codes.
    pub status: u8,
    /// Wall-clock time of the last mirror.
    pub last_active_timestamp: i64,
    /// Sequence number of the last mirror.
    pub last_active_slot: u64,
    /// Content hash of the validator's metadata, not interpreted.
    pub metadata_hash: [u8; 32],
    /// The nonce of the record's derived address.
    pub bump: u8,
}

/// The byte that stands for a flag: 1 for set, 0 for clear.
pub open spec fn flag_byte(flag: bool) -> u8 {
    if flag {
        1
    } else {
        0
    }
}

/// The eight bytes of a signed 64-bit number, least significant first, in
/// two's complement.
pub open spec fn i64_le_bytes(x: i64) -> Seq<u8> {
    spec_u64_to_le_bytes(x as u64)
}

/// Appends `bytes` to `out`.
fn put(out: &mut Vec<u8>, bytes: &[u8])
    ensures
        final(out)@ == old(out)@ + bytes@,
{
    let mut i: usize = 0;
    while i < bytes.len()
        invariant
            0 <= i <= bytes@.len(),
            out@ == old(out)@ + bytes@.take(i as int),
        decreases bytes@.len() - i,
    {
        out.push(bytes[i]);
        assert(bytes@.take(i + 1) =~= bytes@.take(i as int).push(bytes@[i as int]));
        assert(out@ =~= old(out)@ + bytes@.take(i + 1));
        i += 1;
    }
    assert(bytes@.take(i as int) =~= bytes@);
}

/// The two bytes of `bytes` that start at `at`.
fn take2(bytes: &[u8], at: usize) -> (field: [u8; 2])
    requires
        at + 2 <= bytes@.len(),
    ensures
        field@ == bytes@.subrange(at as int, at + 2),
{
    let len: usize = bytes.len();
    assert(at + 1 < len);
    let field = [bytes[at], bytes[at + 1]];
    assert(field@ =~= bytes@.subrange(at as int, at + 2));
    field
}

/// The 32 bytes of `bytes` that start at `at`.
fn take32(bytes: &[u8], at: usize) -> (field: [u8; 32])
    requires
        at + 32 <= bytes@.len(),
    ensures
        field@ == bytes@.subrange(at as int, at + 32),
{
    let len: usize = bytes.len();
    let mut field = [0u8; 32];
    let mut i: usize = 0;
    while i < 32
        invariant
            0 <= i <= 32,
            len == bytes@.len(),
            at + 32 <= len,
            forall|j: int| 0 <= j < i ==> field@[j] == bytes@[at + j],
        decreases 32 - i,
    {
        field[i] = bytes[at + i];
        i += 1;
    }
    assert(field@ =~= bytes@.subrange(at as int, at + 32));
    field
}

impl GlobalState {
    /// Number of bytes of a stored configuration record.
    pub const SIZE: usize = 34;

    /// The stored form of the record: the authority's 32 bytes, one byte for
    /// the pause flag, one for the nonce.
    pub open spec fn encoded(self) -> Seq<u8> {
        self.authority@ + seq![flag_byte(self.paused), self.bump]
    }

    /// The record that `bytes` is the stored form of, where there is one.
    pub open spec fn decoded(bytes: Seq<u8>) -> Option<GlobalState> {
        if exists|state: GlobalState| state.encoded() == bytes {
            Some(choose|state: GlobalState| state.encoded() == bytes)
        } else {
            None
        }
    }

    /// Whether `bytes` has the shape of a stored record: 34 bytes, the
    /// flag byte being 0 or 1.
    pub open spec fn well_encoded(bytes: Seq<u8>) -> bool {
        bytes.len() == 34 && bytes[32] <= 1
    }

    /// Two records with the same stored form are the same record.
    pub proof fn lemma_encoded_injective(a: GlobalState, b: GlobalState)
        requires
            a.encoded() == b.encoded(),
        ensures
            a == b,
    {
        let ea = a.encoded();
        let eb = b.encoded();
        assert(a.authority@ =~= ea.subrange(0, 32));
        assert(b.authority@ =~= eb.subrange(0, 32));
        Pubkey::lemma_equal_by_bytes(a.authority, b.authority);
        assert(ea[32] == flag_byte(a.paused));
        assert(eb[32] == flag_byte(b.paused));
        assert(ea[33] == a.bump);
        assert(eb[33] == b.bump);
    }

    /// Decoding the stored form of a record gives the record back.
    pub proof fn lemma_round_trip(state: GlobalState)
        ensures
            GlobalState::well_encoded(state.encoded()),
            GlobalState::decoded(state.encoded()) == Some(state),
    {
        let found = choose|other: GlobalState| other.encoded() == state.encoded();
        GlobalState::lemma_encoded_injective(found, state);
    }

    /// Writes the record in its stored form.
    pub fn to_bytes(&self) -> (bytes: Vec<u8>)
        ensures
            bytes@ == self.encoded(),
    {
        let mut bytes: Vec<u8> = Vec::new();
        put(&mut bytes, &self.authority.bytes);
        bytes.push(if self.paused { 1 } else { 0 });
        bytes.push(self.bump);
        assert(bytes@ =~= self.encoded());
        bytes
    }

    /// Reads a record from its stored form.
    ///
    /// Succeeds exactly on 34 bytes whose flag byte is 0 or 1, and then gives
    /// the one record that those bytes encode.
    pub fn from_bytes(bytes: &[u8]) -> (state: Option<GlobalState>)
        ensures
            state is Some <==> GlobalState::well_encoded(bytes@),
            state == GlobalState::decoded(bytes@),
    {
        if bytes.len() != 34 || bytes[32] > 1 {
            assert forall|other: GlobalState| other.encoded() != bytes@ by {
                if other.encoded() == bytes@ {
                    assert(other.encoded()[32] == flag_byte(other.paused));
                }
            }
            return None;
        }
        let state = GlobalState {
            authority: Pubkey { bytes: take32(bytes, 0) },
            paused: bytes[32] == 1,
            bump: bytes[33],
        };
        proof {
            assert(state.encoded() =~= bytes@);
            let found = choose|other: GlobalState| other.encoded() == bytes@;
            GlobalState::lemma_encoded_injective(found, state);
        }
        Some(state)
    }
}

impl Validator {
    /// Number of bytes of a stored validator record.
    pub const SIZE: usize = 116;

    /// Whether the status is one of the four codes.
    pub open spec fn well_formed(self) -> bool {
        self.status <= STATUS_BANNED
    }

    /// The stored form of the record: owner, region, location, status, time
    /// and sequence number (eight bytes each, least significant first),
    /// metadata hash, nonce.
    pub open spec fn encoded(self) -> Seq<u8> {
        self.owner@ + self.geo_iso2@ + self.location@ + seq![self.status] + i64_le_bytes(
            self.last_active_timestamp,
        ) + spec_u64_to_le_bytes(self.last_active_slot) + self.metadata_hash@ + seq![self.bump]
    }

    /// The record that `bytes` is the stored form of, where there is one.
    pub open spec fn decoded(bytes: Seq<u8>) -> Option<Validator> {
        if exists|record: Validator| record.encoded() == bytes {
            Some(choose|record: Validator| record.encoded() == bytes)
        } else {
            None
        }
    }

    /// Where each field stands in the stored form.
    pub proof fn lemma_encoded_layout(self)
        ensures
            self.encoded().len() == 116,
            self.encoded().subrange(0, 32) == self.owner@,
            self.encoded().subrange(32, 34) == self.geo_iso2@,
            self.encoded().subrange(34, 66) == self.location@,
            self.encoded()[66] == self.status,
            self.encoded().subrange(67, 75) == i64_le_bytes(self.last_active_timestamp),
            self.encoded().subrange(75, 83) == spec_u64_to_le_bytes(self.last_active_slot),
            self.encoded().subrange(83, 115) == self.metadata_hash@,
            self.encoded()[115] == self.bump,
    {
        lemma_auto_spec_u64_to_from_le_bytes();
        let e = self.encoded();
        assert(i64_le_bytes(self.last_active_timestamp).len() == 8);
        assert(spec_u64_to_le_bytes(self.last_active_slot).len() == 8);
        assert(e.subrange(0, 32) =~= self.owner@);
        assert(e.subrange(32, 34) =~= self.geo_iso2@);
        assert(e.subrange(34, 66) =~= self.location@);
        assert(e.subrange(67, 75) =~= i64_le_bytes(self.last_active_timestamp));
        assert(e.subrange(75, 83) =~= spec_u64_to_le_bytes(self.last_active_slot));
        assert(e.subrange(83, 115) =~= self.metadata_hash@);
    }

    /// Two records with the same stored form are the same record.
    pub proof fn lemma_encoded_injective(a: Validator, b: Validator)
        requires
            a.encoded() == b.encoded(),
        ensures
            a == b,
    {
        a.lemma_encoded_layout();
        b.lemma_encoded_layout();
        lemma_auto_spec_u64_to_from_le_bytes();
        Pubkey::lemma_equal_by_bytes(a.owner, b.owner);
        assert(a.geo_iso2 =~= b.geo_iso2) by {
            assert forall|i: int| 0 <= i < 2 implies a.geo_iso2[i] == b.geo_iso2[i] by {
                assert(a.geo_iso2@[i] == b.geo_iso2@[i]);
            }
        }
        assert(a.location =~= b.location) by {
            assert forall|i: int| 0 <= i < 32 implies a.location[i] == b.location[i] by {
                assert(a.location@[i] == b.location@[i]);
            }
        }
        assert(a.metadata_hash =~= b.metadata_hash) by {
            assert forall|i: int| 0 <= i < 32 implies a.metadata_hash[i] == b.metadata_hash[i] by {
                assert(a.metadata_hash@[i] == b.metadata_hash@[i]);
            }
        }
        let ta = a.last_active_timestamp;
        let tb = b.last_active_timestamp;
        assert(spec_u64_from_le_bytes(spec_u64_to_le_bytes(ta as u64)) == ta as u64);
        assert(spec_u64_from_le_bytes(spec_u64_to_le_bytes(tb as u64)) == tb as u64);
        assert(ta as u64 == tb as u64);
        assert(ta as u64 == tb as u64 ==> ta == tb) by (bit_vector);
        let sa = a.last_active_slot;
        let sb = b.last_active_slot;
        assert(spec_u64_from_le_bytes(spec_u64_to_le_bytes(sa)) == sa);
        assert(spec_u64_from_le_bytes(spec_u64_to_le_bytes(sb)) == sb);
    }

    /// Decoding the stored form of a record gives the record back.
    pub proof fn lemma_round_trip(record: Validator)
        ensures
            record.encoded().len() == 116,
            Validator::decoded(record.encoded()) == Some(record),
    {
        record.lemma_encoded_layout();
        let found = choose|other: Validator| other.encoded() == record.encoded();
        Validator::lemma_encoded_injective(found, record);
    }

    /// Writes the record in its stored form.
    pub fn to_bytes(&self) -> (bytes: Vec<u8>)
        ensures
            bytes@ == self.encoded(),
    {
        let mut bytes: Vec<u8> = Vec::new();
        put(&mut bytes, &self.owner.bytes);
        put(&mut bytes, &self.geo_iso2);
        put(&mut bytes, &self.location);
        bytes.push(self.status);
        let time = u64_to_le_bytes(#[verifier::truncate] (self.last_active_timestamp as u64));
        put(&mut bytes, time.as_slice());
        let slot = u64_to_le_bytes(self.last_active_slot);
        put(&mut bytes, slot.as_slice());
        put(&mut bytes, &self.metadata_hash);
        bytes.push(self.bump);
        assert(bytes@ =~= self.encoded());
        bytes
    }

    /// Reads a record from its stored form.
    ///
    /// Succeeds exactly on 116 bytes, and then gives the one record that
    /// those bytes encode. The status byte is taken as it stands.
    pub fn from_bytes(bytes: &[u8]) -> (record: Option<Validator>)
        ensures
            record is Some <==> bytes@.len() == 116,
            record == Validator::decoded(bytes@),
    {
        if bytes.len() != 116 {
            assert forall|other: Validator| other.encoded() != bytes@ by {
                other.lemma_encoded_layout();
            }
            return None;
        }
        let time: u64 = u64_from_le_bytes(slice_subrange(bytes, 67, 75));
        let slot: u64 = u64_from_le_bytes(slice_subrange(bytes, 75, 83));
        let record = Validator {
            owner: Pubkey { bytes: take32(bytes, 0) },
            geo_iso2: take2(bytes, 32),
            location: take32(bytes, 34),
            status: bytes[66],
            last_active_timestamp: #[verifier::truncate] (time as i64),
            last_active_slot: slot,
            metadata_hash: take32(bytes, 83),
            bump: bytes[115],
        };
        proof {
            lemma_auto_spec_u64_to_from_le_bytes();
            assert((time as i64) as u64 == time) by (bit_vector);
            assert(i64_le_bytes(record.last_active_timestamp) == bytes@.subrange(67, 75));
            assert(spec_u64_to_le_bytes(slot) == bytes@.subrange(75, 83));
            assert(record.encoded() =~= bytes@);
            let found = choose|other: Validator| other.encoded() == bytes@;
            Validator::lemma_encoded_injective(found, record);
        }
        Some(record)
    }
}

impl Default for GlobalState {
    /// The record of an address that was never written: the zero key as
    /// authority, not paused, nonce 0.
    fn default() -> (state: GlobalState)
        ensures
            state.encoded() == Seq::new(34, |i: int| 0u8),
    {
        let state = GlobalState { authority: Pubkey::default(), paused: false, bump: 0 };
        assert(state.encoded() =~= Seq::new(34, |i: int| 0u8));
        state
    }
}

impl Default for Validator {
    /// The record of an address that was never written: every byte zero.
    fn default() -> (record: Validator)
        ensures
            record.encoded() == Seq::new(116, |i: int| 0u8),
    {
        let record = Validator {
            owner: Pubkey::default(),
            geo_iso2: [0u8; 2],
            location: [0u8; 32],
            status: 0,
            last_active_timestamp: 0,
            last_active_slot: 0,
            metadata_hash: [0u8; 32],
            bump: 0,
        };
        proof {
            record.lemma_encoded_layout();
            vstd::bytes::spec_u64_to_le_bytes_to_open(0u64);
            assert(0i64 as u64 == 0u64) by (bit_vector);
            assert(0u64 & 0xff == 0u64 && (0u64 >> 8) & 0xff == 0 && (0u64 >> 16) & 0xff == 0 && (
            0u64 >> 24) & 0xff == 0 && (0u64 >> 32) & 0xff == 0 && (0u64 >> 40) & 0xff == 0 && (0u64
                >> 48) & 0xff == 0 && (0u64 >> 56) & 0xff == 0) by (bit_vector);
            assert(record.encoded() =~= Seq::new(116, |i: int| 0u8));
        }
        record
    }
}

} // verus!

