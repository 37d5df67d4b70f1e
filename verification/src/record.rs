//! The lottery entry record and its persisted layout:
//! `[type tag: 8][owner: 32][bump: 1][timestamp: 8, signed, little endian][receipt address: 32]`.

use crate::address::Address;
use vstd::bytes::{
    lemma_auto_spec_u64_to_from_le_bytes, spec_u64_from_le_bytes, spec_u64_to_le_bytes,
    u64_from_le_bytes, u64_to_le_bytes,
};
use vstd::prelude::*;
use vstd::slice::slice_subrange;

verus! {

/// Width of the type tag that opens every cell.
pub const DISCRIMINATOR_SIZE: usize = 8;

/// Width of a record's fields, the type tag left out.
pub const INIT_SPACE: usize = 73;

/// Width of a cell that holds a record.
pub const RECORD_SIZE: usize = 81;

/// Type tag of a live lottery entry, read as a little-endian number.
pub const RECORD_TAG: u64 = 0x07f6_0cd7_3b7d_a501;

/// Type tag that marks a cell as closed for good, read as a little-endian
/// number. No record type has this tag.
pub const TOMBSTONE: u64 = 0xffff_ffff_ffff_ffff;

/// A lottery entry.
#[derive(Clone, Copy, Debug, PartialEq, Eq)]
pub struct LotteryAccount {
    /// The account that entered, and owns the entry.
    pub user: Address,
    /// The bump seed with which the entry's address derives from its owner.
    pub bump: u8,
    /// When the entry was made.
    pub timestamp: i64,
    /// The token account that the owner redeems into.
    pub user_ata: Address,
}

/// The 64-bit word that stands for a timestamp in the layout (two's complement).
pub open spec fn timestamp_word(t: i64) -> u64 {
    if t >= 0 {
        t as u64
    } else {
        (t + 0x1_0000_0000_0000_0000) as u64
    }
}

/// The timestamp that a 64-bit word of the layout stands for.
pub open spec fn word_timestamp(w: u64) -> i64 {
    if w < 0x8000_0000_0000_0000 {
        w as i64
    } else {
        (w - 0x1_0000_0000_0000_0000) as i64
    }
}

/// A run of zero bytes.
pub open spec fn zeros(len: nat) -> Seq<u8> {
    Seq::new(len, |i: int| 0u8)
}

/// The type tag of a cell's bytes, if they are long enough to hold one.
pub open spec fn tag_of(data: Seq<u8>) -> Option<u64> {
    if data.len() >= 8 {
        Some(spec_u64_from_le_bytes(data.subrange(0, 8)))
    } else {
        None
    }
}

/// Whether a cell's bytes open with the tombstone. Nothing behind the tag
/// is looked at.
pub open spec fn is_tombstoned(data: Seq<u8>) -> bool {
    tag_of(data) == Some(TOMBSTONE)
}

/// The bytes that persist a record.
pub open spec fn record_bytes(r: LotteryAccount) -> Seq<u8> {
    spec_u64_to_le_bytes(RECORD_TAG) + r.user@ + seq![r.bump] + spec_u64_to_le_bytes(
        timestamp_word(r.timestamp),
    ) + r.user_ata@
}

/// The record that a cell's bytes persist, if they persist one.
pub open spec fn stored_record(data: Seq<u8>) -> Option<LotteryAccount> {
    if exists|r: LotteryAccount| record_bytes(r) == data {
        Some(choose|r: LotteryAccount| record_bytes(r) == data)
    } else {
        None
    }
}

/// The bytes of a cell that was closed for good: the tombstone, then zeros.
pub open spec fn tombstone_bytes() -> Seq<u8> {
    spec_u64_to_le_bytes(TOMBSTONE) + zeros(73)
}

fn word_of_timestamp(t: i64) -> (w: u64)
    ensures
        w == timestamp_word(t),
{
    if t >= 0 {
        t as u64
    } else {
        ((t - i64::MIN) as u64) + 0x8000_0000_0000_0000
    }
}

fn timestamp_of_word(w: u64) -> (t: i64)
    ensures
        t == word_timestamp(w),
{
    if w < 0x8000_0000_0000_0000 {
        w as i64
    } else {
        ((w - 0x8000_0000_0000_0000) as i64) + i64::MIN
    }
}

fn address_at(data: &Vec<u8>, offset: usize) -> (a: Address)
    requires
        offset + 32 <= data.len(),
    ensures
        a@ == data@.subrange(offset as int, offset + 32),
{
    let mut bytes: [u8; 32] = [0u8; 32];
    let mut i: usize = 0;
    while i < 32
        invariant
            i <= 32,
            offset + 32 <= data.len(),
            forall|j: int| 0 <= j < i ==> bytes@[j] == data@[offset + j],
        decreases 32 - i,
    {
        bytes[i] = data[offset + i];
        i = i + 1;
    }
    let a = Address { bytes };
    assert(a@ =~= data@.subrange(offset as int, offset + 32));
    a
}

/// A run of `len` zero bytes.
pub fn zeroed(len: usize) -> (v: Vec<u8>)
    ensures
        v@ == zeros(len as nat),
{
    let mut v: Vec<u8> = Vec::new();
    let mut i: usize = 0;
    while i < len
        invariant
            i <= len,
            v@ == zeros(i as nat),
        decreases len - i,
    {
        v.push(0u8);
        i = i + 1;
        assert(v@ =~= zeros(i as nat));
    }
    v
}

/// The bytes of a cell that was closed for good.
pub fn tombstone() -> (v: Vec<u8>)
    ensures
        v@ == tombstone_bytes(),
{
    let mut v = u64_to_le_bytes(TOMBSTONE);
    let mut rest = zeroed(INIT_SPACE);
    v.append(&mut rest);
    v
}

/// Reads the type tag that opens a cell's bytes.
pub fn read_tag(data: &Vec<u8>) -> (tag: Option<u64>)
    ensures
        tag == tag_of(data@),
{
    if data.len() < DISCRIMINATOR_SIZE {
        None
    } else {
        Some(u64_from_le_bytes(slice_subrange(data.as_slice(), 0, DISCRIMINATOR_SIZE)))
    }
}

impl LotteryAccount {
    /// The bytes that persist the record.
    pub fn encode(&self) -> (v: Vec<u8>)
        ensures
            v@ == record_bytes(*self),
    {
        let mut v = u64_to_le_bytes(RECORD_TAG);
        let mut user = self.user.to_vec();
        v.append(&mut user);
        v.push(self.bump);
        let mut stamp = u64_to_le_bytes(word_of_timestamp(self.timestamp));
        v.append(&mut stamp);
        let mut user_ata = self.user_ata.to_vec();
        v.append(&mut user_ata);
        assert(v@ =~= record_bytes(*self));
        v
    }

    /// Reads the record that the bytes persist. There is one exactly when
    /// the bytes are as long as a record's and open with the record tag.
    pub fn decode(data: &Vec<u8>) -> (r: Option<LotteryAccount>)
        ensures
            r == stored_record(data@),
            r is Some <==> data@.len() == 81 && tag_of(data@) == Some(RECORD_TAG),
    {
        if data.len() != RECORD_SIZE {
            proof {
                if stored_record(data@) is Some {
                    lemma_stored_record_bytes(data@);
                }
            }
            return None;
        }
        let tag = u64_from_le_bytes(slice_subrange(data.as_slice(), 0, 8));
        if tag != RECORD_TAG {
            proof {
                if stored_record(data@) is Some {
                    lemma_stored_record_bytes(data@);
                }
            }
            return None;
        }
        let user = address_at(data, 8);
        let bump = data[40];
        let word = u64_from_le_bytes(slice_subrange(data.as_slice(), 41, 49));
        let timestamp = timestamp_of_word(word);
        let user_ata = address_at(data, 49);
        let r = LotteryAccount { user, bump, timestamp, user_ata };
        proof {
            lemma_auto_spec_u64_to_from_le_bytes();
            lemma_timestamp_word(timestamp, word);
            let head = data@.subrange(0, 8);
            let stamp = data@.subrange(41, 49);
            assert(spec_u64_to_le_bytes(spec_u64_from_le_bytes(head)) == head);
            assert(spec_u64_to_le_bytes(spec_u64_from_le_bytes(stamp)) == stamp);
            assert(record_bytes(r) =~= data@);
            lemma_stored_record_of_bytes(r);
        }
        Some(r)
    }
}

/// Timestamps and their words correspond one to one.
pub proof fn lemma_timestamp_word(t: i64, w: u64)
    ensures
        word_timestamp(timestamp_word(t)) == t,
        timestamp_word(word_timestamp(w)) == w,
{
}

/// Where each field of a record lies in its bytes.
pub proof fn lemma_record_fields(r: LotteryAccount)
    ensures
        record_bytes(r).len() == 81,
        record_bytes(r).subrange(0, 8) == spec_u64_to_le_bytes(RECORD_TAG),
        record_bytes(r).subrange(8, 40) == r.user@,
        record_bytes(r)[40] == r.bump,
        record_bytes(r).subrange(41, 49) == spec_u64_to_le_bytes(timestamp_word(r.timestamp)),
        record_bytes(r).subrange(49, 81) == r.user_ata@,
        tag_of(record_bytes(r)) == Some(RECORD_TAG),
        !is_tombstoned(record_bytes(r)),
{
    lemma_auto_spec_u64_to_from_le_bytes();
    let b = record_bytes(r);
    assert(b.len() == 81);
    assert(b.subrange(0, 8) =~= spec_u64_to_le_bytes(RECORD_TAG));
    assert(b.subrange(8, 40) =~= r.user@);
    assert(b.subrange(41, 49) =~= spec_u64_to_le_bytes(timestamp_word(r.timestamp)));
    assert(b.subrange(49, 81) =~= r.user_ata@);
}

/// Two records with the same bytes are the same record.
pub proof fn lemma_record_bytes_injective(r1: LotteryAccount, r2: LotteryAccount)
    requires
        record_bytes(r1) == record_bytes(r2),
    ensures
        r1 == r2,
{
    lemma_auto_spec_u64_to_from_le_bytes();
    lemma_record_fields(r1);
    lemma_record_fields(r2);
    crate::address::lemma_address_by_bytes(r1.user, r2.user);
    crate::address::lemma_address_by_bytes(r1.user_ata, r2.user_ata);
    let w1 = timestamp_word(r1.timestamp);
    let w2 = timestamp_word(r2.timestamp);
    assert(spec_u64_from_le_bytes(spec_u64_to_le_bytes(w1)) == w1);
    assert(spec_u64_from_le_bytes(spec_u64_to_le_bytes(w2)) == w2);
    assert(w1 == w2);
    lemma_timestamp_word(r1.timestamp, w1);
    lemma_timestamp_word(r2.timestamp, w2);
}

/// The bytes of a record persist that record, and no other.
pub proof fn lemma_stored_record_of_bytes(r: LotteryAccount)
    ensures
        stored_record(record_bytes(r)) == Some(r),
{
    let chosen = choose|x: LotteryAccount| record_bytes(x) == record_bytes(r);
    lemma_record_bytes_injective(chosen, r);
}

/// Bytes that persist a record are the bytes of that record: they are 81
/// bytes long and carry the record tag, never the tombstone.
pub proof fn lemma_stored_record_bytes(data: Seq<u8>)
    requires
        stored_record(data) is Some,
    ensures
        record_bytes(stored_record(data)->0) == data,
        data.len() == 81,
        tag_of(data) == Some(RECORD_TAG),
        !is_tombstoned(data),
{
    lemma_record_fields(stored_record(data)->0);
}

/// A closed cell is tombstoned and persists no record.
pub proof fn lemma_tombstone_bytes()
    ensures
        tombstone_bytes().len() == 81,
        is_tombstoned(tombstone_bytes()),
        stored_record(tombstone_bytes()) is None,
        !is_tombstoned(zeros(81)),
        stored_record(zeros(81)) is None,
{
    lemma_auto_spec_u64_to_from_le_bytes();
    assert(tombstone_bytes().subrange(0, 8) =~= spec_u64_to_le_bytes(TOMBSTONE));
    if stored_record(tombstone_bytes()) is Some {
        lemma_stored_record_bytes(tombstone_bytes());
    }
    if stored_record(zeros(81)) is Some {
        lemma_stored_record_bytes(zeros(81));
    }
    lemma_zero_tag();
}

/// Eight zero bytes read as the number zero.
proof fn lemma_zero_tag()
    ensures
        tag_of(zeros(81)) == Some(0u64),
{
    lemma_auto_spec_u64_to_from_le_bytes();
    vstd::bytes::spec_u64_to_le_bytes_to_open(0u64);
    let z = vstd::bytes::spec_u64_to_le_bytes_open(0u64);
    assert(z[0] == 0 && z[1] == 0 && z[2] == 0 && z[3] == 0 && z[4] == 0 && z[5] == 0 && z[6] == 0
        && z[7] == 0) by {
        assert((0u64 & 0xff) as u8 == 0 && ((0u64 >> 8) & 0xff) as u8 == 0 && ((0u64 >> 16) & 0xff) as u8
            == 0 && ((0u64 >> 24) & 0xff) as u8 == 0 && ((0u64 >> 32) & 0xff) as u8 == 0 && ((0u64
            >> 40) & 0xff) as u8 == 0 && ((0u64 >> 48) & 0xff) as u8 == 0 && ((0u64 >> 56) & 0xff) as u8
            == 0) by (bit_vector);
    }
    assert(zeros(81).subrange(0, 8) =~= spec_u64_to_le_bytes(0u64));
}

} // verus!
