//! The bytes that a vault's record is kept as: a tag of eight bytes, then the
//! fields one after the other, 98 bytes in all. Numbers are little-endian,
//! timestamps in two's complement, and a flag is one byte, 0 or 1.

use vstd::prelude::*;
use vstd::bytes::{
    lemma_auto_spec_u64_to_from_le_bytes, spec_u64_from_le_bytes, spec_u64_to_le_bytes,
    u64_from_le_bytes, u64_to_le_bytes,
};
use vstd::slice::slice_subrange;
use crate::address::Address;
use crate::vault::Vault;

verus! {

/// The eight bytes that every vault's record begins with. They tell it from
/// records of other kinds.
pub const RECORD_TAG: [u8; 8] = [211, 8, 232, 43, 2, 152, 117, 119];

/// The length of a vault's record: the tag and 90 bytes of fields.
pub const RECORD_BYTES: usize = 98;

/// The byte that a flag is kept as.
pub open spec fn flag_byte(flag: bool) -> u8 {
    if flag {
        1
    } else {
        0
    }
}

/// The eight bytes that a timestamp is kept as.
pub open spec fn timestamp_bytes(time: i64) -> Seq<u8> {
    spec_u64_to_le_bytes(time as u64)
}

/// The bytes that `vault` is kept as.
pub open spec fn encoded(vault: Vault) -> Seq<u8> {
    RECORD_TAG@ + vault.owner@ + spec_u64_to_le_bytes(vault.amount) + vault.backup_adr@
        + timestamp_bytes(vault.unlock_time) + seq![flag_byte(vault.recovery_enabled)]
        + timestamp_bytes(vault.recovery_req_time) + seq![vault.bump]
}

/// Where each field lies in a record.
pub proof fn lemma_record_layout(vault: Vault)
    ensures
        encoded(vault).len() == RECORD_BYTES,
        encoded(vault).subrange(0, 8) == RECORD_TAG@,
        encoded(vault).subrange(8, 40) == vault.owner@,
        encoded(vault).subrange(40, 48) == spec_u64_to_le_bytes(vault.amount),
        encoded(vault).subrange(48, 80) == vault.backup_adr@,
        encoded(vault).subrange(80, 88) == timestamp_bytes(vault.unlock_time),
        encoded(vault)[88] == flag_byte(vault.recovery_enabled),
        encoded(vault).subrange(89, 97) == timestamp_bytes(vault.recovery_req_time),
        encoded(vault)[97] == vault.bump,
{
    lemma_auto_spec_u64_to_from_le_bytes();
}

/// A timestamp is told by its bytes.
proof fn lemma_timestamp_bytes_differ(a: i64, b: i64)
    requires
        timestamp_bytes(a) == timestamp_bytes(b),
    ensures
        a == b,
{
    lemma_auto_spec_u64_to_from_le_bytes();
    assert(a as u64 == b as u64 ==> a == b) by (bit_vector);
}

/// No two vaults are kept as the same bytes: a record says which vault it
/// holds.
pub proof fn lemma_records_differ(a: Vault, b: Vault)
    requires
        encoded(a) == encoded(b),
    ensures
        a == b,
{
    lemma_record_layout(a);
    lemma_record_layout(b);
    lemma_auto_spec_u64_to_from_le_bytes();
    Address::lemma_equal_by_bytes(a.owner, b.owner);
    Address::lemma_equal_by_bytes(a.backup_adr, b.backup_adr);
    lemma_timestamp_bytes_differ(a.unlock_time, b.unlock_time);
    lemma_timestamp_bytes_differ(a.recovery_req_time, b.recovery_req_time);
}

/// Appends `bytes` to `out`.
fn append(out: &mut Vec<u8>, bytes: &[u8])
    ensures
        final(out)@ == old(out)@ + bytes@,
{
    let mut i: usize = 0;
    while i < bytes.len()
        invariant
            i <= bytes@.len(),
            out@ == old(out)@ + bytes@.subrange(0, i as int),
        decreases bytes@.len() - i,
    {
        out.push(bytes[i]);
        i += 1;
    }
}

/// Encodes a timestamp.
fn timestamp_to_bytes(time: i64) -> (bytes: Vec<u8>)
    ensures
        bytes@ == timestamp_bytes(time),
{
    u64_to_le_bytes(#[verifier::truncate] (time as u64))
}

/// Decodes a timestamp.
fn timestamp_from_bytes(bytes: &[u8]) -> (time: i64)
    requires
        bytes@.len() == 8,
    ensures
        timestamp_bytes(time) == bytes@,
{
    let raw = u64_from_le_bytes(bytes);
    let time = #[verifier::truncate] (raw as i64);
    proof {
        lemma_auto_spec_u64_to_from_le_bytes();
        assert((raw as i64) as u64 == raw) by (bit_vector);
    }
    time
}

/// Reads the address that lies in the 32 bytes of `bytes` from `start` on.
fn address_at(bytes: &[u8], start: usize) -> (address: Address)
    requires
        start + 32 <= bytes@.len(),
    ensures
        address@ == bytes@.subrange(start as int, start + 32),
{
    let len = bytes.len();
    let mut found = [0u8; 32];
    let mut i: usize = 0;
    while i < 32
        invariant
            i <= 32,
            start + 32 <= len == bytes@.len(),
            forall|j: int| 0 <= j < i ==> found[j] == bytes@[start + j],
        decreases 32 - i,
    {
        found[i] = bytes[start + i];
        i += 1;
    }
    Address::new(found)
}

/// Encodes `vault` as the bytes of its record.
pub fn encode(vault: &Vault) -> (bytes: Vec<u8>)
    ensures
        bytes@ == encoded(*vault),
        bytes@.len() == RECORD_BYTES,
{
    let mut bytes: Vec<u8> = Vec::new();
    append(&mut bytes, RECORD_TAG.as_slice());
    append(&mut bytes, vault.owner.bytes.as_slice());
    append(&mut bytes, u64_to_le_bytes(vault.amount).as_slice());
    append(&mut bytes, vault.backup_adr.bytes.as_slice());
    append(&mut bytes, timestamp_to_bytes(vault.unlock_time).as_slice());
    bytes.push(if vault.recovery_enabled { 1 } else { 0 });
    append(&mut bytes, timestamp_to_bytes(vault.recovery_req_time).as_slice());
    bytes.push(vault.bump);
    proof {
        lemma_record_layout(*vault);
    }
    bytes
}

/// Decodes the bytes of a record: gives the vault that is kept as `bytes`, or
/// `None` where no vault is. Bytes are a record exactly when there are
/// `RECORD_BYTES` of them, they begin with `RECORD_TAG`, and the byte of the
/// flag is 0 or 1. What `encode` wrote, `decode` reads back.
pub fn decode(bytes: &[u8]) -> (vault: Option<Vault>)
    ensures
        match vault {
            Some(vault) => encoded(vault) == bytes@,
            None => forall|vault: Vault| encoded(vault) != bytes@,
        },
        forall|kept: Vault| encoded(kept) == bytes@ ==> vault == Some(kept),
        vault is Some <==> bytes@.len() == RECORD_BYTES && bytes@.subrange(0, 8) == RECORD_TAG@
            && bytes@[88] <= 1,
{
    if bytes.len() != RECORD_BYTES {
        proof {
            assert forall|vault: Vault| encoded(vault) != bytes@ by {
                lemma_record_layout(vault);
            }
        }
        return None;
    }
    let mut i: usize = 0;
    while i < 8
        invariant
            i <= 8,
            bytes@.len() == RECORD_BYTES,
            forall|j: int| 0 <= j < i ==> bytes@[j] == RECORD_TAG@[j],
        decreases 8 - i,
    {
        if bytes[i] != RECORD_TAG[i] {
            proof {
                assert forall|vault: Vault| encoded(vault) != bytes@ by {
                    lemma_record_layout(vault);
                }
            }
            return None;
        }
        i += 1;
    }
    let flag = bytes[88];
    if flag > 1 {
        proof {
            assert forall|vault: Vault| encoded(vault) != bytes@ by {
                lemma_record_layout(vault);
            }
        }
        return None;
    }
    let vault = Vault {
        owner: address_at(bytes, 8),
        amount: u64_from_le_bytes(slice_subrange(bytes, 40, 48)),
        backup_adr: address_at(bytes, 48),
        unlock_time: timestamp_from_bytes(slice_subrange(bytes, 80, 88)),
        recovery_enabled: flag == 1,
        recovery_req_time: timestamp_from_bytes(slice_subrange(bytes, 89, 97)),
        bump: bytes[97],
    };
    proof {
        lemma_auto_spec_u64_to_from_le_bytes();
        assert(bytes@.subrange(0, 8) =~= RECORD_TAG@);
        assert(encoded(vault) =~= bytes@);
        assert forall|kept: Vault| encoded(kept) == bytes@ implies vault == kept by {
            lemma_records_differ(kept, vault);
        }
    }
    Some(vault)
}

} // verus!
