use vstd::prelude::*;

use crate::math::{le_bytes, le_value, lemma_le_value_bound, lemma_le_value_step, lemma_pow256_monotone, pow256};
use crate::zk::types::{Error, PublicInputs, AERO_NUM_PUBLIC_INPUTS, FIELD_SIZE};

verus! {

broadcast use vstd::array::group_array_axioms;

/// Length in bytes of the serialized public inputs: 8 fields of 32 bytes.
pub open spec fn public_inputs_len() -> int {
    AERO_NUM_PUBLIC_INPUTS as int * FIELD_SIZE as int
}

/// The 32 bytes of field `index` of serialized public inputs; bytes past the end read as zero.
pub open spec fn field_bytes(bytes: Seq<u8>, index: int) -> Seq<u8> {
    Seq::new(32, |i: int| if index * 32 + i < bytes.len() { bytes[index * 32 + i] } else { 0u8 })
}

/// The `u32` held little-endian in the first 4 bytes of a field.
pub open spec fn field_u32(field: Seq<u8>) -> int {
    le_value(field.subrange(0, 4)) as int
}

/// The `u64` held little-endian in the first 8 bytes of a field.
pub open spec fn field_u64(field: Seq<u8>) -> int {
    le_value(field.subrange(0, 8)) as int
}

/// `pi` is what the serialized public inputs `bytes` hold:
/// field 0 the invoice hash, 1 the loan amount, 2 the provider response hash,
/// 3 the nullifier, 4 the LTV and 5 the interest rate; fields 6 and 7 are reserved.
pub open spec fn encodes(bytes: Seq<u8>, pi: PublicInputs) -> bool {
    &&& pi.invoice_hash@ == field_bytes(bytes, 0)
    &&& pi.loan_amount == field_u64(field_bytes(bytes, 1))
    &&& pi.provider_response_hash@ == field_bytes(bytes, 2)
    &&& pi.nullifier@ == field_bytes(bytes, 3)
    &&& pi.ltv_bps == field_u32(field_bytes(bytes, 4))
    &&& pi.interest_bps == field_u32(field_bytes(bytes, 5))
}

/// The 256-byte serialization of `pi`, as the circuit lays it out: each
/// field 32 bytes, integers little-endian, the two reserved fields zero.
pub open spec fn encode_public_inputs(pi: PublicInputs) -> Seq<u8> {
    pi.invoice_hash@ + le_bytes(pi.loan_amount as nat, 32) + pi.provider_response_hash@ + pi.nullifier@
        + le_bytes(pi.ltv_bps as nat, 32) + le_bytes(pi.interest_bps as nat, 32) + Seq::new(64, |i: int| 0u8)
}

/// The public inputs that `bytes` hold.
pub open spec fn spec_public_inputs(bytes: Seq<u8>) -> PublicInputs {
    choose|pi: PublicInputs| encodes(bytes, pi)
}

/// The 32-byte array whose first `n` bytes are those of `bytes`, the rest zero.
spec fn array_prefix32(bytes: Seq<u8>, n: nat) -> [u8; 32]
    decreases n,
{
    if n == 0 {
        vstd::array::spec_array_fill_for_copy_type::<u8, 32>(0u8)
    } else {
        vstd::array::spec_array_update(array_prefix32(bytes, (n - 1) as nat), n - 1, bytes[n - 1])
    }
}

proof fn lemma_array_prefix32(bytes: Seq<u8>, n: nat)
    requires
        n <= 32,
    ensures
        forall|i: int| 0 <= i < n ==> #[trigger] array_prefix32(bytes, n)@[i] == bytes[i],
    decreases n,
{
    if n > 0 {
        lemma_array_prefix32(bytes, (n - 1) as nat);
        let prev = array_prefix32(bytes, (n - 1) as nat);
        assert(array_prefix32(bytes, n)@ == prev@.update(n - 1, bytes[n - 1]));
        assert forall|i: int| 0 <= i < n implies #[trigger] array_prefix32(bytes, n)@[i] == bytes[i] by {
            if i < n - 1 {
                assert(prev@[i] == bytes[i]);
            }
        }
    }
}

/// Every 32 bytes are the contents of some array.
proof fn lemma_array_of(bytes: Seq<u8>) -> (a: [u8; 32])
    requires
        bytes.len() == 32,
    ensures
        a@ == bytes,
{
    lemma_array_prefix32(bytes, 32);
    let a = array_prefix32(bytes, 32);
    assert(a@ =~= bytes);
    a
}

/// Any bytes hold public inputs, read field by field: [`spec_public_inputs`]
/// is the value that [`encodes`] describes (bytes past the end reading as
/// zero).
pub proof fn lemma_public_inputs_decode(bytes: Seq<u8>)
    ensures
        encodes(bytes, spec_public_inputs(bytes)),
{
    let amount = field_u64(field_bytes(bytes, 1));
    let ltv = field_u32(field_bytes(bytes, 4));
    let interest = field_u32(field_bytes(bytes, 5));
    lemma_le_value_bound(field_bytes(bytes, 1).subrange(0, 8));
    lemma_le_value_bound(field_bytes(bytes, 4).subrange(0, 4));
    lemma_le_value_bound(field_bytes(bytes, 5).subrange(0, 4));
    reveal_with_fuel(pow256, 9);
    let pi = PublicInputs {
        nullifier: lemma_array_of(field_bytes(bytes, 3)),
        invoice_hash: lemma_array_of(field_bytes(bytes, 0)),
        loan_amount: amount as i128,
        ltv_bps: ltv as u32,
        interest_bps: interest as u32,
        provider_response_hash: lemma_array_of(field_bytes(bytes, 2)),
    };
    assert(encodes(bytes, pi));
}

/// Serialized public inputs hold exactly one value.
pub proof fn lemma_encodes_unique(bytes: Seq<u8>, p1: PublicInputs, p2: PublicInputs)
    requires
        encodes(bytes, p1),
        encodes(bytes, p2),
    ensures
        p1 == p2,
{
    assert(p1.invoice_hash =~= p2.invoice_hash);
    assert(p1.provider_response_hash =~= p2.provider_response_hash);
    assert(p1.nullifier =~= p2.nullifier);
}

/// The loan amount held in serialized public inputs is below 2^64.
pub proof fn lemma_encoded_amount_bound(bytes: Seq<u8>, pi: PublicInputs)
    requires
        encodes(bytes, pi),
    ensures
        0 <= pi.loan_amount < 0x1_0000_0000_0000_0000,
{
    lemma_le_value_bound(field_bytes(bytes, 1).subrange(0, 8));
    reveal_with_fuel(pow256, 9);
}

/// What [`extract_public_inputs`] returns for `bytes`.
pub open spec fn spec_extract_public_inputs(bytes: Seq<u8>) -> Result<PublicInputs, Error> {
    if bytes.len() != public_inputs_len() {
        Err(Error::InvalidProofFormat)
    } else {
        Ok(spec_public_inputs(bytes))
    }
}

/// Public inputs whose amount, LTV and interest rate are in range.
pub open spec fn public_inputs_valid(inputs: PublicInputs) -> bool {
    &&& inputs.loan_amount > 0
    &&& 1 <= inputs.ltv_bps <= 10000
    &&& 1 <= inputs.interest_bps <= 10000
}

/// What [`validate_public_inputs`] returns for `inputs`.
pub open spec fn spec_validate_public_inputs(inputs: PublicInputs) -> Result<(), Error> {
    if public_inputs_valid(inputs) {
        Ok(())
    } else {
        Err(Error::PublicInputMismatch)
    }
}

/// Extracts public inputs from a verified Noir proof's public output bytes.
///
/// Noir encodes public inputs as a flat sequence of BN254 scalar field elements
/// (each 32 bytes, little-endian). The Aero circuit produces 8 public fields:
///
/// | Index | Field                  | Type      |
/// |-------|------------------------|-----------|
/// | 0     | invoice_hash           | Field     |
/// | 1     | loan_amount            | u64       |
/// | 2     | provider_response_hash | Field     |
/// | 3     | nullifier              | Field     |
/// | 4     | ltv_bps                | u32       |
/// | 5     | interest_bps           | u32       |
/// | 6     | reserved               | Field     |
/// | 7     | reserved               | Field     |
///
/// Returns `InvalidProofFormat` unless exactly 256 bytes are given.
pub fn extract_public_inputs(public_inputs_bytes: &[u8]) -> (r: Result<PublicInputs, Error>)
    ensures
        r == spec_extract_public_inputs(public_inputs_bytes@),
        r matches Ok(pi) ==> encodes(public_inputs_bytes@, pi),
{
    let expected_len = AERO_NUM_PUBLIC_INPUTS * FIELD_SIZE;

    if public_inputs_bytes.len() != expected_len as usize {
        return Err(Error::InvalidProofFormat);
    }
    // Parse each field as 32-byte little-endian value
    let invoice_hash = read_field(public_inputs_bytes, 0);
    let loan_amount_raw = read_field(public_inputs_bytes, 1);
    let provider_response_hash = read_field(public_inputs_bytes, 2);
    let nullifier = read_field(public_inputs_bytes, 3);
    let ltv_bps_raw = read_field(public_inputs_bytes, 4);
    let interest_bps_raw = read_field(public_inputs_bytes, 5);
    // Fields 6 and 7 are reserved, skipped

    let loan_amount = extract_u64_from_field(&loan_amount_raw);
    let ltv_bps = extract_u32_from_field(&ltv_bps_raw);
    let interest_bps = extract_u32_from_field(&interest_bps_raw);

    let pi = PublicInputs {
        nullifier,
        invoice_hash,
        loan_amount,
        ltv_bps,
        interest_bps,
        provider_response_hash,
    };
    proof {
        assert(encodes(public_inputs_bytes@, pi));
        lemma_encodes_unique(public_inputs_bytes@, pi, spec_public_inputs(public_inputs_bytes@));
    }
    Ok(pi)
}

/// Reads the 32-byte field `index` from serialized public inputs; bytes past the end read as zero.
pub fn read_field(bytes: &[u8], index: u32) -> (r: [u8; 32])
    requires
        index * 32 + 31 <= u32::MAX,
    ensures
        r@ == field_bytes(bytes@, index as int),
{
    let start = index * FIELD_SIZE;
    let mut arr = [0u8; 32];
    let mut i: u32 = 0;
    while i < 32
        invariant
            i <= 32,
            start == index * 32,
            start + 31 <= u32::MAX,
            forall|j: int| 0 <= j < i ==> arr[j] == field_bytes(bytes@, index as int)[j],
        decreases 32 - i,
    {
        let pos = start + i;
        arr[i as usize] = if (pos as usize) < bytes.len() {
            bytes[pos as usize]
        } else {
            0
        };
        i = i + 1;
    }
    assert(arr@ =~= field_bytes(bytes@, index as int));
    arr
}

/// Extracts a u32 from the first 4 bytes of a 32-byte field (little-endian).
pub fn extract_u32_from_field(field: &[u8; 32]) -> (r: u32)
    ensures
        r == field_u32(field@),
{
    let mut result: u32 = 0;
    let mut i: usize = 4;
    while i > 0
        invariant
            i <= 4,
            result == le_value(field@.subrange(i as int, 4)),
        decreases i,
    {
        i = i - 1;
        proof {
            lemma_le_value_bound(field@.subrange(i + 1, 4));
            lemma_pow256_monotone((3 - i) as nat, 3);
            reveal_with_fuel(pow256, 4);
            lemma_le_value_step(field@, i as int, 4);
        }
        result = result * 256 + field[i] as u32;
    }
    result
}

/// Extracts a u64 from the first 8 bytes of a 32-byte field (little-endian)
/// as an `i128`. Only those 8 bytes are read, so the upper bytes of the field
/// cannot inflate the value.
pub fn extract_u64_from_field(field: &[u8; 32]) -> (r: i128)
    ensures
        r == field_u64(field@),
        0 <= r < 0x1_0000_0000_0000_0000,
{
    let mut result: u64 = 0;
    let mut i: usize = 8;
    while i > 0
        invariant
            i <= 8,
            result == le_value(field@.subrange(i as int, 8)),
        decreases i,
    {
        i = i - 1;
        proof {
            lemma_le_value_bound(field@.subrange(i + 1, 8));
            lemma_pow256_monotone((7 - i) as nat, 7);
            reveal_with_fuel(pow256, 8);
            lemma_le_value_step(field@, i as int, 8);
        }
        result = result * 256 + field[i] as u64;
    }
    result as i128
}

/// Validates that the extracted public inputs are internally consistent:
/// a positive loan amount, and an LTV and interest rate between 1 and 10000
/// basis points.
pub fn validate_public_inputs(inputs: &PublicInputs) -> (r: Result<(), Error>)
    ensures
        r == spec_validate_public_inputs(*inputs),
{
    if inputs.loan_amount <= 0 {
        return Err(Error::PublicInputMismatch);
    }
    if inputs.ltv_bps == 0 || inputs.ltv_bps > 10000 {
        return Err(Error::PublicInputMismatch);
    }
    if inputs.interest_bps == 0 || inputs.interest_bps > 10000 {
        return Err(Error::PublicInputMismatch);
    }
    Ok(())
}

} // verus!
