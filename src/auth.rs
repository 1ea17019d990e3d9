use vstd::prelude::*;
use crate::bytes::{array_eq, bytes_eq};
use crate::error::ErrorCodeMultiSig;
use crate::instruction::{Instruction, InstructionModel};
use crate::registry::{Address, Key};

verus! {

/// Action byte of a signature that creates a proposal.
pub const ACTION_CREATE: u8 = 0;

/// Action byte of a signature that approves a proposal.
pub const ACTION_APPROVE: u8 = 1;

/// Offset of the address in a verification record.
pub const ADDRESS_OFFSET: usize = 12;

/// Offset of the signature in a verification record.
pub const SIGNATURE_OFFSET: usize = 32;

/// Offset of the recovery id in a verification record.
pub const RECOVERY_ID_OFFSET: usize = 96;

/// Offset of the message in a verification record.
pub const MESSAGE_OFFSET: usize = 97;

/// The key is that of the secp256k1 verification program.
pub uninterp spec fn is_secp256k1_program(key: Key) -> bool;

/// Relies on `secp256k1_program::check_id`: whether a key is the secp256k1
/// verification program's.
#[verifier::external_body]
pub(crate) fn check_secp256k1_program(key: &Key) -> (r: bool)
    ensures
        r == is_secp256k1_program(*key),
{
    anchor_lang::solana_program::secp256k1_program::check_id(
        &anchor_lang::solana_program::pubkey::Pubkey::new_from_array(*key),
    )
}

/// Little-endian bytes of a 32-bit integer.
pub open spec fn le_bytes_u32(x: u32) -> Seq<u8> {
    seq![
        (x % 256) as u8,
        (x / 256 % 256) as u8,
        (x / 65536 % 256) as u8,
        (x / 16777216 % 256) as u8,
    ]
}

/// The message that an owner signs for an action on a proposal.
pub open spec fn auth_message(id: u32, nonce: u8, action: u8) -> Seq<u8> {
    le_bytes_u32(id) + seq![nonce, action]
}

/// The header of a record that verified one signature, all of whose parts
/// lie in the record itself.
pub open spec fn header_ok(data: Seq<u8>) -> bool {
    &&& data.len() >= MESSAGE_OFFSET
    &&& data[0] == 1
    &&& data[1] == SIGNATURE_OFFSET as u8 && data[2] == 0
    &&& data[3] == 0
    &&& data[4] == ADDRESS_OFFSET as u8 && data[5] == 0
    &&& data[6] == 0
    &&& data[7] == MESSAGE_OFFSET as u8 && data[8] == 0
    &&& data[9] + 256 * data[10] == data.len() - MESSAGE_OFFSET
    &&& data[11] == 0
}

/// The address, signature, recovery id and message of a verification record.
pub open spec fn record_of(data: Seq<u8>) -> Option<(Seq<u8>, Seq<u8>, u8, Seq<u8>)> {
    if header_ok(data) {
        Some(
            (
                data.subrange(ADDRESS_OFFSET as int, SIGNATURE_OFFSET as int),
                data.subrange(SIGNATURE_OFFSET as int, RECOVERY_ID_OFFSET as int),
                data[RECOVERY_ID_OFFSET as int],
                data.subrange(MESSAGE_OFFSET as int, data.len() as int),
            ),
        )
    } else {
        None
    }
}

/// What checking a verification record against a claim gives.
pub open spec fn verify_result(
    ix: InstructionModel,
    eth_address: Address,
    msg: Seq<u8>,
    sig: [u8; 64],
    recovery_id: u8,
) -> Result<(), ErrorCodeMultiSig> {
    if !is_secp256k1_program(ix.program_id) || ix.accounts.len() != 0 || record_of(ix.data) is None {
        Err(ErrorCodeMultiSig::MissingVerificationStep)
    } else {
        let (a, s, r, m) = record_of(ix.data)->Some_0;
        if a != eth_address@ || s != sig@ || r != recovery_id {
            Err(ErrorCodeMultiSig::SignatureMismatch)
        } else if m != msg {
            Err(ErrorCodeMultiSig::MessageMismatch)
        } else {
            Ok(())
        }
    }
}

/// Builds the message that an owner signs for an action on a proposal.
pub fn build_message(id: u32, nonce: u8, action: u8) -> (r: Vec<u8>)
    ensures
        r@ == auth_message(id, nonce, action),
{
    let mut v: Vec<u8> = Vec::new();
    v.push((id % 256) as u8);
    v.push((id / 256 % 256) as u8);
    v.push((id / 65536 % 256) as u8);
    v.push((id / 16777216 % 256) as u8);
    v.push(nonce);
    v.push(action);
    assert(v@ =~= auth_message(id, nonce, action));
    v
}

fn header_matches(data: &Vec<u8>) -> (r: bool)
    ensures
        r == header_ok(data@),
{
    if data.len() < MESSAGE_OFFSET {
        return false;
    }
    data[0] == 1 && data[1] == SIGNATURE_OFFSET as u8 && data[2] == 0 && data[3] == 0
        && data[4] == ADDRESS_OFFSET as u8 && data[5] == 0 && data[6] == 0 && data[7]
        == MESSAGE_OFFSET as u8 && data[8] == 0 && data[9] as usize + 256 * (data[10] as usize)
        == data.len() - MESSAGE_OFFSET && data[11] == 0
}

/// Checks that the verification record at the head of the bundle speaks for
/// `eth_address`, with `sig` and `recovery_id`, over exactly `msg`.
pub fn verify_secp256k1_ix(
    ix: &Instruction,
    eth_address: &Address,
    msg: &Vec<u8>,
    sig: &[u8; 64],
    recovery_id: u8,
) -> (r: Result<(), ErrorCodeMultiSig>)
    ensures
        r == verify_result(ix@, *eth_address, msg@, *sig, recovery_id),
{
    if !check_secp256k1_program(&ix.program_id) || ix.accounts.len() != 0 || !header_matches(
        &ix.data,
    ) {
        return Err(ErrorCodeMultiSig::MissingVerificationStep);
    }
    let data = &ix.data;
    let ghost rec = record_of(data@)->Some_0;
    let a = bytes_eq(&data.as_slice()[ADDRESS_OFFSET..SIGNATURE_OFFSET], eth_address.as_slice());
    let s = bytes_eq(&data.as_slice()[SIGNATURE_OFFSET..RECOVERY_ID_OFFSET], sig.as_slice());
    if !a || !s || data[RECOVERY_ID_OFFSET] != recovery_id {
        return Err(ErrorCodeMultiSig::SignatureMismatch);
    }
    if !bytes_eq(&data.as_slice()[MESSAGE_OFFSET..data.len()], msg.as_slice()) {
        return Err(ErrorCodeMultiSig::MessageMismatch);
    }
    Ok(())
}

} // verus!
