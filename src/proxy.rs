use vstd::prelude::*;

verus! {

/// The program-derived address of a registry key and nonce under a program,
/// if that derivation gives an address off the curve.
pub uninterp spec fn program_address_of(seed: [u8; 32], nonce: u8, program: [u8; 32]) -> Option<
    [u8; 32],
>;

/// Relies on `Pubkey::create_program_address` with the seeds `[seed, [nonce]]`:
/// the result depends on the seeds and the program alone. Both seeds are within
/// the length limits, so the only refusal is an address on the curve.
#[verifier::external_body]
pub(crate) fn derive_proxy(seed: &[u8; 32], nonce: u8, program: &[u8; 32]) -> (r: Option<[u8; 32]>)
    ensures
        r == program_address_of(*seed, nonce, *program),
{
    let program = anchor_lang::solana_program::pubkey::Pubkey::new_from_array(*program);
    anchor_lang::solana_program::pubkey::Pubkey::create_program_address(
        &[&seed[..], &[nonce]],
        &program,
    ).ok().map(|k| k.to_bytes())
}

} // verus!
