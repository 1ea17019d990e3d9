use anchor_lang::solana_program::pubkey::Pubkey;
use anchor_lang::solana_program::secp256k1_program;
use multisig::auth::{build_message, verify_secp256k1_ix, ACTION_APPROVE, ACTION_CREATE};
use multisig::error::ErrorCodeMultiSig;
use multisig::instruction::{Instruction, TransactionAccount};
use multisig::proposal::{
    approve, count_signers, create_transaction, execute_transaction, find_owner,
    finish_execution, Transaction,
};
use multisig::registry::{
    assert_unique_owners, create_multisig, proxy_identity, update_owners, update_threshold, Auth,
    Multisig,
};

const A: [u8; 20] = [0xaa; 20];
const B: [u8; 20] = [0xbb; 20];
const C: [u8; 20] = [0xcc; 20];
const D: [u8; 20] = [0xdd; 20];
const SIG: [u8; 64] = [7; 64];
const REGISTRY_KEY: [u8; 32] = [3; 32];
const PROGRAM: [u8; 32] = [9; 32];
const TARGET: [u8; 32] = [5; 32];

fn record(program: [u8; 32], address: &[u8; 20], sig: &[u8; 64], rid: u8, msg: &[u8]) -> Instruction {
    let len = msg.len();
    let mut data = vec![1, 32, 0, 0, 12, 0, 0, 97, 0, (len % 256) as u8, (len / 256) as u8, 0];
    data.extend_from_slice(address);
    data.extend_from_slice(sig);
    data.push(rid);
    data.extend_from_slice(msg);
    Instruction { program_id: program, accounts: vec![], data }
}

fn signed(address: &[u8; 20], msg: &[u8]) -> Instruction {
    record(secp256k1_program::id().to_bytes(), address, &SIG, 0, msg)
}

fn proxy_nonce() -> ([u8; 32], u8) {
    let (pda, bump) = Pubkey::find_program_address(
        &[&REGISTRY_KEY[..]],
        &Pubkey::new_from_array(PROGRAM),
    );
    (pda.to_bytes(), bump)
}

fn registry(owners: Vec<[u8; 20]>, threshold: u64) -> Multisig {
    create_multisig(owners, threshold, proxy_nonce().1).unwrap()
}

fn propose(m: &mut Multisig, by: &[u8; 20], accs: Vec<TransactionAccount>) -> Result<Transaction, ErrorCodeMultiSig> {
    let msg = build_message(m.last_transaction_id, m.nonce, ACTION_CREATE);
    let ix = signed(by, &msg);
    create_transaction(m, &REGISTRY_KEY, TARGET, accs, vec![1, 2, 3], *by, SIG, 0, &ix)
}

fn approve_as(m: &Multisig, t: &mut Transaction, by: &[u8; 20]) -> Result<(), ErrorCodeMultiSig> {
    let msg = build_message(t.transaction_id, m.nonce, ACTION_APPROVE);
    let ix = signed(by, &msg);
    approve(m, t, *by, SIG, 0, &ix)
}

fn proxy_auth() -> Auth {
    Auth {
        multisig_key: REGISTRY_KEY,
        program_id: PROGRAM,
        multisig_signer: proxy_nonce().0,
        is_signer: true,
    }
}

#[test]
fn create_valid_registry_starts_at_generation_zero() {
    let m = create_multisig(vec![A, B, C], 2, 4).unwrap();
    assert_eq!(m.owners, vec![A, B, C]);
    assert_eq!(m.threshold, 2);
    assert_eq!(m.nonce, 4);
    assert_eq!(m.owner_set_seqno, 0);
    assert_eq!(m.last_transaction_id, 0);
    let m = create_multisig(vec![A], 1, 0).unwrap();
    assert_eq!(m.owner_set_seqno, 0);
}

#[test]
fn create_rejects_empty_owner_set() {
    assert_eq!(create_multisig(vec![], 1, 0).err(), Some(ErrorCodeMultiSig::EmptyOwnerSet));
    assert_eq!(create_multisig(vec![], 0, 0).err(), Some(ErrorCodeMultiSig::EmptyOwnerSet));
}

#[test]
fn create_rejects_duplicates_anywhere() {
    for owners in [vec![A, A, B], vec![A, B, A], vec![B, A, A], vec![C, C]] {
        assert_eq!(create_multisig(owners.clone(), 1, 0).err(), Some(ErrorCodeMultiSig::DuplicateOwner));
        assert_eq!(assert_unique_owners(&owners), Err(ErrorCodeMultiSig::DuplicateOwner));
    }
    assert_eq!(assert_unique_owners(&[A, B, C]), Ok(()));
}

#[test]
fn create_rejects_bad_threshold() {
    assert_eq!(create_multisig(vec![A, B], 0, 0).err(), Some(ErrorCodeMultiSig::InvalidThreshold));
    assert_eq!(create_multisig(vec![A, B], 3, 0).err(), Some(ErrorCodeMultiSig::InvalidThreshold));
    assert!(create_multisig(vec![A, B], 2, 0).is_ok());
}

#[test]
fn message_layout() {
    assert_eq!(build_message(0x0403_0201, 9, ACTION_CREATE), vec![1, 2, 3, 4, 9, 0]);
    assert_eq!(build_message(5, 200, ACTION_APPROVE), vec![5, 0, 0, 0, 200, 1]);
}

#[test]
fn verification_record_checks() {
    let msg = vec![1, 2, 3];
    assert_eq!(verify_secp256k1_ix(&signed(&A, &msg), &A, &msg, &SIG, 0), Ok(()));
    assert_eq!(
        verify_secp256k1_ix(&signed(&B, &msg), &A, &msg, &SIG, 0),
        Err(ErrorCodeMultiSig::SignatureMismatch)
    );
    assert_eq!(
        verify_secp256k1_ix(&signed(&A, &msg), &A, &msg, &[8; 64], 0),
        Err(ErrorCodeMultiSig::SignatureMismatch)
    );
    assert_eq!(
        verify_secp256k1_ix(&signed(&A, &msg), &A, &msg, &SIG, 1),
        Err(ErrorCodeMultiSig::SignatureMismatch)
    );
    assert_eq!(
        verify_secp256k1_ix(&signed(&A, &[1, 2, 4]), &A, &msg, &SIG, 0),
        Err(ErrorCodeMultiSig::MessageMismatch)
    );
    let other_program = record(TARGET, &A, &SIG, 0, &msg);
    assert_eq!(
        verify_secp256k1_ix(&other_program, &A, &msg, &SIG, 0),
        Err(ErrorCodeMultiSig::MissingVerificationStep)
    );
    let mut bad_header = signed(&A, &msg);
    bad_header.data[0] = 2;
    assert_eq!(
        verify_secp256k1_ix(&bad_header, &A, &msg, &SIG, 0),
        Err(ErrorCodeMultiSig::MissingVerificationStep)
    );
    let mut short = signed(&A, &msg);
    short.data.truncate(50);
    assert_eq!(
        verify_secp256k1_ix(&short, &A, &msg, &SIG, 0),
        Err(ErrorCodeMultiSig::MissingVerificationStep)
    );
}

#[test]
fn end_to_end_two_of_three() {
    let mut m = registry(vec![A, B, C], 2);
    let mut t = propose(&mut m, &A, vec![]).unwrap();
    assert_eq!(t.signers, vec![true, false, false]);
    assert_eq!(t.transaction_id, 0);
    assert_eq!(m.last_transaction_id, 1);
    approve_as(&m, &mut t, &B).unwrap();
    assert_eq!(t.signers, vec![true, true, false]);
    let call = execute_transaction(&m, &t, &proxy_nonce().0).unwrap();
    assert_eq!(call.program_id, TARGET);
    assert_eq!(call.data, vec![1, 2, 3]);
    finish_execution(&mut t, true).unwrap();
    assert!(t.did_execute);
    assert_eq!(execute_transaction(&m, &t, &proxy_nonce().0).err(), Some(ErrorCodeMultiSig::AlreadyExecuted));
    approve_as(&m, &mut t, &C).unwrap_err();
    t.signers = vec![true, true, true];
    assert_eq!(execute_transaction(&m, &t, &proxy_nonce().0).err(), Some(ErrorCodeMultiSig::AlreadyExecuted));
}

#[test]
fn approve_by_stranger_is_refused() {
    let mut m = registry(vec![A, B, C], 2);
    let mut t = propose(&mut m, &A, vec![]).unwrap();
    assert_eq!(approve_as(&m, &mut t, &D), Err(ErrorCodeMultiSig::UnknownOwner));
    assert_eq!(t.signers, vec![true, false, false]);
    assert_eq!(propose(&mut m, &D, vec![]).err(), Some(ErrorCodeMultiSig::UnknownOwner));
    assert_eq!(m.last_transaction_id, 1);
}

#[test]
fn insufficient_approvals() {
    let mut m = registry(vec![A, B, C], 3);
    let mut t = propose(&mut m, &A, vec![]).unwrap();
    approve_as(&m, &mut t, &B).unwrap();
    assert_eq!(count_signers(&t.signers), 2);
    assert_eq!(execute_transaction(&m, &t, &proxy_nonce().0).err(), Some(ErrorCodeMultiSig::InsufficientApprovals));
    assert!(!t.did_execute);
}

#[test]
fn reapproval_is_idempotent() {
    let mut m = registry(vec![A, B, C], 2);
    let mut t = propose(&mut m, &A, vec![]).unwrap();
    approve_as(&m, &mut t, &B).unwrap();
    approve_as(&m, &mut t, &B).unwrap();
    approve_as(&m, &mut t, &A).unwrap();
    assert_eq!(t.signers, vec![true, true, false]);
    assert_eq!(count_signers(&t.signers), 2);
}

#[test]
fn approval_signature_is_bound_to_its_action() {
    let mut m = registry(vec![A, B, C], 2);
    let mut t = propose(&mut m, &A, vec![]).unwrap();
    let create_msg = build_message(t.transaction_id, m.nonce, ACTION_CREATE);
    let ix = signed(&B, &create_msg);
    assert_eq!(approve(&m, &mut t, B, SIG, 0, &ix), Err(ErrorCodeMultiSig::MessageMismatch));
    assert_eq!(t.signers, vec![true, false, false]);
}

#[test]
fn owner_change_makes_old_proposals_stale() {
    let mut m = registry(vec![A, B, C], 3);
    let mut executing = propose(&mut m, &A, vec![]).unwrap();
    let mut other = propose(&mut m, &B, vec![]).unwrap();
    executing.signers = vec![true, true, true];
    execute_transaction(&m, &executing, &proxy_nonce().0).unwrap();
    update_owners(&mut m, &proxy_auth(), vec![A, B]).unwrap();
    assert_eq!(m.owner_set_seqno, 1);
    assert_eq!(m.threshold, 2);
    assert_eq!(m.owners, vec![A, B]);
    finish_execution(&mut executing, true).unwrap();
    assert!(executing.did_execute);
    assert_eq!(other.signers.len(), 3);
    assert_eq!(approve_as(&m, &mut other, &A), Err(ErrorCodeMultiSig::StaleProposal));
    other.signers = vec![true, true, true];
    assert_eq!(execute_transaction(&m, &other, &proxy_nonce().0).err(), Some(ErrorCodeMultiSig::StaleProposal));
}

#[test]
fn update_owners_validates_input() {
    let mut m = registry(vec![A, B, C], 2);
    assert_eq!(update_owners(&mut m, &proxy_auth(), vec![]), Err(ErrorCodeMultiSig::EmptyOwnerSet));
    assert_eq!(update_owners(&mut m, &proxy_auth(), vec![A, D, A]), Err(ErrorCodeMultiSig::DuplicateOwner));
    assert_eq!(m.owner_set_seqno, 0);
    update_owners(&mut m, &proxy_auth(), vec![D, C, B, A]).unwrap();
    assert_eq!(m.threshold, 2);
    assert_eq!(m.owner_set_seqno, 1);
}

#[test]
fn update_threshold_validates_and_bumps_generation() {
    let mut m = registry(vec![A, B, C], 2);
    let mut t = propose(&mut m, &A, vec![]).unwrap();
    assert_eq!(update_threshold(&mut m, &proxy_auth(), 0), Err(ErrorCodeMultiSig::InvalidThreshold));
    assert_eq!(update_threshold(&mut m, &proxy_auth(), 4), Err(ErrorCodeMultiSig::InvalidThreshold));
    update_threshold(&mut m, &proxy_auth(), 3).unwrap();
    assert_eq!(m.threshold, 3);
    assert_eq!(m.owner_set_seqno, 1);
    assert_eq!(approve_as(&m, &mut t, &B), Err(ErrorCodeMultiSig::StaleProposal));
}

#[test]
fn self_administration_needs_the_proxy() {
    let mut m = registry(vec![A, B, C], 2);
    let mut auth = proxy_auth();
    auth.is_signer = false;
    assert_eq!(update_threshold(&mut m, &auth, 1), Err(ErrorCodeMultiSig::UnauthorizedCaller));
    let mut auth = proxy_auth();
    auth.multisig_signer = REGISTRY_KEY;
    assert_eq!(update_owners(&mut m, &auth, vec![D]), Err(ErrorCodeMultiSig::UnauthorizedCaller));
    let mut auth = proxy_auth();
    auth.program_id = TARGET;
    assert_eq!(update_owners(&mut m, &auth, vec![D]), Err(ErrorCodeMultiSig::UnauthorizedCaller));
    assert_eq!(m.owners, vec![A, B, C]);
    assert_eq!(m.owner_set_seqno, 0);
}

#[test]
fn proxy_identity_is_the_derived_address() {
    let m = registry(vec![A], 1);
    let key = proxy_identity(&m, &REGISTRY_KEY, &PROGRAM).unwrap();
    assert_eq!(key, proxy_nonce().0);
    assert_ne!(key, REGISTRY_KEY);
    let on_curve = (0..=255u8)
        .find(|n| {
            Pubkey::create_program_address(&[&REGISTRY_KEY[..], &[*n]], &Pubkey::new_from_array(PROGRAM)).is_err()
        })
        .unwrap();
    let m = create_multisig(vec![A], 1, on_curve).unwrap();
    assert_eq!(proxy_identity(&m, &REGISTRY_KEY, &PROGRAM), Err(ErrorCodeMultiSig::InvalidProxyNonce));
}

#[test]
fn outbound_call_grants_the_proxy_signer_status() {
    let proxy = proxy_nonce().0;
    let accs = vec![
        TransactionAccount { pubkey: proxy, is_signer: false, is_writable: true },
        TransactionAccount { pubkey: TARGET, is_signer: false, is_writable: false },
    ];
    let mut m = registry(vec![A], 1);
    let t = propose(&mut m, &A, accs).unwrap();
    let call = execute_transaction(&m, &t, &proxy).unwrap();
    assert_eq!(
        call.accounts,
        vec![
            TransactionAccount { pubkey: proxy, is_signer: true, is_writable: true },
            TransactionAccount { pubkey: TARGET, is_signer: false, is_writable: false },
        ]
    );
    assert!(!t.did_execute);
}

#[test]
fn failed_dispatch_leaves_proposal_executable() {
    let mut m = registry(vec![A], 1);
    let mut t = propose(&mut m, &A, vec![]).unwrap();
    assert_eq!(finish_execution(&mut t, false), Err(ErrorCodeMultiSig::DispatchFailed));
    assert!(!t.did_execute);
    assert!(execute_transaction(&m, &t, &proxy_nonce().0).is_ok());
}

#[test]
fn proposal_counter_overflow() {
    let mut m = registry(vec![A], 1);
    m.last_transaction_id = u32::MAX;
    assert_eq!(propose(&mut m, &A, vec![]).err(), Some(ErrorCodeMultiSig::Overflow));
    assert_eq!(m.last_transaction_id, u32::MAX);
}

#[test]
fn find_owner_positions() {
    let owners = vec![A, B, C];
    assert_eq!(find_owner(&owners, &A), Some(0));
    assert_eq!(find_owner(&owners, &C), Some(2));
    assert_eq!(find_owner(&owners, &D), None);
}
