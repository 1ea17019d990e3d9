use vstd::prelude::*;
use crate::auth::{auth_message, build_message, verify_result, verify_secp256k1_ix, ACTION_APPROVE, ACTION_CREATE};
use crate::bytes::array_eq;
use crate::error::ErrorCodeMultiSig;
use crate::instruction::{Instruction, InstructionModel, TransactionAccount};
use crate::registry::{Address, Key, Multisig, MultisigModel};

verus! {

/// A proposed call, bound to one generation of its registry.
pub struct Transaction {
    /// Key of the registry the proposal belongs to.
    pub multisig: Key,
    /// Program that the call targets.
    pub program_id: Key,
    /// Accounts that the call touches.
    pub accounts: Vec<TransactionAccount>,
    /// Payload of the call.
    pub data: Vec<u8>,
    /// `signers[i]` holds iff the owner at position `i` approved.
    pub signers: Vec<bool>,
    /// Set once the call has been dispatched successfully.
    pub did_execute: bool,
    /// Generation of the registry when the proposal was made.
    pub owner_set_seqno: u32,
    /// Identity of the proposal, part of every message signed for it.
    pub transaction_id: u32,
}

/// A proposal as values.
pub ghost struct TransactionModel {
    pub multisig: Key,
    pub program_id: Key,
    pub accounts: Seq<TransactionAccount>,
    pub data: Seq<u8>,
    pub signers: Seq<bool>,
    pub did_execute: bool,
    pub generation: u32,
    pub id: u32,
}

impl View for Transaction {
    type V = TransactionModel;

    open spec fn view(&self) -> TransactionModel {
        TransactionModel {
            multisig: self.multisig,
            program_id: self.program_id,
            accounts: self.accounts@,
            data: self.data@,
            signers: self.signers@,
            did_execute: self.did_execute,
            generation: self.owner_set_seqno,
            id: self.transaction_id,
        }
    }
}

/// Number of set flags.
pub open spec fn count_true(s: Seq<bool>) -> nat
    decreases s.len(),
{
    if s.len() == 0 {
        0
    } else {
        count_true(s.drop_last()) + if s.last() {
            1nat
        } else {
            0nat
        }
    }
}

/// The approval bitmap in which exactly the positions of `owner` are set.
pub open spec fn initial_signers(owners: Seq<Address>, owner: Address) -> Seq<bool> {
    Seq::new(owners.len(), |j: int| owners[j] == owner)
}

/// The approval bitmap with the positions of `owner` set as well.
pub open spec fn signers_with(signers: Seq<bool>, owners: Seq<Address>, owner: Address) -> Seq<
    bool,
> {
    Seq::new(signers.len(), |j: int| signers[j] || owners[j] == owner)
}

/// What proposing a call gives: the registry after it and the new proposal.
pub open spec fn create_transaction_result(
    m: MultisigModel,
    multisig_key: Key,
    pid: Key,
    accs: Seq<TransactionAccount>,
    data: Seq<u8>,
    eth_address: Address,
    sig: [u8; 64],
    recovery_id: u8,
    ix: InstructionModel,
) -> Result<(MultisigModel, TransactionModel), ErrorCodeMultiSig> {
    let msg = auth_message(m.next_id, m.nonce, ACTION_CREATE);
    if verify_result(ix, eth_address, msg, sig, recovery_id) is Err {
        Err(verify_result(ix, eth_address, msg, sig, recovery_id)->Err_0)
    } else if !m.owners.contains(eth_address) {
        Err(ErrorCodeMultiSig::UnknownOwner)
    } else if m.next_id == u32::MAX {
        Err(ErrorCodeMultiSig::Overflow)
    } else {
        Ok(
            (
                MultisigModel { next_id: (m.next_id + 1) as u32, ..m },
                TransactionModel {
                    multisig: multisig_key,
                    program_id: pid,
                    accounts: accs,
                    data,
                    signers: initial_signers(m.owners, eth_address),
                    did_execute: false,
                    generation: m.generation,
                    id: m.next_id,
                },
            ),
        )
    }
}

/// What an approval does to a proposal.
pub open spec fn approve_result(
    m: MultisigModel,
    t: TransactionModel,
    eth_address: Address,
    sig: [u8; 64],
    recovery_id: u8,
    ix: InstructionModel,
) -> Result<TransactionModel, ErrorCodeMultiSig> {
    let msg = auth_message(t.id, m.nonce, ACTION_APPROVE);
    if t.generation != m.generation || t.signers.len() != m.owners.len() {
        Err(ErrorCodeMultiSig::StaleProposal)
    } else if t.did_execute {
        Err(ErrorCodeMultiSig::AlreadyExecuted)
    } else if verify_result(ix, eth_address, msg, sig, recovery_id) is Err {
        Err(verify_result(ix, eth_address, msg, sig, recovery_id)->Err_0)
    } else if !m.owners.contains(eth_address) {
        Err(ErrorCodeMultiSig::UnknownOwner)
    } else {
        Ok(TransactionModel { signers: signers_with(t.signers, m.owners, eth_address), ..t })
    }
}

/// Whether a proposal may be executed now, and if not, why.
pub open spec fn execute_check(m: MultisigModel, t: TransactionModel) -> Result<
    (),
    ErrorCodeMultiSig,
> {
    if t.did_execute {
        Err(ErrorCodeMultiSig::AlreadyExecuted)
    } else if t.generation != m.generation {
        Err(ErrorCodeMultiSig::StaleProposal)
    } else if count_true(t.signers) < m.threshold {
        Err(ErrorCodeMultiSig::InsufficientApprovals)
    } else {
        Ok(())
    }
}

/// The accounts of the outbound call: those of the proxy identity sign.
pub open spec fn outbound_accounts(accs: Seq<TransactionAccount>, proxy: Key) -> Seq<
    TransactionAccount,
> {
    Seq::new(
        accs.len(),
        |i: int|
            if accs[i].pubkey == proxy {
                TransactionAccount { is_signer: true, ..accs[i] }
            } else {
                accs[i]
            },
    )
}

/// The outbound call of a proposal, made under the proxy identity.
pub open spec fn outbound_call(t: TransactionModel, proxy: Key) -> InstructionModel {
    InstructionModel {
        program_id: t.program_id,
        accounts: outbound_accounts(t.accounts, proxy),
        data: t.data,
    }
}

/// Position of `owner` among `owners`, if it is one of them.
pub fn find_owner(owners: &Vec<Address>, owner: &Address) -> (r: Option<usize>)
    ensures
        match r {
            Some(i) => i < owners@.len() && owners@[i as int] == *owner,
            None => !owners@.contains(*owner),
        },
{
    let mut i: usize = 0;
    while i < owners.len()
        invariant
            i <= owners@.len(),
            forall|k: int| 0 <= k < i ==> owners@[k] != *owner,
        decreases owners@.len() - i,
    {
        if array_eq(&owners[i], owner) {
            return Some(i);
        }
        i = i + 1;
    }
    None
}

/// Counts the approvals of a proposal.
pub fn count_signers(signers: &Vec<bool>) -> (r: usize)
    ensures
        r == count_true(signers@),
{
    let mut count: usize = 0;
    let mut i: usize = 0;
    while i < signers.len()
        invariant
            i <= signers@.len(),
            count == count_true(signers@.subrange(0, i as int)),
            count <= i,
        decreases signers@.len() - i,
    {
        assert(signers@.subrange(0, i + 1).drop_last() =~= signers@.subrange(0, i as int));
        if signers[i] {
            count = count + 1;
        }
        i = i + 1;
    }
    assert(signers@.subrange(0, i as int) =~= signers@);
    count
}

/// Proposes a call. The proposer, who must be an owner and must have signed
/// the proposal message in the verification record `ix`, approves it at once.
pub fn create_transaction(
    multisig: &mut Multisig,
    multisig_key: &Key,
    pid: Key,
    accs: Vec<TransactionAccount>,
    data: Vec<u8>,
    eth_address: Address,
    sig: [u8; 64],
    recovery_id: u8,
    ix: &Instruction,
) -> (r: Result<Transaction, ErrorCodeMultiSig>)
    ensures
        match r {
            Ok(t) => create_transaction_result(
                old(multisig)@,
                *multisig_key,
                pid,
                accs@,
                data@,
                eth_address,
                sig,
                recovery_id,
                ix@,
            ) == Ok::<_, ErrorCodeMultiSig>((final(multisig)@, t@)),
            Err(e) => create_transaction_result(
                old(multisig)@,
                *multisig_key,
                pid,
                accs@,
                data@,
                eth_address,
                sig,
                recovery_id,
                ix@,
            ) == Err::<(MultisigModel, TransactionModel), _>(e) && final(multisig)@ == old(
                multisig,
            )@,
        },
{
    let msg = build_message(multisig.last_transaction_id, multisig.nonce, ACTION_CREATE);
    verify_secp256k1_ix(ix, &eth_address, &msg, &sig, recovery_id)?;
    let owner_index = match find_owner(&multisig.owners, &eth_address) {
        Some(i) => i,
        None => return Err(ErrorCodeMultiSig::UnknownOwner),
    };
    if multisig.last_transaction_id == u32::MAX {
        return Err(ErrorCodeMultiSig::Overflow);
    }
    let n = multisig.owners.len();
    let mut signers: Vec<bool> = Vec::new();
    let mut j: usize = 0;
    while j < n
        invariant
            n == multisig.owners@.len(),
            j <= n,
            signers@ =~= initial_signers(multisig.owners@, eth_address).subrange(0, j as int),
        decreases n - j,
    {
        let here = array_eq(&multisig.owners[j], &eth_address);
        signers.push(here);
        j = j + 1;
    }
    assert(signers@ =~= initial_signers(multisig.owners@, eth_address));
    assert(multisig.owners@.contains(eth_address)) by {
        assert(multisig.owners@[owner_index as int] == eth_address);
    }
    let transaction = Transaction {
        multisig: *multisig_key,
        program_id: pid,
        accounts: accs,
        data,
        signers,
        did_execute: false,
        owner_set_seqno: multisig.owner_set_seqno,
        transaction_id: multisig.last_transaction_id,
    };
    multisig.last_transaction_id = multisig.last_transaction_id + 1;
    Ok(transaction)
}

/// Records the approval of an owner, who must have signed the approval
/// message of the proposal in the verification record `ix`. Approving twice
/// changes nothing.
pub fn approve(
    multisig: &Multisig,
    transaction: &mut Transaction,
    eth_address: Address,
    sig: [u8; 64],
    recovery_id: u8,
    ix: &Instruction,
) -> (r: Result<(), ErrorCodeMultiSig>)
    requires
        multisig.wf(),
    ensures
        match approve_result(multisig@, old(transaction)@, eth_address, sig, recovery_id, ix@) {
            Ok(t) => r is Ok && final(transaction)@ == t,
            Err(e) => r == Err::<(), _>(e) && final(transaction)@ == old(transaction)@,
        },
{
    if transaction.owner_set_seqno != multisig.owner_set_seqno || transaction.signers.len()
        != multisig.owners.len() {
        return Err(ErrorCodeMultiSig::StaleProposal);
    }
    if transaction.did_execute {
        return Err(ErrorCodeMultiSig::AlreadyExecuted);
    }
    let msg = build_message(transaction.transaction_id, multisig.nonce, ACTION_APPROVE);
    verify_secp256k1_ix(ix, &eth_address, &msg, &sig, recovery_id)?;
    let owner_index = match find_owner(&multisig.owners, &eth_address) {
        Some(i) => i,
        None => return Err(ErrorCodeMultiSig::UnknownOwner),
    };
    assert(multisig.owners@.contains(eth_address)) by {
        assert(multisig.owners@[owner_index as int] == eth_address);
    }
    transaction.signers.set(owner_index, true);
    assert(transaction.signers@ =~= signers_with(
        old(transaction).signers@,
        multisig.owners@,
        eth_address,
    ));
    Ok(())
}

/// Decides whether a proposal may be executed and builds its outbound call,
/// in which the accounts of `multisig_signer`, the registry's proxy identity,
/// sign. Nothing changes here: the caller dispatches the call and then
/// reports the outcome to `finish_execution`.
pub fn execute_transaction(
    multisig: &Multisig,
    transaction: &Transaction,
    multisig_signer: &Key,
) -> (r: Result<Instruction, ErrorCodeMultiSig>)
    ensures
        match execute_check(multisig@, transaction@) {
            Ok(_) => r matches Ok(ix) && ix@ == outbound_call(transaction@, *multisig_signer),
            Err(e) => r matches Err(e2) && e2 == e,
        },
{
    if transaction.did_execute {
        return Err(ErrorCodeMultiSig::AlreadyExecuted);
    }
    if transaction.owner_set_seqno != multisig.owner_set_seqno {
        return Err(ErrorCodeMultiSig::StaleProposal);
    }
    let sig_count = count_signers(&transaction.signers);
    if (sig_count as u64) < multisig.threshold {
        return Err(ErrorCodeMultiSig::InsufficientApprovals);
    }
    let mut accounts: Vec<TransactionAccount> = Vec::new();
    let mut i: usize = 0;
    while i < transaction.accounts.len()
        invariant
            i <= transaction.accounts@.len(),
            accounts@ =~= outbound_accounts(transaction.accounts@, *multisig_signer).subrange(
                0,
                i as int,
            ),
        decreases transaction.accounts@.len() - i,
    {
        let acc = transaction.accounts[i];
        if array_eq(&acc.pubkey, multisig_signer) {
            accounts.push(TransactionAccount { is_signer: true, ..acc });
        } else {
            accounts.push(acc);
        }
        i = i + 1;
    }
    assert(accounts@ =~= outbound_accounts(transaction.accounts@, *multisig_signer));
    Ok(Instruction { program_id: transaction.program_id, accounts, data: transaction.data.clone() })
}

/// The proposal after its outbound call was dispatched, or the error if the
/// call failed.
pub open spec fn finish_result(t: TransactionModel, dispatched: bool) -> Result<
    TransactionModel,
    ErrorCodeMultiSig,
> {
    if dispatched {
        Ok(TransactionModel { did_execute: true, ..t })
    } else {
        Err(ErrorCodeMultiSig::DispatchFailed)
    }
}

/// Records the outcome of dispatching a proposal's outbound call. A success
/// marks the proposal executed for good; the flag is set without a second look
/// at the generation, so a proposal whose call changed the registry is not made
/// stale by its own effect. A failure leaves the proposal as it was, to be
/// executed again later.
pub fn finish_execution(transaction: &mut Transaction, dispatched: bool) -> (r: Result<
    (),
    ErrorCodeMultiSig,
>)
    ensures
        match finish_result(old(transaction)@, dispatched) {
            Ok(t) => r is Ok && final(transaction)@ == t,
            Err(e) => r == Err::<(), _>(e) && final(transaction)@ == old(transaction)@,
        },
{
    if !dispatched {
        return Err(ErrorCodeMultiSig::DispatchFailed);
    }
    transaction.did_execute = true;
    Ok(())
}

} // verus!
