use vstd::prelude::*;
use crate::error::ErrorCodeMultiSig;
use crate::instruction::{InstructionModel, TransactionAccount};
use crate::proposal::{
    approve_result, count_true, create_transaction_result, execute_check, finish_result,
    TransactionModel,
};
use crate::registry::{
    create_result, registry_wf, unique_owners, update_owners_result, update_threshold_result,
    authorized, Address, Auth, Key, MultisigModel,
};

verus! {

/// Every non-empty set of distinct owners with a threshold between one and
/// the number of owners gives a registry, at generation zero.
pub proof fn lemma_create_valid(owners: Seq<Address>, threshold: u64, nonce: u8)
    requires
        unique_owners(owners),
        1 <= threshold <= owners.len(),
    ensures
        create_result(owners, threshold, nonce) is Ok,
        create_result(owners, threshold, nonce)->Ok_0.generation == 0,
        registry_wf(create_result(owners, threshold, nonce)->Ok_0),
{
}

/// An owner set in which an address occurs twice, at any two positions, is
/// refused as a duplicate, at creation and when owners are replaced.
pub proof fn lemma_duplicate_rejected(
    owners: Seq<Address>,
    i: int,
    j: int,
    threshold: u64,
    nonce: u8,
    m: MultisigModel,
    auth: Auth,
)
    requires
        0 <= i < j < owners.len(),
        owners[i] == owners[j],
    ensures
        create_result(owners, threshold, nonce) == Err::<MultisigModel, _>(
            ErrorCodeMultiSig::DuplicateOwner,
        ),
        authorized(m, auth) ==> update_owners_result(m, auth, owners) == Err::<MultisigModel, _>(
            ErrorCodeMultiSig::DuplicateOwner,
        ),
{
}

/// A new proposal's bitmap has one flag per owner of the registry at the
/// proposal's generation, and approvals never resize it.
pub proof fn lemma_bitmap_sized(
    m: MultisigModel,
    multisig_key: Key,
    pid: Key,
    accs: Seq<TransactionAccount>,
    data: Seq<u8>,
    eth_address: Address,
    sig: [u8; 64],
    recovery_id: u8,
    ix: InstructionModel,
    owner: Address,
    sig2: [u8; 64],
    recovery_id2: u8,
    ix2: InstructionModel,
)
    requires
        create_transaction_result(m, multisig_key, pid, accs, data, eth_address, sig, recovery_id, ix) is Ok,
    ensures
        ({
            let (m1, t) = create_transaction_result(
                m,
                multisig_key,
                pid,
                accs,
                data,
                eth_address,
                sig,
                recovery_id,
                ix,
            )->Ok_0;
            &&& t.signers.len() == m1.owners.len()
            &&& m1.owners == m.owners
            &&& t.generation == m1.generation
            &&& approve_result(m1, t, owner, sig2, recovery_id2, ix2) is Ok ==> approve_result(
                m1,
                t,
                owner,
                sig2,
                recovery_id2,
                ix2,
            )->Ok_0.signers.len() == t.signers.len()
        }),
{
}

/// Approving a second time as the same owner adds no approval.
pub proof fn lemma_approve_idempotent(
    m: MultisigModel,
    t: TransactionModel,
    owner: Address,
    sig: [u8; 64],
    recovery_id: u8,
    ix: InstructionModel,
    sig2: [u8; 64],
    recovery_id2: u8,
    ix2: InstructionModel,
)
    requires
        approve_result(m, t, owner, sig, recovery_id, ix) is Ok,
        approve_result(m, approve_result(m, t, owner, sig, recovery_id, ix)->Ok_0, owner, sig2, recovery_id2, ix2) is Ok,
    ensures
        ({
            let t1 = approve_result(m, t, owner, sig, recovery_id, ix)->Ok_0;
            let t2 = approve_result(m, t1, owner, sig2, recovery_id2, ix2)->Ok_0;
            count_true(t2.signers) == count_true(t1.signers) && t2 == t1
        }),
{
    let t1 = approve_result(m, t, owner, sig, recovery_id, ix)->Ok_0;
    let t2 = approve_result(m, t1, owner, sig2, recovery_id2, ix2)->Ok_0;
    assert(t2.signers =~= t1.signers);
}

/// Execution is allowed exactly when the proposal is not executed, is of the
/// registry's current generation and has at least the threshold of
/// approvals; each violated condition gives its own error.
pub proof fn lemma_execute_iff(m: MultisigModel, t: TransactionModel)
    ensures
        execute_check(m, t) is Ok <==> (count_true(t.signers) >= m.threshold && t.generation
            == m.generation && !t.did_execute),
        t.did_execute ==> execute_check(m, t) == Err::<(), _>(ErrorCodeMultiSig::AlreadyExecuted),
        !t.did_execute && t.generation != m.generation ==> execute_check(m, t) == Err::<(), _>(
            ErrorCodeMultiSig::StaleProposal,
        ),
        !t.did_execute && t.generation == m.generation && count_true(t.signers) < m.threshold
            ==> execute_check(m, t) == Err::<(), _>(ErrorCodeMultiSig::InsufficientApprovals),
{
}

/// Once a proposal has been executed, every further execution is refused as
/// already executed, whatever approvals it carries.
pub proof fn lemma_execute_once(m: MultisigModel, t: TransactionModel, signers: Seq<bool>)
    ensures
        finish_result(t, true) is Ok,
        execute_check(
            m,
            TransactionModel { signers, ..finish_result(t, true)->Ok_0 },
        ) == Err::<(), _>(ErrorCodeMultiSig::AlreadyExecuted),
{
}

/// Replacing the owners bumps the generation by one, and every proposal of the
/// old generation can no longer be approved, nor executed unless it already was.
pub proof fn lemma_owner_change_invalidates(
    m: MultisigModel,
    auth: Auth,
    owners: Seq<Address>,
    t: TransactionModel,
    owner: Address,
    sig: [u8; 64],
    recovery_id: u8,
    ix: InstructionModel,
)
    requires
        update_owners_result(m, auth, owners) is Ok,
        t.generation == m.generation,
    ensures
        ({
            let m2 = update_owners_result(m, auth, owners)->Ok_0;
            &&& m2.generation == m.generation + 1
            &&& approve_result(m2, t, owner, sig, recovery_id, ix) == Err::<TransactionModel, _>(
                ErrorCodeMultiSig::StaleProposal,
            )
            &&& !t.did_execute ==> execute_check(m2, t) == Err::<(), _>(
                ErrorCodeMultiSig::StaleProposal,
            )
        }),
{
}

/// Changing the threshold bumps the generation by one, with the same effect on
/// the proposals of the old generation.
pub proof fn lemma_threshold_change_invalidates(
    m: MultisigModel,
    auth: Auth,
    threshold: u64,
    t: TransactionModel,
    owner: Address,
    sig: [u8; 64],
    recovery_id: u8,
    ix: InstructionModel,
)
    requires
        update_threshold_result(m, auth, threshold) is Ok,
        t.generation == m.generation,
    ensures
        ({
            let m2 = update_threshold_result(m, auth, threshold)->Ok_0;
            &&& m2.generation == m.generation + 1
            &&& approve_result(m2, t, owner, sig, recovery_id, ix) == Err::<TransactionModel, _>(
                ErrorCodeMultiSig::StaleProposal,
            )
            &&& !t.did_execute ==> execute_check(m2, t) == Err::<(), _>(
                ErrorCodeMultiSig::StaleProposal,
            )
        }),
{
}

} // verus!
