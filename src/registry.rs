use vstd::prelude::*;
use crate::bytes::array_eq;
use crate::error::ErrorCodeMultiSig;
use crate::proxy::{derive_proxy, program_address_of};

verus! {

/// A 20-byte owner address.
pub type Address = [u8; 20];

/// A 32-byte ledger key.
pub type Key = [u8; 32];

/// The registry of one multisig group.
pub struct Multisig {
    /// Owners, in the order that positions them in approval bitmaps.
    pub owners: Vec<Address>,
    /// Number of approvals that execution needs.
    pub threshold: u64,
    /// Nonce from which the proxy identity is derived.
    pub nonce: u8,
    /// Generation: bumped by every change of owners or threshold.
    pub owner_set_seqno: u32,
    /// Identity of the next proposal.
    pub last_transaction_id: u32,
}

/// The registry as values.
pub ghost struct MultisigModel {
    pub owners: Seq<Address>,
    pub threshold: u64,
    pub nonce: u8,
    pub generation: u32,
    pub next_id: u32,
}

impl View for Multisig {
    type V = MultisigModel;

    open spec fn view(&self) -> MultisigModel {
        MultisigModel {
            owners: self.owners@,
            threshold: self.threshold,
            nonce: self.nonce,
            generation: self.owner_set_seqno,
            next_id: self.last_transaction_id,
        }
    }
}

/// The caller of a self-administration entry point.
pub struct Auth {
    /// Key of the registry record.
    pub multisig_key: Key,
    /// Key of this program.
    pub program_id: Key,
    /// The account that claims to be the registry's proxy identity.
    pub multisig_signer: Key,
    /// Whether that account authorized the call.
    pub is_signer: bool,
}

/// No address occurs twice.
pub open spec fn unique_owners(owners: Seq<Address>) -> bool {
    forall|i: int, j: int| 0 <= i < j < owners.len() ==> owners[i] != owners[j]
}

/// What an owner set is refused for, if anything.
pub open spec fn owner_set_check(owners: Seq<Address>) -> Result<(), ErrorCodeMultiSig> {
    if owners.len() == 0 {
        Err(ErrorCodeMultiSig::EmptyOwnerSet)
    } else if !unique_owners(owners) {
        Err(ErrorCodeMultiSig::DuplicateOwner)
    } else {
        Ok(())
    }
}

/// A threshold is valid for a number of owners.
pub open spec fn valid_threshold(threshold: u64, n: nat) -> bool {
    1 <= threshold && threshold <= n
}

/// The registry's invariant.
pub open spec fn registry_wf(m: MultisigModel) -> bool {
    owner_set_check(m.owners) is Ok && valid_threshold(m.threshold, m.owners.len())
}

/// What creating a registry yields.
pub open spec fn create_result(owners: Seq<Address>, threshold: u64, nonce: u8) -> Result<
    MultisigModel,
    ErrorCodeMultiSig,
> {
    match owner_set_check(owners) {
        Err(e) => Err(e),
        Ok(_) => if !valid_threshold(threshold, owners.len()) {
            Err(ErrorCodeMultiSig::InvalidThreshold)
        } else {
            Ok(
                MultisigModel { owners, threshold, nonce, generation: 0, next_id: 0 },
            )
        },
    }
}

/// The caller is the registry's proxy identity, acting as signer.
pub open spec fn authorized(m: MultisigModel, auth: Auth) -> bool {
    auth.is_signer && program_address_of(auth.multisig_key, m.nonce, auth.program_id) == Some(
        auth.multisig_signer,
    )
}

/// What replacing the owners does to a registry.
pub open spec fn update_owners_result(m: MultisigModel, auth: Auth, owners: Seq<Address>) -> Result<
    MultisigModel,
    ErrorCodeMultiSig,
> {
    if !authorized(m, auth) {
        Err(ErrorCodeMultiSig::UnauthorizedCaller)
    } else if owner_set_check(owners) is Err {
        Err(owner_set_check(owners)->Err_0)
    } else if m.generation == u32::MAX {
        Err(ErrorCodeMultiSig::Overflow)
    } else {
        Ok(
            MultisigModel {
                owners,
                threshold: if m.threshold > owners.len() {
                    owners.len() as u64
                } else {
                    m.threshold
                },
                generation: (m.generation + 1) as u32,
                ..m
            },
        )
    }
}

/// What changing the threshold does to a registry.
pub open spec fn update_threshold_result(m: MultisigModel, auth: Auth, threshold: u64) -> Result<
    MultisigModel,
    ErrorCodeMultiSig,
> {
    if !authorized(m, auth) {
        Err(ErrorCodeMultiSig::UnauthorizedCaller)
    } else if !valid_threshold(threshold, m.owners.len()) {
        Err(ErrorCodeMultiSig::InvalidThreshold)
    } else if m.generation == u32::MAX {
        Err(ErrorCodeMultiSig::Overflow)
    } else {
        Ok(MultisigModel { threshold, generation: (m.generation + 1) as u32, ..m })
    }
}

/// Refuses an owner set in which an address occurs twice.
pub fn assert_unique_owners(owners: &[Address]) -> (r: Result<(), ErrorCodeMultiSig>)
    ensures
        r is Ok <==> unique_owners(owners@),
        r is Err ==> r == Err::<(), _>(ErrorCodeMultiSig::DuplicateOwner),
{
    let n = owners.len();
    let mut i: usize = 0;
    while i < n
        invariant
            n == owners@.len(),
            i <= n,
            forall|a: int, b: int| 0 <= a < i && a < b < n ==> owners@[a] != owners@[b],
        decreases n - i,
    {
        let mut j: usize = i + 1;
        while j < n
            invariant
                n == owners@.len(),
                i < n,
                i + 1 <= j <= n,
                forall|a: int, b: int| 0 <= a < i && a < b < n ==> owners@[a] != owners@[b],
                forall|b: int| i < b < j ==> owners@[i as int] != owners@[b],
            decreases n - j,
        {
            if array_eq(&owners[i], &owners[j]) {
                return Err(ErrorCodeMultiSig::DuplicateOwner);
            }
            j = j + 1;
        }
        i = i + 1;
    }
    Ok(())
}

fn check_owner_set(owners: &Vec<Address>) -> (r: Result<(), ErrorCodeMultiSig>)
    ensures
        r == owner_set_check(owners@),
{
    if owners.len() == 0 {
        return Err(ErrorCodeMultiSig::EmptyOwnerSet);
    }
    let r = assert_unique_owners(owners.as_slice());
    match r {
        Ok(()) => Ok(()),
        Err(e) => Err(e),
    }
}

/// Checks that the caller is the registry's proxy identity, acting as signer.
pub fn check_authority(multisig: &Multisig, auth: &Auth) -> (r: Result<(), ErrorCodeMultiSig>)
    ensures
        r is Ok <==> authorized(multisig@, *auth),
        r is Err ==> r == Err::<(), _>(ErrorCodeMultiSig::UnauthorizedCaller),
{
    if !auth.is_signer {
        return Err(ErrorCodeMultiSig::UnauthorizedCaller);
    }
    match derive_proxy(&auth.multisig_key, multisig.nonce, &auth.program_id) {
        Some(k) => if array_eq(&k, &auth.multisig_signer) {
            Ok(())
        } else {
            Err(ErrorCodeMultiSig::UnauthorizedCaller)
        },
        None => Err(ErrorCodeMultiSig::UnauthorizedCaller),
    }
}

impl Multisig {
    /// The registry's invariant.
    pub open spec fn wf(&self) -> bool {
        registry_wf(self@)
    }
}

/// Creates a registry with the given owners and threshold.
pub fn create_multisig(owners: Vec<Address>, threshold: u64, nonce: u8) -> (r: Result<
    Multisig,
    ErrorCodeMultiSig,
>)
    ensures
        match r {
            Ok(m) => create_result(owners@, threshold, nonce) == Ok::<_, ErrorCodeMultiSig>(m@),
            Err(e) => create_result(owners@, threshold, nonce) == Err::<MultisigModel, _>(e),
        },
        r matches Ok(m) ==> m.wf(),
{
    check_owner_set(&owners)?;
    if threshold == 0 || threshold > owners.len() as u64 {
        return Err(ErrorCodeMultiSig::InvalidThreshold);
    }
    Ok(Multisig { owners, threshold, nonce, owner_set_seqno: 0, last_transaction_id: 0 })
}

/// Replaces the owners; reachable only through the registry's proxy identity.
/// A threshold above the new owner count is lowered to that count.
pub fn update_owners(multisig: &mut Multisig, auth: &Auth, owners: Vec<Address>) -> (r: Result<
    (),
    ErrorCodeMultiSig,
>)
    ensures
        match update_owners_result(old(multisig)@, *auth, owners@) {
            Ok(m) => r is Ok && final(multisig)@ == m,
            Err(e) => r == Err::<(), _>(e) && final(multisig)@ == old(multisig)@,
        },
        old(multisig).wf() ==> final(multisig).wf(),
{
    check_authority(multisig, auth)?;
    check_owner_set(&owners)?;
    if multisig.owner_set_seqno == u32::MAX {
        return Err(ErrorCodeMultiSig::Overflow);
    }
    if (owners.len() as u64) < multisig.threshold {
        multisig.threshold = owners.len() as u64;
    }
    multisig.owners = owners;
    multisig.owner_set_seqno = multisig.owner_set_seqno + 1;
    Ok(())
}

/// Changes the threshold; reachable only through the registry's proxy identity.
pub fn update_threshold(multisig: &mut Multisig, auth: &Auth, threshold: u64) -> (r: Result<
    (),
    ErrorCodeMultiSig,
>)
    ensures
        match update_threshold_result(old(multisig)@, *auth, threshold) {
            Ok(m) => r is Ok && final(multisig)@ == m,
            Err(e) => r == Err::<(), _>(e) && final(multisig)@ == old(multisig)@,
        },
        old(multisig).wf() ==> final(multisig).wf(),
{
    check_authority(multisig, auth)?;
    if threshold == 0 || threshold > multisig.owners.len() as u64 {
        return Err(ErrorCodeMultiSig::InvalidThreshold);
    }
    if multisig.owner_set_seqno == u32::MAX {
        return Err(ErrorCodeMultiSig::Overflow);
    }
    multisig.threshold = threshold;
    multisig.owner_set_seqno = multisig.owner_set_seqno + 1;
    Ok(())
}

} // verus!

verus! {

/// The registry's proxy identity under this program: the key whose accounts
/// sign the outbound calls of executed proposals.
pub fn proxy_identity(multisig: &Multisig, multisig_key: &Key, program_id: &Key) -> (r: Result<
    Key,
    ErrorCodeMultiSig,
>)
    ensures
        match program_address_of(*multisig_key, multisig.nonce, *program_id) {
            Some(k) => r == Ok::<Key, ErrorCodeMultiSig>(k),
            None => r == Err::<Key, _>(ErrorCodeMultiSig::InvalidProxyNonce),
        },
{
    match derive_proxy(multisig_key, multisig.nonce, program_id) {
        Some(k) => Ok(k),
        None => Err(ErrorCodeMultiSig::InvalidProxyNonce),
    }
}

} // verus!
