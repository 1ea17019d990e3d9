use vstd::prelude::*;

verus! {

/// Every way an operation of the multisig can be refused.
#[derive(Debug, Clone, Copy, PartialEq, Eq, Structural)]
pub enum ErrorCodeMultiSig {
    /// The owner set is empty.
    EmptyOwnerSet,
    /// The same address occurs twice in the owner set.
    DuplicateOwner,
    /// The threshold is zero or larger than the number of owners.
    InvalidThreshold,
    /// The verification record speaks for another address or signature.
    SignatureMismatch,
    /// The verification record verified other bytes than the expected message.
    MessageMismatch,
    /// No recognizable verification record precedes the call.
    MissingVerificationStep,
    /// The claimed address is not an owner of the registry.
    UnknownOwner,
    /// The proposal was bound to an earlier generation of the registry.
    StaleProposal,
    /// The proposal has already been executed.
    AlreadyExecuted,
    /// Fewer owners approved than the threshold asks for.
    InsufficientApprovals,
    /// The dispatched call failed; the proposal stays executable.
    DispatchFailed,
    /// The caller is not the registry's proxy identity acting as signer.
    UnauthorizedCaller,
    /// The registry's nonce derives no proxy identity.
    InvalidProxyNonce,
    /// The proposal counter is exhausted.
    Overflow,
}

} // verus!
