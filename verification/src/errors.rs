use vstd::prelude::*;

verus! {

/// Error codes surfaced by the registry's operations. Every operation is
/// all-or-nothing: an error means no record was changed.
#[derive(Clone, Copy, Debug, PartialEq, Eq, Structural)]
pub enum ErrorCode {
    /// The invalidation type of a namespace configuration is not one of the
    /// accepted kinds, or combines returning entries with transferability.
    InvalidInvalidationType,
    /// The caller is not the namespace's update authority.
    InvalidUpdateAuthority,
    /// The caller is not the namespace's configured approve authority.
    InvalidApproveAuthority,
    /// The namespace does not hold the token that backs the entry.
    NamespaceRequiresToken,
    /// The claim request is unapproved, for another record, or stale.
    ClaimNotAllowed,
    /// The namespace's entry limit would be exceeded by this claim.
    NamespaceReachedLimit,
    /// The requested rental duration is not above the namespace's minimum.
    RentalDurationTooSmall,
    /// The requested rental duration is not below the namespace's maximum.
    RentalDurationTooLarge,
    /// The namespace caps rental durations, so a duration must be supplied.
    NamespaceRequiresDuration,
    /// A record the operation needs was not supplied by the caller.
    NotEnoughAccountKeys,
    /// The supplied payment mint differs from the namespace's payment mint.
    InvalidPaymentMint,
    /// The entry does not belong to the namespace, or lacks a reverse entry
    /// where one is required.
    InvalidEntry,
    /// The reverse entry's names do not match the entry and namespace.
    InvalidReverseEntry,
    /// The custody record does not match the entry's mint, the namespace, or
    /// is in the wrong state.
    InvalidTokenManager,
    /// The legacy certificate does not match the entry's mint, the namespace,
    /// or is in the wrong state.
    InvalidCertificate,
    /// The caller does not hold the entry's mint.
    InvalidOwnerMint,
    /// The namespace's live-entry count is already zero: decrementing it
    /// would signal a bookkeeping bug, so the operation fails instead.
    CountUnderflow,
}

} // verus!
