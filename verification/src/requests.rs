use vstd::prelude::*;

use crate::errors::ErrorCode;
use crate::state::{ClaimRequest, Entry, Key, Namespace, TokenAccount};

verus! {

/// The counter an approval snapshots: the entry's current claim counter, or
/// zero while the entry does not yet exist, so that an approval written
/// before the entry is created accepts any first claim.
pub open spec fn spec_approval_counter(name_entry: Option<Entry>) -> u32 {
    match name_entry {
        Some(e) => e.claim_request_counter,
        None => 0,
    }
}

/// What an approved claim request for `(namespace, entry_name, user)` holds
/// once an approval with snapshot `counter` has written it.
pub open spec fn is_approved_request(
    request: ClaimRequest,
    namespace: Namespace,
    entry_name: Seq<char>,
    user: Key,
    counter: u32,
) -> bool {
    &&& request.namespace == namespace.key
    &&& request.entry_name@ == entry_name
    &&& request.requestor == user
    &&& request.is_approved
    &&& request.counter == counter
}

/// Whether `approver` may approve a claim on the entry: either as the
/// namespace's configured approve authority, or as the current holder of the
/// target entry's mint — a positive balance of that mint owned by the
/// approver — who may thereby pre-approve a transfer to a new requestor.
pub open spec fn spec_approve_authorized(
    namespace: Namespace,
    approver: Key,
    approver_token_account: Option<TokenAccount>,
    name_entry: Option<Entry>,
) -> bool {
    ||| (namespace.approve_authority matches Some(a) && a == approver)
    ||| (name_entry matches Some(e) && (approver_token_account matches Some(t) && t.mint == e.mint
        && t.owner == approver && t.amount > 0))
}

/// Approves the claim request for `(namespace, entry_name, user)`. The
/// request record is created or reused by address derivation, so the same
/// triple always lands on the same record; `claim_request` is that record,
/// fresh or previously written. Two authorizations are accepted: the
/// namespace's configured approve authority, or proof that the approver
/// currently holds the target entry's mint. The approval snapshots the
/// entry's current claim counter, or zero while the entry does not yet
/// exist.
pub fn approve_claim_request(
    namespace: &Namespace,
    approver: Key,
    approver_token_account: Option<TokenAccount>,
    entry_name: String,
    user: Key,
    name_entry: Option<&Entry>,
    claim_request: &mut ClaimRequest,
) -> (r: Result<(), ErrorCode>)
    requires
        name_entry matches Some(e) ==> e.namespace == namespace.key && e.name@ == entry_name@,
    ensures
        r is Ok <==> spec_approve_authorized(
            *namespace,
            approver,
            approver_token_account,
            match name_entry {
                Some(e) => Some(*e),
                None => None,
            },
        ),
        r is Err ==> {
            &&& *final(claim_request) == *old(claim_request)
            &&& r == Err::<(), ErrorCode>(ErrorCode::InvalidApproveAuthority)
        },
        r is Ok ==> {
            &&& final(claim_request).key == old(claim_request).key
            &&& final(claim_request).bump == old(claim_request).bump
            &&& is_approved_request(
                *final(claim_request),
                *namespace,
                entry_name@,
                user,
                spec_approval_counter(
                    match name_entry {
                        Some(e) => Some(*e),
                        None => None,
                    },
                ),
            )
        },
{
    let authority_ok = match &namespace.approve_authority {
        Some(a) => *a == approver,
        None => false,
    };
    let holder_ok = match (name_entry, approver_token_account) {
        (Some(e), Some(t)) => t.mint == e.mint && t.owner == approver && t.amount > 0,
        _ => false,
    };
    if !authority_ok && !holder_ok {
        return Err(ErrorCode::InvalidApproveAuthority);
    }
    claim_request.namespace = namespace.key;
    claim_request.entry_name = entry_name;
    claim_request.is_approved = true;
    claim_request.requestor = user;
    claim_request.counter = match name_entry {
        Some(e) => e.claim_request_counter,
        None => 0,
    };
    Ok(())
}

/// Re-approving a still-fresh, already-approved request is a no-op on its
/// approval flag, and changes nothing at all unless the entry's claim
/// counter moved between the two approvals.
pub proof fn lemma_reapprove_is_idempotent(
    first: ClaimRequest,
    second: ClaimRequest,
    namespace: Namespace,
    entry_name: Seq<char>,
    user: Key,
    first_counter: u32,
    second_counter: u32,
)
    requires
        is_approved_request(first, namespace, entry_name, user, first_counter),
        is_approved_request(second, namespace, entry_name, user, second_counter),
    ensures
        second.is_approved == first.is_approved,
        second.namespace == first.namespace,
        second.entry_name@ == first.entry_name@,
        second.requestor == first.requestor,
        first_counter == second_counter ==> second.counter == first.counter,
{
}

} // verus!
