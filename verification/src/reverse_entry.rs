use vstd::prelude::*;

use crate::errors::ErrorCode;
use crate::state::{
    Certificate, Entry, Key, Namespace, OwnershipProof, ReverseEntry, TokenAccount, TokenManager,
    CERTIFICATE_STATE_INVALIDATED, TOKEN_MANAGER_STATE_INVALIDATED,
};

verus! {

/// Whether a token account proves that `owner` currently holds the entry's
/// mint: it holds a positive balance of exactly that mint for that owner.
pub open spec fn spec_owns_entry_mint(
    token_account: TokenAccount,
    name_entry: Entry,
    owner: Key,
) -> bool {
    &&& token_account.mint == name_entry.mint
    &&& token_account.owner == owner
    &&& token_account.amount > 0
}

/// Whether a custody record is a live one for the entry under its namespace:
/// right mint, issued by the namespace, and not invalidated.
pub open spec fn spec_live_token_manager(
    token_manager: TokenManager,
    namespace: Namespace,
    name_entry: Entry,
) -> bool {
    &&& token_manager.mint == name_entry.mint
    &&& token_manager.issuer == namespace.key
    &&& token_manager.state != TOKEN_MANAGER_STATE_INVALIDATED
}

/// Whether a legacy certificate is a live ownership proof for the entry
/// under its namespace: right mint, issued by the namespace, and not
/// invalidated.
pub open spec fn spec_live_certificate(
    certificate: Certificate,
    namespace: Namespace,
    name_entry: Entry,
) -> bool {
    &&& certificate.mint == name_entry.mint
    &&& certificate.issuer == namespace.key
    &&& certificate.state != CERTIFICATE_STATE_INVALIDATED
}

/// The first reason setting a reverse mapping fails, or `None` where it
/// succeeds: the caller must hold the entry's mint, and the custody record
/// for the mint must be present, issued by the namespace, and live.
pub open spec fn spec_set_reverse_error(
    namespace: Namespace,
    name_entry: Entry,
    user: Key,
    user_token_account: TokenAccount,
    token_manager: Option<TokenManager>,
) -> Option<ErrorCode> {
    if !spec_owns_entry_mint(user_token_account, name_entry, user) {
        Some(ErrorCode::InvalidOwnerMint)
    } else if !(token_manager matches Some(tm) && spec_live_token_manager(
        tm,
        namespace,
        name_entry,
    )) {
        Some(ErrorCode::InvalidTokenManager)
    } else {
        None
    }
}

/// What a successful reverse-mapping write leaves behind: the entry points
/// at the reverse record, and the reverse record names exactly the entry's
/// namespace and name — forward and reverse sides agree.
pub open spec fn spec_reverse_mapping_set(
    namespace: Namespace,
    name_entry: Entry,
    reverse_entry: ReverseEntry,
) -> bool {
    &&& name_entry.reverse_entry == Some(reverse_entry.key)
    &&& reverse_entry.namespace_name@ == namespace.name@
    &&& reverse_entry.entry_name@ == name_entry.name@
}

/// Points the identity `user`, proven by token balance to hold the entry's
/// mint, back at the entry: writes the namespace and entry names into the
/// identity's reverse entry record and the record's address into the entry.
/// `reverse_entry` is the record derived from `user` alone, fresh or
/// previously written. Any failure leaves both records untouched.
pub fn set_global_reverse_entry(
    namespace: &Namespace,
    name_entry: &mut Entry,
    reverse_entry: &mut ReverseEntry,
    user: Key,
    user_token_account: TokenAccount,
    token_manager: Option<TokenManager>,
) -> (r: Result<(), ErrorCode>)
    requires
        old(name_entry).namespace == namespace.key,
    ensures
        r is Err <==> spec_set_reverse_error(
            *namespace,
            *old(name_entry),
            user,
            user_token_account,
            token_manager,
        ) is Some,
        r matches Err(e) ==> {
            &&& Some(e) == spec_set_reverse_error(
                *namespace,
                *old(name_entry),
                user,
                user_token_account,
                token_manager,
            )
            &&& *final(name_entry) == *old(name_entry)
            &&& *final(reverse_entry) == *old(reverse_entry)
        },
        r is Ok ==> {
            &&& final(name_entry).key == old(name_entry).key
            &&& final(name_entry).bump == old(name_entry).bump
            &&& final(name_entry).namespace == old(name_entry).namespace
            &&& final(name_entry).name == old(name_entry).name
            &&& final(name_entry).mint == old(name_entry).mint
            &&& final(name_entry).data == old(name_entry).data
            &&& final(name_entry).is_claimed == old(name_entry).is_claimed
            &&& final(name_entry).claim_request_counter == old(name_entry).claim_request_counter
            &&& final(reverse_entry).key == old(reverse_entry).key
            &&& final(reverse_entry).bump == old(reverse_entry).bump
            &&& spec_reverse_mapping_set(*namespace, *final(name_entry), *final(reverse_entry))
        },
{
    if !(user_token_account.mint == name_entry.mint && user_token_account.owner == user
        && user_token_account.amount > 0) {
        return Err(ErrorCode::InvalidOwnerMint);
    }
    match token_manager {
        Some(tm) => {
            if tm.mint != name_entry.mint || tm.issuer != namespace.key || tm.state
                == TOKEN_MANAGER_STATE_INVALIDATED {
                return Err(ErrorCode::InvalidTokenManager);
            }
        },
        None => {
            return Err(ErrorCode::InvalidTokenManager);
        },
    }
    name_entry.reverse_entry = Some(reverse_entry.key);
    reverse_entry.namespace_name = namespace.name.clone();
    reverse_entry.entry_name = name_entry.name.clone();
    Ok(())
}

/// The first reason the deprecated reverse-mapping path fails, or `None`
/// where it succeeds: the caller must hold the entry's mint, and the
/// supplied ownership proof — in whichever of the two formats the record
/// resolved to — must be live, issued by the namespace, and for the entry's
/// mint.
pub open spec fn spec_set_reverse_deprecated_error(
    namespace: Namespace,
    name_entry: Entry,
    user: Key,
    user_token_account: TokenAccount,
    proof_record: OwnershipProof,
) -> Option<ErrorCode> {
    if !spec_owns_entry_mint(user_token_account, name_entry, user) {
        Some(ErrorCode::InvalidOwnerMint)
    } else {
        match proof_record {
            OwnershipProof::Legacy(certificate) => if !spec_live_certificate(
                certificate,
                namespace,
                name_entry,
            ) {
                Some(ErrorCode::InvalidCertificate)
            } else {
                None
            },
            OwnershipProof::Modern(token_manager) => if !spec_live_token_manager(
                token_manager,
                namespace,
                name_entry,
            ) {
                Some(ErrorCode::InvalidTokenManager)
            } else {
                None
            },
        }
    }
}

/// The deprecated reverse-mapping path: as `set_global_reverse_entry`, but
/// the ownership proof may come in either format, the modern custody record
/// tried first by the caller with the legacy certificate as fallback. Any
/// failure leaves both records untouched.
pub fn set_reverse_entry(
    namespace: &Namespace,
    name_entry: &mut Entry,
    reverse_entry: &mut ReverseEntry,
    user: Key,
    user_token_account: TokenAccount,
    proof_record: OwnershipProof,
) -> (r: Result<(), ErrorCode>)
    requires
        old(name_entry).namespace == namespace.key,
    ensures
        r is Err <==> spec_set_reverse_deprecated_error(
            *namespace,
            *old(name_entry),
            user,
            user_token_account,
            proof_record,
        ) is Some,
        r matches Err(e) ==> {
            &&& Some(e) == spec_set_reverse_deprecated_error(
                *namespace,
                *old(name_entry),
                user,
                user_token_account,
                proof_record,
            )
            &&& *final(name_entry) == *old(name_entry)
            &&& *final(reverse_entry) == *old(reverse_entry)
        },
        r is Ok ==> {
            &&& final(name_entry).key == old(name_entry).key
            &&& final(name_entry).bump == old(name_entry).bump
            &&& final(name_entry).namespace == old(name_entry).namespace
            &&& final(name_entry).name == old(name_entry).name
            &&& final(name_entry).mint == old(name_entry).mint
            &&& final(name_entry).data == old(name_entry).data
            &&& final(name_entry).is_claimed == old(name_entry).is_claimed
            &&& final(name_entry).claim_request_counter == old(name_entry).claim_request_counter
            &&& final(reverse_entry).key == old(reverse_entry).key
            &&& final(reverse_entry).bump == old(reverse_entry).bump
            &&& spec_reverse_mapping_set(*namespace, *final(name_entry), *final(reverse_entry))
        },
{
    if !(user_token_account.mint == name_entry.mint && user_token_account.owner == user
        && user_token_account.amount > 0) {
        return Err(ErrorCode::InvalidOwnerMint);
    }
    match proof_record {
        OwnershipProof::Legacy(certificate) => {
            if certificate.mint != name_entry.mint || certificate.issuer != namespace.key
                || certificate.state == CERTIFICATE_STATE_INVALIDATED {
                return Err(ErrorCode::InvalidCertificate);
            }
        },
        OwnershipProof::Modern(token_manager) => {
            if token_manager.mint != name_entry.mint || token_manager.issuer != namespace.key
                || token_manager.state == TOKEN_MANAGER_STATE_INVALIDATED {
                return Err(ErrorCode::InvalidTokenManager);
            }
        },
    }
    name_entry.reverse_entry = Some(reverse_entry.key);
    reverse_entry.namespace_name = namespace.name.clone();
    reverse_entry.entry_name = name_entry.name.clone();
    Ok(())
}

/// The first reason a reverse-entry invalidation fails, or `None` where it
/// succeeds: the entry must belong to the namespace; the reverse record must
/// name exactly the entry and its namespace; and the custody record at the
/// mint's canonical address, where one is present, must be invalidated and
/// match issuer and mint.
pub open spec fn spec_invalidate_reverse_error(
    namespace: Namespace,
    name_entry: Entry,
    reverse_name_entry: ReverseEntry,
    token_manager: Option<TokenManager>,
) -> Option<ErrorCode> {
    if name_entry.namespace != namespace.key {
        Some(ErrorCode::InvalidEntry)
    } else if !(reverse_name_entry.entry_name@ == name_entry.name@
        && reverse_name_entry.namespace_name@ == namespace.name@) {
        Some(ErrorCode::InvalidReverseEntry)
    } else if !(token_manager matches Some(tm) ==> {
        &&& tm.state == TOKEN_MANAGER_STATE_INVALIDATED
        &&& tm.issuer == namespace.key
        &&& tm.mint == name_entry.mint
    }) {
        Some(ErrorCode::InvalidTokenManager)
    } else {
        None
    }
}

/// Tears down the reverse side of a transferable entry's mapping once its
/// custody record has been invalidated: clears the entry's reverse-entry
/// pointer. On success the reverse record itself is closed, its storage
/// going to the invalidator. The caller must have resolved `token_manager`
/// at the canonical custody address derived from the entry's mint; `None`
/// stands for an empty slot there. Any failure leaves the entry untouched
/// and the reverse record open.
pub fn invalidate_transferable_reverse_name_entry(
    namespace: &Namespace,
    name_entry: &mut Entry,
    reverse_name_entry: &ReverseEntry,
    token_manager: Option<TokenManager>,
) -> (r: Result<(), ErrorCode>)
    ensures
        r is Err <==> spec_invalidate_reverse_error(
            *namespace,
            *old(name_entry),
            *reverse_name_entry,
            token_manager,
        ) is Some,
        r matches Err(e) ==> {
            &&& Some(e) == spec_invalidate_reverse_error(
                *namespace,
                *old(name_entry),
                *reverse_name_entry,
                token_manager,
            )
            &&& *final(name_entry) == *old(name_entry)
        },
        r is Ok ==> {
            &&& final(name_entry).key == old(name_entry).key
            &&& final(name_entry).bump == old(name_entry).bump
            &&& final(name_entry).namespace == old(name_entry).namespace
            &&& final(name_entry).name == old(name_entry).name
            &&& final(name_entry).mint == old(name_entry).mint
            &&& final(name_entry).data == old(name_entry).data
            &&& final(name_entry).is_claimed == old(name_entry).is_claimed
            &&& final(name_entry).claim_request_counter == old(name_entry).claim_request_counter
            &&& final(name_entry).reverse_entry is None
        },
{
    if name_entry.namespace != namespace.key {
        return Err(ErrorCode::InvalidEntry);
    }
    if !(reverse_name_entry.entry_name == name_entry.name && reverse_name_entry.namespace_name
        == namespace.name) {
        return Err(ErrorCode::InvalidReverseEntry);
    }
    match token_manager {
        Some(tm) => {
            if tm.state != TOKEN_MANAGER_STATE_INVALIDATED || tm.issuer != namespace.key
                || tm.mint != name_entry.mint {
                return Err(ErrorCode::InvalidTokenManager);
            }
        },
        None => {},
    }
    name_entry.reverse_entry = None;
    Ok(())
}

} // verus!
