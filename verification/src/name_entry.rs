use vstd::prelude::*;

use crate::errors::ErrorCode;
use crate::state::{
    Entry, Key, Namespace, ReverseEntry, TokenAccount, TokenManager, KEY_UNSET,
    TOKEN_MANAGER_STATE_INVALIDATED,
};

verus! {

/// The first reason an expired-entry invalidation fails, or `None` where it
/// succeeds: the entry must belong to the namespace; the namespace must hold
/// at least one unit of the entry's mint, proving the lease reverted to it;
/// where the entry points at a reverse entry, that record must be supplied;
/// and the live-entry count must not already be zero, since decrementing it
/// then would signal a bookkeeping bug.
pub open spec fn spec_invalidate_expired_error(
    namespace: Namespace,
    name_entry: Entry,
    namespace_token_account: TokenAccount,
    reverse_entry: Option<ReverseEntry>,
) -> Option<ErrorCode> {
    if name_entry.namespace != namespace.key {
        Some(ErrorCode::InvalidEntry)
    } else if !(namespace_token_account.mint == name_entry.mint && namespace_token_account.owner
        == namespace.key && namespace_token_account.amount > 0) {
        Some(ErrorCode::NamespaceRequiresToken)
    } else if name_entry.reverse_entry is Some && reverse_entry is None {
        Some(ErrorCode::NotEnoughAccountKeys)
    } else if namespace.count == 0 {
        Some(ErrorCode::CountUnderflow)
    } else {
        None
    }
}

/// Whether an expired-entry invalidation closes the supplied reverse entry
/// record: it does exactly when the entry points at a reverse entry and the
/// record's entry name matches the entry's own.
pub open spec fn spec_closes_reverse_entry(name_entry: Entry, reverse_entry: Option<ReverseEntry>) -> bool {
    &&& name_entry.reverse_entry is Some
    &&& reverse_entry matches Some(re) && re.entry_name@ == name_entry.name@
}

/// Expires an entry whose lease has reverted to the namespace: clears the
/// claimant, marks it unclaimed, clears its reverse-entry pointer, and
/// decrements the namespace's live-entry count. Returns whether the supplied
/// reverse entry record is to be closed, its storage going to the
/// invalidator. Any failure leaves both records untouched.
pub fn invalidate_expired_name_entry(
    namespace: &mut Namespace,
    name_entry: &mut Entry,
    namespace_token_account: TokenAccount,
    reverse_entry: Option<&ReverseEntry>,
) -> (r: Result<bool, ErrorCode>)
    requires
        reverse_entry matches Some(re) ==> (old(name_entry).reverse_entry matches Some(k)
            ==> re.key == k),
    ensures
        r is Err <==> spec_invalidate_expired_error(
            *old(namespace),
            *old(name_entry),
            namespace_token_account,
            match reverse_entry {
                Some(re) => Some(*re),
                None => None,
            },
        ) is Some,
        r matches Err(e) ==> {
            &&& Some(e) == spec_invalidate_expired_error(
                *old(namespace),
                *old(name_entry),
                namespace_token_account,
                match reverse_entry {
                    Some(re) => Some(*re),
                    None => None,
                },
            )
            &&& *final(namespace) == *old(namespace)
            &&& *final(name_entry) == *old(name_entry)
        },
        old(namespace).count == 0 ==> r is Err,
        r matches Ok(closed) ==> {
            &&& final(name_entry).key == old(name_entry).key
            &&& final(name_entry).bump == old(name_entry).bump
            &&& final(name_entry).namespace == old(name_entry).namespace
            &&& final(name_entry).name == old(name_entry).name
            &&& final(name_entry).mint == old(name_entry).mint
            &&& final(name_entry).data is None
            &&& !final(name_entry).is_claimed
            &&& final(name_entry).reverse_entry is None
            &&& final(name_entry).claim_request_counter == old(name_entry).claim_request_counter
            &&& *final(namespace) == (Namespace {
                count: (old(namespace).count - 1) as u32,
                ..*old(namespace)
            })
            &&& closed == spec_closes_reverse_entry(
                *old(name_entry),
                match reverse_entry {
                    Some(re) => Some(*re),
                    None => None,
                },
            )
        },
{
    if name_entry.namespace != namespace.key {
        return Err(ErrorCode::InvalidEntry);
    }
    if !(namespace_token_account.mint == name_entry.mint && namespace_token_account.owner
        == namespace.key && namespace_token_account.amount > 0) {
        return Err(ErrorCode::NamespaceRequiresToken);
    }
    let mut closed = false;
    if name_entry.reverse_entry.is_some() {
        match reverse_entry {
            Some(re) => {
                closed = re.entry_name == name_entry.name;
            },
            None => {
                return Err(ErrorCode::NotEnoughAccountKeys);
            },
        }
    }
    if namespace.count == 0 {
        return Err(ErrorCode::CountUnderflow);
    }
    name_entry.data = None;
    name_entry.is_claimed = false;
    name_entry.reverse_entry = None;
    namespace.count = namespace.count - 1;
    Ok(closed)
}

/// Whether a custody record passed to a transferable invalidation is
/// acceptable: an empty slot always is, and a present record must be
/// invalidated, issued by the namespace, and for the entry's mint.
pub open spec fn spec_token_manager_invalidated_for(
    token_manager: Option<TokenManager>,
    namespace: Namespace,
    name_entry: Entry,
) -> bool {
    token_manager matches Some(tm) ==> {
        &&& tm.state == TOKEN_MANAGER_STATE_INVALIDATED
        &&& tm.issuer == namespace.key
        &&& tm.mint == name_entry.mint
    }
}

/// The first reason a transferable-entry invalidation fails, or `None` where
/// it succeeds: the entry must belong to the namespace and, being
/// transferable, must always have had a reverse entry; the custody record at
/// the mint's canonical address, where one is present, must be invalidated
/// and match issuer and mint; and the live-entry count must not already be
/// zero.
pub open spec fn spec_invalidate_transferable_error(
    namespace: Namespace,
    name_entry: Entry,
    token_manager: Option<TokenManager>,
) -> Option<ErrorCode> {
    if name_entry.namespace != namespace.key || name_entry.reverse_entry is None {
        Some(ErrorCode::InvalidEntry)
    } else if !spec_token_manager_invalidated_for(token_manager, namespace, name_entry) {
        Some(ErrorCode::InvalidTokenManager)
    } else if namespace.count == 0 {
        Some(ErrorCode::CountUnderflow)
    } else {
        None
    }
}

/// Invalidates a transferable entry once its custody record has been torn
/// down: clears the claimant, marks it unclaimed, resets its mint to the
/// empty key, and decrements the namespace's live-entry count. The caller
/// must have resolved `token_manager` at the canonical custody address
/// derived from the entry's mint; `None` stands for an empty slot there.
/// Any failure leaves both records untouched.
pub fn invalidate_transferable_name_entry(
    namespace: &mut Namespace,
    name_entry: &mut Entry,
    token_manager: Option<TokenManager>,
) -> (r: Result<(), ErrorCode>)
    ensures
        r is Err <==> spec_invalidate_transferable_error(
            *old(namespace),
            *old(name_entry),
            token_manager,
        ) is Some,
        r matches Err(e) ==> {
            &&& Some(e) == spec_invalidate_transferable_error(
                *old(namespace),
                *old(name_entry),
                token_manager,
            )
            &&& *final(namespace) == *old(namespace)
            &&& *final(name_entry) == *old(name_entry)
        },
        old(namespace).count == 0 ==> r is Err,
        r is Ok ==> {
            &&& final(name_entry).key == old(name_entry).key
            &&& final(name_entry).bump == old(name_entry).bump
            &&& final(name_entry).namespace == old(name_entry).namespace
            &&& final(name_entry).name == old(name_entry).name
            &&& final(name_entry).mint == KEY_UNSET
            &&& final(name_entry).data is None
            &&& !final(name_entry).is_claimed
            &&& final(name_entry).reverse_entry == old(name_entry).reverse_entry
            &&& final(name_entry).claim_request_counter == old(name_entry).claim_request_counter
            &&& *final(namespace) == (Namespace {
                count: (old(namespace).count - 1) as u32,
                ..*old(namespace)
            })
        },
{
    if name_entry.namespace != namespace.key || name_entry.reverse_entry.is_none() {
        return Err(ErrorCode::InvalidEntry);
    }
    match token_manager {
        Some(tm) => {
            if tm.state != TOKEN_MANAGER_STATE_INVALIDATED || tm.issuer != namespace.key
                || tm.mint != name_entry.mint {
                return Err(ErrorCode::InvalidTokenManager);
            }
        },
        None => {},
    }
    if namespace.count == 0 {
        return Err(ErrorCode::CountUnderflow);
    }
    name_entry.data = None;
    name_entry.is_claimed = false;
    name_entry.mint = KEY_UNSET;
    namespace.count = namespace.count - 1;
    Ok(())
}

} // verus!
