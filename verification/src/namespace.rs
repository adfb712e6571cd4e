use vstd::prelude::*;

use crate::errors::ErrorCode;
use crate::state::{
    Key, Namespace, INVALIDATION_TYPE_INVALIDATE, INVALIDATION_TYPE_REISSUE,
    INVALIDATION_TYPE_RELEASE, INVALIDATION_TYPE_RETURN,
};

verus! {

/// The configuration of a new namespace, passed as one structured request.
#[derive(Clone)]
pub struct CreateNamespaceIx {
    pub name: String,
    pub update_authority: Key,
    pub rent_authority: Key,
    pub approve_authority: Option<Key>,
    pub schema: u8,
    pub payment_amount_daily: u64,
    pub payment_mint: Key,
    pub min_rental_seconds: i64,
    pub max_rental_seconds: Option<i64>,
    pub transferable_entries: bool,
    pub limit: Option<u32>,
    pub max_expiration: Option<i64>,
    pub invalidation_type: u8,
}

/// The replacement policy of an existing namespace: every field of the
/// configuration but the name, replaced atomically.
pub struct UpdateNamespaceIx {
    pub update_authority: Key,
    pub rent_authority: Key,
    pub approve_authority: Option<Key>,
    pub schema: u8,
    pub payment_amount_daily: u64,
    pub payment_mint: Key,
    pub min_rental_seconds: i64,
    pub max_rental_seconds: Option<i64>,
    pub transferable_entries: bool,
    pub limit: Option<u32>,
    pub max_expiration: Option<i64>,
    pub invalidation_type: u8,
}

/// Whether an invalidation policy is accepted at namespace creation: it must
/// be one of the four kinds the custody service understands, and returning
/// entries to the namespace is incompatible with transferable entries.
pub open spec fn valid_invalidation_config(invalidation_type: u8, transferable_entries: bool) -> bool {
    &&& {
        ||| invalidation_type == INVALIDATION_TYPE_RETURN
        ||| invalidation_type == INVALIDATION_TYPE_INVALIDATE
        ||| invalidation_type == INVALIDATION_TYPE_RELEASE
        ||| invalidation_type == INVALIDATION_TYPE_REISSUE
    }
    &&& !(invalidation_type == INVALIDATION_TYPE_RETURN && transferable_entries)
}

/// Creates a namespace record at `key` from the supplied configuration,
/// rejecting an invalidation policy the custody service would not accept.
/// Both counters start at zero.
pub fn create_namespace(key: Key, bump: u8, ix: CreateNamespaceIx) -> (r: Result<
    Namespace,
    ErrorCode,
>)
    ensures
        r is Ok <==> valid_invalidation_config(ix.invalidation_type, ix.transferable_entries),
        r matches Ok(ns) ==> {
            &&& ns.key == key
            &&& ns.bump == bump
            &&& ns.name@ == ix.name@
            &&& ns.update_authority == ix.update_authority
            &&& ns.rent_authority == ix.rent_authority
            &&& ns.approve_authority == ix.approve_authority
            &&& ns.schema == ix.schema
            &&& ns.payment_amount_daily == ix.payment_amount_daily
            &&& ns.payment_mint == ix.payment_mint
            &&& ns.min_rental_seconds == ix.min_rental_seconds
            &&& ns.max_rental_seconds == ix.max_rental_seconds
            &&& ns.transferable_entries == ix.transferable_entries
            &&& ns.limit == ix.limit
            &&& ns.max_expiration == ix.max_expiration
            &&& ns.invalidation_type == ix.invalidation_type
            &&& ns.count == 0
            &&& ns.approved_count == 0
        },
        r is Err ==> r == Err::<Namespace, ErrorCode>(ErrorCode::InvalidInvalidationType),
{
    if ix.invalidation_type != INVALIDATION_TYPE_RETURN
        && ix.invalidation_type != INVALIDATION_TYPE_INVALIDATE
        && ix.invalidation_type != INVALIDATION_TYPE_RELEASE
        && ix.invalidation_type != INVALIDATION_TYPE_REISSUE {
        return Err(ErrorCode::InvalidInvalidationType);
    }
    if ix.invalidation_type == INVALIDATION_TYPE_RETURN && ix.transferable_entries {
        return Err(ErrorCode::InvalidInvalidationType);
    }
    Ok(
        Namespace {
            key,
            bump,
            name: ix.name,
            update_authority: ix.update_authority,
            rent_authority: ix.rent_authority,
            approve_authority: ix.approve_authority,
            schema: ix.schema,
            payment_amount_daily: ix.payment_amount_daily,
            payment_mint: ix.payment_mint,
            min_rental_seconds: ix.min_rental_seconds,
            max_rental_seconds: ix.max_rental_seconds,
            transferable_entries: ix.transferable_entries,
            limit: ix.limit,
            max_expiration: ix.max_expiration,
            invalidation_type: ix.invalidation_type,
            count: 0,
            approved_count: 0,
        },
    )
}

/// Replaces all policy fields of `namespace` atomically, provided the caller
/// presents the current update authority. The name, address, and both
/// counters are kept; on an error nothing changes.
pub fn update_namespace(
    namespace: &mut Namespace,
    update_authority: Key,
    ix: UpdateNamespaceIx,
) -> (r: Result<(), ErrorCode>)
    ensures
        r is Ok <==> old(namespace).update_authority == update_authority,
        r is Err ==> {
            &&& *final(namespace) == *old(namespace)
            &&& r == Err::<(), ErrorCode>(ErrorCode::InvalidUpdateAuthority)
        },
        r is Ok ==> {
            &&& final(namespace).key == old(namespace).key
            &&& final(namespace).bump == old(namespace).bump
            &&& final(namespace).name == old(namespace).name
            &&& final(namespace).count == old(namespace).count
            &&& final(namespace).approved_count == old(namespace).approved_count
            &&& final(namespace).update_authority == ix.update_authority
            &&& final(namespace).rent_authority == ix.rent_authority
            &&& final(namespace).approve_authority == ix.approve_authority
            &&& final(namespace).schema == ix.schema
            &&& final(namespace).payment_amount_daily == ix.payment_amount_daily
            &&& final(namespace).payment_mint == ix.payment_mint
            &&& final(namespace).min_rental_seconds == ix.min_rental_seconds
            &&& final(namespace).max_rental_seconds == ix.max_rental_seconds
            &&& final(namespace).transferable_entries == ix.transferable_entries
            &&& final(namespace).limit == ix.limit
            &&& final(namespace).max_expiration == ix.max_expiration
            &&& final(namespace).invalidation_type == ix.invalidation_type
        },
{
    if namespace.update_authority != update_authority {
        return Err(ErrorCode::InvalidUpdateAuthority);
    }
    namespace.update_authority = ix.update_authority;
    namespace.rent_authority = ix.rent_authority;
    namespace.approve_authority = ix.approve_authority;
    namespace.schema = ix.schema;
    namespace.payment_amount_daily = ix.payment_amount_daily;
    namespace.payment_mint = ix.payment_mint;
    namespace.min_rental_seconds = ix.min_rental_seconds;
    namespace.max_rental_seconds = ix.max_rental_seconds;
    namespace.transferable_entries = ix.transferable_entries;
    namespace.limit = ix.limit;
    namespace.max_expiration = ix.max_expiration;
    namespace.invalidation_type = ix.invalidation_type;
    Ok(())
}

} // verus!
