use vstd::prelude::*;

use crate::errors::ErrorCode;
use crate::state::{
    ClaimRequest, Entry, Key, Namespace, TokenAccount, INVALIDATION_TYPE_INVALIDATE,
    INVALIDATION_TYPE_RETURN, TOKEN_MANAGER_KIND_EDITION, TOKEN_MANAGER_KIND_UNMANAGED,
};
use crate::text::{metadata_uri, spec_metadata_uri};

verus! {

broadcast use vstd::string::group_string_axioms;

/// Seconds of lease bought by one daily payment.
pub const SECONDS_PER_DAY: i64 = 86400;

/// The accounts a claim must supply when the namespace charges a daily
/// payment or enforces a hard expiration: the payment mint presented by the
/// caller, the payment manager, and the address the time-based invalidator
/// record will live at.
#[derive(Clone, Copy, Debug, PartialEq, Eq, Structural)]
pub struct PaymentAccounts {
    pub payment_mint: Key,
    pub payment_manager: Key,
    pub time_invalidator: Key,
}

/// The closure of the consumed claim request: a request is consumed exactly
/// once, its record closed and its storage rent returned to the payer.
#[derive(Clone, Copy, Debug, PartialEq, Eq, Structural)]
pub struct RequestClosure {
    /// The claim request record to close.
    pub request: Key,
    /// Who receives the closed record's storage rent.
    pub rent_to: Key,
}

/// The shape of the brand-new token identity a claim mints: an indivisible
/// asset whose single unit goes to the namespace's holding account, under
/// the namespace's sole authority, and finalised as non-further-mintable.
#[derive(Clone, Copy, Debug, PartialEq, Eq, Structural)]
pub struct MintInit {
    pub decimals: u8,
    /// Units minted, all into the namespace's holding account.
    pub amount: u64,
    /// Owner of the holding account the minted unit lands in.
    pub holding_account_owner: Key,
    pub mint_authority: Key,
    pub freeze_authority: Option<Key>,
    /// Cap on further editions of the finalised asset.
    pub edition_max_supply: Option<u64>,
}

/// The descriptive record registered for a freshly minted entry token.
pub struct MintMetadata {
    pub name: String,
    pub symbol: String,
    pub uri: String,
    pub creator: Key,
    pub creator_share: u8,
}

/// The parameters of the custody service's `init` call for a new claim.
#[derive(Clone, Copy, Debug, PartialEq, Eq, Structural)]
pub struct TokenManagerInit {
    pub amount: u64,
    pub kind: u8,
    pub invalidation_type: u8,
    pub num_invalidators: u8,
}

/// The parameters of the time-based invalidator's `init` call.
#[derive(Clone, Copy, Debug, PartialEq, Eq, Structural)]
pub struct TimeInvalidatorInit {
    pub collector: Key,
    pub payment_manager: Key,
    pub duration_seconds: Option<i64>,
    pub extension_payment_amount: Option<u64>,
    pub extension_duration_seconds: Option<i64>,
    pub extension_payment_mint: Option<Key>,
    pub max_expiration: Option<i64>,
}

/// The external custody calls a successful claim commits the ledger to:
/// close the consumed claim request, initialise the custody record, register
/// each invalidator on it, register the optional time-based invalidator,
/// issue, hand the token to the claimant, and optionally pay for the
/// requested lease up front.
pub struct ClaimIssuance {
    pub request_closure: RequestClosure,
    pub token_manager_init: TokenManagerInit,
    pub invalidators: Vec<Key>,
    pub time_invalidator_init: Option<TimeInvalidatorInit>,
    pub extend_expiration_seconds: Option<u64>,
}

/// Everything a successful composite claim hands to the surrounding ledger:
/// the shape and description of the fresh mint, and the custody calls to
/// make.
pub struct ClaimPlan {
    pub mint_init: MintInit,
    pub metadata: MintMetadata,
    pub issuance: ClaimIssuance,
}

/// Whether claims in this namespace need a time-based invalidator beside the
/// namespace itself: they do when the namespace charges a daily payment or
/// enforces a hard expiration.
pub open spec fn spec_needs_time_invalidator(namespace: Namespace) -> bool {
    namespace.payment_amount_daily > 0 || namespace.max_expiration is Some
}

/// The custody record kind a namespace's entries are issued under:
/// unmanaged for transferable entries, a single-owner edition otherwise.
pub open spec fn spec_token_manager_kind(namespace: Namespace) -> u8 {
    if namespace.transferable_entries {
        TOKEN_MANAGER_KIND_UNMANAGED
    } else {
        TOKEN_MANAGER_KIND_EDITION
    }
}

/// The invalidation policy a claim passes to the custody service: the
/// namespace's configured policy, or, where a namespace record predates the
/// policy field, invalidate-in-place for transferable entries and return to
/// the namespace otherwise.
pub open spec fn spec_claim_invalidation_type(namespace: Namespace) -> u8 {
    if namespace.invalidation_type == 0 {
        if namespace.transferable_entries {
            INVALIDATION_TYPE_INVALIDATE
        } else {
            INVALIDATION_TYPE_RETURN
        }
    } else {
        namespace.invalidation_type
    }
}

/// The first reason a claim fails, or `None` where it succeeds: the
/// namespace must hold exactly the one unit backing the entry's current
/// mint; the consumed request must be approved, must be for this namespace,
/// entry and requestor, and must carry the entry's current claim counter;
/// the namespace's entry limit must leave room; a supplied duration must lie
/// strictly between the rental bounds, and a namespace with a maximum
/// demands one; and where a time-based invalidator is needed, the payment
/// accounts must be supplied and present the namespace's payment mint.
pub open spec fn spec_claim_error(
    namespace: Namespace,
    name_entry: Entry,
    claim_request: ClaimRequest,
    payer: Key,
    namespace_token_account: TokenAccount,
    payment: Option<PaymentAccounts>,
    duration: Option<i64>,
) -> Option<ErrorCode> {
    if !(namespace_token_account.mint == name_entry.mint && namespace_token_account.owner
        == namespace.key && namespace_token_account.amount == 1) {
        Some(ErrorCode::NamespaceRequiresToken)
    } else if !(claim_request.is_approved && claim_request.namespace == namespace.key
        && claim_request.entry_name@ == name_entry.name@ && claim_request.requestor == payer
        && claim_request.counter == name_entry.claim_request_counter) {
        Some(ErrorCode::ClaimNotAllowed)
    } else if namespace.limit matches Some(l) && namespace.count + 1 > l {
        Some(ErrorCode::NamespaceReachedLimit)
    } else if duration matches Some(d) && d <= namespace.min_rental_seconds {
        Some(ErrorCode::RentalDurationTooSmall)
    } else if duration matches Some(d) && namespace.max_rental_seconds matches Some(m) && d >= m {
        Some(ErrorCode::RentalDurationTooLarge)
    } else if duration is None && namespace.max_rental_seconds is Some {
        Some(ErrorCode::NamespaceRequiresDuration)
    } else if spec_needs_time_invalidator(namespace) && payment is None {
        Some(ErrorCode::NotEnoughAccountKeys)
    } else if spec_needs_time_invalidator(namespace) && (payment matches Some(p)
        && p.payment_mint != namespace.payment_mint) {
        Some(ErrorCode::InvalidPaymentMint)
    } else {
        None
    }
}

/// The shape of the fresh mint a successful claim creates for `namespace`:
/// an indivisible token, its one unit in the namespace's holding account,
/// both authorities held by the namespace, and no further editions.
pub open spec fn spec_mint_init_ok(mint_init: MintInit, namespace: Namespace) -> bool {
    &&& mint_init.decimals == 0
    &&& mint_init.amount == 1
    &&& mint_init.holding_account_owner == namespace.key
    &&& mint_init.mint_authority == namespace.key
    &&& mint_init.freeze_authority == Some(namespace.key)
    &&& mint_init.edition_max_supply == Some(0u64)
}

/// What a successful claim commits the custody service to, given the
/// namespace and the consumed request as they were before the claim.
pub open spec fn spec_issuance_ok(
    issuance: ClaimIssuance,
    namespace: Namespace,
    claim_request: ClaimRequest,
    payer: Key,
    payment: Option<PaymentAccounts>,
    duration: Option<i64>,
) -> bool {
    &&& issuance.request_closure == (RequestClosure { request: claim_request.key, rent_to: payer })
    &&& issuance.token_manager_init.amount == 1
    &&& issuance.token_manager_init.kind == spec_token_manager_kind(namespace)
    &&& issuance.token_manager_init.invalidation_type == spec_claim_invalidation_type(namespace)
    &&& issuance.token_manager_init.num_invalidators == (
        if spec_needs_time_invalidator(namespace) {
            2u8
        } else {
            1u8
        }
    )
    &&& if spec_needs_time_invalidator(namespace) {
        &&& payment matches Some(p)
        &&& issuance.invalidators@ == seq![namespace.key, p.time_invalidator]
        &&& issuance.time_invalidator_init matches Some(ti)
        &&& ti.collector == namespace.key
        &&& ti.payment_manager == p.payment_manager
        &&& ti.duration_seconds == (
            if namespace.payment_amount_daily > 0 {
                Some(0i64)
            } else {
                None::<i64>
            }
        )
        &&& ti.extension_payment_amount == (
            if namespace.payment_amount_daily > 0 {
                Some(namespace.payment_amount_daily)
            } else {
                None::<u64>
            }
        )
        &&& ti.extension_duration_seconds == (
            if namespace.payment_amount_daily > 0 {
                Some(SECONDS_PER_DAY)
            } else {
                None::<i64>
            }
        )
        &&& ti.extension_payment_mint == (
            if namespace.payment_amount_daily > 0 {
                Some(namespace.payment_mint)
            } else {
                None::<Key>
            }
        )
        &&& ti.max_expiration == namespace.max_expiration
    } else {
        &&& issuance.invalidators@ == seq![namespace.key]
        &&& issuance.time_invalidator_init is None
    }
    &&& issuance.extend_expiration_seconds == (
        if namespace.payment_amount_daily > 0 && (duration matches Some(d) && d > 0) {
            Some(duration->0 as u64)
        } else {
            None::<u64>
        }
    )
}

/// Consumes an approved, still-fresh claim request and records the claim:
/// the claimant is written into the entry, the entry becomes claimed, its
/// claim counter and the namespace's live-entry count each go up by one, and
/// the custody calls to issue the token are returned, the consumed request's
/// closure among them. Any failure leaves both records untouched.
pub fn claim(
    namespace: &mut Namespace,
    name_entry: &mut Entry,
    claim_request: &ClaimRequest,
    payer: Key,
    namespace_token_account: TokenAccount,
    payment: Option<PaymentAccounts>,
    duration: Option<i64>,
) -> (r: Result<ClaimIssuance, ErrorCode>)
    requires
        old(name_entry).claim_request_counter < u32::MAX,
        old(namespace).count < u32::MAX,
    ensures
        r is Err <==> spec_claim_error(
            *old(namespace),
            *old(name_entry),
            *claim_request,
            payer,
            namespace_token_account,
            payment,
            duration,
        ) is Some,
        r matches Err(e) ==> {
            &&& Some(e) == spec_claim_error(
                *old(namespace),
                *old(name_entry),
                *claim_request,
                payer,
                namespace_token_account,
                payment,
                duration,
            )
            &&& *final(namespace) == *old(namespace)
            &&& *final(name_entry) == *old(name_entry)
        },
        claim_request.counter != old(name_entry).claim_request_counter ==> r is Err,
        r is Ok ==> {
            &&& final(name_entry).key == old(name_entry).key
            &&& final(name_entry).bump == old(name_entry).bump
            &&& final(name_entry).namespace == old(name_entry).namespace
            &&& final(name_entry).name == old(name_entry).name
            &&& final(name_entry).mint == old(name_entry).mint
            &&& final(name_entry).data == Some(payer)
            &&& final(name_entry).is_claimed
            &&& final(name_entry).reverse_entry == old(name_entry).reverse_entry
            &&& final(name_entry).claim_request_counter == old(
                name_entry,
            ).claim_request_counter + 1
            &&& *final(namespace) == (Namespace {
                count: (old(namespace).count + 1) as u32,
                ..*old(namespace)
            })
            &&& old(namespace).limit matches Some(l) ==> final(namespace).count <= l
        },
        r matches Ok(issuance) ==> spec_issuance_ok(
            issuance,
            *old(namespace),
            *claim_request,
            payer,
            payment,
            duration,
        ),
{
    if !(namespace_token_account.mint == name_entry.mint && namespace_token_account.owner
        == namespace.key && namespace_token_account.amount == 1) {
        return Err(ErrorCode::NamespaceRequiresToken);
    }
    let request_ok = claim_request.is_approved && claim_request.namespace == namespace.key
        && claim_request.entry_name == name_entry.name && claim_request.requestor == payer
        && claim_request.counter == name_entry.claim_request_counter;
    if !request_ok {
        return Err(ErrorCode::ClaimNotAllowed);
    }
    match namespace.limit {
        Some(l) => {
            if namespace.count >= l {
                return Err(ErrorCode::NamespaceReachedLimit);
            }
        },
        None => {},
    }
    match duration {
        Some(d) => {
            if d <= namespace.min_rental_seconds {
                return Err(ErrorCode::RentalDurationTooSmall);
            }
            match namespace.max_rental_seconds {
                Some(m) => {
                    if d >= m {
                        return Err(ErrorCode::RentalDurationTooLarge);
                    }
                },
                None => {},
            }
        },
        None => {
            if namespace.max_rental_seconds.is_some() {
                return Err(ErrorCode::NamespaceRequiresDuration);
            }
        },
    }
    let needs_time_invalidator = namespace.payment_amount_daily > 0
        || namespace.max_expiration.is_some();
    let mut invalidators: Vec<Key> = Vec::new();
    invalidators.push(namespace.key);
    let mut time_invalidator_init: Option<TimeInvalidatorInit> = None;
    if needs_time_invalidator {
        let accounts = match payment {
            Some(p) => p,
            None => {
                return Err(ErrorCode::NotEnoughAccountKeys);
            },
        };
        if accounts.payment_mint != namespace.payment_mint {
            return Err(ErrorCode::InvalidPaymentMint);
        }
        let charging = namespace.payment_amount_daily > 0;
        time_invalidator_init = Some(
            TimeInvalidatorInit {
                collector: namespace.key,
                payment_manager: accounts.payment_manager,
                duration_seconds: if charging {
                    Some(0)
                } else {
                    None
                },
                extension_payment_amount: if charging {
                    Some(namespace.payment_amount_daily)
                } else {
                    None
                },
                extension_duration_seconds: if charging {
                    Some(SECONDS_PER_DAY)
                } else {
                    None
                },
                extension_payment_mint: if charging {
                    Some(namespace.payment_mint)
                } else {
                    None
                },
                max_expiration: namespace.max_expiration,
            },
        );
        invalidators.push(accounts.time_invalidator);
    }
    name_entry.data = Some(payer);
    name_entry.is_claimed = true;
    name_entry.claim_request_counter = name_entry.claim_request_counter + 1;
    namespace.count = namespace.count + 1;
    let extend_expiration_seconds: Option<u64> = if namespace.payment_amount_daily > 0 {
        match duration {
            Some(d) => if d > 0 {
                Some(d as u64)
            } else {
                None
            },
            None => None,
        }
    } else {
        None
    };
    let issuance = ClaimIssuance {
        request_closure: RequestClosure { request: claim_request.key, rent_to: payer },
        token_manager_init: TokenManagerInit {
            amount: 1,
            kind: if namespace.transferable_entries {
                TOKEN_MANAGER_KIND_UNMANAGED
            } else {
                TOKEN_MANAGER_KIND_EDITION
            },
            invalidation_type: if namespace.invalidation_type == 0 {
                if namespace.transferable_entries {
                    INVALIDATION_TYPE_INVALIDATE
                } else {
                    INVALIDATION_TYPE_RETURN
                }
            } else {
                namespace.invalidation_type
            },
            num_invalidators: if needs_time_invalidator {
                2
            } else {
                1
            },
        },
        invalidators,
        time_invalidator_init,
        extend_expiration_seconds,
    };
    proof {
        if spec_needs_time_invalidator(*old(namespace)) {
            assert(issuance.invalidators@ =~= seq![
                old(namespace).key,
                payment->0.time_invalidator,
            ]);
        } else {
            assert(issuance.invalidators@ =~= seq![old(namespace).key]);
        }
    }
    Ok(issuance)
}

/// Binds the entry to its namespace and to the freshly derived mint, fixes
/// the shape of the new token — indivisible, one unit to the namespace's
/// holding account, the namespace as both authorities, finalised with no
/// further editions — and builds its descriptive record: named after the
/// namespace, referencing the entry name in its asset-description address,
/// with the namespace as its sole, fully credited creator.
fn init_name_entry_mint(namespace: &Namespace, name_entry: &mut Entry, mint: Key) -> (r: (
    MintInit,
    MintMetadata,
))
    ensures
        final(name_entry).key == old(name_entry).key,
        final(name_entry).bump == old(name_entry).bump,
        final(name_entry).namespace == namespace.key,
        final(name_entry).name == old(name_entry).name,
        final(name_entry).mint == mint,
        final(name_entry).data == old(name_entry).data,
        final(name_entry).is_claimed == old(name_entry).is_claimed,
        final(name_entry).reverse_entry == old(name_entry).reverse_entry,
        final(name_entry).claim_request_counter == old(name_entry).claim_request_counter,
        spec_mint_init_ok(r.0, *namespace),
        r.1.name@ == namespace.name@,
        r.1.symbol@ == "NAME"@,
        r.1.uri@ == spec_metadata_uri(mint, old(name_entry).name@),
        r.1.creator == namespace.key,
        r.1.creator_share == 100,
{
    name_entry.namespace = namespace.key;
    name_entry.mint = mint;
    let mint_init = MintInit {
        decimals: 0,
        amount: 1,
        holding_account_owner: namespace.key,
        mint_authority: namespace.key,
        freeze_authority: Some(namespace.key),
        edition_max_supply: Some(0),
    };
    let uri = metadata_uri(mint, name_entry.name.as_str());
    let metadata = MintMetadata {
        name: namespace.name.clone(),
        symbol: "NAME".to_string(),
        uri,
        creator: namespace.key,
        creator_share: 100,
    };
    (mint_init, metadata)
}

/// The composite mint-and-claim operation: mints a brand-new token identity
/// for the entry, describes it, consumes the approved claim request carried
/// by `payer`, and hands back every external custody call the ledger must
/// perform. The whole operation is all-or-nothing: any failure leaves both
/// records exactly as they were, and no external call is planned.
pub fn migrate_name_entry_mint(
    namespace: &mut Namespace,
    name_entry: &mut Entry,
    claim_request: &ClaimRequest,
    payer: Key,
    mint: Key,
    namespace_token_account: TokenAccount,
    payment: Option<PaymentAccounts>,
    duration: Option<i64>,
) -> (r: Result<ClaimPlan, ErrorCode>)
    requires
        old(name_entry).claim_request_counter < u32::MAX,
        old(namespace).count < u32::MAX,
    ensures
        r is Err <==> spec_claim_error(
            *old(namespace),
            *old(name_entry),
            *claim_request,
            payer,
            namespace_token_account,
            payment,
            duration,
        ) is Some,
        r matches Err(e) ==> {
            &&& Some(e) == spec_claim_error(
                *old(namespace),
                *old(name_entry),
                *claim_request,
                payer,
                namespace_token_account,
                payment,
                duration,
            )
            &&& *final(namespace) == *old(namespace)
            &&& *final(name_entry) == *old(name_entry)
        },
        claim_request.counter != old(name_entry).claim_request_counter ==> r is Err,
        r is Ok ==> {
            &&& final(name_entry).key == old(name_entry).key
            &&& final(name_entry).bump == old(name_entry).bump
            &&& final(name_entry).namespace == old(namespace).key
            &&& final(name_entry).name == old(name_entry).name
            &&& final(name_entry).mint == mint
            &&& final(name_entry).data == Some(payer)
            &&& final(name_entry).is_claimed
            &&& final(name_entry).reverse_entry == old(name_entry).reverse_entry
            &&& final(name_entry).claim_request_counter == old(
                name_entry,
            ).claim_request_counter + 1
            &&& *final(namespace) == (Namespace {
                count: (old(namespace).count + 1) as u32,
                ..*old(namespace)
            })
            &&& old(namespace).limit matches Some(l) ==> final(namespace).count <= l
        },
        r matches Ok(plan) ==> {
            &&& spec_issuance_ok(
                plan.issuance,
                *old(namespace),
                *claim_request,
                payer,
                payment,
                duration,
            )
            &&& spec_mint_init_ok(plan.mint_init, *old(namespace))
            &&& plan.metadata.name@ == old(namespace).name@
            &&& plan.metadata.symbol@ == "NAME"@
            &&& plan.metadata.uri@ == spec_metadata_uri(mint, old(name_entry).name@)
            &&& plan.metadata.creator == old(namespace).key
            &&& plan.metadata.creator_share == 100
        },
{
    let issuance = match claim(
        namespace,
        name_entry,
        claim_request,
        payer,
        namespace_token_account,
        payment,
        duration,
    ) {
        Ok(issuance) => issuance,
        Err(e) => {
            return Err(e);
        },
    };
    let (mint_init, metadata) = init_name_entry_mint(namespace, name_entry, mint);
    Ok(ClaimPlan { mint_init, metadata, issuance })
}

/// Replay protection: a claim that consumes a request whose counter snapshot
/// differs from the entry's current claim counter always fails, whether or
/// not the request is approved; and where the namespace holds the entry's
/// backing token, it fails with the staleness error itself.
pub proof fn lemma_replay_protection(
    namespace: Namespace,
    name_entry: Entry,
    claim_request: ClaimRequest,
    payer: Key,
    namespace_token_account: TokenAccount,
    payment: Option<PaymentAccounts>,
    duration: Option<i64>,
)
    requires
        claim_request.counter != name_entry.claim_request_counter,
    ensures
        spec_claim_error(
            namespace,
            name_entry,
            claim_request,
            payer,
            namespace_token_account,
            payment,
            duration,
        ) is Some,
        (namespace_token_account.mint == name_entry.mint && namespace_token_account.owner
            == namespace.key && namespace_token_account.amount == 1) ==> spec_claim_error(
            namespace,
            name_entry,
            claim_request,
            payer,
            namespace_token_account,
            payment,
            duration,
        ) == Some(ErrorCode::ClaimNotAllowed),
{
}

} // verus!
