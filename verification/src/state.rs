use vstd::prelude::*;

verus! {

/// An account address on the surrounding ledger: wallets, mints and records
/// are all identified by such a key. The ledger guarantees that deterministic
/// derivation from a record's seed tuple always yields the same key, so two
/// operations that name the same tuple reference the identical record.
pub type Key = u64;

/// The key of an account that has never been assigned (an empty slot).
pub const KEY_UNSET: Key = 0;

/// Invalidation policy accepted by the custody service: the lease reverts to
/// the issuer when it ends.
pub const INVALIDATION_TYPE_RETURN: u8 = 1;

/// Invalidation policy: the custody record is marked invalid in place.
pub const INVALIDATION_TYPE_INVALIDATE: u8 = 2;

/// Invalidation policy: the token is released to its current holder.
pub const INVALIDATION_TYPE_RELEASE: u8 = 3;

/// Invalidation policy: the token is reissued by the issuer.
pub const INVALIDATION_TYPE_REISSUE: u8 = 4;

/// Custody record kind for freely transferable tokens.
pub const TOKEN_MANAGER_KIND_UNMANAGED: u8 = 2;

/// Custody record kind for single-owner, non-transferable edition tokens.
pub const TOKEN_MANAGER_KIND_EDITION: u8 = 3;

/// Custody record state once the record has been torn down.
pub const TOKEN_MANAGER_STATE_INVALIDATED: u8 = 3;

/// Legacy certificate state once the certificate has been torn down.
pub const CERTIFICATE_STATE_INVALIDATED: u8 = 3;

/// A naming domain with its policy: authorities, payment terms, rental
/// bounds, transferability, entry limit and invalidation policy, plus the
/// live-entry count it maintains.
pub struct Namespace {
    /// The namespace record's own address, derived from its name.
    pub key: Key,
    /// Derivation bump of the record's address.
    pub bump: u8,
    pub name: String,
    pub update_authority: Key,
    pub rent_authority: Key,
    pub approve_authority: Option<Key>,
    pub schema: u8,
    /// Daily leasing price; zero means entries are free.
    pub payment_amount_daily: u64,
    /// Mint in which leasing payments are made.
    pub payment_mint: Key,
    /// Exclusive lower bound on any requested rental duration.
    pub min_rental_seconds: i64,
    /// Exclusive upper bound on any requested rental duration; when set,
    /// every claim must supply a duration.
    pub max_rental_seconds: Option<i64>,
    pub transferable_entries: bool,
    /// Cap on the number of simultaneously claimed entries.
    pub limit: Option<u32>,
    /// Hard end of any lease, as a ledger timestamp.
    pub max_expiration: Option<i64>,
    /// One of the accepted invalidation policies; zero in a record that was
    /// written before the policy existed, read as a default elsewhere.
    pub invalidation_type: u8,
    /// Number of entries currently claimed in this namespace.
    pub count: u32,
    pub approved_count: u32,
}

/// A claimable name within a namespace, backed by a minted custody token
/// while claimed.
pub struct Entry {
    /// The entry record's own address, derived from the namespace key and
    /// the entry name.
    pub key: Key,
    /// Derivation bump of the record's address.
    pub bump: u8,
    /// Key of the owning namespace record.
    pub namespace: Key,
    pub name: String,
    /// Identity of the custody token backing this entry; `KEY_UNSET` when
    /// the entry has no mint.
    pub mint: Key,
    /// The claimant identity, while claimed.
    pub data: Option<Key>,
    pub is_claimed: bool,
    /// Key of the reverse entry record pointing back at this entry, if one
    /// was set.
    pub reverse_entry: Option<Key>,
    /// Incremented by every successful claim; approvals snapshot it, so a
    /// stale approval can never be consumed twice.
    pub claim_request_counter: u32,
}

/// An approval permitting one identity to claim one entry, guarded by a
/// staleness counter.
pub struct ClaimRequest {
    /// The request record's own address, derived from the namespace key, the
    /// entry name and the requestor.
    pub key: Key,
    /// Derivation bump of the record's address.
    pub bump: u8,
    /// Key of the namespace the request is for.
    pub namespace: Key,
    pub entry_name: String,
    pub requestor: Key,
    pub is_approved: bool,
    /// Snapshot of the entry's claim counter at approval time; zero when the
    /// entry did not yet exist.
    pub counter: u32,
}

/// A back-pointer from an owning identity to the entry it currently holds;
/// there is one reverse entry record per identity.
pub struct ReverseEntry {
    /// The reverse record's own address, derived from the owning identity.
    pub key: Key,
    /// Derivation bump of the record's address.
    pub bump: u8,
    pub namespace_name: String,
    pub entry_name: String,
}

/// What the core reads of a ledger token account: which mint it holds, who
/// owns it, and how many units it holds. Balances prove ownership.
#[derive(Clone, Copy, Debug, PartialEq, Eq, Structural)]
pub struct TokenAccount {
    pub mint: Key,
    pub owner: Key,
    pub amount: u64,
}

/// What the core reads of the external custody service's record for a mint:
/// never mutated directly, only validated.
#[derive(Clone, Copy, Debug, PartialEq, Eq, Structural)]
pub struct TokenManager {
    /// The custody record's own address, derived by the custody service from
    /// the mint.
    pub key: Key,
    pub mint: Key,
    pub issuer: Key,
    pub state: u8,
}

/// What the core reads of a legacy certificate, the deprecated ownership
/// proof format.
#[derive(Clone, Copy, Debug, PartialEq, Eq, Structural)]
pub struct Certificate {
    pub mint: Key,
    pub issuer: Key,
    pub state: u8,
}

/// An ownership proof supplied to the deprecated reverse-mapping path: the
/// caller resolves the supplied record by attempted parse, the modern
/// custody format first, falling back to the legacy certificate.
#[derive(Clone, Copy, Debug, PartialEq, Eq, Structural)]
pub enum OwnershipProof {
    Legacy(Certificate),
    Modern(TokenManager),
}

impl Entry {
    /// A fresh, unclaimed entry record for `name` under the namespace at
    /// `namespace`, as the ledger materialises it on first use.
    pub fn new(key: Key, bump: u8, namespace: Key, name: String) -> (r: Entry)
        ensures
            r.key == key,
            r.bump == bump,
            r.namespace == namespace,
            r.name@ == name@,
            r.mint == KEY_UNSET,
            r.data is None,
            !r.is_claimed,
            r.reverse_entry is None,
            r.claim_request_counter == 0,
    {
        Entry {
            key,
            bump,
            namespace,
            name,
            mint: KEY_UNSET,
            data: None,
            is_claimed: false,
            reverse_entry: None,
            claim_request_counter: 0,
        }
    }
}

impl ClaimRequest {
    /// A fresh, unapproved claim request record, as the ledger materialises
    /// it before the first approval writes it.
    pub fn new(key: Key, bump: u8) -> (r: ClaimRequest)
        ensures
            r.key == key,
            r.bump == bump,
            r.namespace == KEY_UNSET,
            r.entry_name@ == Seq::<char>::empty(),
            r.requestor == KEY_UNSET,
            !r.is_approved,
            r.counter == 0,
    {
        ClaimRequest {
            key,
            bump,
            namespace: KEY_UNSET,
            entry_name: String::new(),
            requestor: KEY_UNSET,
            is_approved: false,
            counter: 0,
        }
    }
}

impl ReverseEntry {
    /// A fresh reverse entry record for an identity, before any mapping was
    /// written into it.
    pub fn new(key: Key, bump: u8) -> (r: ReverseEntry)
        ensures
            r.key == key,
            r.bump == bump,
            r.namespace_name@ == Seq::<char>::empty(),
            r.entry_name@ == Seq::<char>::empty(),
    {
        ReverseEntry { key, bump, namespace_name: String::new(), entry_name: String::new() }
    }
}

} // verus!
