use cardinal_namespaces::errors::ErrorCode;
use cardinal_namespaces::namespace::{create_namespace, CreateNamespaceIx};
use cardinal_namespaces::reverse_entry::{
    invalidate_transferable_reverse_name_entry, set_global_reverse_entry, set_reverse_entry,
};
use cardinal_namespaces::state::{
    Certificate, Entry, Namespace, OwnershipProof, ReverseEntry, TokenAccount, TokenManager,
    CERTIFICATE_STATE_INVALIDATED, INVALIDATION_TYPE_INVALIDATE, TOKEN_MANAGER_STATE_INVALIDATED,
};

const NS_KEY: u64 = 7;
const USER: u64 = 5;

fn make_namespace() -> Namespace {
    create_namespace(
        NS_KEY,
        254,
        CreateNamespaceIx {
            name: "names".to_string(),
            update_authority: 11,
            rent_authority: 12,
            approve_authority: Some(13),
            schema: 0,
            payment_amount_daily: 0,
            payment_mint: 40,
            min_rental_seconds: 0,
            max_rental_seconds: None,
            transferable_entries: true,
            limit: None,
            max_expiration: None,
            invalidation_type: INVALIDATION_TYPE_INVALIDATE,
        },
    )
    .unwrap()
}

fn claimed_entry() -> Entry {
    let mut entry = Entry::new(8, 252, NS_KEY, "alice".to_string());
    entry.mint = 123;
    entry.data = Some(USER);
    entry.is_claimed = true;
    entry
}

fn holder_token(entry: &Entry) -> TokenAccount {
    TokenAccount { mint: entry.mint, owner: USER, amount: 1 }
}

fn live_token_manager(entry: &Entry) -> TokenManager {
    TokenManager { key: 70, mint: entry.mint, issuer: NS_KEY, state: 2 }
}

#[test]
fn set_reverse_links_both_sides() {
    let ns = make_namespace();
    let mut entry = claimed_entry();
    let mut reverse = ReverseEntry::new(30, 250);
    let token = holder_token(&entry);
    let tm = live_token_manager(&entry);
    set_global_reverse_entry(&ns, &mut entry, &mut reverse, USER, token, Some(tm)).unwrap();
    // Forward/reverse consistency: the entry points at the record, and the
    // record names exactly the entry and its namespace.
    assert_eq!(entry.reverse_entry, Some(30));
    assert_eq!(reverse.namespace_name, "names");
    assert_eq!(reverse.entry_name, "alice");
}

#[test]
fn set_reverse_rejects_caller_without_balance() {
    let ns = make_namespace();
    let mut entry = claimed_entry();
    let mut reverse = ReverseEntry::new(30, 250);
    let token = TokenAccount { mint: entry.mint, owner: USER, amount: 0 };
    let tm = live_token_manager(&entry);
    let r = set_global_reverse_entry(&ns, &mut entry, &mut reverse, USER, token, Some(tm));
    assert!(matches!(r, Err(ErrorCode::InvalidOwnerMint)));
    assert_eq!(entry.reverse_entry, None);
    assert_eq!(reverse.entry_name, "");
}

#[test]
fn set_reverse_rejects_invalidated_custody_record() {
    let ns = make_namespace();
    let mut entry = claimed_entry();
    let mut reverse = ReverseEntry::new(30, 250);
    let token = holder_token(&entry);
    let mut tm = live_token_manager(&entry);
    tm.state = TOKEN_MANAGER_STATE_INVALIDATED;
    let r = set_global_reverse_entry(&ns, &mut entry, &mut reverse, USER, token, Some(tm));
    assert!(matches!(r, Err(ErrorCode::InvalidTokenManager)));
    assert_eq!(entry.reverse_entry, None);
}

#[test]
fn set_reverse_rejects_missing_custody_record() {
    let ns = make_namespace();
    let mut entry = claimed_entry();
    let mut reverse = ReverseEntry::new(30, 250);
    let token = holder_token(&entry);
    let r = set_global_reverse_entry(&ns, &mut entry, &mut reverse, USER, token, None);
    assert!(matches!(r, Err(ErrorCode::InvalidTokenManager)));
}

#[test]
fn deprecated_set_reverse_accepts_live_certificate() {
    let ns = make_namespace();
    let mut entry = claimed_entry();
    let mut reverse = ReverseEntry::new(30, 250);
    let token = holder_token(&entry);
    let certificate = Certificate { mint: entry.mint, issuer: NS_KEY, state: 1 };
    set_reverse_entry(
        &ns,
        &mut entry,
        &mut reverse,
        USER,
        token,
        OwnershipProof::Legacy(certificate),
    )
    .unwrap();
    assert_eq!(entry.reverse_entry, Some(30));
    assert_eq!(reverse.namespace_name, "names");
    assert_eq!(reverse.entry_name, "alice");
}

#[test]
fn deprecated_set_reverse_rejects_invalidated_certificate() {
    let ns = make_namespace();
    let mut entry = claimed_entry();
    let mut reverse = ReverseEntry::new(30, 250);
    let token = holder_token(&entry);
    let certificate = Certificate {
        mint: entry.mint,
        issuer: NS_KEY,
        state: CERTIFICATE_STATE_INVALIDATED,
    };
    let r = set_reverse_entry(
        &ns,
        &mut entry,
        &mut reverse,
        USER,
        token,
        OwnershipProof::Legacy(certificate),
    );
    assert!(matches!(r, Err(ErrorCode::InvalidCertificate)));
    assert_eq!(entry.reverse_entry, None);
}

#[test]
fn deprecated_set_reverse_falls_back_to_custody_record() {
    let ns = make_namespace();
    let mut entry = claimed_entry();
    let mut reverse = ReverseEntry::new(30, 250);
    let token = holder_token(&entry);
    let tm = live_token_manager(&entry);
    set_reverse_entry(
        &ns,
        &mut entry,
        &mut reverse,
        USER,
        token,
        OwnershipProof::Modern(tm),
    )
    .unwrap();
    assert_eq!(entry.reverse_entry, Some(30));

    let mut entry2 = claimed_entry();
    let mut reverse2 = ReverseEntry::new(30, 250);
    let mut dead = live_token_manager(&entry2);
    dead.state = TOKEN_MANAGER_STATE_INVALIDATED;
    let token2 = holder_token(&entry2);
    let r = set_reverse_entry(
        &ns,
        &mut entry2,
        &mut reverse2,
        USER,
        token2,
        OwnershipProof::Modern(dead),
    );
    assert!(matches!(r, Err(ErrorCode::InvalidTokenManager)));
}

#[test]
fn invalidate_reverse_clears_forward_pointer() {
    let ns = make_namespace();
    let mut entry = claimed_entry();
    entry.reverse_entry = Some(30);
    let reverse = ReverseEntry {
        key: 30,
        bump: 250,
        namespace_name: "names".to_string(),
        entry_name: "alice".to_string(),
    };
    let tm = TokenManager {
        key: 70,
        mint: entry.mint,
        issuer: NS_KEY,
        state: TOKEN_MANAGER_STATE_INVALIDATED,
    };
    invalidate_transferable_reverse_name_entry(&ns, &mut entry, &reverse, Some(tm)).unwrap();
    assert_eq!(entry.reverse_entry, None);
}

#[test]
fn invalidate_reverse_rejects_name_mismatch() {
    let ns = make_namespace();
    let mut entry = claimed_entry();
    entry.reverse_entry = Some(30);
    let reverse = ReverseEntry {
        key: 30,
        bump: 250,
        namespace_name: "names".to_string(),
        entry_name: "bob".to_string(),
    };
    let r = invalidate_transferable_reverse_name_entry(&ns, &mut entry, &reverse, None);
    assert!(matches!(r, Err(ErrorCode::InvalidReverseEntry)));
    assert_eq!(entry.reverse_entry, Some(30));
}

#[test]
fn invalidate_reverse_rejects_foreign_entry() {
    let ns = make_namespace();
    let mut entry = claimed_entry();
    entry.namespace = 99;
    entry.reverse_entry = Some(30);
    let reverse = ReverseEntry {
        key: 30,
        bump: 250,
        namespace_name: "names".to_string(),
        entry_name: "alice".to_string(),
    };
    let r = invalidate_transferable_reverse_name_entry(&ns, &mut entry, &reverse, None);
    assert!(matches!(r, Err(ErrorCode::InvalidEntry)));
}

#[test]
fn invalidate_reverse_rejects_live_custody_record() {
    let ns = make_namespace();
    let mut entry = claimed_entry();
    entry.reverse_entry = Some(30);
    let reverse = ReverseEntry {
        key: 30,
        bump: 250,
        namespace_name: "names".to_string(),
        entry_name: "alice".to_string(),
    };
    let tm = live_token_manager(&entry);
    let r = invalidate_transferable_reverse_name_entry(&ns, &mut entry, &reverse, Some(tm));
    assert!(matches!(r, Err(ErrorCode::InvalidTokenManager)));
    assert_eq!(entry.reverse_entry, Some(30));
}
