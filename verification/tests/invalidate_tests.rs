use cardinal_namespaces::errors::ErrorCode;
use cardinal_namespaces::name_entry::{
    invalidate_expired_name_entry, invalidate_transferable_name_entry,
};
use cardinal_namespaces::namespace::{create_namespace, CreateNamespaceIx};
use cardinal_namespaces::state::{
    Entry, Namespace, ReverseEntry, TokenAccount, TokenManager, INVALIDATION_TYPE_INVALIDATE,
    TOKEN_MANAGER_STATE_INVALIDATED,
};

const NS_KEY: u64 = 7;

fn make_namespace(count: u32) -> Namespace {
    let mut ns = create_namespace(
        NS_KEY,
        254,
        CreateNamespaceIx {
            name: "names".to_string(),
            update_authority: 11,
            rent_authority: 12,
            approve_authority: Some(13),
            schema: 0,
            payment_amount_daily: 0,
            payment_mint: 40,
            min_rental_seconds: 0,
            max_rental_seconds: None,
            transferable_entries: false,
            limit: None,
            max_expiration: None,
            invalidation_type: INVALIDATION_TYPE_INVALIDATE,
        },
    )
    .unwrap();
    ns.count = count;
    ns
}

fn claimed_entry() -> Entry {
    let mut entry = Entry::new(8, 252, NS_KEY, "alice".to_string());
    entry.mint = 123;
    entry.data = Some(5);
    entry.is_claimed = true;
    entry.claim_request_counter = 1;
    entry
}

fn reverted_token(entry: &Entry) -> TokenAccount {
    TokenAccount { mint: entry.mint, owner: NS_KEY, amount: 1 }
}

fn matching_reverse(entry: &Entry) -> ReverseEntry {
    ReverseEntry {
        key: 30,
        bump: 250,
        namespace_name: "names".to_string(),
        entry_name: entry.name.clone(),
    }
}

#[test]
fn invalidate_expired_decrements_count_and_clears_entry() {
    let mut ns = make_namespace(2);
    let mut entry = claimed_entry();
    let token = reverted_token(&entry);
    let closed = invalidate_expired_name_entry(&mut ns, &mut entry, token, None).unwrap();
    assert!(!closed);
    assert_eq!(ns.count, 1);
    assert_eq!(entry.data, None);
    assert!(!entry.is_claimed);
    assert_eq!(entry.reverse_entry, None);
    assert_eq!(entry.mint, 123);
    assert_eq!(entry.claim_request_counter, 1);
}

#[test]
fn invalidate_expired_closes_matching_reverse_entry() {
    let mut ns = make_namespace(1);
    let mut entry = claimed_entry();
    entry.reverse_entry = Some(30);
    let reverse = matching_reverse(&entry);
    let token = reverted_token(&entry);
    let closed =
        invalidate_expired_name_entry(&mut ns, &mut entry, token, Some(&reverse)).unwrap();
    assert!(closed);
    assert_eq!(entry.reverse_entry, None);
    assert_eq!(ns.count, 0);
}

#[test]
fn invalidate_expired_keeps_mismatched_reverse_entry_open() {
    let mut ns = make_namespace(1);
    let mut entry = claimed_entry();
    entry.reverse_entry = Some(30);
    let mut reverse = matching_reverse(&entry);
    reverse.entry_name = "bob".to_string();
    let token = reverted_token(&entry);
    let closed =
        invalidate_expired_name_entry(&mut ns, &mut entry, token, Some(&reverse)).unwrap();
    assert!(!closed);
    assert_eq!(entry.reverse_entry, None);
}

#[test]
fn invalidate_expired_requires_reverse_record_when_pointer_set() {
    let mut ns = make_namespace(1);
    let mut entry = claimed_entry();
    entry.reverse_entry = Some(30);
    let token = reverted_token(&entry);
    let r = invalidate_expired_name_entry(&mut ns, &mut entry, token, None);
    assert!(matches!(r, Err(ErrorCode::NotEnoughAccountKeys)));
    assert_eq!(ns.count, 1);
    assert_eq!(entry.data, Some(5));
}

#[test]
fn invalidate_expired_fails_on_zero_count() {
    let mut ns = make_namespace(0);
    let mut entry = claimed_entry();
    let token = reverted_token(&entry);
    let r = invalidate_expired_name_entry(&mut ns, &mut entry, token, None);
    assert!(matches!(r, Err(ErrorCode::CountUnderflow)));
    assert_eq!(ns.count, 0);
    assert_eq!(entry.data, Some(5));
    assert!(entry.is_claimed);
}

#[test]
fn invalidate_expired_rejects_foreign_entry() {
    let mut ns = make_namespace(1);
    let mut entry = claimed_entry();
    entry.namespace = 99;
    let token = reverted_token(&entry);
    let r = invalidate_expired_name_entry(&mut ns, &mut entry, token, None);
    assert!(matches!(r, Err(ErrorCode::InvalidEntry)));
}

#[test]
fn invalidate_expired_rejects_unreverted_token() {
    let mut ns = make_namespace(1);
    let mut entry = claimed_entry();
    let token = TokenAccount { mint: entry.mint, owner: 5, amount: 1 };
    let r = invalidate_expired_name_entry(&mut ns, &mut entry, token, None);
    assert!(matches!(r, Err(ErrorCode::NamespaceRequiresToken)));
}

#[test]
fn invalidate_transferable_resets_mint_and_decrements() {
    let mut ns = make_namespace(3);
    let mut entry = claimed_entry();
    entry.reverse_entry = Some(30);
    let tm = TokenManager {
        key: 70,
        mint: entry.mint,
        issuer: NS_KEY,
        state: TOKEN_MANAGER_STATE_INVALIDATED,
    };
    invalidate_transferable_name_entry(&mut ns, &mut entry, Some(tm)).unwrap();
    assert_eq!(ns.count, 2);
    assert_eq!(entry.mint, 0);
    assert_eq!(entry.data, None);
    assert!(!entry.is_claimed);
    assert_eq!(entry.reverse_entry, Some(30));
}

#[test]
fn invalidate_transferable_accepts_empty_custody_slot() {
    let mut ns = make_namespace(1);
    let mut entry = claimed_entry();
    entry.reverse_entry = Some(30);
    invalidate_transferable_name_entry(&mut ns, &mut entry, None).unwrap();
    assert_eq!(ns.count, 0);
    assert_eq!(entry.mint, 0);
}

#[test]
fn invalidate_transferable_rejects_live_custody_record() {
    let mut ns = make_namespace(1);
    let mut entry = claimed_entry();
    entry.reverse_entry = Some(30);
    let tm = TokenManager { key: 70, mint: entry.mint, issuer: NS_KEY, state: 1 };
    let r = invalidate_transferable_name_entry(&mut ns, &mut entry, Some(tm));
    assert!(matches!(r, Err(ErrorCode::InvalidTokenManager)));
    assert_eq!(ns.count, 1);
    assert_eq!(entry.mint, 123);
}

#[test]
fn invalidate_transferable_requires_reverse_pointer() {
    let mut ns = make_namespace(1);
    let mut entry = claimed_entry();
    let r = invalidate_transferable_name_entry(&mut ns, &mut entry, None);
    assert!(matches!(r, Err(ErrorCode::InvalidEntry)));
}

#[test]
fn invalidate_transferable_fails_on_zero_count() {
    let mut ns = make_namespace(0);
    let mut entry = claimed_entry();
    entry.reverse_entry = Some(30);
    let r = invalidate_transferable_name_entry(&mut ns, &mut entry, None);
    assert!(matches!(r, Err(ErrorCode::CountUnderflow)));
    assert_eq!(entry.mint, 123);
}
