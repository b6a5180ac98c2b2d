use quickex::{AccountId, QuickexContract, QuickexError, QuickexEvent};

fn account(tag: u8) -> AccountId {
    AccountId::new(vec![tag])
}

#[test]
fn pause_is_idempotent() {
    let mut c = QuickexContract::new();
    let admin = account(1);
    c.initialize(admin.clone()).unwrap();

    assert_eq!(c.set_paused(&admin, true, 10), Ok(()));
    assert_eq!(c.set_paused(&admin, true, 11), Ok(()));
    assert!(c.is_paused());
}

#[test]
fn privileged_writes_before_initialize_fail() {
    let mut c = QuickexContract::new();
    let caller = account(1);

    assert_eq!(c.set_paused(&caller, true, 0), Err(QuickexError::NotInitialized));
    assert_eq!(c.set_admin(&caller, account(2), 0), Err(QuickexError::NotInitialized));
    assert_eq!(c.get_admin(), None);
    assert!(!c.is_paused());
}

#[test]
fn commitment_is_deterministic() {
    let owner = account(7);
    let salt: Vec<u8> = b"salt".to_vec();
    let first = QuickexContract::create_amount_commitment(&owner, 42, &salt).unwrap();
    let second = QuickexContract::create_amount_commitment(&owner, 42, &salt).unwrap();
    assert_eq!(first, second);
}

#[test]
fn commitment_digest_is_32_bytes_and_hides_input() {
    let owner = account(7);
    let salt: Vec<u8> = Vec::new();
    let digest = QuickexContract::create_amount_commitment(&owner, 0, &salt).unwrap();
    // The canonical encoding of this tuple is 25 bytes (8 length bytes, 1
    // owner byte, 16 amount bytes, no salt), so a digest of 32 bytes cannot
    // be the encoding handed back unhashed.
    assert_eq!(digest.len(), 32);
    assert_ne!(digest, vec![0u8; 32]);
}

#[test]
fn commitment_binds_owner() {
    let owner = account(1);
    let other = account(2);
    let salt: Vec<u8> = b"salt".to_vec();
    let digest = QuickexContract::create_amount_commitment(&owner, 5, &salt).unwrap();
    assert!(!QuickexContract::verify_amount_commitment(&digest, &other, 5, &salt));
}

#[test]
fn commitment_handles_extreme_amounts() {
    let owner = account(1);
    let salt: Vec<u8> = b"s".to_vec();
    for amount in [i128::MIN, -1, 0, 1, i128::MAX] {
        let digest = QuickexContract::create_amount_commitment(&owner, amount, &salt).unwrap();
        assert!(QuickexContract::verify_amount_commitment(&digest, &owner, amount, &salt));
    }
    let low = QuickexContract::create_amount_commitment(&owner, i128::MIN, &salt).unwrap();
    let high = QuickexContract::create_amount_commitment(&owner, i128::MAX, &salt).unwrap();
    assert_ne!(low, high);
}

#[test]
fn privacy_flags_are_per_account() {
    let mut c = QuickexContract::new();
    let first = account(1);
    let second = account(2);

    c.set_privacy(first.clone(), true, 0).unwrap();
    assert!(c.get_privacy(&first));
    assert!(!c.get_privacy(&second));

    c.set_privacy(second.clone(), true, 1).unwrap();
    c.set_privacy(first.clone(), false, 2).unwrap();
    assert!(!c.get_privacy(&first));
    assert!(c.get_privacy(&second));
}

#[test]
fn events_record_the_transitions() {
    let mut c = QuickexContract::new();
    let admin = account(1);
    let new_admin = account(2);
    let user = account(3);

    c.initialize(admin.clone()).unwrap();
    assert_eq!(c.events.len(), 0);

    c.set_paused(&admin, true, 100).unwrap();
    c.set_privacy(user.clone(), true, 101).unwrap();
    c.set_admin(&admin, new_admin.clone(), 102).unwrap();
    assert_eq!(c.events.len(), 3);

    match &c.events[0] {
        QuickexEvent::ContractPaused(e) => {
            assert!(e.paused);
            assert_eq!(e.timestamp, 100);
        },
        _ => panic!("expected a pause event"),
    }
    match &c.events[1] {
        QuickexEvent::PrivacyToggled(e) => {
            assert_eq!(e.owner, user);
            assert!(e.enabled);
            assert_eq!(e.timestamp, 101);
        },
        _ => panic!("expected a privacy event"),
    }
    match &c.events[2] {
        QuickexEvent::AdminChanged(e) => {
            assert_eq!(e.old_admin, admin);
            assert_eq!(e.new_admin, new_admin);
            assert_eq!(e.timestamp, 102);
        },
        _ => panic!("expected an admin-changed event"),
    }
}

#[test]
fn failed_writes_leave_no_events() {
    let mut c = QuickexContract::new();
    let admin = account(1);
    let non_admin = account(2);

    c.set_paused(&admin, true, 0).unwrap_err();
    c.initialize(admin.clone()).unwrap();
    c.initialize(non_admin.clone()).unwrap_err();
    c.set_paused(&non_admin, true, 0).unwrap_err();
    c.set_admin(&non_admin, non_admin.clone(), 0).unwrap_err();
    assert_eq!(c.events.len(), 0);
}

#[test]
fn escrow_ids_count_up() {
    let mut c = QuickexContract::new();
    let first = c.create_escrow(account(1), account(2), 5);
    let second = c.create_escrow(account(3), account(4), 6);
    assert_eq!(first, 1);
    assert_eq!(second, 2);
    assert_eq!(c.escrows.len(), 2);
    assert_eq!(c.escrows[0].from, account(1));
    assert_eq!(c.escrows[1].to, account(4));
}

#[test]
fn empty_account_bytes_are_a_valid_identity() {
    let mut c = QuickexContract::new();
    let empty = AccountId::new(Vec::new());
    assert!(!c.get_privacy(&empty));
    c.set_privacy(empty.clone(), true, 0).unwrap();
    assert!(c.get_privacy(&empty));

    let salt: Vec<u8> = Vec::new();
    let digest = QuickexContract::create_amount_commitment(&empty, 9, &salt).unwrap();
    assert!(QuickexContract::verify_amount_commitment(&digest, &empty, 9, &salt));
}
