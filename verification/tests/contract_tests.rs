use quickex::{AccountId, QuickexContract, QuickexError};

fn account(tag: u8) -> AccountId {
    AccountId::new(vec![tag])
}

#[test]
fn test_set_and_get_privacy() {
    let mut c = QuickexContract::new();
    let account = account(1);

    // Default should be false
    assert!(!c.get_privacy(&account));

    // Enable privacy
    c.set_privacy(account.clone(), true, 0).unwrap();
    assert!(c.get_privacy(&account));

    // Disable privacy
    c.set_privacy(account.clone(), false, 0).unwrap();
    assert!(!c.get_privacy(&account));
}

#[test]
fn test_commitment_cycle() {
    let owner = account(1);
    let amount = 1_000_000i128;
    let salt: Vec<u8> = b"random_salt".to_vec();

    // Create commitment
    let commitment = QuickexContract::create_amount_commitment(&owner, amount, &salt).unwrap();

    // Verify correct commitment
    assert!(QuickexContract::verify_amount_commitment(&commitment, &owner, amount, &salt));

    // Verify incorrect amount
    assert!(!QuickexContract::verify_amount_commitment(&commitment, &owner, 2_000_000i128, &salt));

    // Verify incorrect salt
    let bad_salt: Vec<u8> = b"wrong_salt".to_vec();
    assert!(!QuickexContract::verify_amount_commitment(&commitment, &owner, amount, &bad_salt));
}

#[test]
fn test_create_escrow() {
    let mut c = QuickexContract::new();
    let from = account(1);
    let to = account(2);
    let escrow_id = c.create_escrow(from, to, 1_000);
    assert!(escrow_id > 0);
}

#[test]
fn test_health_check() {
    assert!(QuickexContract::health_check());
}

#[test]
fn test_initialize_admin() {
    let mut c = QuickexContract::new();
    let admin = account(1);

    // Initialize admin
    c.initialize(admin.clone()).unwrap();

    // Verify admin is set
    assert_eq!(c.get_admin(), Some(admin.clone()));

    // Verify contract is not paused by default
    assert!(!c.is_paused());
}

#[test]
fn test_initialize_twice_fails() {
    let mut c = QuickexContract::new();
    let admin1 = account(1);
    let admin2 = account(2);

    c.initialize(admin1.clone()).unwrap();

    // A second bootstrap is refused and the first administrator stays.
    assert_eq!(c.initialize(admin2), Err(QuickexError::AlreadyInitialized));
    assert_eq!(c.get_admin(), Some(admin1));
}

#[test]
fn test_set_paused_by_admin() {
    let mut c = QuickexContract::new();
    let admin = account(1);

    c.initialize(admin.clone()).unwrap();

    // Admin pauses the contract
    c.set_paused(&admin, true, 0).unwrap();
    assert!(c.is_paused());

    // Admin unpauses the contract
    c.set_paused(&admin, false, 0).unwrap();
    assert!(!c.is_paused());
}

#[test]
fn test_set_paused_by_non_admin_fails() {
    let mut c = QuickexContract::new();
    let admin = account(1);
    let non_admin = account(2);

    c.initialize(admin).unwrap();

    assert_eq!(c.set_paused(&non_admin, true, 0), Err(QuickexError::Unauthorized));
    assert!(!c.is_paused());
}

#[test]
fn test_set_admin() {
    let mut c = QuickexContract::new();
    let admin = account(1);
    let new_admin = account(2);

    c.initialize(admin.clone()).unwrap();

    // Transfer admin rights
    c.set_admin(&admin, new_admin.clone(), 0).unwrap();

    // Verify new admin is set
    assert_eq!(c.get_admin(), Some(new_admin.clone()));

    // Verify new admin can pause
    c.set_paused(&new_admin, true, 0).unwrap();
    assert!(c.is_paused());
}

#[test]
fn test_set_admin_by_non_admin_fails() {
    let mut c = QuickexContract::new();
    let admin = account(1);
    let non_admin = account(2);
    let new_admin = account(3);

    c.initialize(admin.clone()).unwrap();

    assert_eq!(c.set_admin(&non_admin, new_admin, 0), Err(QuickexError::Unauthorized));
    assert_eq!(c.get_admin(), Some(admin));
}

#[test]
fn test_old_admin_cannot_pause_after_transfer() {
    let mut c = QuickexContract::new();
    let admin = account(1);
    let new_admin = account(2);

    c.initialize(admin.clone()).unwrap();
    c.set_admin(&admin, new_admin, 0).unwrap();

    // Old admin tries to pause - should fail
    assert_eq!(c.set_paused(&admin, true, 0), Err(QuickexError::Unauthorized));
    assert!(!c.is_paused());
}
