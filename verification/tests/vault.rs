use vault::contract::{Address, VaultContract, VaultError};

#[test]
fn test_initialize_and_deposit() {
    let mut v = VaultContract::new();
    let owner = Address(1);
    let token_id = Address(2);

    assert!(v.initialize(owner, token_id, 12345).is_ok());

    // Check owner
    assert_eq!(v.get_owner(), Ok(owner));

    // Check token id
    assert_eq!(v.get_token_id(), Ok(token_id));

    // Check unlock time
    assert_eq!(v.get_unlock_time(), Ok(12345));

    // Locked amount should be zero
    assert_eq!(v.get_locked_amount(), 0);
}

#[test]
fn test_vault() {
    let mut v = VaultContract::new();
    let owner = Address(1);
    let token_id = Address(2);
    let user = Address(3);
    assert!(v.initialize(owner, token_id, 100).is_ok());

    // Test deposit
    assert!(v.deposit(user, 1000).is_ok());
    assert_eq!(v.get_locked_amount(), 1000);

    // Test withdraw
    assert!(v.withdraw(owner, owner, 500, 100).is_ok());
    assert_eq!(v.get_locked_amount(), 500);
}

#[test]
fn test_initialize_only_once() {
    let mut v = VaultContract::new();
    assert!(v.initialize(Address(1), Address(2), 50).is_ok());
    assert!(v.deposit(Address(3), 40).is_ok());

    // A second initialize fails and changes none of the four fields.
    assert_eq!(
        v.initialize(Address(7), Address(8), 99),
        Err(VaultError::AlreadyInitialized)
    );
    assert_eq!(v.get_owner(), Ok(Address(1)));
    assert_eq!(v.get_token_id(), Ok(Address(2)));
    assert_eq!(v.get_unlock_time(), Ok(50));
    assert_eq!(v.get_locked_amount(), 40);
}

#[test]
fn test_deposit_invalid_amount() {
    let mut v = VaultContract::new();
    assert!(v.initialize(Address(1), Address(2), 50).is_ok());
    assert!(v.deposit(Address(3), 10).is_ok());

    assert_eq!(v.deposit(Address(3), 0), Err(VaultError::InvalidAmount));
    assert_eq!(v.deposit(Address(3), -7), Err(VaultError::InvalidAmount));
    assert_eq!(v.get_locked_amount(), 10);

    // The amount check comes before the initialization check, so it fires
    // even on a fresh instance.
    let mut fresh = VaultContract::new();
    assert_eq!(fresh.deposit(Address(3), 0), Err(VaultError::InvalidAmount));
}

#[test]
fn test_withdraw_invalid_amount() {
    let mut v = VaultContract::new();
    let owner = Address(1);
    assert!(v.initialize(owner, Address(2), 50).is_ok());
    assert!(v.deposit(Address(3), 10).is_ok());

    assert_eq!(v.withdraw(owner, owner, 0, 60), Err(VaultError::InvalidAmount));
    assert_eq!(v.withdraw(owner, owner, -1, 60), Err(VaultError::InvalidAmount));
    assert_eq!(v.get_locked_amount(), 10);
}

#[test]
fn test_withdraw_still_locked() {
    let mut v = VaultContract::new();
    let owner = Address(1);
    assert!(v.initialize(owner, Address(2), 1000).is_ok());
    assert!(v.deposit(Address(3), 10).is_ok());

    // Before the unlock time the owner is refused whatever the amount.
    assert_eq!(v.withdraw(owner, owner, 10, 999), Err(VaultError::StillLocked));
    assert_eq!(v.withdraw(owner, owner, 1, 0), Err(VaultError::StillLocked));
    assert_eq!(v.get_locked_amount(), 10);

    // At exactly the unlock time the withdrawal goes through.
    assert!(v.withdraw(owner, owner, 10, 1000).is_ok());
    assert_eq!(v.get_locked_amount(), 0);
}

#[test]
fn test_withdraw_unauthorized() {
    let mut v = VaultContract::new();
    let owner = Address(1);
    let intruder = Address(9);
    assert!(v.initialize(owner, Address(2), 100).is_ok());
    assert!(v.deposit(Address(3), 10).is_ok());

    // Even with a valid amount and a time past the unlock, a non-owner is
    // refused; the authorization check also comes before the amount check.
    assert_eq!(v.withdraw(intruder, intruder, 10, 200), Err(VaultError::Unauthorized));
    assert_eq!(v.withdraw(intruder, owner, -1, 200), Err(VaultError::Unauthorized));
    assert_eq!(v.get_locked_amount(), 10);
}

#[test]
fn test_withdraw_insufficient_funds() {
    let mut v = VaultContract::new();
    let owner = Address(1);
    assert!(v.initialize(owner, Address(2), 100).is_ok());
    assert!(v.deposit(Address(3), 10).is_ok());

    assert_eq!(v.withdraw(owner, owner, 11, 200), Err(VaultError::InsufficientFunds));
    assert_eq!(v.get_locked_amount(), 10);
}

#[test]
fn test_deposit_overflow() {
    let mut v = VaultContract::new();
    assert!(v.initialize(Address(1), Address(2), 100).is_ok());

    // The balance may reach the top of the representable range...
    assert!(v.deposit(Address(3), i128::MAX).is_ok());
    assert_eq!(v.get_locked_amount(), i128::MAX);

    // ...but one more unit is refused and nothing changes.
    assert_eq!(v.deposit(Address(3), 1), Err(VaultError::Overflow));
    assert_eq!(v.get_locked_amount(), i128::MAX);
}

#[test]
fn test_operations_before_initialize() {
    let mut v = VaultContract::new();
    assert_eq!(v.deposit(Address(3), 5), Err(VaultError::NotInitialized));
    assert_eq!(
        v.withdraw(Address(1), Address(1), 5, 100),
        Err(VaultError::NotInitialized)
    );
    assert_eq!(v.get_locked_amount(), 0);
}

#[test]
fn test_vault_lifecycle() {
    // initialize(owner=O, asset=A, unlock=1000); two deposits; a full
    // withdrawal at the unlock time; then one more unit is refused.
    let mut v = VaultContract::new();
    let o = Address(1);
    let a = Address(2);
    assert!(v.initialize(o, a, 1000).is_ok());

    assert!(v.deposit(Address(10), 500).is_ok());
    assert_eq!(v.get_locked_amount(), 500);

    assert!(v.deposit(Address(11), 300).is_ok());
    assert_eq!(v.get_locked_amount(), 800);

    assert!(v.withdraw(o, o, 800, 1000).is_ok());
    assert_eq!(v.get_locked_amount(), 0);

    assert_eq!(v.withdraw(o, o, 1, 1000), Err(VaultError::InsufficientFunds));
}

#[test]
fn test_reads_on_fresh_instance() {
    // get_locked_amount is the one read allowed before initialize; the
    // other reads are refused.
    let v = VaultContract::new();
    assert_eq!(v.get_locked_amount(), 0);
    assert_eq!(v.get_owner(), Err(VaultError::NotInitialized));
    assert_eq!(v.get_token_id(), Err(VaultError::NotInitialized));
    assert_eq!(v.get_unlock_time(), Err(VaultError::NotInitialized));
}

#[test]
fn test_locked_amount_is_net_of_operations() {
    // Across a mixed sequence of successful calls the balance is always the
    // sum of deposits minus the sum of withdrawals, and never negative.
    let mut v = VaultContract::new();
    let o = Address(1);
    assert!(v.initialize(o, Address(2), 0).is_ok());

    let mut deposited: i128 = 0;
    let mut withdrawn: i128 = 0;

    let steps: [(bool, i128); 7] = [
        (true, 40),
        (true, 2),
        (false, 30),
        (true, 5),
        (false, 17),
        (true, 1),
        (false, 1),
    ];
    for step in steps {
        let (is_deposit, amount): (bool, i128) = step;
        if is_deposit {
            assert!(v.deposit(Address(3), amount).is_ok());
            deposited += amount;
        } else {
            assert!(v.withdraw(o, o, amount, 10).is_ok());
            withdrawn += amount;
        }
        assert_eq!(v.get_locked_amount(), deposited - withdrawn);
        assert!(v.get_locked_amount() >= 0);
    }
    assert_eq!(v.get_locked_amount(), 0);
}

#[test]
fn test_withdraw_to_other_destination() {
    // Funds go to the caller-supplied destination, which need not be the
    // owner; only the caller identity is checked.
    let mut v = VaultContract::new();
    let owner = Address(1);
    let beneficiary = Address(42);
    assert!(v.initialize(owner, Address(2), 10).is_ok());
    assert!(v.deposit(Address(3), 7).is_ok());
    assert!(v.withdraw(owner, beneficiary, 7, 10).is_ok());
    assert_eq!(v.get_locked_amount(), 0);
}
