use stellarflow::admin::cleanup_accounts::{
    cleanup_inactive_accounts, AccountEntry, AccountRecord, UserAccount, BYTES_PER_ACCOUNT, REWARD_PER_ACCOUNT,
};
use stellarflow::Address;

#[test]
fn test_cleanup_inactive_accounts() {
    let target1 = Address { hi: 0, lo: 1 };
    let target2 = Address { hi: 0, lo: 2 };
    let account1 = UserAccount { last_active_ledger: 1000, is_idle: false, balance: 100 };
    let account2 = UserAccount { last_active_ledger: 500_000, is_idle: false, balance: 200 };
    let mut entries = vec![
        AccountEntry { address: target1, record: AccountRecord::Account(account1), present: true },
        AccountEntry { address: target2, record: AccountRecord::Account(account2), present: true },
    ];
    let report = cleanup_inactive_accounts(&mut entries, &vec![target1, target2], 501_001);
    assert_eq!(report.accounts_cleaned, 1);
    assert_eq!(report.bytes_reclaimed, BYTES_PER_ACCOUNT);
    assert_eq!(report.reward, REWARD_PER_ACCOUNT);
    assert!(!entries[0].present);
    assert!(entries[1].present);
}

#[test]
fn unreadable_entries_with_ttl_are_reclaimed() {
    let a = Address { hi: 0, lo: 1 };
    let b = Address { hi: 0, lo: 2 };
    let mut entries = vec![
        AccountEntry { address: a, record: AccountRecord::Unreadable { has_ttl: true }, present: true },
        AccountEntry { address: b, record: AccountRecord::Unreadable { has_ttl: false }, present: true },
    ];
    let report = cleanup_inactive_accounts(&mut entries, &vec![a, b, a], 0);
    assert_eq!(report.accounts_cleaned, 1);
    assert_eq!(report.reward, 10);
}
