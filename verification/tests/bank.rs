use redis_lock::bank::{
    can_transfer, draw_amount, draw_transfer_type, settle, settle_checked, TransferFault,
    TransferType,
};

#[test]
fn index_selects_kind() {
    assert_eq!(TransferType::from_index(0), TransferType::Account1ToAccount2);
    assert_eq!(TransferType::from_index(1), TransferType::Account2ToAccount3);
    assert_eq!(TransferType::from_index(2), TransferType::Account1ToAccount3);
}

#[test]
fn routes_lock_both_accounts() {
    let (from, to, resources) = TransferType::Account1ToAccount2.route();
    assert_eq!((from, to), ("account1", "account2"));
    assert_eq!(resources, vec![String::from("account1"), String::from("account2")]);
    let (from, to, resources) = TransferType::Account2ToAccount3.route();
    assert_eq!((from, to), ("account2", "account3"));
    assert_eq!(resources, vec![String::from("account2"), String::from("account3")]);
    let (from, to, resources) = TransferType::Account1ToAccount3.route();
    assert_eq!((from, to), ("account1", "account3"));
    assert_eq!(resources, vec![String::from("account1"), String::from("account3")]);
}

#[test]
fn draws_stay_in_range() {
    let mut rng = rand::thread_rng();
    for _ in 0..200 {
        let amount = draw_amount(&mut rng);
        assert!((10..=100).contains(&amount));
        let _kind = draw_transfer_type(&mut rng);
    }
}

#[test]
fn sufficient_funds() {
    assert!(can_transfer(1000, 100));
    assert!(can_transfer(100, 100));
    assert!(!can_transfer(99, 100));
}

#[test]
fn settle_conserves_total() {
    let (from, to) = settle(1000, 1000, 37);
    assert_eq!((from, to), (963, 1037));
    assert_eq!(from + to, 2000);
    assert_eq!(settle(10, 0, 10), (0, 10));
}

#[test]
fn settle_checked_reports_faults() {
    assert_eq!(settle_checked(1000, 1000, 37), (Ok(963), Ok(1037)));
    assert_eq!(settle_checked(i64::MIN, 0, 1), (Err(TransferFault::Underflow), Ok(1)));
    assert_eq!(settle_checked(100, i64::MAX, 1), (Ok(99), Err(TransferFault::Overflow)));
    assert_eq!(TransferFault::Underflow.message(), "underflow");
    assert_eq!(TransferFault::Overflow.message(), "overflow");
}
