use transactions_engine::account::Balance;
use transactions_engine::amount::Amount;
use transactions_engine::{Account, Action, ActionError, Transaction, TransactionType};

fn dec(mantissa: i128, scale: u32) -> Option<Amount> {
    Some(Amount::new(mantissa, scale).unwrap())
}

fn tx(id: u32, ttype: TransactionType, client: u16, amount: Option<Amount>) -> Transaction {
    Transaction::new(id, ttype, client, amount)
}

fn balance(client: u16, available: i128, held: i128, total: i128, locked: bool) -> Balance {
    Balance {
        client,
        available,
        held,
        total,
        locked,
    }
}

#[test]
fn new_account_is_empty() {
    let acc = Account::new(7);
    assert_eq!(acc.client(), 7);
    assert_eq!(acc.balance(), balance(7, 0, 0, 0, false));
    assert_eq!(acc.balance(), Balance::new(7));
    assert!(!acc.has_transaction(1));
    assert!(!acc.is_disputed(1));
}

#[test]
fn deposit_then_withdrawal() {
    let mut acc = Account::new(1);
    assert_eq!(
        tx(1, TransactionType::Deposit, 1, dec(1000, 1)).perform(&mut acc),
        Ok(())
    );
    assert_eq!(
        tx(2, TransactionType::Withdrawal, 1, dec(400, 1)).perform(&mut acc),
        Ok(())
    );
    assert_eq!(acc.balance(), balance(1, 600000, 0, 600000, false));
    assert!(acc.has_transaction(1));
    assert!(acc.has_transaction(2));
}

#[test]
fn dispute_chargeback_then_locked() {
    let mut acc = Account::new(2);
    assert_eq!(
        tx(3, TransactionType::Deposit, 2, dec(500, 1)).perform(&mut acc),
        Ok(())
    );
    assert_eq!(
        tx(3, TransactionType::Dispute, 2, None).perform(&mut acc),
        Ok(())
    );
    assert_eq!(acc.balance(), balance(2, 0, 500000, 500000, false));
    assert!(acc.is_disputed(3));
    assert_eq!(
        tx(3, TransactionType::Chargeback, 2, None).perform(&mut acc),
        Ok(())
    );
    assert_eq!(acc.balance(), balance(2, 0, 0, 0, true));
    assert!(!acc.is_disputed(3));
    assert_eq!(
        tx(4, TransactionType::Deposit, 2, dec(100, 1)).perform(&mut acc),
        Err(ActionError::LockedAccount)
    );
    assert_eq!(acc.balance(), balance(2, 0, 0, 0, true));
    assert!(!acc.has_transaction(4));
}

#[test]
fn locked_account_turns_down_every_kind() {
    let mut acc = Account::new(2);
    tx(1, TransactionType::Deposit, 2, dec(5, 0)).perform(&mut acc).unwrap();
    tx(2, TransactionType::Deposit, 2, dec(7, 0)).perform(&mut acc).unwrap();
    tx(1, TransactionType::Dispute, 2, None).perform(&mut acc).unwrap();
    tx(2, TransactionType::Dispute, 2, None).perform(&mut acc).unwrap();
    tx(1, TransactionType::Chargeback, 2, None).perform(&mut acc).unwrap();
    let frozen = acc.balance();
    assert_eq!(frozen, balance(2, 0, 70000, 70000, true));
    for kind in [
        TransactionType::Deposit,
        TransactionType::Withdrawal,
        TransactionType::Dispute,
        TransactionType::Resolve,
        TransactionType::Chargeback,
    ] {
        assert_eq!(
            tx(2, kind, 2, dec(1, 0)).perform(&mut acc),
            Err(ActionError::LockedAccount)
        );
        assert_eq!(
            tx(2, kind, 2, dec(-1, 0)).perform(&mut acc),
            Err(ActionError::LockedAccount)
        );
        assert_eq!(acc.balance(), frozen);
        assert!(acc.is_disputed(2));
        assert!(!acc.is_disputed(1));
    }
}

#[test]
fn negative_amount_is_turned_down() {
    for kind in [
        TransactionType::Deposit,
        TransactionType::Withdrawal,
        TransactionType::Dispute,
        TransactionType::Resolve,
        TransactionType::Chargeback,
    ] {
        let mut acc = Account::new(1);
        tx(1, TransactionType::Deposit, 1, dec(10, 0)).perform(&mut acc).unwrap();
        assert_eq!(
            tx(1, kind, 1, dec(-1, 4)).perform(&mut acc),
            Err(ActionError::NegativeAmountNotSupported)
        );
        assert_eq!(acc.balance(), balance(1, 100000, 0, 100000, false));
        assert!(!acc.is_disputed(1));
    }
}

#[test]
fn deposit_is_rounded_to_four_places() {
    let mut acc = Account::new(1);
    tx(1, TransactionType::Deposit, 1, dec(5158254234234, 12))
        .perform(&mut acc)
        .unwrap();
    assert_eq!(acc.balance(), balance(1, 51583, 0, 51583, false));
    let mut same = Account::new(1);
    tx(1, TransactionType::Deposit, 1, dec(51583, 4))
        .perform(&mut same)
        .unwrap();
    assert_eq!(acc.balance(), same.balance());
}

#[test]
fn deposit_without_amount_counts_as_zero() {
    let mut acc = Account::new(1);
    assert_eq!(
        tx(1, TransactionType::Deposit, 1, None).perform(&mut acc),
        Ok(())
    );
    assert_eq!(acc.balance(), balance(1, 0, 0, 0, false));
    assert!(acc.has_transaction(1));
    assert_eq!(
        tx(2, TransactionType::Withdrawal, 1, None).perform(&mut acc),
        Ok(())
    );
    assert!(acc.has_transaction(2));
}

#[test]
fn dispute_of_a_record_without_amount() {
    let mut acc = Account::new(1);
    tx(1, TransactionType::Deposit, 1, None).perform(&mut acc).unwrap();
    assert_eq!(
        tx(1, TransactionType::Dispute, 1, None).perform(&mut acc),
        Err(ActionError::NoAmountAssociatedWithTransaction)
    );
    assert!(acc.is_disputed(1));
    assert_eq!(acc.balance(), balance(1, 0, 0, 0, false));
    assert_eq!(
        tx(1, TransactionType::Resolve, 1, None).perform(&mut acc),
        Err(ActionError::NoAmountAssociatedWithTransaction)
    );
    assert_eq!(
        tx(1, TransactionType::Chargeback, 1, None).perform(&mut acc),
        Err(ActionError::NoAmountAssociatedWithTransaction)
    );
    assert!(acc.is_disputed(1));
    assert_eq!(acc.balance(), balance(1, 0, 0, 0, false));
}

#[test]
fn overdrawn_withdrawal_changes_nothing() {
    let mut acc = Account::new(1);
    tx(1, TransactionType::Deposit, 1, dec(10, 0)).perform(&mut acc).unwrap();
    let before = acc.balance();
    assert_eq!(
        tx(2, TransactionType::Withdrawal, 1, dec(100001, 4)).perform(&mut acc),
        Ok(())
    );
    assert_eq!(acc.balance(), before);
    assert!(!acc.has_transaction(2));
    assert!(!acc.is_disputed(2));
    assert_eq!(
        tx(2, TransactionType::Dispute, 1, None).perform(&mut acc),
        Ok(())
    );
    assert_eq!(acc.balance(), before);
    assert!(!acc.is_disputed(2));
    assert_eq!(
        tx(1, TransactionType::Withdrawal, 1, dec(11, 0)).perform(&mut acc),
        Ok(())
    );
    assert_eq!(acc.balance(), before);
    assert_eq!(
        tx(3, TransactionType::Withdrawal, 1, dec(10, 0)).perform(&mut acc),
        Ok(())
    );
    assert_eq!(acc.balance(), balance(1, 0, 0, 0, false));
    assert!(acc.has_transaction(3));
}

#[test]
fn withdrawal_cannot_draw_on_held_funds() {
    let mut acc = Account::new(1);
    tx(1, TransactionType::Deposit, 1, dec(100, 0)).perform(&mut acc).unwrap();
    tx(2, TransactionType::Deposit, 1, dec(50, 0)).perform(&mut acc).unwrap();
    tx(1, TransactionType::Dispute, 1, None).perform(&mut acc).unwrap();
    assert_eq!(acc.balance(), balance(1, 500000, 1000000, 1500000, false));
    assert_eq!(
        tx(3, TransactionType::Withdrawal, 1, dec(70, 0)).perform(&mut acc),
        Ok(())
    );
    assert_eq!(acc.balance(), balance(1, 500000, 1000000, 1500000, false));
    assert!(!acc.has_transaction(3));
    assert_eq!(
        tx(4, TransactionType::Withdrawal, 1, dec(50, 0)).perform(&mut acc),
        Ok(())
    );
    assert_eq!(acc.balance(), balance(1, 0, 1000000, 1000000, false));
    assert!(acc.has_transaction(4));
}

#[test]
fn total_is_available_plus_held_after_deposit_and_withdrawal() {
    let mut acc = Account::new(1);
    tx(1, TransactionType::Deposit, 1, dec(100, 0)).perform(&mut acc).unwrap();
    tx(2, TransactionType::Deposit, 1, dec(255, 1)).perform(&mut acc).unwrap();
    tx(1, TransactionType::Dispute, 1, None).perform(&mut acc).unwrap();
    let b = acc.balance();
    assert_eq!(b.total, b.available + b.held);
    tx(3, TransactionType::Deposit, 1, dec(1, 4)).perform(&mut acc).unwrap();
    let b = acc.balance();
    assert_eq!(b, balance(1, 255001, 1000000, 1255001, false));
    assert_eq!(b.total, b.available + b.held);
    tx(4, TransactionType::Withdrawal, 1, dec(5, 0)).perform(&mut acc).unwrap();
    let b = acc.balance();
    assert_eq!(b, balance(1, 205001, 1000000, 1205001, false));
    assert_eq!(b.total, b.available + b.held);
}

#[test]
fn dispute_without_effect() {
    let mut acc = Account::new(1);
    tx(1, TransactionType::Deposit, 1, dec(10, 0)).perform(&mut acc).unwrap();
    assert_eq!(
        tx(9, TransactionType::Dispute, 1, None).perform(&mut acc),
        Ok(())
    );
    assert_eq!(acc.balance(), balance(1, 100000, 0, 100000, false));
    assert!(!acc.is_disputed(9));
    tx(1, TransactionType::Dispute, 1, None).perform(&mut acc).unwrap();
    assert_eq!(acc.balance(), balance(1, 0, 100000, 100000, false));
    assert_eq!(
        tx(1, TransactionType::Dispute, 1, None).perform(&mut acc),
        Ok(())
    );
    assert_eq!(acc.balance(), balance(1, 0, 100000, 100000, false));
    assert!(acc.is_disputed(1));
}

#[test]
fn resolve_and_chargeback_without_dispute() {
    let mut acc = Account::new(1);
    tx(1, TransactionType::Deposit, 1, dec(10, 0)).perform(&mut acc).unwrap();
    for kind in [TransactionType::Resolve, TransactionType::Chargeback] {
        assert_eq!(tx(1, kind, 1, None).perform(&mut acc), Ok(()));
        assert_eq!(tx(9, kind, 1, None).perform(&mut acc), Ok(()));
        assert_eq!(acc.balance(), balance(1, 100000, 0, 100000, false));
        assert!(!acc.is_disputed(1));
    }
}

#[test]
fn deposit_dispute_resolve_round_trip() {
    let mut acc = Account::new(1);
    tx(1, TransactionType::Deposit, 1, dec(10000, 2)).perform(&mut acc).unwrap();
    let before = acc.balance();
    assert_eq!(before, balance(1, 1000000, 0, 1000000, false));
    tx(1, TransactionType::Dispute, 1, None).perform(&mut acc).unwrap();
    assert_eq!(acc.balance(), balance(1, 0, 1000000, 1000000, false));
    tx(1, TransactionType::Resolve, 1, None).perform(&mut acc).unwrap();
    assert_eq!(acc.balance(), before);
    assert_eq!(acc.balance().held, 0);
    assert!(!acc.is_disputed(1));
    assert!(acc.has_transaction(1));
}

#[test]
fn dispute_of_spent_funds_holds_without_taking() {
    let mut acc = Account::new(1);
    tx(1, TransactionType::Deposit, 1, dec(100, 0)).perform(&mut acc).unwrap();
    tx(2, TransactionType::Withdrawal, 1, dec(60, 0)).perform(&mut acc).unwrap();
    tx(1, TransactionType::Dispute, 1, None).perform(&mut acc).unwrap();
    assert_eq!(acc.balance(), balance(1, 400000, 1000000, 400000, false));
}

#[test]
fn duplicate_id_moves_funds_but_keeps_first_record() {
    let mut acc = Account::new(1);
    tx(1, TransactionType::Deposit, 1, dec(10, 0)).perform(&mut acc).unwrap();
    tx(1, TransactionType::Deposit, 1, dec(5, 0)).perform(&mut acc).unwrap();
    assert_eq!(acc.balance(), balance(1, 150000, 0, 150000, false));
    tx(1, TransactionType::Dispute, 1, None).perform(&mut acc).unwrap();
    assert_eq!(acc.balance(), balance(1, 50000, 100000, 150000, false));
}

#[test]
fn dispute_of_a_withdrawal() {
    let mut acc = Account::new(1);
    tx(1, TransactionType::Deposit, 1, dec(10, 0)).perform(&mut acc).unwrap();
    tx(2, TransactionType::Withdrawal, 1, dec(4, 0)).perform(&mut acc).unwrap();
    tx(2, TransactionType::Dispute, 1, None).perform(&mut acc).unwrap();
    assert_eq!(acc.balance(), balance(1, 20000, 40000, 60000, false));
    tx(2, TransactionType::Chargeback, 1, None).perform(&mut acc).unwrap();
    assert_eq!(acc.balance(), balance(1, 20000, 0, 20000, true));
}

#[test]
fn deposit_overflow_leaves_account_as_it_was() {
    let limit: i128 = 1 << 96;
    let mut acc = Account::new(1);
    tx(1, TransactionType::Deposit, 1, dec(limit - 1, 4)).perform(&mut acc).unwrap();
    assert_eq!(acc.balance(), balance(1, limit - 1, 0, limit - 1, false));
    assert_eq!(
        tx(2, TransactionType::Deposit, 1, dec(1, 4)).perform(&mut acc),
        Err(ActionError::ArithmeticOverflow)
    );
    assert_eq!(acc.balance(), balance(1, limit - 1, 0, limit - 1, false));
    assert!(!acc.has_transaction(2));
    assert_eq!(
        tx(3, TransactionType::Deposit, 1, dec(limit - 1, 0)).perform(&mut acc),
        Err(ActionError::ArithmeticOverflow)
    );
    assert!(!acc.has_transaction(3));
}

#[test]
fn deposit_overflow_of_total_keeps_new_available() {
    let limit: i128 = 1 << 96;
    let mut acc = Account::new(1);
    tx(1, TransactionType::Deposit, 1, dec(limit - 1, 4)).perform(&mut acc).unwrap();
    tx(1, TransactionType::Dispute, 1, None).perform(&mut acc).unwrap();
    assert_eq!(acc.balance(), balance(1, 0, limit - 1, limit - 1, false));
    assert_eq!(
        tx(2, TransactionType::Deposit, 1, dec(1, 4)).perform(&mut acc),
        Err(ActionError::ArithmeticOverflow)
    );
    assert_eq!(acc.balance(), balance(1, 1, limit - 1, limit - 1, false));
    assert!(!acc.has_transaction(2));
}

#[test]
fn dispute_overflow_of_held_keeps_dispute_and_available() {
    let limit: i128 = 1 << 96;
    let mut acc = Account::new(1);
    tx(2, TransactionType::Deposit, 1, dec(3, 4)).perform(&mut acc).unwrap();
    tx(3, TransactionType::Withdrawal, 1, dec(3, 4)).perform(&mut acc).unwrap();
    tx(1, TransactionType::Deposit, 1, dec(limit - 1, 4)).perform(&mut acc).unwrap();
    tx(1, TransactionType::Dispute, 1, None).perform(&mut acc).unwrap();
    assert_eq!(acc.balance(), balance(1, 0, limit - 1, limit - 1, false));
    assert_eq!(
        tx(2, TransactionType::Dispute, 1, None).perform(&mut acc),
        Err(ActionError::ArithmeticOverflow)
    );
    assert!(acc.is_disputed(2));
    assert_eq!(acc.balance(), balance(1, 0, limit - 1, limit - 1, false));
}
