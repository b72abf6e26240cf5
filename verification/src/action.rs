//! Applying one transaction to one account.

use crate::account::{Account, AccountState, Balance};
use crate::amount::{checked_add_units, checked_sub_units, fits, Amount};
use crate::transaction::{Transaction, TransactionId, TransactionType};
use vstd::prelude::*;

verus! {

broadcast use vstd::std_specs::hash::group_hash_axioms;

pub type ActionResult = Result<(), ActionError>;

/// Why a transaction was turned down.
#[derive(Clone, Copy, Debug, PartialEq, Eq, Structural)]
pub enum ActionError {
    NegativeAmountNotSupported,
    NoAmountAssociatedWithTransaction,
    ArithmeticOverflow,
    LockedAccount,
}

/// Something that can be applied to an account.
pub trait Action {
    fn perform(&self, acc: &mut Account) -> ActionResult;
}

/// `target + amount`, or `ArithmeticOverflow` where the sum leaves 96 bits.
pub open spec fn add_amount_spec(target: i128, amount: i128) -> Result<i128, ActionError> {
    if fits(target + amount) {
        Ok((target + amount) as i128)
    } else {
        Err(ActionError::ArithmeticOverflow)
    }
}

/// `target - amount` where that is not below zero, else `target` unchanged;
/// `ArithmeticOverflow` where the difference leaves 96 bits.
pub open spec fn subtract_amount_spec(target: i128, amount: i128) -> Result<i128, ActionError> {
    if !fits(target - amount) {
        Err(ActionError::ArithmeticOverflow)
    } else if target - amount < 0 {
        Ok(target)
    } else {
        Ok((target - amount) as i128)
    }
}

/// The ten-thousandths a deposit or withdrawal moves: its amount rounded to
/// four places, nothing where it has none.
pub open spec fn own_units(amount: Option<Amount>) -> Result<i128, ActionError> {
    match amount {
        None => Ok(0i128),
        Some(a) => if fits(a.units()) {
            Ok(a.units() as i128)
        } else {
            Err(ActionError::ArithmeticOverflow)
        },
    }
}

/// The ten-thousandths that a dispute, resolve or chargeback of a recorded
/// transaction moves: the record must carry an amount.
pub open spec fn recorded_units(amount: Option<Amount>) -> Result<i128, ActionError> {
    match amount {
        None => Err(ActionError::NoAmountAssociatedWithTransaction),
        Some(a) => own_units(Some(a)),
    }
}

/// The history with `tx` recorded under its id, unless that id is taken.
pub open spec fn record(history: Map<TransactionId, Transaction>, tx: Transaction) -> Map<
    TransactionId,
    Transaction,
> {
    if history.contains_key(tx.id) {
        history
    } else {
        history.insert(tx.id, tx)
    }
}

/// A deposit: `available` grows, then `total`. Where `total` overflows,
/// `available` has already grown.
pub open spec fn deposit(tx: Transaction, s: AccountState) -> (ActionResult, AccountState) {
    match own_units(tx.amount) {
        Err(e) => (Err(e), s),
        Ok(u) => match add_amount_spec(s.balance.available, u) {
            Err(e) => (Err(e), s),
            Ok(available) => {
                let s1 = AccountState { balance: Balance { available, ..s.balance }, ..s };
                match add_amount_spec(s.balance.total, u) {
                    Err(e) => (Err(e), s1),
                    Ok(total) => (
                        Ok(()),
                        AccountState {
                            balance: Balance { total, ..s1.balance },
                            history: record(s.history, tx),
                            ..s1
                        },
                    ),
                }
            },
        },
    }
}

/// A withdrawal. One of more than is available is accepted and changes
/// nothing: no sum moves and nothing is recorded. Any other takes its amount
/// from `available`, then from `total`, and is recorded.
pub open spec fn withdrawal(tx: Transaction, s: AccountState) -> (ActionResult, AccountState) {
    match own_units(tx.amount) {
        Err(e) => (Err(e), s),
        Ok(u) => if u > s.balance.available {
            (Ok(()), s)
        } else {
            match subtract_amount_spec(s.balance.available, u) {
                Err(e) => (Err(e), s),
                Ok(available) => {
                    let s1 = AccountState { balance: Balance { available, ..s.balance }, ..s };
                    match subtract_amount_spec(s.balance.total, u) {
                        Err(e) => (Err(e), s1),
                        Ok(total) => (
                            Ok(()),
                            AccountState {
                                balance: Balance { total, ..s1.balance },
                                history: record(s.history, tx),
                                ..s1
                            },
                        ),
                    }
                },
            }
        },
    }
}

/// A dispute of a recorded transaction that is not yet disputed: it is marked
/// as disputed, then its amount moves from `available` to `held`.
pub open spec fn dispute(tx: Transaction, s: AccountState) -> (ActionResult, AccountState) {
    if s.history.contains_key(tx.id) && !s.disputes.contains_key(tx.id) {
        let found = s.history[tx.id];
        let s1 = AccountState { disputes: s.disputes.insert(tx.id, found), ..s };
        match recorded_units(found.amount) {
            Err(e) => (Err(e), s1),
            Ok(u) => match subtract_amount_spec(s.balance.available, u) {
                Err(e) => (Err(e), s1),
                Ok(available) => {
                    let s2 = AccountState { balance: Balance { available, ..s.balance }, ..s1 };
                    match add_amount_spec(s.balance.held, u) {
                        Err(e) => (Err(e), s2),
                        Ok(held) => (
                            Ok(()),
                            AccountState { balance: Balance { held, ..s2.balance }, ..s2 },
                        ),
                    }
                },
            },
        }
    } else {
        (Ok(()), s)
    }
}

/// A resolve of a disputed transaction: its amount moves from `held` back to
/// `available`, and the dispute is closed.
pub open spec fn resolve(tx: Transaction, s: AccountState) -> (ActionResult, AccountState) {
    if s.history.contains_key(tx.id) && s.disputes.contains_key(tx.id) {
        let found = s.history[tx.id];
        match recorded_units(found.amount) {
            Err(e) => (Err(e), s),
            Ok(u) => match subtract_amount_spec(s.balance.held, u) {
                Err(e) => (Err(e), s),
                Ok(held) => {
                    let s1 = AccountState { balance: Balance { held, ..s.balance }, ..s };
                    match add_amount_spec(s.balance.available, u) {
                        Err(e) => (Err(e), s1),
                        Ok(available) => (
                            Ok(()),
                            AccountState {
                                balance: Balance { available, ..s1.balance },
                                disputes: s.disputes.remove(found.id),
                                ..s1
                            },
                        ),
                    }
                },
            },
        }
    } else {
        (Ok(()), s)
    }
}

/// A chargeback of a disputed transaction: its amount leaves `held` and
/// `total`, the account is locked, and the dispute is closed.
pub open spec fn chargeback(tx: Transaction, s: AccountState) -> (ActionResult, AccountState) {
    if s.history.contains_key(tx.id) && s.disputes.contains_key(tx.id) {
        let found = s.history[tx.id];
        match recorded_units(found.amount) {
            Err(e) => (Err(e), s),
            Ok(u) => match subtract_amount_spec(s.balance.held, u) {
                Err(e) => (Err(e), s),
                Ok(held) => {
                    let s1 = AccountState { balance: Balance { held, ..s.balance }, ..s };
                    match subtract_amount_spec(s.balance.total, u) {
                        Err(e) => (Err(e), s1),
                        Ok(total) => (
                            Ok(()),
                            AccountState {
                                balance: Balance { total, locked: true, ..s1.balance },
                                disputes: s.disputes.remove(found.id),
                                ..s1
                            },
                        ),
                    }
                },
            },
        }
    } else {
        (Ok(()), s)
    }
}

/// What applying `tx` to an account in state `s` returns, and the state it
/// leaves. A locked account turns everything down; a negative amount is
/// turned down whatever the kind; both leave the state as it was.
pub open spec fn step(tx: Transaction, s: AccountState) -> (ActionResult, AccountState) {
    if s.balance.locked {
        (Err(ActionError::LockedAccount), s)
    } else if tx.amount matches Some(a) && a@.0 < 0 {
        (Err(ActionError::NegativeAmountNotSupported), s)
    } else {
        match tx.ttype {
            TransactionType::Deposit => deposit(tx, s),
            TransactionType::Withdrawal => withdrawal(tx, s),
            TransactionType::Dispute => dispute(tx, s),
            TransactionType::Resolve => resolve(tx, s),
            TransactionType::Chargeback => chargeback(tx, s),
        }
    }
}

impl Transaction {
    /// Adds `amount` to `target`.
    pub fn add_amount(target: i128, amount: i128) -> (r: Result<i128, ActionError>)
        requires
            fits(target as int),
            fits(amount as int),
        ensures
            r == add_amount_spec(target, amount),
    {
        match checked_add_units(target, amount) {
            Some(v) => Ok(v),
            None => Err(ActionError::ArithmeticOverflow),
        }
    }

    /// Takes `amount` from `target` unless that would leave less than nothing.
    pub fn subtract_amount(target: i128, amount: i128) -> (r: Result<i128, ActionError>)
        requires
            fits(target as int),
            fits(amount as int),
        ensures
            r == subtract_amount_spec(target, amount),
    {
        match checked_sub_units(target, amount) {
            Some(v) => if v < 0 {
                Ok(target)
            } else {
                Ok(v)
            },
            None => Err(ActionError::ArithmeticOverflow),
        }
    }

    /// The ten-thousandths that a deposit or withdrawal with this amount moves.
    pub fn own_units(amount: Option<Amount>) -> (r: Result<i128, ActionError>)
        ensures
            r == own_units(amount),
            r matches Ok(u) ==> fits(u as int),
    {
        match amount {
            None => Ok(0),
            Some(a) => match a.to_units() {
                Some(u) => Ok(u),
                None => Err(ActionError::ArithmeticOverflow),
            },
        }
    }

    /// The ten-thousandths that a recorded transaction with this amount put
    /// in motion.
    pub fn recorded_units(amount: Option<Amount>) -> (r: Result<i128, ActionError>)
        ensures
            r == recorded_units(amount),
            r matches Ok(u) ==> fits(u as int),
    {
        match amount {
            None => Err(ActionError::NoAmountAssociatedWithTransaction),
            Some(a) => Self::own_units(Some(a)),
        }
    }
}

impl Action for Transaction {
    /// Applies the transaction to `acc`. What is returned and what the
    /// account holds afterwards are those of [`step`].
    fn perform(&self, acc: &mut Account) -> (r: ActionResult)
        ensures
            (r, final(acc)@) == step(*self, old(acc)@),
    {
        proof {
            use_type_invariant(&acc.funds);
        }
        if acc.locked {
            return Err(ActionError::LockedAccount);
        }
        if let Some(a) = self.amount {
            if a.is_sign_negative() {
                return Err(ActionError::NegativeAmountNotSupported);
            }
        }
        match self.ttype {
            TransactionType::Deposit => {
                let amount = Self::own_units(self.amount)?;
                acc.funds.available = Self::add_amount(acc.funds.available, amount)?;
                acc.funds.total = Self::add_amount(acc.funds.total, amount)?;
                if !acc.transactions.contains_key(&self.id) {
                    acc.transactions.insert(self.id, *self);
                }
            },
            TransactionType::Withdrawal => {
                let amount = Self::own_units(self.amount)?;
                if amount > acc.funds.available {
                    return Ok(());
                }
                acc.funds.available = Self::subtract_amount(acc.funds.available, amount)?;
                acc.funds.total = Self::subtract_amount(acc.funds.total, amount)?;
                if !acc.transactions.contains_key(&self.id) {
                    acc.transactions.insert(self.id, *self);
                }
            },
            TransactionType::Dispute => {
                if !acc.disputes.contains_key(&self.id) {
                    if let Some(found) = acc.transactions.get(&self.id) {
                        let found = *found;
                        acc.disputes.insert(self.id, found);
                        let amount = Self::recorded_units(found.amount)?;
                        acc.funds.available = Self::subtract_amount(
                            acc.funds.available,
                            amount,
                        )?;
                        acc.funds.held = Self::add_amount(acc.funds.held, amount)?;
                    }
                }
            },
            TransactionType::Resolve => {
                if acc.disputes.contains_key(&self.id) {
                    if let Some(found) = acc.transactions.get(&self.id) {
                        let found = *found;
                        let amount = Self::recorded_units(found.amount)?;
                        acc.funds.held = Self::subtract_amount(acc.funds.held, amount)?;
                        acc.funds.available = Self::add_amount(acc.funds.available, amount)?;
                        acc.disputes.remove(&found.id);
                    }
                }
            },
            TransactionType::Chargeback => {
                if acc.disputes.contains_key(&self.id) {
                    if let Some(found) = acc.transactions.get(&self.id) {
                        let found = *found;
                        let amount = Self::recorded_units(found.amount)?;
                        acc.funds.held = Self::subtract_amount(acc.funds.held, amount)?;
                        acc.funds.total = Self::subtract_amount(acc.funds.total, amount)?;
                        acc.locked = true;
                        acc.disputes.remove(&found.id);
                    }
                }
            },
        }
        Ok(())
    }
}

} // verus!
