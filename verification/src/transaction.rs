//! The transaction record.

use crate::amount::Amount;
use vstd::prelude::*;

verus! {

pub type TransactionId = u32;

pub type ClientId = u16;

/// The five kinds of ledger event.
#[derive(Clone, Copy, Debug, PartialEq, Eq, Structural)]
pub enum TransactionType {
    Deposit,
    Withdrawal,
    Dispute,
    Resolve,
    Chargeback,
}

/// One ledger event. A deposit or withdrawal carries its amount; a dispute,
/// resolve or chargeback names the id of an earlier deposit or withdrawal.
#[derive(Clone, Copy, Debug)]
pub struct Transaction {
    pub id: TransactionId,
    pub ttype: TransactionType,
    pub client: ClientId,
    pub amount: Option<Amount>,
}

impl Transaction {
    pub fn new(id: TransactionId, ttype: TransactionType, client: ClientId, amount: Option<Amount>) -> (r:
        Transaction)
        ensures
            r == (Transaction { id, ttype, client, amount }),
    {
        Transaction { id, ttype, client, amount }
    }
}

} // verus!
