//! Per-client state: the balance, the recorded deposits and withdrawals, and
//! the disputes that are open.

use crate::amount::fits;
use crate::transaction::{ClientId, Transaction, TransactionId};
use std::collections::HashMap;
use vstd::prelude::*;

verus! {

broadcast use vstd::std_specs::hash::group_hash_axioms;

/// A client's funds in ten-thousandths, and whether the account is frozen.
#[derive(Clone, Copy, Debug, PartialEq, Eq, Structural)]
pub struct Balance {
    pub client: ClientId,
    pub available: i128,
    pub held: i128,
    pub total: i128,
    pub locked: bool,
}

impl Balance {
    /// The balance of a client that has no funds.
    pub open spec fn zero(client: ClientId) -> Balance {
        Balance { client, available: 0, held: 0, total: 0, locked: false }
    }

    /// Whether the three sums are within 96 bits.
    pub open spec fn in_range(self) -> bool {
        fits(self.available as int) && fits(self.held as int) && fits(self.total as int)
    }

    pub fn new(client: ClientId) -> (r: Balance)
        ensures
            r == Balance::zero(client),
    {
        Balance { client, available: 0, held: 0, total: 0, locked: false }
    }
}

/// What an account holds, as mathematical values.
pub ghost struct AccountState {
    pub client: ClientId,
    pub history: Map<TransactionId, Transaction>,
    pub disputes: Map<TransactionId, Transaction>,
    pub balance: Balance,
}

impl AccountState {
    /// The state of an account on which nothing has happened yet.
    pub open spec fn fresh(client: ClientId) -> AccountState {
        AccountState {
            client,
            history: Map::empty(),
            disputes: Map::empty(),
            balance: Balance::zero(client),
        }
    }

    /// What holds of every account that transactions have been applied to:
    /// the balance bears the account's client and its sums are neither
    /// negative nor beyond 96 bits; each record is filed under its own id and
    /// carries no negative amount; only recorded transactions are under
    /// dispute.
    pub open spec fn wf(self) -> bool {
        &&& self.balance.client == self.client
        &&& self.balance.in_range()
        &&& self.balance.available >= 0
        &&& self.balance.held >= 0
        &&& self.balance.total >= 0
        &&& forall|id: TransactionId| #[trigger]
            self.history.contains_key(id) ==> self.history[id].id == id && !(
            self.history[id].amount matches Some(a) && a@.0 < 0)
        &&& forall|id: TransactionId| #[trigger]
            self.disputes.contains_key(id) ==> self.history.contains_key(id)
    }
}

/// The three sums of an account, each kept within 96 bits.
#[derive(Debug)]
pub(crate) struct Funds {
    pub(crate) available: i128,
    pub(crate) held: i128,
    pub(crate) total: i128,
}

impl Funds {
    #[verifier::type_invariant]
    pub(crate) open spec fn inv(self) -> bool {
        fits(self.available as int) && fits(self.held as int) && fits(self.total as int)
    }
}

/// One client's account.
#[derive(Debug)]
pub struct Account {
    pub(crate) client: ClientId,
    pub(crate) transactions: HashMap<TransactionId, Transaction>,
    pub(crate) disputes: HashMap<TransactionId, Transaction>,
    pub(crate) funds: Funds,
    pub(crate) locked: bool,
}

impl View for Account {
    type V = AccountState;

    open(crate) spec fn view(&self) -> AccountState {
        AccountState {
            client: self.client,
            history: self.transactions@,
            disputes: self.disputes@,
            balance: Balance {
                client: self.client,
                available: self.funds.available,
                held: self.funds.held,
                total: self.funds.total,
                locked: self.locked,
            },
        }
    }
}

impl Account {
    /// An account with no funds, no history and no disputes.
    pub fn new(id: ClientId) -> (r: Account)
        ensures
            r@ == AccountState::fresh(id),
    {
        let r = Account {
            client: id,
            transactions: HashMap::new(),
            disputes: HashMap::new(),
            funds: Funds { available: 0, held: 0, total: 0 },
            locked: false,
        };
        assert(r@.history =~= Map::empty());
        assert(r@.disputes =~= Map::empty());
        r
    }

    /// The client that owns the account.
    pub fn client(&self) -> (r: ClientId)
        ensures
            r == self@.client,
    {
        self.client
    }

    /// The balance as it stands.
    pub fn balance(&self) -> (r: Balance)
        ensures
            r == self@.balance,
            r.in_range(),
    {
        proof {
            use_type_invariant(&self.funds);
        }
        Balance {
            client: self.client,
            available: self.funds.available,
            held: self.funds.held,
            total: self.funds.total,
            locked: self.locked,
        }
    }

    /// Whether a deposit or withdrawal with this id has been recorded.
    pub fn has_transaction(&self, id: TransactionId) -> (r: bool)
        ensures
            r == self@.history.contains_key(id),
    {
        self.transactions.contains_key(&id)
    }

    /// Whether the transaction with this id is under dispute.
    pub fn is_disputed(&self, id: TransactionId) -> (r: bool)
        ensures
            r == self@.disputes.contains_key(id),
    {
        self.disputes.contains_key(&id)
    }
}

} // verus!
