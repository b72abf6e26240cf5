//! The ledger: every client's account, and the routing of transactions.

use crate::account::{Account, AccountState, Balance};
use crate::action::{step, Action, ActionError};
use crate::transaction::{ClientId, Transaction};
use vstd::std_specs::hash::spec_keys_iter;
use vstd::std_specs::iter::IteratorSpec;
use std::collections::HashMap;
use vstd::prelude::*;

verus! {

broadcast use vstd::std_specs::hash::group_hash_axioms;

/// What a ledger holds, as a mathematical value: each client's account.
pub type Ledger = Map<ClientId, AccountState>;

/// The account that `tx` goes to: the client's own, or a new one where the
/// client has none yet.
pub open spec fn route(tx: Transaction, ledger: Ledger) -> AccountState {
    if ledger.contains_key(tx.client) {
        ledger[tx.client]
    } else {
        AccountState::fresh(tx.client)
    }
}

/// The ledger after `tx`: its client's account has taken the step, accepted
/// or not; every other account is as before.
pub open spec fn process_one(tx: Transaction, ledger: Ledger) -> Ledger {
    ledger.insert(tx.client, step(tx, route(tx, ledger)).1)
}

/// The ledger after the transactions `txs`, in order.
pub open spec fn process_all(txs: Seq<Transaction>, ledger: Ledger) -> Ledger
    decreases txs.len(),
{
    if txs.len() == 0 {
        ledger
    } else {
        process_one(txs.last(), process_all(txs.drop_last(), ledger))
    }
}

/// The errors that the transactions `txs` meet, in order.
pub open spec fn errors_of(txs: Seq<Transaction>, ledger: Ledger) -> Seq<ActionError>
    decreases txs.len(),
{
    if txs.len() == 0 {
        Seq::empty()
    } else {
        let before = process_all(txs.drop_last(), ledger);
        let earlier = errors_of(txs.drop_last(), ledger);
        match step(txs.last(), route(txs.last(), before)).0 {
            Ok(_) => earlier,
            Err(e) => earlier.push(e),
        }
    }
}

/// The accounts of all clients seen so far.
pub struct TransactionEngine {
    accounts: HashMap<ClientId, Account>,
}

impl View for TransactionEngine {
    type V = Ledger;

    closed spec fn view(&self) -> Ledger {
        self.accounts@.map_values(|a: Account| a@)
    }
}

impl Default for TransactionEngine {
    /// A ledger without accounts.
    fn default() -> (r: TransactionEngine)
        ensures
            r@ == Map::<ClientId, AccountState>::empty(),
            r.wf(),
    {
        TransactionEngine::new()
    }
}

impl TransactionEngine {
    /// There are finitely many accounts, each filed under its own client.
    pub open spec fn wf(self) -> bool {
        &&& self@.dom().finite()
        &&& forall|c: ClientId| #[trigger] self@.contains_key(c) ==> self@[c].client == c
    }

    /// A ledger without accounts.
    pub fn new() -> (r: TransactionEngine)
        ensures
            r@ == Map::<ClientId, AccountState>::empty(),
            r.wf(),
    {
        let r = TransactionEngine { accounts: HashMap::new() };
        assert(r@ =~= Map::empty());
        r
    }

    /// The balance of one client, where the client has an account.
    pub fn balance_of(&self, client: ClientId) -> (r: Option<Balance>)
        ensures
            r == if self@.contains_key(client) {
                Some(self@[client].balance)
            } else {
                None
            },
            r matches Some(b) ==> b.in_range(),
    {
        match self.accounts.get(&client) {
            Some(acc) => Some(acc.balance()),
            None => None,
        }
    }

    /// The account of one client, where the client has one.
    pub fn account(&self, client: ClientId) -> (r: Option<&Account>)
        ensures
            r is Some == self@.contains_key(client),
            r matches Some(acc) ==> acc@ == self@[client],
    {
        self.accounts.get(&client)
    }

    /// Applies one transaction to its client's account, which is opened
    /// first where the client is new. The account is kept whatever comes of
    /// the transaction.
    pub fn process_transaction(&mut self, tx: &Transaction) -> (r: Result<(), ActionError>)
        requires
            old(self).wf(),
        ensures
            final(self).wf(),
            final(self)@ == process_one(*tx, old(self)@),
            r == step(*tx, route(*tx, old(self)@)).0,
    {
        let mut acc = match self.accounts.remove(&tx.client) {
            Some(a) => a,
            None => Account::new(tx.client),
        };
        assert(acc@ == route(*tx, old(self)@));
        let r = tx.perform(&mut acc);
        proof {
            crate::laws::law_step_keeps_client(*tx, route(*tx, old(self)@));
        }
        self.accounts.insert(tx.client, acc);
        assert(self@ =~= process_one(*tx, old(self)@));
        r
    }

    /// Applies the transactions in order. One that is turned down changes
    /// nothing for those that follow; its error is handed back, in order,
    /// with those of the others.
    pub fn process_transactions(&mut self, txs: &[Transaction]) -> (errors: Vec<ActionError>)
        requires
            old(self).wf(),
        ensures
            final(self).wf(),
            final(self)@ == process_all(txs@, old(self)@),
            errors@ == errors_of(txs@, old(self)@),
    {
        let mut errors: Vec<ActionError> = Vec::new();
        let mut i: usize = 0;
        while i < txs.len()
            invariant
                i <= txs.len(),
                self.wf(),
                self@ == process_all(txs@.take(i as int), old(self)@),
                errors@ == errors_of(txs@.take(i as int), old(self)@),
            decreases txs.len() - i,
        {
            assert(txs@.take(i + 1).drop_last() == txs@.take(i as int));
            match self.process_transaction(&txs[i]) {
                Ok(_) => {},
                Err(e) => {
                    errors.push(e);
                },
            }
            i += 1;
        }
        assert(txs@.take(i as int) == txs@);
        errors
    }

    /// The balance of every account, one each, in no particular order.
    pub fn report(&self) -> (r: Vec<Balance>)
        requires
            self.wf(),
        ensures
            r@.len() == self@.dom().len(),
            forall|i: int|
                0 <= i < r@.len() ==> self@.contains_key(#[trigger] r@[i].client) && r@[i]
                    == self@[r@[i].client].balance,
            forall|i: int, j: int|
                0 <= i < j < r@.len() ==> #[trigger] r@[i].client != #[trigger] r@[j].client,
            forall|i: int| 0 <= i < r@.len() ==> (#[trigger] r@[i]).in_range(),
    {
        let mut r: Vec<Balance> = Vec::new();
        let keys = self.accounts.keys();
        let ghost clients = spec_keys_iter(&self.accounts).remaining().unref();
        assert(clients.to_set() == self.accounts@.dom());
        assert(clients.no_duplicates());
        for k in it: keys
            invariant
                self.wf(),
                it.seq().unref() == clients,
                clients.to_set() == self.accounts@.dom(),
                clients.no_duplicates(),
                r@.len() == it.index(),
                forall|i: int|
                    0 <= i < r@.len() ==> #[trigger] r@[i].client == clients[i] && r@[i]
                        == self@[clients[i]].balance,
                forall|i: int| 0 <= i < r@.len() ==> (#[trigger] r@[i]).in_range(),
        {
            let ghost n = r@.len() as int;
            assert(*k == clients[n]);
            assert(clients.to_set().contains(clients[n]));
            match self.accounts.get(k) {
                Some(acc) => {
                    assert(self@.contains_key(*k) && self@[*k] == acc@);
                    r.push(acc.balance());
                },
                None => {
                    // every key that the map hands out has its account
                    assert(false);
                },
            }
        }
        assert(r@.len() == clients.len());
        assert(self@.dom() =~= self.accounts@.dom());
        assert(clients.len() == self.accounts@.dom().len());
        assert forall|i: int| 0 <= i < r@.len() implies self@.contains_key(
            #[trigger] r@[i].client,
        ) by {
            assert(clients.to_set().contains(clients[i]));
        }
        r
    }
}

} // verus!
