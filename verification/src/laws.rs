//! What holds of [`step`] on every account and every transaction.

use crate::account::AccountState;
use crate::action::{own_units, recorded_units, step, ActionError};
use crate::engine::{process_all, route, Ledger};
use crate::amount::{pow10, round_half_even, rounded_parts, units_of, PRECISION};
use crate::transaction::{ClientId, Transaction, TransactionType};
use vstd::prelude::*;

verus! {

/// Every power of ten is positive.
pub proof fn lemma_pow10_positive(n: nat)
    ensures
        pow10(n) > 0,
    decreases n,
{
    if n > 0 {
        lemma_pow10_positive((n - 1) as nat);
    }
}

/// Rounding a number that is not negative gives a number that is not negative.
pub proof fn lemma_round_half_even_nonnegative(m: int, p: int)
    requires
        m >= 0,
        p > 0,
    ensures
        round_half_even(m, p) >= 0,
{
    assert(m / p >= 0) by (nonlinear_arith)
        requires
            m >= 0,
            p > 0,
    ;
}

/// An amount that is not negative comes to a number of ten-thousandths that
/// is not negative.
pub proof fn lemma_units_nonnegative(mantissa: int, scale: nat)
    requires
        mantissa >= 0,
    ensures
        units_of(mantissa, scale) >= 0,
{
    if scale <= PRECISION {
        lemma_pow10_positive((PRECISION - scale) as nat);
        let f = pow10((PRECISION - scale) as nat);
        assert(mantissa * f >= 0) by (nonlinear_arith)
            requires
                mantissa >= 0,
                f > 0,
        ;
    } else {
        lemma_pow10_positive((scale - PRECISION) as nat);
        lemma_round_half_even_nonnegative(mantissa, pow10((scale - PRECISION) as nat));
        reveal_with_fuel(pow10, 2);
    }
}

/// A well-formed account is well-formed after any transaction, accepted or
/// turned down.
pub proof fn law_step_preserves_wf(tx: Transaction, s: AccountState)
    requires
        s.wf(),
    ensures
        step(tx, s).1.wf(),
        step(tx, s).1.client == s.client,
{
    if let Some(a) = tx.amount {
        if a@.0 >= 0 {
            lemma_units_nonnegative(a@.0, a@.1);
        }
    }
    if s.history.contains_key(tx.id) {
        if let Some(a) = s.history[tx.id].amount {
            lemma_units_nonnegative(a@.0, a@.1);
        }
    }
}

/// No transaction changes whose account it is.
pub proof fn law_step_keeps_client(tx: Transaction, s: AccountState)
    ensures
        step(tx, s).1.client == s.client,
{
}

/// A new account is well-formed.
pub proof fn law_fresh_is_wf(client: u16)
    ensures
        AccountState::fresh(client).wf(),
{
}

/// Total is available plus held after every accepted deposit and every
/// accepted withdrawal, on an account where it was so before; and neither
/// touches `held`.
pub proof fn law_total_is_available_plus_held(tx: Transaction, s: AccountState)
    requires
        s.wf(),
        s.balance.total == s.balance.available + s.balance.held,
        tx.ttype == TransactionType::Deposit || tx.ttype == TransactionType::Withdrawal,
        step(tx, s).0 is Ok,
    ensures
        step(tx, s).1.balance.total == step(tx, s).1.balance.available + step(
            tx,
            s,
        ).1.balance.held,
        step(tx, s).1.balance.held == s.balance.held,
        !step(tx, s).1.balance.locked,
{
    if let Some(a) = tx.amount {
        lemma_units_nonnegative(a@.0, a@.1);
    }
}

/// A withdrawal of more than is available is accepted and leaves the account
/// exactly as it was: sums, lock, history and disputes.
pub proof fn law_overdrawn_withdrawal(tx: Transaction, s: AccountState)
    requires
        !s.balance.locked,
        tx.ttype == TransactionType::Withdrawal,
        !(tx.amount matches Some(a) && a@.0 < 0),
        own_units(tx.amount) matches Ok(u) && u > s.balance.available,
    ensures
        step(tx, s) == (Ok::<(), ActionError>(()), s),
{
}

/// A locked account turns down every transaction and stays as it is.
pub proof fn law_locked_is_final(tx: Transaction, s: AccountState)
    requires
        s.balance.locked,
    ensures
        step(tx, s) == (Err::<(), ActionError>(ActionError::LockedAccount), s),
{
}

/// No transaction unlocks an account.
pub proof fn law_lock_is_kept(tx: Transaction, s: AccountState)
    ensures
        s.balance.locked ==> step(tx, s).1.balance.locked,
        step(tx, s).1.balance.locked && !s.balance.locked ==> tx.ttype
            == TransactionType::Chargeback && step(tx, s).0 is Ok,
{
}

/// A dispute of an id that is not recorded, or that is already under
/// dispute, changes nothing.
pub proof fn law_dispute_without_effect(tx: Transaction, s: AccountState)
    requires
        tx.ttype == TransactionType::Dispute,
        !s.history.contains_key(tx.id) || s.disputes.contains_key(tx.id),
    ensures
        step(tx, s).1 == s,
        step(tx, s).0 is Ok <==> !s.balance.locked && !(tx.amount matches Some(a) && a@.0 < 0),
{
}

/// A resolve or a chargeback of an id that is not under dispute changes
/// nothing.
pub proof fn law_settle_without_dispute(tx: Transaction, s: AccountState)
    requires
        tx.ttype == TransactionType::Resolve || tx.ttype == TransactionType::Chargeback,
        !s.disputes.contains_key(tx.id),
    ensures
        step(tx, s).1 == s,
        step(tx, s).0 is Ok <==> !s.balance.locked && !(tx.amount matches Some(a) && a@.0 < 0),
{
}

/// A dispute followed by its resolve gives `available` and `held` back as
/// they were, and leaves the transaction undisputed, where the disputed
/// amount was still available when the dispute came.
pub proof fn law_dispute_resolve_round_trip(
    opened: Transaction,
    closed: Transaction,
    s: AccountState,
)
    requires
        s.wf(),
        opened.ttype == TransactionType::Dispute,
        closed.ttype == TransactionType::Resolve,
        closed.id == opened.id,
        s.history.contains_key(opened.id),
        !s.disputes.contains_key(opened.id),
        step(opened, s).0 is Ok,
        step(closed, step(opened, s).1).0 is Ok,
        recorded_units(s.history[opened.id].amount) matches Ok(u) ==> u <= s.balance.available,
    ensures
        step(closed, step(opened, s).1).1.balance == s.balance,
        step(closed, step(opened, s).1).1.history == s.history,
        step(closed, step(opened, s).1).1.disputes == s.disputes,
{
    if let Some(a) = s.history[opened.id].amount {
        lemma_units_nonnegative(a@.0, a@.1);
    }
    let mid = step(opened, s).1;
    assert(mid.disputes.remove(opened.id) =~= s.disputes);
}

/// Once an account is locked, no run of transactions, for whatever client
/// and of whatever kind, changes anything in it.
pub proof fn law_locked_account_is_frozen(txs: Seq<Transaction>, ledger: Ledger, client: ClientId)
    requires
        ledger.contains_key(client),
        ledger[client].balance.locked,
    ensures
        process_all(txs, ledger).contains_key(client),
        process_all(txs, ledger)[client] == ledger[client],
    decreases txs.len(),
{
    if txs.len() > 0 {
        law_locked_account_is_frozen(txs.drop_last(), ledger, client);
    }
}

/// Transactions change no account but those of their own clients, and
/// close none.
pub proof fn law_other_accounts_untouched(txs: Seq<Transaction>, ledger: Ledger, client: ClientId)
    requires
        forall|i: int| 0 <= i < txs.len() ==> (#[trigger] txs[i]).client != client,
    ensures
        process_all(txs, ledger).contains_key(client) == ledger.contains_key(client),
        ledger.contains_key(client) ==> process_all(txs, ledger)[client] == ledger[client],
    decreases txs.len(),
{
    if txs.len() > 0 {
        let rest = txs.drop_last();
        assert forall|i: int| 0 <= i < rest.len() implies (#[trigger] rest[i]).client
            != client by {
            assert(rest[i] == txs[i]);
        }
        law_other_accounts_untouched(rest, ledger, client);
        assert(txs.last() == txs[txs.len() - 1]);
    }
}

/// A ledger whose accounts are each well-formed and filed under their own
/// client is so after any run of transactions.
pub proof fn law_ledger_stays_wf(txs: Seq<Transaction>, ledger: Ledger)
    requires
        forall|c: ClientId| #[trigger]
            ledger.contains_key(c) ==> ledger[c].wf() && ledger[c].client == c,
    ensures
        forall|c: ClientId| #[trigger]
            process_all(txs, ledger).contains_key(c) ==> process_all(txs, ledger)[c].wf()
                && process_all(txs, ledger)[c].client == c,
    decreases txs.len(),
{
    if txs.len() > 0 {
        law_ledger_stays_wf(txs.drop_last(), ledger);
        let before = process_all(txs.drop_last(), ledger);
        law_fresh_is_wf(txs.last().client);
        law_step_preserves_wf(txs.last(), route(txs.last(), before));
    }
}

/// A deposit of a new id, then its dispute, then its resolve: `available` and
/// `held` are what they were right after the deposit, and `held` is nothing
/// where it was nothing before.
pub proof fn law_deposit_dispute_resolve(
    paid: Transaction,
    opened: Transaction,
    closed: Transaction,
    s: AccountState,
)
    requires
        s.wf(),
        paid.ttype == TransactionType::Deposit,
        opened.ttype == TransactionType::Dispute,
        closed.ttype == TransactionType::Resolve,
        opened.id == paid.id,
        closed.id == paid.id,
        !s.history.contains_key(paid.id),
        step(paid, s).0 is Ok,
        step(opened, step(paid, s).1).0 is Ok,
        step(closed, step(opened, step(paid, s).1).1).0 is Ok,
    ensures
        step(closed, step(opened, step(paid, s).1).1).1.balance == step(paid, s).1.balance,
        s.balance.held == 0 ==> step(closed, step(opened, step(paid, s).1).1).1.balance.held == 0,
{
    if let Some(a) = paid.amount {
        lemma_units_nonnegative(a@.0, a@.1);
    }
    law_step_preserves_wf(paid, s);
    law_dispute_resolve_round_trip(opened, closed, step(paid, s).1);
}

/// An amount counts for what it is once rounded to four places: one that is
/// already the rounding of another comes to the same ten-thousandths, and a
/// transaction that carries it does to the balance what the other does.
pub proof fn law_amount_is_rounded_first(tx: Transaction, rounded: Transaction, s: AccountState)
    requires
        tx.amount matches Some(a) && a@.0 >= 0 && (rounded.amount matches Some(b) && b@
            == rounded_parts(a@.0, a@.1, PRECISION as nat)),
        rounded.id == tx.id,
        rounded.ttype == tx.ttype,
    ensures
        tx.amount->Some_0.units() == rounded.amount->Some_0.units(),
        step(rounded, s).0 == step(tx, s).0,
        step(rounded, s).1.balance == step(tx, s).1.balance,
        step(rounded, s).1.disputes == step(tx, s).1.disputes,
{
    let a = tx.amount->Some_0;
    if a@.1 > PRECISION {
        lemma_pow10_positive((a@.1 - PRECISION) as nat);
        lemma_round_half_even_nonnegative(a@.0, pow10((a@.1 - PRECISION) as nat));
    }
}

} // verus!
