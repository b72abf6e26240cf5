//! Reading the fields of one input row into a transaction.

use crate::amount::{fits, Amount, MAX_SCALE};
use crate::transaction::{ClientId, Transaction, TransactionId, TransactionType};
use vstd::prelude::*;

verus! {

/// The bytes of `deposit`.
pub open spec fn deposit_name() -> Seq<u8> {
    seq![100u8, 101u8, 112u8, 111u8, 115u8, 105u8, 116u8]
}

/// The bytes of `withdrawal`.
pub open spec fn withdrawal_name() -> Seq<u8> {
    seq![119u8, 105u8, 116u8, 104u8, 100u8, 114u8, 97u8, 119u8, 97u8, 108u8]
}

/// The bytes of `dispute`.
pub open spec fn dispute_name() -> Seq<u8> {
    seq![100u8, 105u8, 115u8, 112u8, 117u8, 116u8, 101u8]
}

/// The bytes of `resolve`.
pub open spec fn resolve_name() -> Seq<u8> {
    seq![114u8, 101u8, 115u8, 111u8, 108u8, 118u8, 101u8]
}

/// The bytes of `chargeback`.
pub open spec fn chargeback_name() -> Seq<u8> {
    seq![99u8, 104u8, 97u8, 114u8, 103u8, 101u8, 98u8, 97u8, 99u8, 107u8]
}

/// The kind that a row's `type` field names: one of the five names, in lower
/// case and nothing else.
pub open spec fn kind_named(name: Seq<u8>) -> Option<TransactionType> {
    if name == deposit_name() {
        Some(TransactionType::Deposit)
    } else if name == withdrawal_name() {
        Some(TransactionType::Withdrawal)
    } else if name == dispute_name() {
        Some(TransactionType::Dispute)
    } else if name == resolve_name() {
        Some(TransactionType::Resolve)
    } else if name == chargeback_name() {
        Some(TransactionType::Chargeback)
    } else {
        None
    }
}

/// Whether a row's `amount` field, given as mantissa and scale where it is
/// filled in, is one that a decimal can hold.
pub open spec fn amount_accepted(amount: Option<(i128, u32)>) -> bool {
    amount matches Some(parts) ==> fits(parts.0 as int) && parts.1 <= MAX_SCALE
}

fn same_bytes(a: &[u8], b: &[u8]) -> (r: bool)
    ensures
        r == (a@ == b@),
{
    if a.len() != b.len() {
        return false;
    }
    let mut i: usize = 0;
    while i < a.len()
        invariant
            i <= a.len(),
            a.len() == b.len(),
            a@.take(i as int) == b@.take(i as int),
        decreases a.len() - i,
    {
        if a[i] != b[i] {
            return false;
        }
        assert(a@.take(i + 1) =~= a@.take(i as int).push(a@[i as int]));
        assert(b@.take(i + 1) =~= b@.take(i as int).push(b@[i as int]));
        i += 1;
    }
    assert(a@ == a@.take(i as int));
    assert(b@ == b@.take(i as int));
    true
}

/// Turns the fields of input rows into transactions.
pub struct Parser {}

impl Parser {
    /// The kind that the bytes of a `type` field name.
    pub fn transaction_type(name: &[u8]) -> (r: Option<TransactionType>)
        ensures
            r == kind_named(name@),
    {
        let deposit: [u8; 7] = [100u8, 101u8, 112u8, 111u8, 115u8, 105u8, 116u8];
        let withdrawal: [u8; 10] = [119u8, 105u8, 116u8, 104u8, 100u8, 114u8, 97u8, 119u8, 97u8, 108u8];
        let dispute: [u8; 7] = [100u8, 105u8, 115u8, 112u8, 117u8, 116u8, 101u8];
        let resolve: [u8; 7] = [114u8, 101u8, 115u8, 111u8, 108u8, 118u8, 101u8];
        let chargeback: [u8; 10] = [99u8, 104u8, 97u8, 114u8, 103u8, 101u8, 98u8, 97u8, 99u8, 107u8];
        assert(deposit@ =~= deposit_name());
        assert(withdrawal@ =~= withdrawal_name());
        assert(dispute@ =~= dispute_name());
        assert(resolve@ =~= resolve_name());
        assert(chargeback@ =~= chargeback_name());
        if same_bytes(name, deposit.as_slice()) {
            Some(TransactionType::Deposit)
        } else if same_bytes(name, withdrawal.as_slice()) {
            Some(TransactionType::Withdrawal)
        } else if same_bytes(name, dispute.as_slice()) {
            Some(TransactionType::Dispute)
        } else if same_bytes(name, resolve.as_slice()) {
            Some(TransactionType::Resolve)
        } else if same_bytes(name, chargeback.as_slice()) {
            Some(TransactionType::Chargeback)
        } else {
            None
        }
    }

    /// The transaction that the fields of one row make up: `None` where the
    /// `type` field names no kind or the amount is beyond what a decimal
    /// holds.
    pub fn transaction(
        id: TransactionId,
        name: &[u8],
        client: ClientId,
        amount: Option<(i128, u32)>,
    ) -> (r: Option<Transaction>)
        ensures
            r is Some <==> kind_named(name@) is Some && amount_accepted(amount),
            r matches Some(tx) ==> {
                &&& tx.id == id
                &&& Some(tx.ttype) == kind_named(name@)
                &&& tx.client == client
                &&& tx.amount is Some == amount is Some
                &&& tx.amount matches Some(a) ==> a.wf() && a@ == (
                    amount->Some_0.0 as int,
                    amount->Some_0.1 as nat,
                )
            },
    {
        let ttype = Self::transaction_type(name)?;
        let amount = match amount {
            None => None,
            Some(parts) => Some(Amount::new(parts.0, parts.1)?),
        };
        Some(Transaction { id, ttype, client, amount })
    }
}

} // verus!
