//! The laws the ledger obeys, stated over the same spec-level views that the
//! operations' contracts use: `OrderLedger::entries`, `OrderLedger::read_result`
//! and `details_of`.

use crate::ledger::details_of;
use crate::ledger::LedgerError;
use crate::ledger::OrderLedger;
use vstd::prelude::*;

verus! {

/// Init-before-use: on a ledger on which `initialize` has not yet succeeded,
/// a read fails with the precondition failure. (The matching statement for
/// writes is part of `OrderLedger::insert`'s own contract: before
/// initialization it returns the same error and leaves the ledger unchanged.)
pub proof fn lemma_init_before_use(ledger: OrderLedger, order_id: Seq<char>)
    requires
        !ledger.is_initialized(),
    ensures
        ledger.read_result(order_id) == Err::<i64, LedgerError>(LedgerError::NotInitialized),
{
}

/// Read-your-write: for every key and value, a read of the key right after a
/// successful insert of that key returns the value just written.
pub proof fn lemma_read_your_write(
    before: OrderLedger,
    after: OrderLedger,
    order_id: Seq<char>,
    value: i64,
)
    requires
        after.is_initialized(),
        after.entries() == before.entries().insert(order_id, value),
    ensures
        after.read_result(order_id) == Ok::<i64, LedgerError>(value),
{
}

/// Overwrite: two successive inserts under the same key leave the second
/// value as the one a read returns — last write wins.
pub proof fn lemma_overwrite(
    first: OrderLedger,
    second: OrderLedger,
    last: OrderLedger,
    order_id: Seq<char>,
    value_one: i64,
    value_two: i64,
)
    requires
        second.entries() == first.entries().insert(order_id, value_one),
        last.is_initialized(),
        last.entries() == second.entries().insert(order_id, value_two),
    ensures
        last.read_result(order_id) == Ok::<i64, LedgerError>(value_two),
{
}

/// Key independence: a successful insert under one key never changes what a
/// read returns under any distinct key.
pub proof fn lemma_key_independence(
    before: OrderLedger,
    after: OrderLedger,
    inserted_key: Seq<char>,
    other_key: Seq<char>,
    value: i64,
)
    requires
        inserted_key != other_key,
        before.is_initialized(),
        after.is_initialized(),
        after.entries() == before.entries().insert(inserted_key, value),
    ensures
        after.read_result(other_key) == before.read_result(other_key),
{
}

/// The contents of a ledger that started empty and took the given inserts,
/// oldest first: each insert writes its value under its key, last write wins.
/// This is how `OrderLedger::insert` evolves `OrderLedger::entries` from the
/// empty mapping that `OrderLedger::new` establishes.
pub open spec fn replay(inserts: Seq<(Seq<char>, i64)>) -> Map<Seq<char>, i64>
    decreases inserts.len(),
{
    if inserts.len() == 0 {
        Map::empty()
    } else {
        replay(inserts.drop_last()).insert(inserts.last().0, inserts.last().1)
    }
}

/// Absent-key default: a key that none of the inserts ever wrote reads as
/// zero.
pub proof fn lemma_absent_key_default(inserts: Seq<(Seq<char>, i64)>, order_id: Seq<char>)
    requires
        forall|i: int| 0 <= i < inserts.len() ==> #[trigger] inserts[i].0 != order_id,
    ensures
        details_of(replay(inserts), order_id) == 0,
    decreases inserts.len(),
{
    if inserts.len() > 0 {
        assert(inserts.last().0 != order_id);
        lemma_absent_key_default(inserts.drop_last(), order_id);
    }
}

/// Idempotent re-read: a read is pure. Its contract determines the result
/// from the ledger and the key alone, so two reads of the same ledger under
/// the same key return the same result.
pub proof fn lemma_idempotent_reread(
    ledger: OrderLedger,
    order_id: Seq<char>,
    first: Result<i64, LedgerError>,
    second: Result<i64, LedgerError>,
)
    requires
        first == ledger.read_result(order_id),
        second == ledger.read_result(order_id),
    ensures
        first == second,
{
}

} // verus!
