//! The order ledger: one string-keyed mapping from order identifier to a
//! 64-bit signed value, guarded by a one-time initialization step.

use vstd::hash_map::StringHashMap;
use vstd::prelude::*;

verus! {

/// The failure conditions the ledger surfaces. No operation recovers locally:
/// a failed call leaves the ledger exactly as it was.
#[derive(Clone, Copy, Debug, PartialEq, Eq, Structural)]
pub enum LedgerError {
    /// `insert` or `get_order_details` was invoked before the backing mapping
    /// exists. Surfaced to callers as a user-level error code.
    NotInitialized,
    /// `initialize` was invoked a second time. Re-creating the backing mapping
    /// would silently lose data, so double initialization is rejected.
    AlreadyInitialized,
}

impl LedgerError {
    /// The user-level numeric identifier of this error, if it has one.
    /// Only the precondition failure carries a user-level code; a rejected
    /// re-initialization stands for the store's own refusal to re-create an
    /// already-named container and has none.
    pub open spec fn spec_user_error_code(self) -> Option<u16> {
        match self {
            LedgerError::NotInitialized => Some(0u16),
            LedgerError::AlreadyInitialized => None,
        }
    }

    /// Returns the user-level numeric identifier of this error, if it has one.
    pub fn user_error_code(&self) -> (code: Option<u16>)
        ensures
            code == self.spec_user_error_code(),
    {
        match self {
            LedgerError::NotInitialized => Some(0u16),
            LedgerError::AlreadyInitialized => None,
        }
    }
}

/// The value stored for `order_id`, with the read path's defaulting rule:
/// an absent key reads as zero.
pub open spec fn details_of(entries: Map<Seq<char>, i64>, order_id: Seq<char>) -> i64 {
    if entries.contains_key(order_id) {
        entries[order_id]
    } else {
        0
    }
}

/// The defaulting rule of the read path as a spec-level function on one slot.
pub open spec fn spec_stored_or_default(slot: Option<i64>) -> i64 {
    match slot {
        Some(value) => value,
        None => 0,
    }
}

/// Applies the read path's defaulting rule to one looked-up slot: a missing
/// slot reads as zero, a present one as its stored value.
pub fn stored_or_default(slot: Option<i64>) -> (value: i64)
    ensures
        value == spec_stored_or_default(slot),
{
    match slot {
        Some(value) => value,
        None => 0,
    }
}

/// A persistent mapping from order identifier (an arbitrary caller-supplied
/// string; no format is enforced) to one stored value.
///
/// The stored value type is `i64` throughout: the module stores a single
/// signed 64-bit field, and the read and write paths agree on it.
///
/// The mapping must be created exactly once, by [`OrderLedger::initialize`],
/// before any insert or read is legal; until then both operations fail with
/// [`LedgerError::NotInitialized`] and leave the ledger unchanged.
pub struct OrderLedger {
    ready: bool,
    entries: StringHashMap<i64>,
}

impl OrderLedger {
    /// Whether `initialize` has already succeeded on this ledger.
    pub closed spec fn is_initialized(self) -> bool {
        self.ready
    }

    /// The current contents of the mapping.
    pub closed spec fn entries(self) -> Map<Seq<char>, i64> {
        self.entries@
    }

    /// What a read of `order_id` returns on this ledger: the stored value
    /// (zero if the key is absent) once initialized, and the precondition
    /// failure before that.
    pub open spec fn read_result(self, order_id: Seq<char>) -> Result<i64, LedgerError> {
        if self.is_initialized() {
            Ok(details_of(self.entries(), order_id))
        } else {
            Err(LedgerError::NotInitialized)
        }
    }

    /// What a distinguishing lookup of `order_id` returns on this ledger:
    /// `None` for a key never stored, `Some` of the stored value otherwise.
    pub open spec fn lookup_result(self, order_id: Seq<char>) -> Result<Option<i64>, LedgerError> {
        if self.is_initialized() {
            if self.entries().contains_key(order_id) {
                Ok(Some(self.entries()[order_id]))
            } else {
                Ok(None)
            }
        } else {
            Err(LedgerError::NotInitialized)
        }
    }

    /// Creates a fresh, not yet initialized ledger handle with no entries.
    pub fn new() -> (ledger: Self)
        ensures
            !ledger.is_initialized(),
            ledger.entries() == Map::<Seq<char>, i64>::empty(),
    {
        OrderLedger { ready: false, entries: StringHashMap::new() }
    }

    /// Creates the backing mapping. Must be invoked exactly once, before any
    /// other operation; a second invocation fails with `AlreadyInitialized`
    /// and leaves the ledger unchanged.
    pub fn initialize(&mut self) -> (result: Result<(), LedgerError>)
        ensures
            !old(self).is_initialized() ==> {
                &&& result == Ok::<(), LedgerError>(())
                &&& final(self).is_initialized()
                &&& final(self).entries() == old(self).entries()
            },
            old(self).is_initialized() ==> {
                &&& result == Err::<(), LedgerError>(LedgerError::AlreadyInitialized)
                &&& *final(self) == *old(self)
            },
    {
        if self.ready {
            Err(LedgerError::AlreadyInitialized)
        } else {
            self.ready = true;
            Ok(())
        }
    }

    /// Writes `value` as the stored entry for `order_id`, creating the key if
    /// it is missing and unconditionally overwriting any prior value (last
    /// write wins). Fails with `NotInitialized`, leaving the ledger unchanged,
    /// if and only if the ledger was never initialized.
    pub fn insert(&mut self, order_id: String, value: i64) -> (result: Result<(), LedgerError>)
        ensures
            old(self).is_initialized() ==> {
                &&& result == Ok::<(), LedgerError>(())
                &&& final(self).is_initialized()
                &&& final(self).entries() == old(self).entries().insert(order_id@, value)
            },
            !old(self).is_initialized() ==> {
                &&& result == Err::<(), LedgerError>(LedgerError::NotInitialized)
                &&& *final(self) == *old(self)
            },
    {
        if !self.ready {
            return Err(LedgerError::NotInitialized);
        }
        self.entries.insert(order_id, value);
        Ok(())
    }

    /// Looks up `order_id` and returns the stored value, or zero if the key
    /// was never stored (a stored zero and an absent key read alike; see
    /// [`OrderLedger::lookup`] to tell them apart). A pure read: the ledger
    /// is not changed. Fails with `NotInitialized` if and only if the ledger
    /// was never initialized.
    pub fn get_order_details(&self, order_id: &str) -> (result: Result<i64, LedgerError>)
        ensures
            result == self.read_result(order_id@),
    {
        if !self.ready {
            return Err(LedgerError::NotInitialized);
        }
        let slot: Option<i64> = match self.entries.get(order_id) {
            Some(value) => Some(*value),
            None => None,
        };
        Ok(stored_or_default(slot))
    }

    /// Looks up `order_id` and distinguishes an absent key (`None`) from an
    /// explicitly stored value (`Some`), including a stored zero. A pure
    /// read. Fails with `NotInitialized` if and only if the ledger was never
    /// initialized.
    pub fn lookup(&self, order_id: &str) -> (result: Result<Option<i64>, LedgerError>)
        ensures
            result == self.lookup_result(order_id@),
    {
        if !self.ready {
            return Err(LedgerError::NotInitialized);
        }
        let slot: Option<i64> = match self.entries.get(order_id) {
            Some(value) => Some(*value),
            None => None,
        };
        Ok(slot)
    }
}

} // verus!
