use order_ledger::stored_or_default;
use order_ledger::LedgerError;
use order_ledger::OrderLedger;

#[test]
fn init_before_use_is_rejected() {
    let mut ledger = OrderLedger::new();
    assert_eq!(
        ledger.get_order_details("ORDER-001"),
        Err(LedgerError::NotInitialized)
    );
    assert_eq!(
        ledger.insert("ORDER-001".to_string(), 42),
        Err(LedgerError::NotInitialized)
    );
    assert_eq!(ledger.lookup("ORDER-001"), Err(LedgerError::NotInitialized));
    // The failed calls left the ledger unchanged: still uninitialized.
    assert_eq!(
        ledger.get_order_details("ORDER-001"),
        Err(LedgerError::NotInitialized)
    );
}

#[test]
fn double_initialization_is_rejected() {
    let mut ledger = OrderLedger::new();
    assert_eq!(ledger.initialize(), Ok(()));
    assert_eq!(ledger.insert("ORDER-001".to_string(), 42), Ok(()));
    assert_eq!(ledger.initialize(), Err(LedgerError::AlreadyInitialized));
    // The rejected re-initialization lost no data.
    assert_eq!(ledger.get_order_details("ORDER-001"), Ok(42));
}

#[test]
fn read_your_write() {
    let mut ledger = OrderLedger::new();
    assert_eq!(ledger.initialize(), Ok(()));
    assert_eq!(ledger.insert("".to_string(), 5), Ok(()));
    assert_eq!(ledger.get_order_details(""), Ok(5));
    assert_eq!(ledger.insert("a key with spaces".to_string(), i64::MIN), Ok(()));
    assert_eq!(ledger.get_order_details("a key with spaces"), Ok(i64::MIN));
    assert_eq!(ledger.insert("max".to_string(), i64::MAX), Ok(()));
    assert_eq!(ledger.get_order_details("max"), Ok(i64::MAX));
}

#[test]
fn overwrite_last_write_wins() {
    let mut ledger = OrderLedger::new();
    assert_eq!(ledger.initialize(), Ok(()));
    assert_eq!(ledger.insert("ORDER-001".to_string(), 1), Ok(()));
    assert_eq!(ledger.insert("ORDER-001".to_string(), 2), Ok(()));
    assert_eq!(ledger.get_order_details("ORDER-001"), Ok(2));
}

#[test]
fn absent_key_reads_zero() {
    let mut ledger = OrderLedger::new();
    assert_eq!(ledger.initialize(), Ok(()));
    assert_eq!(ledger.get_order_details("never-written"), Ok(0));
    assert_eq!(ledger.insert("other".to_string(), 9), Ok(()));
    assert_eq!(ledger.get_order_details("never-written"), Ok(0));
}

#[test]
fn key_independence() {
    let mut ledger = OrderLedger::new();
    assert_eq!(ledger.initialize(), Ok(()));
    assert_eq!(ledger.insert("ORDER-001".to_string(), 11), Ok(()));
    assert_eq!(ledger.insert("ORDER-002".to_string(), 22), Ok(()));
    assert_eq!(ledger.get_order_details("ORDER-001"), Ok(11));
    assert_eq!(ledger.insert("ORDER-002".to_string(), 33), Ok(()));
    assert_eq!(ledger.get_order_details("ORDER-001"), Ok(11));
}

#[test]
fn idempotent_reread() {
    let mut ledger = OrderLedger::new();
    assert_eq!(ledger.initialize(), Ok(()));
    assert_eq!(ledger.insert("ORDER-001".to_string(), 7), Ok(()));
    let first = ledger.get_order_details("ORDER-001");
    let second = ledger.get_order_details("ORDER-001");
    let third = ledger.get_order_details("ORDER-001");
    assert_eq!(first, Ok(7));
    assert_eq!(first, second);
    assert_eq!(second, third);
    let absent_first = ledger.get_order_details("ORDER-999");
    let absent_second = ledger.get_order_details("ORDER-999");
    assert_eq!(absent_first, Ok(0));
    assert_eq!(absent_first, absent_second);
}

#[test]
fn lookup_distinguishes_stored_zero_from_absent() {
    let mut ledger = OrderLedger::new();
    assert_eq!(ledger.initialize(), Ok(()));
    assert_eq!(ledger.insert("stored-zero".to_string(), 0), Ok(()));
    assert_eq!(ledger.lookup("stored-zero"), Ok(Some(0)));
    assert_eq!(ledger.lookup("absent"), Ok(None));
    // The compatibility read conflates the two on purpose.
    assert_eq!(ledger.get_order_details("stored-zero"), Ok(0));
    assert_eq!(ledger.get_order_details("absent"), Ok(0));
}

#[test]
fn user_error_codes() {
    assert_eq!(LedgerError::NotInitialized.user_error_code(), Some(0));
    assert_eq!(LedgerError::AlreadyInitialized.user_error_code(), None);
}

#[test]
fn stored_or_default_applies_zero_default() {
    assert_eq!(stored_or_default(None), 0);
    assert_eq!(stored_or_default(Some(-7)), -7);
    assert_eq!(stored_or_default(Some(0)), 0);
    assert_eq!(stored_or_default(Some(i64::MAX)), i64::MAX);
}

#[test]
fn order_history_scenario() {
    let mut ledger = OrderLedger::new();
    assert_eq!(ledger.initialize(), Ok(()));
    assert_eq!(ledger.insert("ORDER-001".to_string(), 42), Ok(()));
    assert_eq!(ledger.get_order_details("ORDER-001"), Ok(42));
    assert_eq!(ledger.get_order_details("ORDER-999"), Ok(0));
    assert_eq!(ledger.insert("ORDER-001".to_string(), -7), Ok(()));
    assert_eq!(ledger.get_order_details("ORDER-001"), Ok(-7));
}
