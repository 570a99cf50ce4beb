use mongodb_connection::connection::{Access, MongoDbConnection, TransactionGuard, TransactionTicket};
use mongodb_connection::error::{
    catch, translate, BackendFailure, ConnectorError, Operation, RouterError, ISOLATION_LEVELS_UNSUPPORTED,
};
use mongodb_connection::outcome::{update_record_outcome, update_records_outcome};

fn duplicate_key() -> BackendFailure {
    BackendFailure {
        code: Some(11000),
        message: "E11000 duplicate key error collection: db.User index: name_1".to_string(),
        transient: false,
    }
}

fn network_failure() -> BackendFailure {
    BackendFailure { code: None, message: "connection reset".to_string(), transient: true }
}

fn started(guard: &mut TransactionGuard) -> TransactionTicket {
    let ticket = guard.begin_transaction(&None).unwrap();
    guard.transaction_started(ticket, Ok(())).unwrap();
    ticket
}

#[test]
fn new_connection_allows_direct_use() {
    let mut conn = MongoDbConnection::new("session", "db");
    assert_eq!(*conn.database(), "db");
    assert_eq!(*conn.session_mut(), "session");
    assert!(!conn.take_abandoned());
    assert_eq!(conn.authorize(Access::Direct, Operation::CreateRecord), Ok(()));
}

#[test]
fn direct_use_refused_while_transaction_alive() {
    let mut guard = TransactionGuard::new();
    let ticket = started(&mut guard);
    assert_eq!(
        guard.authorize(Access::Direct, Operation::GetManyRecords),
        Err(ConnectorError::ConnectionInUse { operation: Operation::GetManyRecords })
    );
    assert_eq!(guard.authorize(Access::Transaction(ticket), Operation::GetManyRecords), Ok(()));
}

#[test]
fn second_transaction_refused_while_first_alive() {
    let mut guard = TransactionGuard::new();
    let _first = started(&mut guard);
    assert_eq!(
        guard.begin_transaction(&None),
        Err(ConnectorError::ConnectionInUse { operation: Operation::StartTransaction })
    );
}

#[test]
fn direct_use_refused_while_transaction_starting() {
    let mut guard = TransactionGuard::new();
    let ticket = guard.begin_transaction(&None).unwrap();
    assert!(guard.authorize(Access::Direct, Operation::DeleteRecords).is_err());
    assert_eq!(
        guard.authorize(Access::Transaction(ticket), Operation::DeleteRecords),
        Err(ConnectorError::TransactionNotActive { operation: Operation::DeleteRecords })
    );
}

#[test]
fn commit_ends_transaction_and_frees_connection() {
    let mut guard = TransactionGuard::new();
    let ticket = started(&mut guard);
    assert_eq!(guard.transaction_committed(ticket, Ok(())), Ok(()));
    assert_eq!(guard.authorize(Access::Direct, Operation::CreateRecord), Ok(()));
    let err = guard.authorize(Access::Transaction(ticket), Operation::CreateRecord).unwrap_err();
    assert_eq!(err, ConnectorError::TransactionNotActive { operation: Operation::CreateRecord });
    assert!(err.is_programming_error());
}

#[test]
fn ended_transaction_cannot_be_committed_again() {
    let mut guard = TransactionGuard::new();
    let ticket = started(&mut guard);
    assert_eq!(guard.transaction_rolled_back(ticket, Ok(())), Ok(()));
    assert_eq!(
        guard.transaction_committed(ticket, Ok(())),
        Err(ConnectorError::TransactionNotActive { operation: Operation::CommitTransaction })
    );
}

#[test]
fn stale_ticket_refused_in_next_transaction() {
    let mut guard = TransactionGuard::new();
    let first = started(&mut guard);
    guard.transaction_committed(first, Ok(())).unwrap();
    let second = started(&mut guard);
    assert_ne!(first, second);
    assert!(guard.authorize(Access::Transaction(first), Operation::CreateRecord).is_err());
    assert_eq!(guard.authorize(Access::Transaction(second), Operation::CreateRecord), Ok(()));
}

#[test]
fn failed_commit_is_translated_and_ends_transaction() {
    let mut guard = TransactionGuard::new();
    let ticket = started(&mut guard);
    assert_eq!(
        guard.transaction_committed(ticket, Err(network_failure())),
        Err(ConnectorError::Backend {
            operation: Operation::CommitTransaction,
            code: None,
            message: "connection reset".to_string(),
            transient: true,
        })
    );
    assert_eq!(guard.authorize(Access::Direct, Operation::CreateRecord), Ok(()));
}

#[test]
fn failed_start_frees_session_with_translated_error() {
    let mut guard = TransactionGuard::new();
    let ticket = guard.begin_transaction(&None).unwrap();
    assert_eq!(
        guard.transaction_started(ticket, Err(network_failure())),
        Err(translate(Operation::StartTransaction, network_failure()))
    );
    assert_eq!(guard.authorize(Access::Direct, Operation::CreateRecord), Ok(()));
    assert!(guard.authorize(Access::Transaction(ticket), Operation::CreateRecord).is_err());
}

#[test]
fn isolation_level_is_unsupported() {
    let mut guard = TransactionGuard::new();
    let r = guard.begin_transaction(&Some("Serializable".to_string()));
    assert_eq!(r, Err(ConnectorError::Unsupported { reason: ISOLATION_LEVELS_UNSUPPORTED.to_string() }));
    assert!(!r.unwrap_err().is_programming_error());
    // Nothing was started: the connection is still free.
    assert_eq!(guard.authorize(Access::Direct, Operation::CreateRecord), Ok(()));
    let ticket = guard.begin_transaction(&None).unwrap();
    assert_eq!(ticket, TransactionTicket { epoch: 0 });
}

#[test]
fn isolation_level_refused_even_during_transaction() {
    let mut guard = TransactionGuard::new();
    let _ticket = started(&mut guard);
    assert!(matches!(
        guard.begin_transaction(&Some("ReadCommitted".to_string())),
        Err(ConnectorError::Unsupported { .. })
    ));
}

#[test]
fn update_record_takes_last_of_many() {
    let updated = vec![(1, "a"), (2, "b"), (3, "c")];
    assert_eq!(update_records_outcome(Ok(updated.clone())), Ok(3));
    assert_eq!(update_record_outcome(Ok(updated)), Ok(Some((3, "c"))));
}

#[test]
fn update_record_without_match_is_none() {
    assert_eq!(update_records_outcome::<u32>(Ok(vec![])), Ok(0));
    assert_eq!(update_record_outcome::<u32>(Ok(vec![])), Ok(None));
}

#[test]
fn update_failures_are_translated() {
    assert_eq!(
        update_records_outcome::<u32>(Err(RouterError::Backend(duplicate_key()))),
        Err(translate(Operation::UpdateRecords, duplicate_key()))
    );
    assert_eq!(
        update_record_outcome::<u32>(Err(RouterError::Backend(duplicate_key()))),
        Err(translate(Operation::UpdateRecord, duplicate_key()))
    );
}

#[test]
fn native_upsert_is_refused_as_programming_error() {
    let conn = MongoDbConnection::new((), ());
    let r: Result<u32, ConnectorError> = conn.native_upsert_record();
    let err = r.unwrap_err();
    assert_eq!(err, ConnectorError::Unimplemented { operation: Operation::NativeUpsertRecord });
    assert!(err.is_programming_error());
    assert_eq!(
        conn.authorize(Access::Direct, Operation::NativeUpsertRecord),
        Err(ConnectorError::Unimplemented { operation: Operation::NativeUpsertRecord })
    );
}

#[test]
fn native_upsert_refused_inside_transaction() {
    let mut guard = TransactionGuard::new();
    let ticket = started(&mut guard);
    assert_eq!(
        guard.authorize(Access::Transaction(ticket), Operation::NativeUpsertRecord),
        Err(ConnectorError::Unimplemented { operation: Operation::NativeUpsertRecord })
    );
}

#[test]
fn backend_failure_is_translated_for_every_read() {
    for op in [
        Operation::GetSingleRecord,
        Operation::GetManyRecords,
        Operation::GetRelatedM2mRecordIds,
        Operation::AggregateRecords,
        Operation::QueryRaw,
    ] {
        let r: Result<u32, ConnectorError> = catch(op, Err(RouterError::Backend(network_failure())));
        let err = r.unwrap_err();
        assert_eq!(
            err,
            ConnectorError::Backend {
                operation: op,
                code: None,
                message: "connection reset".to_string(),
                transient: true,
            }
        );
        assert!(!err.is_programming_error());
    }
}

#[test]
fn connector_error_passes_through_catch() {
    let e = ConnectorError::Unsupported { reason: "no".to_string() };
    let r: Result<u32, ConnectorError> = catch(Operation::ExecuteRaw, Err(RouterError::Connector(e.clone())));
    assert_eq!(r, Err(e));
}

#[test]
fn created_identity_passes_through_to_single_read() {
    let conn = MongoDbConnection::new((), ());
    assert_eq!(conn.authorize(Access::Direct, Operation::CreateRecord), Ok(()));
    let created = catch(Operation::CreateRecord, Ok(vec![("id".to_string(), "64b7".to_string())])).unwrap();
    assert_eq!(created, vec![("id".to_string(), "64b7".to_string())]);
    assert_eq!(conn.authorize(Access::Direct, Operation::GetSingleRecord), Ok(()));
    let fetched = catch(Operation::GetSingleRecord, Ok(Some(created.clone()))).unwrap();
    assert_eq!(fetched, Some(created));
}

#[test]
fn create_records_duplicate_key_failure_is_translated() {
    let r: Result<usize, ConnectorError> = catch(Operation::CreateRecords, Err(RouterError::Backend(duplicate_key())));
    assert_eq!(
        r,
        Err(ConnectorError::Backend {
            operation: Operation::CreateRecords,
            code: Some(11000),
            message: "E11000 duplicate key error collection: db.User index: name_1".to_string(),
            transient: false,
        })
    );
}

#[test]
fn delete_records_zero_count_passes_through() {
    let r: Result<usize, ConnectorError> = catch(Operation::DeleteRecords, Ok(0));
    assert_eq!(r, Ok(0));
}

#[test]
fn dropped_transaction_releases_connection() {
    let mut conn = MongoDbConnection::new((), ());
    let ticket = conn.begin_transaction(&None).unwrap();
    conn.transaction_started(ticket, Ok(())).unwrap();
    assert!(conn.authorize(Access::Direct, Operation::CreateRecord).is_err());
    assert_eq!(conn.transaction_abandoned(ticket), Ok(()));
    assert_eq!(conn.authorize(Access::Direct, Operation::CreateRecord), Ok(()));
    assert!(conn.authorize(Access::Transaction(ticket), Operation::CreateRecord).is_err());
    // The dropped transaction must be rolled back once, before the next use.
    assert!(conn.take_abandoned());
    assert!(!conn.take_abandoned());
    let next = conn.begin_transaction(&None).unwrap();
    assert_eq!(next, TransactionTicket { epoch: 1 });
}

#[test]
fn dropped_start_releases_connection() {
    let mut guard = TransactionGuard::new();
    let ticket = guard.begin_transaction(&None).unwrap();
    assert_eq!(guard.transaction_abandoned(ticket), Ok(()));
    assert_eq!(guard.authorize(Access::Direct, Operation::CreateRecord), Ok(()));
    assert_eq!(
        guard.transaction_started(ticket, Ok(())),
        Err(ConnectorError::TransactionNotActive { operation: Operation::StartTransaction })
    );
}

#[test]
fn drop_after_commit_changes_nothing() {
    let mut guard = TransactionGuard::new();
    let ticket = started(&mut guard);
    guard.transaction_committed(ticket, Ok(())).unwrap();
    assert_eq!(
        guard.transaction_abandoned(ticket),
        Err(ConnectorError::TransactionNotActive { operation: Operation::RollbackTransaction })
    );
    assert!(!guard.take_abandoned());
    assert_eq!(guard.authorize(Access::Direct, Operation::CreateRecord), Ok(()));
}
