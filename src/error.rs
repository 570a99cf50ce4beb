use vstd::prelude::*;

verus! {

/// Every operation of the read/write capability set, plus the transaction lifecycle.
#[derive(Clone, Copy, Debug, PartialEq, Eq, Structural)]
pub enum Operation {
    StartTransaction,
    CommitTransaction,
    RollbackTransaction,
    CreateRecord,
    CreateRecords,
    UpdateRecords,
    UpdateRecord,
    DeleteRecords,
    M2mConnect,
    M2mDisconnect,
    ExecuteRaw,
    QueryRaw,
    NativeUpsertRecord,
    GetSingleRecord,
    GetManyRecords,
    GetRelatedM2mRecordIds,
    AggregateRecords,
}

/// A failure raised by the database driver, reduced to plain values.
#[derive(Clone, Debug, PartialEq, Eq)]
pub struct BackendFailure {
    /// The server's error code, where the driver reports one.
    pub code: Option<i32>,
    /// The driver's description of the failure.
    pub message: String,
    /// Whether the driver labelled the failure as transient (network or
    /// transaction conflict) rather than a data error.
    pub transient: bool,
}

/// What an operation router hands back on failure: either an error that is
/// already in the connector's vocabulary, or a raw driver failure.
#[derive(Clone, Debug, PartialEq, Eq)]
pub enum RouterError {
    Connector(ConnectorError),
    Backend(BackendFailure),
}

/// The structured errors that leave the connector.
#[derive(Clone, Debug, PartialEq, Eq)]
pub enum ConnectorError {
    /// The requested capability has no mapping onto the database.
    Unsupported { reason: String },
    /// A driver failure, with the operation during which it was raised.
    Backend {
        operation: Operation,
        code: Option<i32>,
        message: String,
        transient: bool,
    },
    /// The operation is structurally unsupported; calling it is a caller bug.
    Unimplemented { operation: Operation },
    /// The connection was used directly while one of its transactions is alive.
    ConnectionInUse { operation: Operation },
    /// A transaction was used after it ended, or a second one was opened.
    TransactionNotActive { operation: Operation },
}

/// Why a transaction with an explicit isolation level is refused.
pub const ISOLATION_LEVELS_UNSUPPORTED: &'static str = "Mongo does not support setting transaction isolation levels.";

/// Errors that signal a violated caller contract rather than a runtime condition.
pub open spec fn is_programming_error_spec(e: ConnectorError) -> bool {
    match e {
        ConnectorError::Unimplemented { .. } => true,
        ConnectorError::ConnectionInUse { .. } => true,
        ConnectorError::TransactionNotActive { .. } => true,
        _ => false,
    }
}

impl ConnectorError {
    /// Whether this error reports a caller bug (fatal) rather than a recoverable condition.
    pub fn is_programming_error(&self) -> (r: bool)
        ensures
            r == is_programming_error_spec(*self),
    {
        match self {
            ConnectorError::Unimplemented { .. } => true,
            ConnectorError::ConnectionInUse { .. } => true,
            ConnectorError::TransactionNotActive { .. } => true,
            _ => false,
        }
    }
}

/// The connector error that a driver failure during `op` becomes.
pub open spec fn translated(op: Operation, f: BackendFailure) -> ConnectorError {
    ConnectorError::Backend { operation: op, code: f.code, message: f.message, transient: f.transient }
}

/// The connector error that a router failure during `op` becomes: driver
/// failures are translated, connector errors pass through unchanged.
pub open spec fn normalized(op: Operation, e: RouterError) -> ConnectorError {
    match e {
        RouterError::Connector(c) => c,
        RouterError::Backend(f) => translated(op, f),
    }
}

/// The outcome of a router call during `op`, as seen by the connector's caller.
pub open spec fn caught<T>(op: Operation, r: Result<T, RouterError>) -> Result<T, ConnectorError> {
    match r {
        Ok(v) => Ok(v),
        Err(e) => Err(normalized(op, e)),
    }
}

/// Translates a driver failure raised during `op` into a connector error.
pub fn translate(op: Operation, failure: BackendFailure) -> (r: ConnectorError)
    ensures
        r == translated(op, failure),
{
    ConnectorError::Backend {
        operation: op,
        code: failure.code,
        message: failure.message,
        transient: failure.transient,
    }
}

/// The error-translation scope: passes a successful router result through and
/// normalizes a failure, so that no raw driver error leaves the connector.
pub fn catch<T>(op: Operation, r: Result<T, RouterError>) -> (out: Result<T, ConnectorError>)
    ensures
        out == caught(op, r),
{
    match r {
        Ok(v) => Ok(v),
        Err(RouterError::Connector(c)) => Err(c),
        Err(RouterError::Backend(f)) => Err(translate(op, f)),
    }
}

} // verus!
