use vstd::prelude::*;

use crate::connection::{
    abandoned, authorization, begun, ended, started, Access, GuardView, TransactionState, TransactionTicket,
};
use crate::error::{
    caught, is_programming_error_spec, normalized, translated, BackendFailure, ConnectorError,
    Operation, RouterError,
};
use crate::outcome::{many_updated, one_updated};

verus! {

/// At most one transaction is alive at a time: two transactions that are both
/// allowed to use the session are the same one, and while any transaction may
/// use it, the connection itself is refused.
pub proof fn lemma_one_live_transaction(
    s: TransactionState,
    a: TransactionTicket,
    b: TransactionTicket,
    op_a: Operation,
    op_b: Operation,
)
    ensures
        authorization(s, Access::Transaction(a), op_a) is Ok
            && authorization(s, Access::Transaction(b), op_b) is Ok ==> a == b,
        authorization(s, Access::Transaction(a), op_a) is Ok && op_b != Operation::NativeUpsertRecord
            ==> authorization(s, Access::Direct, op_b) == Err::<(), ConnectorError>(
            ConnectorError::ConnectionInUse { operation: op_b },
        ),
        s != TransactionState::Idle && op_b != Operation::NativeUpsertRecord ==> authorization(
            s,
            Access::Direct,
            op_b,
        ) is Err && is_programming_error_spec(authorization(s, Access::Direct, op_b)->Err_0),
{
}

/// A second transaction cannot be opened while one is starting or alive,
/// and a granted transaction is refused the session until it has started.
pub proof fn lemma_no_second_transaction(v: GuardView, t: TransactionTicket, op: Operation)
    ensures
        v.state != TransactionState::Idle ==> begun(v) == (
            Err::<TransactionTicket, ConnectorError>(
                ConnectorError::ConnectionInUse { operation: Operation::StartTransaction },
            ),
            v,
        ),
        v.state == TransactionState::Idle ==> begun(v).0 is Ok && authorization(
            begun(v).1.state,
            Access::Transaction(t),
            op,
        ) is Err,
{
}

/// Once the transaction that holds the session is committed, rolled back or
/// dropped, the connection may be used directly again, and that transaction
/// may not.
pub proof fn lemma_transaction_end_releases_connection(
    v: GuardView,
    t: TransactionTicket,
    end: Operation,
    outcome: Result<(), BackendFailure>,
    op: Operation,
)
    requires
        v.state == (TransactionState::Active { epoch: t.epoch }),
        op != Operation::NativeUpsertRecord,
    ensures
        authorization(ended(v, t, end, outcome).1.state, Access::Direct, op) is Ok,
        authorization(ended(v, t, end, outcome).1.state, Access::Transaction(t), op) is Err,
        authorization(abandoned(v, t).1.state, Access::Direct, op) is Ok,
        authorization(abandoned(v, t).1.state, Access::Transaction(t), op) is Err,
        begun(ended(v, t, end, outcome).1).0 is Ok,
        begun(abandoned(v, t).1).0 is Ok,
{
}

/// A transaction dropped while the database was still starting it also
/// releases the connection; a failed start releases it too.
pub proof fn lemma_abandoned_start_releases_connection(
    v: GuardView,
    t: TransactionTicket,
    f: BackendFailure,
    op: Operation,
)
    requires
        v.state == (TransactionState::Starting { epoch: t.epoch }),
        op != Operation::NativeUpsertRecord,
    ensures
        authorization(abandoned(v, t).1.state, Access::Direct, op) is Ok,
        authorization(started(v, t, Err(f)).1.state, Access::Direct, op) is Ok,
{
}

/// A native upsert never reaches a router: through any handle and in any
/// state it is refused with a programming error.
pub proof fn lemma_native_upsert_refused(s: TransactionState, via: Access)
    ensures
        authorization(s, via, Operation::NativeUpsertRecord) == Err::<(), ConnectorError>(
            ConnectorError::Unimplemented { operation: Operation::NativeUpsertRecord },
        ),
        is_programming_error_spec(authorization(s, via, Operation::NativeUpsertRecord)->Err_0),
{
}

/// A singular update reports nothing exactly when the plural update over the
/// same router answer reports zero records, and otherwise the last identity
/// the router returned; both fail on the same router failures.
pub proof fn lemma_update_record_is_last_of_update_records<T>(r: Result<Seq<T>, RouterError>)
    ensures
        many_updated(r) is Ok <==> one_updated(r) is Ok,
        r is Ok ==> (one_updated(r)->Ok_0 is None <==> many_updated(r)->Ok_0 == 0),
        r is Ok && one_updated(r)->Ok_0 is Some ==> one_updated(r)->Ok_0->Some_0 == r->Ok_0[r->Ok_0.len() - 1],
        r is Err ==> many_updated(r)->Err_0 == normalized(Operation::UpdateRecords, r->Err_0)
            && one_updated(r)->Err_0 == normalized(Operation::UpdateRecord, r->Err_0),
{
}

/// A driver failure raised during any operation reaches the caller as a
/// translated connector error that keeps the operation, the server's code, the
/// message and the transient flag; it is never dropped and never taken for a
/// caller bug.
pub proof fn lemma_backend_failure_translated<T>(op: Operation, f: BackendFailure)
    ensures
        caught(op, Err::<T, RouterError>(RouterError::Backend(f))) == Err::<T, ConnectorError>(
            translated(op, f),
        ),
        translated(op, f) == (ConnectorError::Backend {
            operation: op,
            code: f.code,
            message: f.message,
            transient: f.transient,
        }),
        !is_programming_error_spec(translated(op, f)),
        many_updated(Err::<Seq<T>, RouterError>(RouterError::Backend(f))) == Err::<nat, ConnectorError>(
            translated(Operation::UpdateRecords, f),
        ),
        one_updated(Err::<Seq<T>, RouterError>(RouterError::Backend(f))) == Err::<
            Option<T>,
            ConnectorError,
        >(translated(Operation::UpdateRecord, f)),
{
}

/// Errors already in the connector's vocabulary pass through the
/// translation scope unchanged.
pub proof fn lemma_connector_error_passes_through<T>(op: Operation, e: ConnectorError)
    ensures
        caught(op, Err::<T, RouterError>(RouterError::Connector(e))) == Err::<T, ConnectorError>(e),
{
}

} // verus!
