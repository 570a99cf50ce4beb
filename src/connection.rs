use vstd::prelude::*;

use crate::error::{
    caught, is_programming_error_spec, translate, translated, BackendFailure, ConnectorError, Operation, RouterError,
    ISOLATION_LEVELS_UNSUPPORTED,
};

verus! {

/// Names one transaction minted from a connection.
#[derive(Clone, Copy, Debug, PartialEq, Eq, Structural)]
pub struct TransactionTicket {
    pub epoch: u64,
}

/// Through which handle an operation is issued.
#[derive(Clone, Copy, Debug, PartialEq, Eq, Structural)]
pub enum Access {
    /// The connection itself.
    Direct,
    /// A transaction minted from the connection.
    Transaction(TransactionTicket),
}

/// Where the connection's session stands with respect to transactions.
#[derive(Clone, Copy, Debug, PartialEq, Eq, Structural)]
pub enum TransactionState {
    /// No transaction: the connection may be used directly.
    Idle,
    /// A transaction was granted and the database is starting it.
    Starting { epoch: u64 },
    /// A transaction holds the session.
    Active { epoch: u64 },
}

/// Whether an operation issued through `via` may reach a router while the
/// session is in state `s`, and the error it is refused with otherwise.
pub open spec fn authorization(s: TransactionState, via: Access, op: Operation) -> Result<(), ConnectorError> {
    if op == Operation::NativeUpsertRecord {
        Err(ConnectorError::Unimplemented { operation: op })
    } else {
        match via {
            Access::Direct => if s == TransactionState::Idle {
                Ok(())
            } else {
                Err(ConnectorError::ConnectionInUse { operation: op })
            },
            Access::Transaction(t) => if s == (TransactionState::Active { epoch: t.epoch }) {
                Ok(())
            } else {
                Err(ConnectorError::TransactionNotActive { operation: op })
            },
        }
    }
}

/// The epoch after `e`; epochs wrap around after the largest one.
pub open spec fn epoch_after(e: u64) -> u64 {
    if e == u64::MAX { 0 } else { (e + 1) as u64 }
}

/// What a transaction guard records.
#[derive(Clone, Copy, Debug, PartialEq, Eq, Structural)]
pub struct GuardView {
    /// Which handle may use the session.
    pub state: TransactionState,
    /// The epoch that the next transaction will carry.
    pub next_epoch: u64,
    /// Whether a transaction was dropped without being ended, so that the
    /// session may still hold it open in the database.
    pub abandoned: bool,
}

/// A transaction request without an isolation level: granted with a fresh
/// epoch when the session is free, refused while a transaction holds it.
pub open spec fn begun(v: GuardView) -> (Result<TransactionTicket, ConnectorError>, GuardView) {
    if v.state == TransactionState::Idle {
        (
            Ok(TransactionTicket { epoch: v.next_epoch }),
            GuardView {
                state: TransactionState::Starting { epoch: v.next_epoch },
                next_epoch: epoch_after(v.next_epoch),
                ..v
            },
        )
    } else {
        (Err(ConnectorError::ConnectionInUse { operation: Operation::StartTransaction }), v)
    }
}

/// The database's answer to starting the transaction named by `t`.
pub open spec fn started(v: GuardView, t: TransactionTicket, outcome: Result<(), BackendFailure>) -> (
    Result<(), ConnectorError>,
    GuardView,
) {
    if v.state != (TransactionState::Starting { epoch: t.epoch }) {
        (Err(ConnectorError::TransactionNotActive { operation: Operation::StartTransaction }), v)
    } else {
        match outcome {
            Ok(()) => (Ok(()), GuardView { state: TransactionState::Active { epoch: t.epoch }, ..v }),
            Err(f) => (
                Err(translated(Operation::StartTransaction, f)),
                GuardView { state: TransactionState::Idle, ..v },
            ),
        }
    }
}

/// A driver's answer as a router result.
pub open spec fn backend_outcome(outcome: Result<(), BackendFailure>) -> Result<(), RouterError> {
    match outcome {
        Ok(()) => Ok(()),
        Err(f) => Err(RouterError::Backend(f)),
    }
}

/// The database's answer to ending (by `op`: commit or rollback) the
/// transaction named by `t`; the transaction is over whatever the answer.
pub open spec fn ended(
    v: GuardView,
    t: TransactionTicket,
    op: Operation,
    outcome: Result<(), BackendFailure>,
) -> (Result<(), ConnectorError>, GuardView) {
    if v.state != (TransactionState::Active { epoch: t.epoch }) {
        (Err(ConnectorError::TransactionNotActive { operation: op }), v)
    } else {
        (caught(op, backend_outcome(outcome)), GuardView { state: TransactionState::Idle, ..v })
    }
}

/// The transaction named by `t` was dropped while starting or alive: the
/// session is free again, and the database may still hold the transaction.
pub open spec fn abandoned(v: GuardView, t: TransactionTicket) -> (Result<(), ConnectorError>, GuardView) {
    if v.state == (TransactionState::Active { epoch: t.epoch }) || v.state == (
    TransactionState::Starting { epoch: t.epoch }) {
        (Ok(()), GuardView { state: TransactionState::Idle, abandoned: true, ..v })
    } else {
        (Err(ConnectorError::TransactionNotActive { operation: Operation::RollbackTransaction }), v)
    }
}

/// Tracks which transaction, if any, holds a connection's session, so that
/// the session is never used through two handles at once.
pub struct TransactionGuard {
    state: TransactionState,
    epochs: u64,
    dropped_open: bool,
}

impl View for TransactionGuard {
    type V = GuardView;

    closed spec fn view(&self) -> GuardView {
        GuardView { state: self.state, next_epoch: self.epochs, abandoned: self.dropped_open }
    }
}

impl TransactionGuard {
    /// A guard for a fresh session: no transaction is open.
    pub fn new() -> (r: Self)
        ensures
            r@ == (GuardView { state: TransactionState::Idle, next_epoch: 0, abandoned: false }),
    {
        TransactionGuard { state: TransactionState::Idle, epochs: 0, dropped_open: false }
    }

    /// Whether an operation issued through `via` may reach a router now.
    pub fn authorize(&self, via: Access, op: Operation) -> (r: Result<(), ConnectorError>)
        ensures
            r == authorization(self@.state, via, op),
    {
        if op == Operation::NativeUpsertRecord {
            return Err(ConnectorError::Unimplemented { operation: op });
        }
        match via {
            Access::Direct => if self.state == TransactionState::Idle {
                Ok(())
            } else {
                Err(ConnectorError::ConnectionInUse { operation: op })
            },
            Access::Transaction(t) => if self.state == (TransactionState::Active { epoch: t.epoch }) {
                Ok(())
            } else {
                Err(ConnectorError::TransactionNotActive { operation: op })
            },
        }
    }

    /// Asks for a transaction. An explicit isolation level is refused as
    /// unsupported, whatever the state, and changes nothing; no database call
    /// is owed. Otherwise see `begun`: the guard then waits for the database
    /// to start the transaction (`transaction_started`).
    pub fn begin_transaction(&mut self, isolation_level: &Option<String>) -> (r: Result<
        TransactionTicket,
        ConnectorError,
    >)
        ensures
            isolation_level.is_some() ==> {
                &&& r is Err && r->Err_0 is Unsupported
                &&& r->Err_0->Unsupported_reason@ == ISOLATION_LEVELS_UNSUPPORTED@
                &&& final(self)@ == old(self)@
            },
            isolation_level.is_none() ==> (r, final(self)@) == begun(old(self)@),
    {
        if isolation_level.is_some() {
            return Err(ConnectorError::Unsupported { reason: ISOLATION_LEVELS_UNSUPPORTED.to_owned() });
        }
        if self.state != TransactionState::Idle {
            return Err(ConnectorError::ConnectionInUse { operation: Operation::StartTransaction });
        }
        let epoch = self.epochs;
        self.state = TransactionState::Starting { epoch };
        self.epochs = if epoch == u64::MAX { 0 } else { epoch + 1 };
        Ok(TransactionTicket { epoch })
    }

    /// Records what the database answered when asked to start the
    /// transaction named by `ticket`.
    pub fn transaction_started(
        &mut self,
        ticket: TransactionTicket,
        outcome: Result<(), BackendFailure>,
    ) -> (r: Result<(), ConnectorError>)
        ensures
            (r, final(self)@) == started(old(self)@, ticket, outcome),
    {
        if self.state != (TransactionState::Starting { epoch: ticket.epoch }) {
            return Err(
                ConnectorError::TransactionNotActive { operation: Operation::StartTransaction },
            );
        }
        match outcome {
            Ok(()) => {
                self.state = TransactionState::Active { epoch: ticket.epoch };
                Ok(())
            },
            Err(f) => {
                self.state = TransactionState::Idle;
                Err(translate(Operation::StartTransaction, f))
            },
        }
    }

    fn end_transaction(
        &mut self,
        ticket: TransactionTicket,
        op: Operation,
        outcome: Result<(), BackendFailure>,
    ) -> (r: Result<(), ConnectorError>)
        ensures
            (r, final(self)@) == ended(old(self)@, ticket, op, outcome),
    {
        if self.state != (TransactionState::Active { epoch: ticket.epoch }) {
            return Err(ConnectorError::TransactionNotActive { operation: op });
        }
        self.state = TransactionState::Idle;
        match outcome {
            Ok(()) => Ok(()),
            Err(f) => Err(translate(op, f)),
        }
    }

    /// Records the database's answer to committing the transaction named by
    /// `ticket`; the transaction ends whatever the answer.
    pub fn transaction_committed(
        &mut self,
        ticket: TransactionTicket,
        outcome: Result<(), BackendFailure>,
    ) -> (r: Result<(), ConnectorError>)
        ensures
            (r, final(self)@) == ended(old(self)@, ticket, Operation::CommitTransaction, outcome),
    {
        self.end_transaction(ticket, Operation::CommitTransaction, outcome)
    }

    /// Records the database's answer to rolling back the transaction named by
    /// `ticket`; the transaction ends whatever the answer.
    pub fn transaction_rolled_back(
        &mut self,
        ticket: TransactionTicket,
        outcome: Result<(), BackendFailure>,
    ) -> (r: Result<(), ConnectorError>)
        ensures
            (r, final(self)@) == ended(old(self)@, ticket, Operation::RollbackTransaction, outcome),
    {
        self.end_transaction(ticket, Operation::RollbackTransaction, outcome)
    }

    /// Records that the transaction named by `ticket` was dropped, while
    /// starting or alive, without a commit or rollback.
    pub fn transaction_abandoned(&mut self, ticket: TransactionTicket) -> (r: Result<(), ConnectorError>)
        ensures
            (r, final(self)@) == abandoned(old(self)@, ticket),
    {
        if self.state != (TransactionState::Active { epoch: ticket.epoch }) && self.state != (
        TransactionState::Starting { epoch: ticket.epoch }) {
            return Err(
                ConnectorError::TransactionNotActive { operation: Operation::RollbackTransaction },
            );
        }
        self.state = TransactionState::Idle;
        self.dropped_open = true;
        Ok(())
    }

    /// Whether a dropped transaction may still be open in the database, so
    /// that it must be rolled back before the session is used again; the
    /// answer is given once.
    pub fn take_abandoned(&mut self) -> (r: bool)
        ensures
            r == old(self)@.abandoned,
            final(self)@ == (GuardView { abandoned: false, ..old(self)@ }),
    {
        let r = self.dropped_open;
        self.dropped_open = false;
        r
    }
}

/// A connection: one database session, a handle to the database, and the
/// guard over which transaction, if any, currently holds the session.
pub struct MongoDbConnection<S, D> {
    session: S,
    database: D,
    transactions: TransactionGuard,
}

impl<S, D> MongoDbConnection<S, D> {
    /// The session.
    pub closed spec fn session_view(&self) -> S {
        self.session
    }

    /// The database handle.
    pub closed spec fn database_view(&self) -> D {
        self.database
    }

    /// What the connection's transaction guard records.
    pub closed spec fn guard_view(&self) -> GuardView {
        self.transactions@
    }

    /// Wraps a freshly established session; no transaction is open.
    pub fn new(session: S, database: D) -> (r: Self)
        ensures
            r.session_view() == session,
            r.database_view() == database,
            r.guard_view() == (GuardView { state: TransactionState::Idle, next_epoch: 0, abandoned: false }),
    {
        MongoDbConnection { session, database, transactions: TransactionGuard::new() }
    }

    /// The database handle.
    pub fn database(&self) -> (r: &D)
        ensures
            *r == self.database_view(),
    {
        &self.database
    }

    /// The session, for a router or a driver call to use.
    pub fn session_mut(&mut self) -> (r: &mut S)
        ensures
            *r == old(self).session_view(),
            final(self).session_view() == *final(r),
            final(self).database_view() == old(self).database_view(),
            final(self).guard_view() == old(self).guard_view(),
    {
        &mut self.session
    }

    /// Whether an operation issued through `via` may reach a router now.
    pub fn authorize(&self, via: Access, op: Operation) -> (r: Result<(), ConnectorError>)
        ensures
            r == authorization(self.guard_view().state, via, op),
    {
        self.transactions.authorize(via, op)
    }

    /// Asks for a transaction on this connection's session; see
    /// `TransactionGuard::begin_transaction`.
    pub fn begin_transaction(&mut self, isolation_level: &Option<String>) -> (r: Result<
        TransactionTicket,
        ConnectorError,
    >)
        ensures
            final(self).session_view() == old(self).session_view(),
            final(self).database_view() == old(self).database_view(),
            isolation_level.is_some() ==> {
                &&& r is Err && r->Err_0 is Unsupported
                &&& r->Err_0->Unsupported_reason@ == ISOLATION_LEVELS_UNSUPPORTED@
                &&& final(self).guard_view() == old(self).guard_view()
            },
            isolation_level.is_none() ==> (r, final(self).guard_view()) == begun(old(self).guard_view()),
    {
        self.transactions.begin_transaction(isolation_level)
    }

    /// Records what the database answered when asked to start the
    /// transaction named by `ticket`.
    pub fn transaction_started(
        &mut self,
        ticket: TransactionTicket,
        outcome: Result<(), BackendFailure>,
    ) -> (r: Result<(), ConnectorError>)
        ensures
            final(self).session_view() == old(self).session_view(),
            final(self).database_view() == old(self).database_view(),
            (r, final(self).guard_view()) == started(old(self).guard_view(), ticket, outcome),
    {
        self.transactions.transaction_started(ticket, outcome)
    }

    /// Records the database's answer to committing the transaction named by
    /// `ticket`; the transaction ends whatever the answer.
    pub fn transaction_committed(
        &mut self,
        ticket: TransactionTicket,
        outcome: Result<(), BackendFailure>,
    ) -> (r: Result<(), ConnectorError>)
        ensures
            final(self).session_view() == old(self).session_view(),
            final(self).database_view() == old(self).database_view(),
            (r, final(self).guard_view()) == ended(
                old(self).guard_view(),
                ticket,
                Operation::CommitTransaction,
                outcome,
            ),
    {
        self.transactions.transaction_committed(ticket, outcome)
    }

    /// Records the database's answer to rolling back the transaction named by
    /// `ticket`; the transaction ends whatever the answer.
    pub fn transaction_rolled_back(
        &mut self,
        ticket: TransactionTicket,
        outcome: Result<(), BackendFailure>,
    ) -> (r: Result<(), ConnectorError>)
        ensures
            final(self).session_view() == old(self).session_view(),
            final(self).database_view() == old(self).database_view(),
            (r, final(self).guard_view()) == ended(
                old(self).guard_view(),
                ticket,
                Operation::RollbackTransaction,
                outcome,
            ),
    {
        self.transactions.transaction_rolled_back(ticket, outcome)
    }

    /// Records that the transaction named by `ticket` was dropped without a
    /// commit or rollback; the connection is free again.
    pub fn transaction_abandoned(&mut self, ticket: TransactionTicket) -> (r: Result<(), ConnectorError>)
        ensures
            final(self).session_view() == old(self).session_view(),
            final(self).database_view() == old(self).database_view(),
            (r, final(self).guard_view()) == abandoned(old(self).guard_view(), ticket),
    {
        self.transactions.transaction_abandoned(ticket)
    }

    /// Whether a dropped transaction must be rolled back on the session
    /// before it is used again; the answer is given once.
    pub fn take_abandoned(&mut self) -> (r: bool)
        ensures
            final(self).session_view() == old(self).session_view(),
            final(self).database_view() == old(self).database_view(),
            r == old(self).guard_view().abandoned,
            final(self).guard_view() == (GuardView { abandoned: false, ..old(self).guard_view() }),
    {
        self.transactions.take_abandoned()
    }

    /// Native upserts have no mapping onto the database: the call is refused
    /// as a caller bug, before any router is reached, whatever the state.
    pub fn native_upsert_record<R>(&self) -> (r: Result<R, ConnectorError>)
        ensures
            r == Err::<R, ConnectorError>(
                ConnectorError::Unimplemented { operation: Operation::NativeUpsertRecord },
            ),
            is_programming_error_spec(r->Err_0),
    {
        Err(ConnectorError::Unimplemented { operation: Operation::NativeUpsertRecord })
    }
}

} // verus!
