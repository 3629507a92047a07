//! The automatic transaction of a request: a handler whose executor is named
//! `sql_exe_with_tran` runs inside one transaction, which is committed when
//! the handler succeeds and rolled back when it fails; a transaction marked
//! rollback-only refuses to commit. The database transaction itself is held
//! by the caller, which performs what these decisions say.

use vstd::prelude::*;

verus! {

/// Why a transaction step was refused.
#[derive(Debug, PartialEq, Eq, Structural, Clone, Copy)]
pub enum TransactionError {
    /// The transaction was marked rollback-only and cannot be committed.
    RollbackOnly,
    /// There is no transaction to commit or roll back.
    NoTransaction,
}

impl TransactionError {
    pub fn message(&self) -> (r: String)
        ensures
            *self == TransactionError::RollbackOnly ==> r@ == "current transaction support rollback only"@,
            *self == TransactionError::NoTransaction ==> r@ == "找不到数据库事务"@,
    {
        match self {
            TransactionError::RollbackOnly => "current transaction support rollback only".to_string(),
            TransactionError::NoTransaction => "找不到数据库事务".to_string(),
        }
    }
}

/// The bookkeeping of one transaction: whether it may only be rolled back.
pub struct TransactionManager {
    rollback_only: bool,
}

impl TransactionManager {
    /// Whether the transaction may only be rolled back.
    pub closed spec fn is_rollback_only(&self) -> bool {
        self.rollback_only
    }

    /// A transaction just begun: it may be committed.
    pub fn new() -> (r: Self)
        ensures
            !r.is_rollback_only(),
    {
        TransactionManager { rollback_only: false }
    }

    /// Marks the transaction as one that may only be rolled back.
    pub fn rollback_only(&mut self)
        ensures
            final(self).is_rollback_only(),
    {
        self.rollback_only = true;
    }

    /// Whether the transaction may be committed: it may unless it was marked
    /// rollback-only.
    pub fn commit(&self) -> (r: Result<(), TransactionError>)
        ensures
            r is Ok <==> !self.is_rollback_only(),
            r matches Err(e) ==> e == TransactionError::RollbackOnly,
    {
        if self.rollback_only {
            Err(TransactionError::RollbackOnly)
        } else {
            Ok(())
        }
    }
}

/// How a request's transaction ends.
#[derive(Debug, PartialEq, Eq, Structural, Clone, Copy)]
pub enum TransactionEnd {
    /// Commit it, then answer with the handler's response.
    Commit,
    /// Roll it back, then answer with the handler's error.
    Rollback,
}

/// How the transaction of a request ends once its handler has run: a handler
/// that failed rolls it back, one that succeeded commits it. The whole
/// request is one transaction: it is committed or rolled back as a whole.
pub fn end_of_request(handler_succeeded: bool) -> (r: TransactionEnd)
    ensures
        handler_succeeded ==> r == TransactionEnd::Commit,
        !handler_succeeded ==> r == TransactionEnd::Rollback,
{
    if handler_succeeded {
        TransactionEnd::Commit
    } else {
        TransactionEnd::Rollback
    }
}

/// What the request answers after its transaction step: the handler's
/// failure is answered as it is once the transaction was rolled back; a
/// success commits, which a rollback-only transaction refuses.
pub fn finish_request(tm: &TransactionManager, handler_succeeded: bool) -> (r: Result<TransactionEnd, TransactionError>)
    ensures
        !handler_succeeded ==> r == Ok::<TransactionEnd, TransactionError>(TransactionEnd::Rollback),
        handler_succeeded && !tm.is_rollback_only() ==> r == Ok::<TransactionEnd, TransactionError>(TransactionEnd::Commit),
        handler_succeeded && tm.is_rollback_only() ==> r == Err::<TransactionEnd, TransactionError>(TransactionError::RollbackOnly),
{
    match end_of_request(handler_succeeded) {
        TransactionEnd::Rollback => Ok(TransactionEnd::Rollback),
        TransactionEnd::Commit => match tm.commit() {
            Ok(()) => Ok(TransactionEnd::Commit),
            Err(e) => Err(e),
        },
    }
}

/// What a request's begin of a transaction does.
#[derive(Debug, PartialEq, Eq, Structural, Clone, Copy)]
pub enum BeginStep {
    /// Begin a new transaction on the pool.
    BeginNew,
    /// A transaction is already open: nested code reuses it.
    Reuse,
}

/// The bookkeeping of the transaction a request's database access shares:
/// at most one is begun, and nested code that begins one reuses it.
pub struct DbPoolManager {
    has_tran: bool,
}

impl DbPoolManager {
    /// Whether a transaction was begun.
    pub closed spec fn in_transaction(&self) -> bool {
        self.has_tran
    }

    /// A manager with no transaction.
    pub fn new() -> (r: Self)
        ensures
            !r.in_transaction(),
    {
        DbPoolManager { has_tran: false }
    }

    /// What beginning a transaction does: begin one when none is open,
    /// otherwise reuse the open one. After it a transaction is open.
    pub fn begin(&mut self) -> (r: BeginStep)
        ensures
            old(self).in_transaction() ==> r == BeginStep::Reuse,
            !old(self).in_transaction() ==> r == BeginStep::BeginNew,
            final(self).in_transaction(),
    {
        if self.has_tran {
            BeginStep::Reuse
        } else {
            self.has_tran = true;
            BeginStep::BeginNew
        }
    }

    /// Whether there is a transaction to use; code that needs one and finds
    /// none fails with "找不到数据库事务".
    pub fn tran(&self) -> (r: Result<(), TransactionError>)
        ensures
            r is Ok <==> self.in_transaction(),
            r matches Err(e) ==> e == TransactionError::NoTransaction,
    {
        if self.has_tran {
            Ok(())
        } else {
            Err(TransactionError::NoTransaction)
        }
    }

    /// Whether the transaction may be committed: only one that was begun.
    pub fn commit(self) -> (r: Result<(), TransactionError>)
        ensures
            r is Ok <==> self.in_transaction(),
            r matches Err(e) ==> e == TransactionError::NoTransaction,
    {
        self.tran()
    }

    /// Whether the transaction may be rolled back: only one that was begun.
    pub fn rollback(self) -> (r: Result<(), TransactionError>)
        ensures
            r is Ok <==> self.in_transaction(),
            r matches Err(e) ==> e == TransactionError::NoTransaction,
    {
        self.tran()
    }
}

} // verus!
