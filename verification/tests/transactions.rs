use rust_shop::transaction::{end_of_request, finish_request, TransactionEnd, TransactionError, TransactionManager};

#[test]
fn a_request_commits_or_rolls_back_as_a_whole() {
    assert_eq!(end_of_request(true), TransactionEnd::Commit);
    assert_eq!(end_of_request(false), TransactionEnd::Rollback);
    let tm = TransactionManager::new();
    assert_eq!(finish_request(&tm, true), Ok(TransactionEnd::Commit));
    assert_eq!(finish_request(&tm, false), Ok(TransactionEnd::Rollback));
}

#[test]
fn rollback_only_refuses_commit() {
    let mut tm = TransactionManager::new();
    assert!(tm.commit().is_ok());
    tm.rollback_only();
    assert_eq!(tm.commit(), Err(TransactionError::RollbackOnly));
    assert_eq!(finish_request(&tm, true), Err(TransactionError::RollbackOnly));
    assert_eq!(finish_request(&tm, false), Ok(TransactionEnd::Rollback));
    assert_eq!(TransactionError::RollbackOnly.message(), "current transaction support rollback only");
}

#[test]
fn nested_begins_share_one_transaction() {
    use_db_pool_manager();
}

fn use_db_pool_manager() {
    let mut m = rust_shop::transaction::DbPoolManager::new();
    assert_eq!(m.tran(), Err(TransactionError::NoTransaction));
    assert_eq!(m.begin(), rust_shop::transaction::BeginStep::BeginNew);
    assert_eq!(m.begin(), rust_shop::transaction::BeginStep::Reuse);
    assert_eq!(m.tran(), Ok(()));
    assert_eq!(m.commit(), Ok(()));
    assert_eq!(rust_shop::transaction::DbPoolManager::new().rollback(), Err(TransactionError::NoTransaction));
    assert_eq!(TransactionError::NoTransaction.message(), "找不到数据库事务");
}
