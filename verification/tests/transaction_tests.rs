use rust_rest_api::error::ErrorApp;
use rust_rest_api::transaction::{
    after_begin, after_commit, after_rollback, complete, execute_route, finish, ExecRoute, TxOptions, TxStep,
};

fn pairs(xs: &[(&str, &str)]) -> Vec<(String, String)> {
    xs.iter().map(|(k, v)| (k.to_string(), v.to_string())).collect()
}

#[test]
fn default_options() {
    let o = TxOptions::from_pairs(&Vec::new());
    assert_eq!(o.db, "db");
    assert_eq!(o.tx, "tx");
    assert_eq!(o.is_tx, "is_tx");
    assert_eq!(o.propagation, "REQUIRED");
}

#[test]
fn named_manager_and_propagation() {
    let o = TxOptions::from_pairs(&pairs(&[("txManager", "report"), ("propagation", "REQUIRED_NEW")]));
    assert_eq!(o.db, "db_report");
    assert_eq!(o.tx, "tx_report");
    assert_eq!(o.is_tx, "is_tx_report");
    assert_eq!(o.propagation, "REQUIRED_NEW");
    let o = TxOptions::from_pairs(&pairs(&[("txManager", "tx")]));
    assert_eq!(o.db, "db");
}

#[test]
fn which_units_open_a_transaction() {
    let required = TxOptions::from_pairs(&Vec::new());
    assert!(required.opens_transaction(false));
    assert!(!required.opens_transaction(true));
    let new = TxOptions::from_pairs(&pairs(&[("propagation", "REQUIRED_NEW")]));
    assert!(new.opens_transaction(true));
    assert!(new.opens_transaction(false));
    let other = TxOptions::from_pairs(&pairs(&[("propagation", "SUPPORTS")]));
    assert!(!other.opens_transaction(false));
}

#[test]
fn settling_the_transaction() {
    assert!(matches!(finish(Ok::<i32, ErrorApp>(5), true), TxStep::Commit(5)));
    assert!(matches!(finish(Err::<i32, ErrorApp>(ErrorApp::DuplicateKey), true), TxStep::Rollback(ErrorApp::DuplicateKey)));
    match finish(Ok::<i32, ErrorApp>(5), false) {
        TxStep::Done(Err(ErrorApp::OtherErr(m))) => assert_eq!(m, "tx not found when finished"),
        _ => panic!("expected a failure"),
    }
    assert_eq!(after_commit(5, Ok(())).ok(), Some(5));
    match after_commit(5, Err("lost connection".to_string())) {
        Err(ErrorApp::OtherErr(m)) => assert_eq!(m, "lost connection"),
        _ => panic!("expected a failure"),
    }
    assert!(matches!(after_rollback::<i32>(ErrorApp::DuplicateKey, Ok(())), Err(ErrorApp::DuplicateKey)));
    match after_rollback::<i32>(ErrorApp::OtherErr("a".to_string()), Err("b".to_string())) {
        Err(ErrorApp::OtherErr(m)) => assert_eq!(m, "error: a: b"),
        _ => panic!("expected a failure"),
    }
    assert!(after_begin(Ok(())).is_ok());
    match after_begin(Err("refused".to_string())) {
        Err(ErrorApp::OtherErr(m)) => assert_eq!(m, "refused"),
        _ => panic!("expected a failure"),
    }
}

#[test]
fn where_statements_run() {
    assert!(matches!(execute_route(true, true), ExecRoute::Transaction));
    assert!(matches!(execute_route(true, false), ExecRoute::Transaction));
    assert!(matches!(execute_route(false, true), ExecRoute::MissingTransaction));
    assert!(matches!(execute_route(false, false), ExecRoute::Pool));
}

#[test]
fn a_unit_without_its_own_transaction_returns_its_work() {
    assert!(matches!(complete(false, Ok::<i32, ErrorApp>(4), false), TxStep::Done(Ok(4))));
    assert!(matches!(
        complete(false, Err::<i32, ErrorApp>(ErrorApp::RowNotFound), true),
        TxStep::Done(Err(ErrorApp::RowNotFound))
    ));
    assert!(matches!(complete(true, Ok::<i32, ErrorApp>(4), true), TxStep::Commit(4)));
    assert!(matches!(
        complete(true, Ok::<i32, ErrorApp>(4), false),
        TxStep::Done(Err(ErrorApp::OtherErr(_)))
    ));
}
