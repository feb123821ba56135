use dbproject::area::Area;
use dbproject::blockchain::BlockchainDBManager;
use dbproject::config::ConnectionConfig;
use dbproject::error::ShardError;
use dbproject::records::User;
use dbproject::router::{GlobalDB, UserOp};
use dbproject::shard::AreaDB;

fn config(db: &str) -> ConnectionConfig {
    ConnectionConfig::new(
        "test".to_string(),
        "12345".to_string(),
        "localhost".to_string(),
        3306,
        db.to_string(),
    )
}

fn connected(db: &str, area: Area) -> AreaDB {
    let mut h = AreaDB::new(config(db), area);
    h.connect(true).unwrap();
    h
}

fn two_regions() -> GlobalDB {
    let mut router = GlobalDB::new();
    router.insert(connected("AreaDB_Russia", Area::Russia)).unwrap();
    router.insert(connected("AreaDB_USA", Area::Usa)).unwrap();
    router
}

fn user() -> User {
    User {
        user_id: 2,
        username: "test_user".to_string(),
        password_hash: "hashed_password".to_string(),
        email: "test_user@example.com".to_string(),
        created_at: None,
        last_login: None,
    }
}

#[test]
fn handle_starts_disconnected_and_connects() {
    let mut h = AreaDB::new(config("AreaDB_Russia"), Area::Russia);
    assert!(!h.is_connected());
    assert_eq!(h.connect(false), Err(ShardError::ShardUnavailable));
    assert!(!h.is_connected());
    assert_eq!(h.connect(true), Ok(()));
    assert!(h.is_connected());
    assert_eq!(h.area(), Area::Russia);
    assert_eq!(h.name(), "AreaDB_Russia");
    assert_eq!(h.config().port, 3306);
}

#[test]
fn disconnected_handle_is_refused() {
    let mut router = GlobalDB::new();
    let h = AreaDB::new(config("AreaDB_Russia"), Area::Russia);
    assert_eq!(router.insert(h), Err(ShardError::ShardUnavailable));
    assert!(!router.is_registered(Area::Russia));
}

#[test]
fn dispatch_goes_to_the_registered_shard_only() {
    let router = two_regions();
    for _ in 0..5 {
        let r = router.dispatch(Area::Russia, UserOp::Delete { user_id: 4 }).unwrap();
        assert_eq!(r.area, Area::Russia);
        assert_eq!(r.database, "AreaDB_Russia");
        let u = router.dispatch(Area::Usa, UserOp::Delete { user_id: 4 }).unwrap();
        assert_eq!(u.area, Area::Usa);
        assert_eq!(u.database, "AreaDB_USA");
    }
}

#[test]
fn dispatch_to_unregistered_region_fails() {
    let router = two_regions();
    let r = router.dispatch(Area::Unknown, UserOp::Delete { user_id: 1 });
    assert_eq!(r.unwrap_err(), ShardError::UnknownRegion);
    let empty = GlobalDB::new();
    assert_eq!(empty.add_user(&user(), &Area::Russia).unwrap_err(), ShardError::UnknownRegion);
}

#[test]
fn user_operations_carry_the_user() {
    let router = two_regions();
    let r = router.add_user(&user(), &Area::Usa).unwrap();
    assert_eq!(r.database, "AreaDB_USA");
    match r.op {
        UserOp::Add { username, password_hash, email } => {
            assert_eq!(username, "test_user");
            assert_eq!(password_hash, "hashed_password");
            assert_eq!(email, "test_user@example.com");
        }
        _ => panic!("expected an add"),
    }
    match router.update_user(&user(), &Area::Russia).unwrap().op {
        UserOp::Update { user_id, username, .. } => {
            assert_eq!(user_id, 2);
            assert_eq!(username, "test_user");
        }
        _ => panic!("expected an update"),
    }
    match router.delete_user(2, &Area::Russia).unwrap().op {
        UserOp::Delete { user_id } => assert_eq!(user_id, 2),
        _ => panic!("expected a delete"),
    }
}

#[test]
fn reregistering_replaces_the_shard() {
    let mut router = two_regions();
    router.insert(connected("AreaDB_Russia2", Area::Russia)).unwrap();
    assert_eq!(router.dispatch(Area::Russia, UserOp::Delete { user_id: 1 }).unwrap().database, "AreaDB_Russia2");
    assert_eq!(router.dispatch(Area::Usa, UserOp::Delete { user_id: 1 }).unwrap().database, "AreaDB_USA");
}

#[test]
fn register_append_and_read_back() {
    let mut router = GlobalDB::new();
    router.insert(connected("AreaDB_Russia", Area::Russia)).unwrap();
    let h1 = router.append(Area::Russia, 1, 1, &"hello".to_string(), 100).unwrap();
    let h2 = router.append(Area::Russia, 1, 1, &"world".to_string(), 101).unwrap();
    let ledger = router.ledger(Area::Russia).unwrap();
    let blocks = ledger.blocks();
    assert_eq!(blocks[0].block_id, 1);
    assert_eq!(blocks[0].previous_block_hash, "");
    assert_eq!(blocks[0].block_hash, h1);
    assert_eq!(blocks[1].block_id, 2);
    assert_eq!(blocks[1].previous_block_hash, h1);
    assert_eq!(blocks[1].block_hash, h2);
    let txs = router.get_user_transactions(Area::Russia, 1).unwrap();
    assert_eq!(txs.len(), 2);
    assert_eq!(txs[0].block_hash, h1);
    assert_eq!(txs[1].block_hash, h2);
    assert_eq!(router.verify(Area::Russia), Ok(true));
}

#[test]
fn append_to_unregistered_region_changes_nothing() {
    let mut router = two_regions();
    router.append(Area::Usa, 1, 1, &"x".to_string(), 5).unwrap();
    let r = router.append(Area::Unknown, 1, 1, &"y".to_string(), 6);
    assert_eq!(r, Err(ShardError::UnknownRegion));
    assert_eq!(router.ledger(Area::Usa).unwrap().len(), 1);
    assert_eq!(router.ledger(Area::Russia).unwrap().len(), 0);
    assert!(router.ledger(Area::Unknown).is_none());
    assert_eq!(router.verify(Area::Unknown), Err(ShardError::UnknownRegion));
    assert_eq!(router.get_user_transactions(Area::Unknown, 1).unwrap_err(), ShardError::UnknownRegion);
}

#[test]
fn append_touches_only_its_own_shard() {
    let mut router = two_regions();
    router.append(Area::Russia, 1, 1, &"a".to_string(), 1).unwrap();
    router.append(Area::Russia, 1, 1, &"b".to_string(), 2).unwrap();
    router.append(Area::Usa, 3, 1, &"c".to_string(), 3).unwrap();
    assert_eq!(router.ledger(Area::Russia).unwrap().len(), 2);
    assert_eq!(router.ledger(Area::Usa).unwrap().len(), 1);
    assert_eq!(router.ledger(Area::Usa).unwrap().blocks()[0].block_id, 1);
    assert!(router.get_user_transactions(Area::Usa, 1).unwrap().is_empty());
}

#[test]
fn aggregate_counts_with_an_empty_shard() {
    let router = two_regions();
    let rows = vec![(Area::Usa, 4u64)];
    assert_eq!(router.aggregate(&rows), vec![(Area::Russia, 0), (Area::Usa, 4)]);
}

#[test]
fn aggregate_sums_rows_and_skips_unregistered_regions() {
    let router = two_regions();
    let rows = vec![(Area::Usa, 4u64), (Area::Unknown, 9), (Area::Russia, 2), (Area::Usa, 3)];
    assert_eq!(router.aggregate(&rows), vec![(Area::Russia, 2), (Area::Usa, 7)]);
    assert_eq!(GlobalDB::new().aggregate(&rows), vec![]);
    assert_eq!(router.registered_areas(), vec![Area::Russia, Area::Usa]);
}

#[test]
fn backup_plan_names_file_and_copy() {
    let router = two_regions();
    let plan = router.dump_db_by_area(&Area::Russia).unwrap();
    assert_eq!(plan.source.database, "AreaDB_Russia");
    assert_eq!(plan.file, "AreaDB_Russia_backup.sql");
    assert_eq!(plan.backup.database, "AreaDB_Russia_BACKUP");
    assert_eq!(plan.backup.username, "test");
    assert_eq!(plan.backup.port, 3306);
    let restore = router.restore_db_by_area(&Area::Usa).unwrap();
    assert_eq!(restore.target.database, "AreaDB_USA");
    assert_eq!(restore.file, "AreaDB_USA_backup.sql");
    assert_eq!(router.dump_db_by_area(&Area::Unknown).unwrap_err(), ShardError::UnknownRegion);
    assert_eq!(router.restore_db_by_area(&Area::Unknown).unwrap_err(), ShardError::UnknownRegion);
}

#[test]
fn only_a_conflict_is_retryable() {
    assert!(ShardError::ConcurrentAppendConflict.is_retryable());
    assert!(!ShardError::Timeout.is_retryable());
    assert!(!ShardError::UnknownRegion.is_retryable());
}

#[test]
fn register_with_a_loaded_ledger() {
    let mut other = GlobalDB::new();
    other.insert(connected("AreaDB_USA", Area::Usa)).unwrap();
    other.append(Area::Usa, 5, 1, &"kept".to_string(), 9).unwrap();
    let rows = other.ledger(Area::Usa).unwrap();
    let ledger = BlockchainDBManager::load(rows.blocks().clone(), rows.transactions().clone()).unwrap();
    let mut router = GlobalDB::new();
    router.insert_with_ledger(connected("AreaDB_USA", Area::Usa), ledger).unwrap();
    assert_eq!(router.ledger(Area::Usa).unwrap().len(), 1);
    assert_eq!(router.get_user_transactions(Area::Usa, 5).unwrap().len(), 1);
    assert_eq!(router.handle(Area::Usa).unwrap().name(), "AreaDB_USA");
    assert!(router.handle(Area::Russia).is_none());
}
