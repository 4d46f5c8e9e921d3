use hyrule::db::Database;
use hyrule::error::CoreError;
use hyrule::models::{CreateRepoRequest, RegisterNodeRequest};
use hyrule::services::health::{HealthMonitor, HealthStatus};
use hyrule::services::replication::ReplicationService;

const REPO: &str = "abcdef1234567890abcdef1234567890abcdef12";

fn request(node_id: &str) -> RegisterNodeRequest {
    RegisterNodeRequest {
        node_id: node_id.to_string(),
        address: format!("{}.example.org", node_id),
        port: 7000,
        storage_capacity: 1 << 30,
        is_anchor: false,
    }
}

fn repo_request(name: &str) -> CreateRepoRequest {
    CreateRepoRequest {
        name: name.to_string(),
        description: None,
        storage_tier: "free".to_string(),
        is_private: false,
    }
}

#[test]
fn trigger_replication_picks_an_active_node_without_replica() {
    let mut db = Database::new(10);
    db.create_repository(&repo_request("demo"), 1, REPO, 1000).unwrap();
    db.register_node(&request("A"), 1000);
    db.register_node(&request("B"), 1000);
    db.register_node(&request("C"), 1000);
    db.create_replica(REPO, "A", 1000);
    db.create_replica(REPO, "B", 1000);

    let service = ReplicationService::new();
    let chosen = service.trigger_replication(&mut db, REPO, 1010).unwrap();
    assert_eq!(chosen, "C");
    assert_eq!(db.get_replica_count(REPO), 3);

    let monitor = HealthMonitor::new(3, 10);
    let health = monitor.check_repo_health(&db, REPO);
    assert_eq!(health.replica_count, 3);
    assert_eq!(health.min_replicas, 3);
    assert_eq!(health.status, HealthStatus::Good);
}

#[test]
fn trigger_replication_fails_when_every_active_node_holds_a_replica() {
    let mut db = Database::new(10);
    db.register_node(&request("A"), 1000);
    db.register_node(&request("B"), 1000);
    db.create_replica(REPO, "A", 1000);
    db.create_replica(REPO, "B", 1000);

    let service = ReplicationService::new();
    let outcome = service.trigger_replication(&mut db, REPO, 1010);
    assert_eq!(outcome, Err(CoreError::NoEligibleNode));
    assert_eq!(db.get_replica_count(REPO), 2);
}

#[test]
fn heartbeat_of_unknown_node_is_a_no_op() {
    let mut db = Database::new(10);
    db.update_node_heartbeat("ghost", 42, 1000);
    assert!(matches!(db.get_node("ghost"), Err(CoreError::NodeNotFound)));
}

#[test]
fn deleting_a_repository_removes_its_replicas() {
    let mut db = Database::new(10);
    db.create_repository(&repo_request("demo"), 1, REPO, 1000).unwrap();
    db.register_node(&request("A"), 1000);
    db.register_node(&request("B"), 1000);
    db.register_node(&request("C"), 1000);
    db.create_replica(REPO, "A", 1000);
    db.create_replica(REPO, "B", 1000);
    db.create_replica(REPO, "C", 1000);
    db.create_replica("ffffffffffffffffffffffffffffffffffffffff", "A", 1000);
    assert_eq!(db.get_replica_count(REPO), 3);

    db.delete_repository_complete(REPO);
    assert_eq!(db.get_replica_count(REPO), 0);
    assert_eq!(db.get_replica_count("ffffffffffffffffffffffffffffffffffffffff"), 1);
    assert!(db.get_repository(REPO).is_err());
}

#[test]
fn plain_deletion_leaves_no_orphaned_replica() {
    let mut db = Database::new(10);
    db.create_repository(&repo_request("demo"), 1, REPO, 1000).unwrap();
    db.register_node(&request("A"), 1000);
    db.register_node(&request("B"), 1000);
    db.create_replica(REPO, "A", 1000);
    db.create_replica(REPO, "B", 1000);
    db.create_replica("ffffffffffffffffffffffffffffffffffffffff", "B", 1000);
    assert_eq!(db.get_replica_count(REPO), 2);

    db.delete_repository(REPO);
    assert!(matches!(db.get_repository(REPO), Err(CoreError::CatalogError)));
    assert_eq!(db.get_replica_count(REPO), 0);
    assert!(db.get_replica(REPO, "A").is_none());
    assert_eq!(db.get_replica_count("ffffffffffffffffffffffffffffffffffffffff"), 1);
    assert_eq!(db.count_node_repos("B"), 1);
    assert!(db.get_node("A").is_ok());

    db.delete_repository(REPO);
    assert_eq!(db.get_replica_count(REPO), 0);
    assert_eq!(db.get_replica_count("ffffffffffffffffffffffffffffffffffffffff"), 1);
}
