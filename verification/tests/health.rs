use hyrule::db::Database;
use hyrule::error::CoreError;
use hyrule::models::{CreateRepoRequest, Node, RegisterNodeRequest, Replica, Repository};
use hyrule::services::health::{HealthMonitor, HealthStatus, HEAL_BATCH};
use hyrule::services::replication::ReplicationService;

fn node(id: &str, reputation: i32, last_seen: i64) -> Node {
    Node {
        node_id: id.to_string(),
        address: format!("{}.example.org", id),
        port: 7000,
        last_seen,
        reputation_score: reputation,
        storage_capacity: 1000,
        storage_used: 10,
        is_anchor: 0,
    }
}

fn repo(hash: &str) -> CreateRepoRequest {
    CreateRepoRequest {
        name: format!("repo-{}", hash),
        description: None,
        storage_tier: "free".to_string(),
        is_private: false,
    }
}

#[test]
fn classification_follows_the_four_tiers() {
    assert_eq!(HealthStatus::classify(0, 3), HealthStatus::Critical);
    assert_eq!(HealthStatus::classify(1, 3), HealthStatus::NeedsReplication);
    assert_eq!(HealthStatus::classify(2, 3), HealthStatus::NeedsReplication);
    assert_eq!(HealthStatus::classify(3, 3), HealthStatus::Good);
    assert_eq!(HealthStatus::classify(4, 3), HealthStatus::Good);
    assert_eq!(HealthStatus::classify(5, 3), HealthStatus::Excellent);
    assert_eq!(HealthStatus::classify(100, 3), HealthStatus::Excellent);
    assert_eq!(HealthStatus::classify(5, 9), HealthStatus::Excellent);
    assert_eq!(HealthStatus::classify(4, 4), HealthStatus::Good);
    assert_eq!(HealthStatus::classify(1, 1), HealthStatus::Good);
    assert_eq!(HealthStatus::Excellent.label(), "Excellent");
    assert_eq!(HealthStatus::Good.label(), "Good");
    assert_eq!(HealthStatus::NeedsReplication.label(), "Needs Replication");
    assert_eq!(HealthStatus::Critical.label(), "Critical");
}

#[test]
fn classification_never_falls_with_more_replicas() {
    let order = |s: HealthStatus| match s {
        HealthStatus::Critical => 0,
        HealthStatus::NeedsReplication => 1,
        HealthStatus::Good => 2,
        HealthStatus::Excellent => 3,
    };
    for min in 1..=4 {
        for count in 0..8 {
            assert!(
                order(HealthStatus::classify(count, min))
                    <= order(HealthStatus::classify(count + 1, min))
            );
        }
    }
}

#[test]
fn highest_reputation_non_holder_is_selected() {
    let mut db = Database::new(10);
    db.create_repository(&repo("r"), 1, "R", 0).unwrap();
    assert!(db.restore_node(node("A", 40, 100)));
    assert!(db.restore_node(node("B", 20, 100)));
    assert!(db.restore_node(node("C", 60, 100)));
    assert!(db.restore_node(node("D", 90, 100)));
    db.create_replica("R", "A", 100);
    db.create_replica("R", "B", 100);
    let listed: Vec<String> =
        db.list_active_nodes(10, 100).into_iter().map(|n| n.node_id).collect();
    assert_eq!(listed, vec!["D", "C", "A", "B"]);

    let chosen = ReplicationService::new().trigger_replication(&mut db, "R", 100).unwrap();
    assert_eq!(chosen, "D");
    assert_eq!(db.get_replica_count("R"), 3);
    let health = HealthMonitor::new(3, 10).check_repo_health(&db, "R");
    assert_eq!(health.repo_hash, "R");
    assert_eq!(health.status, HealthStatus::Good);
}

#[test]
fn silent_nodes_are_neither_listed_nor_chosen() {
    let mut db = Database::new(10);
    assert!(db.restore_node(node("old", 100, 0)));
    assert!(db.restore_node(node("edge", 50, 400)));
    assert!(db.restore_node(node("new", 10, 999)));
    let listed: Vec<String> =
        db.list_active_nodes(10, 1000).into_iter().map(|n| n.node_id).collect();
    assert_eq!(listed, vec!["edge", "new"]);
    let chosen = ReplicationService::new().trigger_replication(&mut db, "R", 1000).unwrap();
    assert_eq!(chosen, "edge");
    let stats = db.get_network_stats(1000);
    assert_eq!(stats.active_nodes, 2);
    assert_eq!(stats.total_nodes, 2);
}

#[test]
fn count_matches_hosts_while_every_holder_is_active() {
    let mut db = Database::new(5);
    assert!(db.restore_node(node("A", 40, 1000)));
    assert!(db.restore_node(node("B", 20, 1000)));
    assert!(db.restore_node(node("C", 60, 0)));
    db.create_replica("R", "A", 1000);
    db.create_replica("R", "B", 1000);
    assert_eq!(db.list_repo_replicas("R", 1000).len() as i64, db.get_replica_count("R"));
    db.create_replica("R", "C", 1000);
    db.create_replica("R", "gone", 1000);
    assert_eq!(db.get_replica_count("R"), 4);
    let hosts: Vec<String> =
        db.list_repo_replicas("R", 1000).into_iter().map(|n| n.node_id).collect();
    assert_eq!(hosts, vec!["A", "B"]);
}

#[test]
fn registration_refreshes_and_keeps_reputation() {
    let mut db = Database::new(10);
    assert!(db.restore_node(node("A", 40, 100)));
    assert!(!db.restore_node(node("A", 50, 100)));
    assert!(!db.restore_node(node("Z", 101, 100)));
    assert!(!db.restore_node(node("Z", -1, 100)));
    let request = RegisterNodeRequest {
        node_id: "A".to_string(),
        address: "new.example.org".to_string(),
        port: 9,
        storage_capacity: 5,
        is_anchor: true,
    };
    let refreshed = db.register_node(&request, 200);
    assert_eq!(refreshed.address, "new.example.org");
    assert_eq!(refreshed.port, 9);
    assert_eq!(refreshed.storage_capacity, 5);
    assert_eq!(refreshed.last_seen, 200);
    assert_eq!(refreshed.reputation_score, 40);
    assert_eq!(refreshed.storage_used, 10);
    assert_eq!(refreshed.is_anchor, 0);
    let again = db.register_node(&request, 150);
    assert_eq!(again.last_seen, 200);

    let fresh = db.register_node(
        &RegisterNodeRequest {
            node_id: "B".to_string(),
            address: "b".to_string(),
            port: 1,
            storage_capacity: 2,
            is_anchor: true,
        },
        300,
    );
    assert_eq!(fresh.reputation_score, 100);
    assert_eq!(fresh.storage_used, 0);
    assert_eq!(fresh.is_anchor, 1);
    assert_eq!(fresh.last_seen, 300);
}

#[test]
fn heartbeat_updates_a_known_node_only() {
    let mut db = Database::new(10);
    assert!(db.restore_node(node("A", 40, 100)));
    db.update_node_heartbeat("A", 77, 500);
    let a = db.get_node("A").unwrap();
    assert_eq!((a.last_seen, a.storage_used, a.reputation_score), (500, 77, 40));
    db.update_node_heartbeat("A", 78, 400);
    let a = db.get_node("A").unwrap();
    assert_eq!((a.last_seen, a.storage_used), (500, 78));
    db.update_node_heartbeat("ghost", 1, 500);
    assert!(db.get_node("ghost").is_err());
}

#[test]
fn replicas_are_upserted_and_removed() {
    let mut db = Database::new(10);
    let first = db.create_replica("R", "A", 10);
    assert_eq!((first.created_at, first.last_verified), (10, None));
    let second = db.create_replica("R", "A", 20);
    assert_eq!((second.created_at, second.last_verified), (10, Some(20)));
    assert_eq!(db.get_replica_count("R"), 1);
    assert_eq!(db.count_node_repos("A"), 1);
    assert!(!db.restore_replica(Replica {
        repo_hash: "R".to_string(),
        node_id: "A".to_string(),
        created_at: 1,
        last_verified: None,
    }));
    db.delete_replica("R", "A");
    db.delete_replica("R", "A");
    assert_eq!(db.get_replica_count("R"), 0);
}

#[test]
fn healing_cycle_works_through_a_bounded_batch() {
    let mut db = Database::new(10);
    for i in 0..12 {
        db.create_repository(&repo(&i.to_string()), 1, &format!("R{}", i), 0).unwrap();
    }
    assert!(db.restore_node(node("A", 40, 100)));
    assert!(db.restore_node(node("B", 80, 100)));
    db.create_replica("R0", "A", 0);
    db.create_replica("R0", "B", 0);
    db.create_replica("R1", "B", 0);
    db.create_replica("R11", "A", 0);

    let monitor = HealthMonitor::new(2, 10);
    assert_eq!(monitor.check_interval_seconds(), 600);
    let unhealthy = db.get_unhealthy_repos(2);
    assert_eq!(unhealthy.len(), 11);
    assert_eq!(unhealthy[0], "R1");

    let report = monitor.check_network_health(&mut db, 100);
    assert_eq!(report.unhealthy_found, 11);
    assert_eq!(report.outcomes.len(), HEAL_BATCH);
    assert_eq!(report.stale_nodes_removed, 0);
    assert_eq!(report.outcomes[0].repo_hash, "R1");
    assert_eq!(report.outcomes[0].node_id, Some("A".to_string()));
    assert_eq!(report.outcomes[1].repo_hash, "R2");
    assert_eq!(report.outcomes[1].node_id, Some("B".to_string()));
    assert_eq!(db.get_replica_count("R1"), 2);
    assert_eq!(db.get_replica_count("R10"), 1);
    assert_eq!(db.get_replica_count("R11"), 1);
    assert_eq!(report.stats.total_repos, 12);
    assert_eq!(report.stats.active_nodes, 2);
    assert_eq!(report.stats.replica_rows, 14);
    assert_eq!(report.stats.replicated_repos, 12);

    let second = monitor.check_network_health(&mut db, 100);
    assert_eq!(second.unhealthy_found, 10);
    assert_eq!(second.outcomes[0].repo_hash, "R2");
    assert_eq!(second.outcomes[0].node_id, Some("A".to_string()));
    assert_eq!(second.outcomes[9].repo_hash, "R11");
    assert_eq!(second.outcomes[9].node_id, Some("B".to_string()));
    let third = monitor.check_network_health(&mut db, 100);
    assert_eq!(third.unhealthy_found, 0);
    assert!(third.outcomes.is_empty());
}

#[test]
fn a_repository_without_eligible_node_does_not_stop_the_batch() {
    let mut db = Database::new(10);
    db.create_repository(&repo("a"), 1, "RA", 0).unwrap();
    db.create_repository(&repo("b"), 1, "RB", 0).unwrap();
    assert!(db.restore_node(node("A", 40, 100)));
    db.create_replica("RA", "A", 0);
    let report = HealthMonitor::new(3, 10).check_network_health(&mut db, 100);
    assert_eq!(report.outcomes.len(), 2);
    assert_eq!(report.outcomes[0].node_id, None);
    assert_eq!(report.outcomes[1].node_id, Some("A".to_string()));
}

#[test]
fn catalog_keeps_repositories_by_hash() {
    let mut db = Database::new(10);
    let created = db.create_repository(&repo("x"), 7, "RX", 50).unwrap();
    assert_eq!((created.owner_id, created.size, created.created_at), (7, 0, 50));
    assert!(matches!(
        db.create_repository(&repo("x"), 7, "RX", 60),
        Err(CoreError::CatalogError)
    ));
    db.update_repository_size("RX", 4096, 70);
    let found = db.get_repository("RX").unwrap();
    assert_eq!((found.size, found.last_updated, found.created_at), (4096, 70, 50));
    assert!(!db.restore_repository(Repository {
        repo_hash: "RX".to_string(),
        owner_id: 1,
        name: "n".to_string(),
        description: None,
        size: 1,
        storage_tier: "free".to_string(),
        is_private: 0,
        created_at: 0,
        last_updated: 0,
    }));
    assert_eq!(db.get_network_stats(0).total_storage_used, 4096);
    db.delete_repository("RX");
    assert!(matches!(db.get_repository("RX"), Err(CoreError::CatalogError)));
}
