//! The plain endpoints for repositories and nodes.

use vstd::prelude::*;
use vstd::string::StringExecFns;
use crate::db::{
    clamped, count_as_i64, fresh_repo, has_repo, repo_index, repo_removed, Database, DatabaseView,
};
use crate::error::CoreError;
use crate::handlers::HttpStatus;
use crate::models::{
    CreateRepoRequest, CreateRepoResponse, NodeHeartbeat, NodeInfo, ReplicaView,
    ReplicationResponse, RepoMetadata,
};
use crate::nodes::heartbeat_applied;
use crate::replicas::{
    active_hosts, holds_replica, info_views, replica_added, replica_count, unique_replicas,
    without_repo,
};
use crate::services::replication::{none_eligible, placement, ReplicationService};
use crate::storage::git::{GitStorage, StorageView};
use crate::utils::hash::{generate_repo_hash, repo_hash_of};

verus! {

/// How the health of a repository is named to clients of the interface,
/// by the number of active nodes that hold it.
pub open spec fn health_label_of(replica_count: int, min_replicas: int) -> Seq<char> {
    if replica_count >= 5 {
        "Excellent"@
    } else if replica_count >= min_replicas {
        "Good"@
    } else {
        "Needs replication"@
    }
}

/// The name of the health of a repository with `replica_count` active
/// hosts.
pub fn health_label(replica_count: i64, min_replicas: i32) -> (label: &'static str)
    ensures
        label@ == health_label_of(replica_count as int, min_replicas as int),
{
    if replica_count >= 5 {
        "Excellent"
    } else if replica_count >= min_replicas as i64 {
        "Good"
    } else {
        "Needs replication"
    }
}

/// Enters a new repository of `user_id` into the catalog under the hash
/// derived from its name, its owner and `now`. Returns the hash; the
/// storage root is the caller's to create.
pub fn register_repo(db: &mut Database, payload: &CreateRepoRequest, user_id: i64, now: i64) -> (hash:
    Result<String, HttpStatus>)
    requires
        old(db).wf(),
    ensures
        final(db).wf(),
        match hash {
            Ok(repo_hash) => {
                &&& repo_hash@ == repo_hash_of(payload.name@, user_id, now)
                &&& !has_repo(old(db)@.repositories, repo_hash@)
                &&& has_repo(final(db)@.repositories, repo_hash@)
                &&& final(db)@ == (DatabaseView {
                    repositories: old(db)@.repositories.push(
                        fresh_repo(
                            repo_hash@,
                            user_id,
                            payload.name@,
                            match payload.description {
                                Some(d) => Some(d@),
                                None => None,
                            },
                            payload.storage_tier@,
                            payload.is_private,
                            now,
                        ),
                    ),
                    ..old(db)@
                })
            },
            Err(status) => {
                &&& status == HttpStatus::InternalServerError
                &&& has_repo(old(db)@.repositories, repo_hash_of(payload.name@, user_id, now))
                &&& final(db)@ == old(db)@
            },
        },
{
    let repo_hash = generate_repo_hash(payload.name.as_str(), user_id, now);
    let ghost before = db@.repositories;
    match db.create_repository(payload, user_id, repo_hash.as_str(), now) {
        Ok(_) => {
            assert(db@.repositories[before.len() as int].repo_hash == repo_hash@);
            Ok(repo_hash)
        },
        Err(_) => Err(HttpStatus::InternalServerError),
    }
}

/// Records whether the storage root of a new repository could be created
/// and builds the answer to the client.
pub fn created_response(storage: &mut GitStorage, repo_hash: &str, root_created: bool) -> (response:
    Result<CreateRepoResponse, HttpStatus>)
    requires
        old(storage).wf(),
    ensures
        final(storage).wf(),
        match response {
            Ok(done) => {
                &&& root_created
                &&& done.repo_hash@ == repo_hash@
                &&& done.message@ == "Repository created with hash: "@ + repo_hash@
                &&& final(storage)@ == (StorageView {
                    roots: if old(storage)@.roots.contains(repo_hash@) {
                        old(storage)@.roots
                    } else {
                        old(storage)@.roots.push(repo_hash@)
                    },
                    ..old(storage)@
                })
            },
            Err(status) => {
                &&& !root_created
                &&& status == HttpStatus::InternalServerError
                &&& final(storage)@ == old(storage)@
            },
        },
{
    match storage.init_repo(repo_hash, root_created) {
        Ok(_) => {
            let mut message = String::from_str("Repository created with hash: ");
            message.append(repo_hash);
            proof {
                let roots = storage@.roots;
                if old(storage)@.roots.contains(repo_hash@) {
                } else {
                    assert(roots[roots.len() - 1] == repo_hash@);
                }
            }
            Ok(CreateRepoResponse { repo_hash: String::from_str(repo_hash), message })
        },
        Err(_) => Err(HttpStatus::InternalServerError),
    }
}

/// What the interface tells of a repository: its record, the active
/// nodes that hold it, and the health that their number stands for.
pub fn get_repo(db: &Database, min_replica_count: i32, repo_hash: &str, now: i64) -> (response:
    Result<RepoMetadata, HttpStatus>)
    requires
        db.wf(),
    ensures
        match response {
            Ok(meta) => {
                let repo = db@.repositories[repo_index(db@.repositories, repo_hash@)];
                &&& has_repo(db@.repositories, repo_hash@)
                &&& meta.repo_hash@ == repo.repo_hash
                &&& meta.name@ == repo.name
                &&& meta.size == repo.size
                &&& info_views(meta.nodes@) == active_hosts(
                    db@.replicas,
                    db@.nodes,
                    repo_hash@,
                    db@.heartbeat_timeout_minutes,
                    now,
                )
                &&& meta.replica_count == clamped(meta.nodes@.len() as int)
                &&& meta.health_status@ == health_label_of(
                    meta.replica_count as int,
                    min_replica_count as int,
                )
            },
            Err(status) => status == HttpStatus::NotFound && !has_repo(
                db@.repositories,
                repo_hash@,
            ),
        },
{
    let repo = match db.get_repository(repo_hash) {
        Ok(repo) => repo,
        Err(_) => {
            return Err(HttpStatus::NotFound);
        },
    };
    let nodes = db.list_repo_replicas(repo_hash, now);
    let replica_count = count_as_i64(nodes.len());
    let health_status = String::from_str(health_label(replica_count, min_replica_count));
    Ok(
        RepoMetadata {
            repo_hash: repo.repo_hash,
            name: repo.name,
            description: repo.description,
            size: repo.size,
            replica_count,
            nodes,
            health_status,
        },
    )
}

/// Removes the record of a repository and of every replica of it.
pub fn delete_repo(db: &mut Database, repo_hash: &str) -> (status: HttpStatus)
    requires
        old(db).wf(),
    ensures
        final(db).wf(),
        status == HttpStatus::NoContent,
        !has_repo(final(db)@.repositories, repo_hash@),
        replica_count(final(db)@.replicas, repo_hash@) == 0,
        final(db)@ == (DatabaseView {
            repositories: repo_removed(old(db)@.repositories, repo_hash@),
            replicas: without_repo(old(db)@.replicas, repo_hash@),
            ..old(db)@
        }),
{
    db.delete_repository(repo_hash);
    HttpStatus::NoContent
}

/// The active nodes that hold a repository.
pub fn get_repo_nodes(db: &Database, repo_hash: &str, now: i64) -> (nodes: Vec<NodeInfo>)
    requires
        db.wf(),
    ensures
        info_views(nodes@) == active_hosts(
            db@.replicas,
            db@.nodes,
            repo_hash@,
            db@.heartbeat_timeout_minutes,
            now,
        ),
{
    db.list_repo_replicas(repo_hash, now)
}

/// Asks the placement engine for one more replica of a repository and
/// tells the client how it went.
pub fn request_replication(db: &mut Database, repo_hash: &str, now: i64) -> (response:
    ReplicationResponse)
    requires
        old(db).wf(),
    ensures
        final(db).wf(),
        response.success <==> !none_eligible(old(db)@, repo_hash@, now),
        !response.success ==> final(db)@ == old(db)@ && response.message@
            == "Replication failed: "@ + CoreError::NoEligibleNode.message_spec(),
        response.success ==> exists|node: Seq<char>|
            #![trigger placement(old(db)@, repo_hash@, now, Some(node))]
            placement(old(db)@, repo_hash@, now, Some(node)) && holds_replica(
                final(db)@.replicas,
                repo_hash@,
                node,
            ) && response.message@ == "Replication requested to node: "@ + node,
{
    let service = ReplicationService::new();
    match service.trigger_replication(db, repo_hash, now) {
        Ok(target) => {
            let mut message = String::from_str("Replication requested to node: ");
            message.append(target.as_str());
            proof {
                let rows = db@.replicas;
                assert(rows[rows.len() - 1].repo_hash == repo_hash@ && rows[rows.len()
                    - 1].node_id == target@);
                assert(placement(old(db)@, repo_hash@, now, Some(target@)));
            }
            ReplicationResponse { success: true, message }
        },
        Err(e) => {
            let mut message = String::from_str("Replication failed: ");
            let reason = e.message();
            message.append(reason.as_str());
            ReplicationResponse { success: false, message }
        },
    }
}

/// The replica rows after a node reported the repositories `hosted`, one
/// after the other.
pub open spec fn replicas_reported(
    rows: Seq<ReplicaView>,
    hosted: Seq<Seq<char>>,
    node: Seq<char>,
    now: i64,
) -> Seq<ReplicaView>
    decreases hosted.len(),
{
    if hosted.len() == 0 {
        rows
    } else {
        replica_added(replicas_reported(rows, hosted.drop_last(), node, now), hosted.last(), node, now)
    }
}

/// Takes the heartbeat of a node: its sign of life and used storage are
/// recorded where the node is known, and every repository that it reports
/// to host is put on record as a replica.
pub fn node_heartbeat(db: &mut Database, payload: &NodeHeartbeat, now: i64) -> (status: HttpStatus)
    requires
        old(db).wf(),
    ensures
        final(db).wf(),
        status == HttpStatus::Success,
        final(db)@ == (DatabaseView {
            nodes: heartbeat_applied(old(db)@.nodes, payload.node_id@, payload.storage_used, now),
            replicas: replicas_reported(
                old(db)@.replicas,
                crate::db::string_views(payload.hosted_repos@),
                payload.node_id@,
                now,
            ),
            ..old(db)@
        }),
{
    db.update_node_heartbeat(payload.node_id.as_str(), payload.storage_used, now);
    let ghost after_beat = db@;
    let ghost hosted = crate::db::string_views(payload.hosted_repos@);
    let mut i: usize = 0;
    while i < payload.hosted_repos.len()
        invariant
            i <= payload.hosted_repos.len(),
            db.wf(),
            hosted == crate::db::string_views(payload.hosted_repos@),
            db@ == (DatabaseView {
                replicas: replicas_reported(
                    after_beat.replicas,
                    hosted.take(i as int),
                    payload.node_id@,
                    now,
                ),
                ..after_beat
            }),
        decreases payload.hosted_repos.len() - i,
    {
        proof {
            assert(hosted.take(i + 1).drop_last() == hosted.take(i as int));
            assert(hosted.take(i + 1).last() == payload.hosted_repos@[i as int]@);
        }
        db.create_replica(payload.hosted_repos[i].as_str(), payload.node_id.as_str(), now);
        i += 1;
    }
    assert(hosted.take(i as int) == hosted);
    HttpStatus::Success
}

} // verus!
