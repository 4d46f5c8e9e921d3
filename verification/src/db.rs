//! The catalog of the storage engine: repositories, nodes and replicas in
//! one place, so that the removal of a repository can take its replicas
//! with it.

use vstd::prelude::*;
use crate::error::CoreError;
use crate::models::{
    CreateRepoRequest, NetworkStats, Node, NodeInfo, NodeView, RegisterNodeRequest, Replica,
    ReplicaView, Repository, RepositoryView,
};
use crate::nodes::{
    active_count, has_node, heartbeat_applied, lists_active, node_index, node_views, registered,
    reputations_in_range, restored, unique_node_ids, NodeRegistry, MAX_REPUTATION,
};
use crate::replicas::{
    active_hosts, hosted_count, holds_replica, info_views, replica_added, replica_count,
    replica_index, replica_removed, replica_restored, replicated_repos, unique_replicas,
    without_repo, ReplicaRegistry,
};
use crate::text::str_eq;

verus! {

/// The mathematical value of a [`Database`].
pub ghost struct DatabaseView {
    pub repositories: Seq<RepositoryView>,
    pub nodes: Seq<NodeView>,
    pub replicas: Seq<ReplicaView>,
    pub heartbeat_timeout_minutes: i32,
}

/// Some repository of `repos` has the hash `hash`.
pub open spec fn has_repo(repos: Seq<RepositoryView>, hash: Seq<char>) -> bool {
    exists|i: int| 0 <= i < repos.len() && (#[trigger] repos[i]).repo_hash == hash
}

/// The place of the repository with hash `hash`; meaningful where
/// `has_repo` holds.
pub open spec fn repo_index(repos: Seq<RepositoryView>, hash: Seq<char>) -> int {
    choose|i: int| 0 <= i < repos.len() && (#[trigger] repos[i]).repo_hash == hash
}

/// No hash occurs in two repositories.
pub open spec fn unique_repo_hashes(repos: Seq<RepositoryView>) -> bool {
    forall|i: int, j: int|
        0 <= i < j < repos.len() ==> (#[trigger] repos[i]).repo_hash != (
        #[trigger] repos[j]).repo_hash
}

/// The repositories without the one of hash `hash`.
pub open spec fn repo_removed(repos: Seq<RepositoryView>, hash: Seq<char>) -> Seq<RepositoryView> {
    if has_repo(repos, hash) {
        repos.remove(repo_index(repos, hash))
    } else {
        repos
    }
}

/// The row of a repository that was just created.
pub open spec fn fresh_repo(
    hash: Seq<char>,
    owner_id: i64,
    name: Seq<char>,
    description: Option<Seq<char>>,
    storage_tier: Seq<char>,
    is_private: bool,
    now: i64,
) -> RepositoryView {
    RepositoryView {
        repo_hash: hash,
        owner_id,
        name,
        description,
        size: 0,
        storage_tier,
        is_private: if is_private {
            1
        } else {
            0
        },
        created_at: now,
        last_updated: now,
    }
}

/// The repositories after the size of one of them was measured anew.
pub open spec fn repo_resized(
    repos: Seq<RepositoryView>,
    hash: Seq<char>,
    size: i64,
    now: i64,
) -> Seq<RepositoryView> {
    if has_repo(repos, hash) {
        let at = repo_index(repos, hash);
        repos.update(at, RepositoryView { size, last_updated: now, ..repos[at] })
    } else {
        repos
    }
}

/// The hashes of the repositories with fewer than `min_replicas` rows in
/// the replica registry, in the order of the catalog.
pub open spec fn under_replicated(
    repos: Seq<RepositoryView>,
    rows: Seq<ReplicaView>,
    min_replicas: int,
) -> Seq<Seq<char>>
    decreases repos.len(),
{
    if repos.len() == 0 {
        Seq::empty()
    } else {
        let rest = under_replicated(repos.drop_last(), rows, min_replicas);
        if replica_count(rows, repos.last().repo_hash) < min_replicas {
            rest.push(repos.last().repo_hash)
        } else {
            rest
        }
    }
}

/// The sizes of all repositories, added up.
pub open spec fn total_size(repos: Seq<RepositoryView>) -> int
    decreases repos.len(),
{
    if repos.len() == 0 {
        0
    } else {
        total_size(repos.drop_last()) + repos.last().size
    }
}

/// `n` as an `i64`, the largest `i64` standing for all that is larger.
pub open spec fn clamped(n: int) -> i64 {
    if n > i64::MAX {
        i64::MAX
    } else if n < i64::MIN {
        i64::MIN
    } else {
        n as i64
    }
}

/// The figures of the network at `now`.
pub open spec fn network_stats(db: DatabaseView, now: i64) -> NetworkStats {
    let active = clamped(active_count(db.nodes, db.heartbeat_timeout_minutes, now) as int);
    NetworkStats {
        total_repos: clamped(db.repositories.len() as int),
        total_nodes: active,
        total_storage_used: clamped(total_size(db.repositories)),
        active_nodes: active,
        replica_rows: clamped(db.replicas.len() as int),
        replicated_repos: clamped(replicated_repos(db.replicas) as int),
    }
}

/// The views of a sequence of repositories.
pub open spec fn repo_views(repos: Seq<Repository>) -> Seq<RepositoryView> {
    repos.map_values(|r: Repository| r@)
}

/// The views of a sequence of strings.
pub open spec fn string_views(strings: Seq<String>) -> Seq<Seq<char>> {
    strings.map_values(|s: String| s@)
}

/// A count as an `i64`.
pub fn count_as_i64(n: usize) -> (count: i64)
    ensures
        count == clamped(n as int),
{
    if n as u64 > i64::MAX as u64 {
        i64::MAX
    } else {
        n as i64
    }
}

/// The catalog: the repositories, the node registry and the replica
/// registry, with the heartbeat timeout that tells active nodes from
/// silent ones.
pub struct Database {
    repositories: Vec<Repository>,
    nodes: NodeRegistry,
    replicas: ReplicaRegistry,
    heartbeat_timeout_minutes: i32,
}

impl View for Database {
    type V = DatabaseView;

    closed spec fn view(&self) -> DatabaseView {
        DatabaseView {
            repositories: repo_views(self.repositories@),
            nodes: self.nodes@,
            replicas: self.replicas@,
            heartbeat_timeout_minutes: self.heartbeat_timeout_minutes,
        }
    }
}

impl Database {
    /// Every catalog that this module hands out holds each repository
    /// hash, each node id and each pair of repository and node once.
    pub open spec fn wf(&self) -> bool {
        &&& unique_repo_hashes(self@.repositories)
        &&& unique_node_ids(self@.nodes)
        &&& reputations_in_range(self@.nodes)
        &&& unique_replicas(self@.replicas)
    }

    /// An empty catalog in which a node counts as active for
    /// `heartbeat_timeout_minutes` after its last sign of life.
    pub fn new(heartbeat_timeout_minutes: i32) -> (db: Self)
        ensures
            db.wf(),
            db@ == (DatabaseView {
                repositories: Seq::empty(),
                nodes: Seq::empty(),
                replicas: Seq::empty(),
                heartbeat_timeout_minutes,
            }),
    {
        let db = Database {
            repositories: Vec::new(),
            nodes: NodeRegistry::new(),
            replicas: ReplicaRegistry::new(),
            heartbeat_timeout_minutes,
        };
        assert(repo_views(db.repositories@) == Seq::<RepositoryView>::empty());
        db
    }

    /// The configured heartbeat timeout.
    pub fn heartbeat_timeout_minutes(&self) -> (minutes: i32)
        ensures
            minutes == self@.heartbeat_timeout_minutes,
    {
        self.heartbeat_timeout_minutes
    }

    fn repo_position(&self, repo_hash: &str) -> (at: Option<usize>)
        requires
            self.wf(),
        ensures
            match at {
                Some(i) => i < self@.repositories.len() && self@.repositories[i as int].repo_hash
                    == repo_hash@ && has_repo(self@.repositories, repo_hash@) && repo_index(
                    self@.repositories,
                    repo_hash@,
                ) == i,
                None => !has_repo(self@.repositories, repo_hash@),
            },
    {
        let mut i: usize = 0;
        while i < self.repositories.len()
            invariant
                i <= self.repositories.len(),
                self.wf(),
                self@.repositories == repo_views(self.repositories@),
                forall|k: int|
                    0 <= k < i ==> (#[trigger] self@.repositories[k]).repo_hash != repo_hash@,
            decreases self.repositories.len() - i,
        {
            if str_eq(self.repositories[i].repo_hash.as_str(), repo_hash) {
                assert(self@.repositories[i as int].repo_hash == repo_hash@);
                return Some(i);
            }
            i += 1;
        }
        None
    }

    /// Enters a new repository under `repo_hash`. A hash that is taken is
    /// refused and nothing changes.
    pub fn create_repository(
        &mut self,
        repo: &CreateRepoRequest,
        owner_id: i64,
        repo_hash: &str,
        now: i64,
    ) -> (created: Result<Repository, CoreError>)
        requires
            old(self).wf(),
        ensures
            final(self).wf(),
            match created {
                Ok(row) => {
                    &&& !has_repo(old(self)@.repositories, repo_hash@)
                    &&& row@ == fresh_repo(
                        repo_hash@,
                        owner_id,
                        repo.name@,
                        match repo.description {
                            Some(d) => Some(d@),
                            None => None,
                        },
                        repo.storage_tier@,
                        repo.is_private,
                        now,
                    )
                    &&& final(self)@ == (DatabaseView {
                        repositories: old(self)@.repositories.push(row@),
                        ..old(self)@
                    })
                },
                Err(e) => {
                    &&& has_repo(old(self)@.repositories, repo_hash@)
                    &&& e == CoreError::CatalogError
                    &&& final(self)@ == old(self)@
                },
            },
    {
        match self.repo_position(repo_hash) {
            Some(_) => Err(CoreError::CatalogError),
            None => {
                let row = Repository {
                    repo_hash: repo_hash.to_owned(),
                    owner_id,
                    name: repo.name.clone(),
                    description: match &repo.description {
                        Some(d) => Some(d.clone()),
                        None => None,
                    },
                    size: 0,
                    storage_tier: repo.storage_tier.clone(),
                    is_private: if repo.is_private {
                        1
                    } else {
                        0
                    },
                    created_at: now,
                    last_updated: now,
                };
                let result = row.clone();
                let ghost before = self@.repositories;
                assert(repo_views(self.repositories@.push(row)) == before.push(row@));
                self.repositories.push(row);
                Ok(result)
            },
        }
    }

    /// Looks a repository up by its hash.
    pub fn get_repository(&self, repo_hash: &str) -> (found: Result<Repository, CoreError>)
        requires
            self.wf(),
        ensures
            match found {
                Ok(row) => has_repo(self@.repositories, repo_hash@) && row@
                    == self@.repositories[repo_index(self@.repositories, repo_hash@)],
                Err(e) => !has_repo(self@.repositories, repo_hash@) && e
                    == CoreError::CatalogError,
            },
    {
        match self.repo_position(repo_hash) {
            Some(i) => Ok(self.repositories[i].clone()),
            None => Err(CoreError::CatalogError),
        }
    }

    /// Records the size of a repository as measured at `now`. An unknown
    /// hash changes nothing.
    pub fn update_repository_size(&mut self, repo_hash: &str, size: i64, now: i64)
        requires
            old(self).wf(),
        ensures
            final(self).wf(),
            final(self)@ == (DatabaseView {
                repositories: repo_resized(old(self)@.repositories, repo_hash@, size, now),
                ..old(self)@
            }),
    {
        let ghost before = self@.repositories;
        match self.repo_position(repo_hash) {
            Some(i) => {
                let known = &self.repositories[i];
                let updated = Repository {
                    repo_hash: known.repo_hash.clone(),
                    owner_id: known.owner_id,
                    name: known.name.clone(),
                    description: match &known.description {
                        Some(d) => Some(d.clone()),
                        None => None,
                    },
                    size,
                    storage_tier: known.storage_tier.clone(),
                    is_private: known.is_private,
                    created_at: known.created_at,
                    last_updated: now,
                };
                assert(repo_views(self.repositories@.update(i as int, updated)) == before.update(
                    i as int,
                    updated@,
                ));
                self.repositories.set(i, updated);
            },
            None => {},
        }
    }

    /// Removes a repository together with every replica on record for it,
    /// so that no replica row is left that refers to a repository that is
    /// gone. A hash that is unknown loses its replica rows all the same.
    pub fn delete_repository(&mut self, repo_hash: &str)
        requires
            old(self).wf(),
        ensures
            final(self).wf(),
            !has_repo(final(self)@.repositories, repo_hash@),
            replica_count(final(self)@.replicas, repo_hash@) == 0,
            final(self)@ == (DatabaseView {
                repositories: repo_removed(old(self)@.repositories, repo_hash@),
                replicas: without_repo(old(self)@.replicas, repo_hash@),
                ..old(self)@
            }),
    {
        self.replicas.delete_repo_replicas(repo_hash);
        self.remove_repo_row(repo_hash);
    }

    fn remove_repo_row(&mut self, repo_hash: &str)
        requires
            old(self).wf(),
        ensures
            final(self).wf(),
            !has_repo(final(self)@.repositories, repo_hash@),
            final(self)@ == (DatabaseView {
                repositories: repo_removed(old(self)@.repositories, repo_hash@),
                ..old(self)@
            }),
    {
        let ghost before = self@.repositories;
        match self.repo_position(repo_hash) {
            Some(i) => {
                assert(repo_views(self.repositories@.remove(i as int)) == before.remove(i as int));
                self.repositories.remove(i);
                proof {
                    let after = self@.repositories;
                    assert forall|k: int| 0 <= k < after.len() implies (
                    #[trigger] after[k]).repo_hash != repo_hash@ by {
                        if k < i {
                            assert(after[k] == before[k]);
                        } else {
                            assert(after[k] == before[k + 1]);
                        }
                    }
                    assert forall|a: int, b: int| 0 <= a < b < after.len() implies (
                    #[trigger] after[a]).repo_hash != (#[trigger] after[b]).repo_hash by {
                        let ia = if a < i { a } else { a + 1 };
                        let ib = if b < i { b } else { b + 1 };
                        assert(after[a] == before[ia] && after[b] == before[ib]);
                    }
                }
            },
            None => {},
        }
    }

    /// Removes a repository together with every replica on record for it,
    /// as `delete_repository` does; what else refers to the repository is
    /// the caller's to remove at the same time.
    pub fn delete_repository_complete(&mut self, repo_hash: &str)
        requires
            old(self).wf(),
        ensures
            final(self).wf(),
            !has_repo(final(self)@.repositories, repo_hash@),
            replica_count(final(self)@.replicas, repo_hash@) == 0,
            final(self)@ == (DatabaseView {
                repositories: repo_removed(old(self)@.repositories, repo_hash@),
                replicas: without_repo(old(self)@.replicas, repo_hash@),
                ..old(self)@
            }),
    {
        self.delete_repository(repo_hash);
    }

    /// Puts back a repository that was kept elsewhere, as it is. Tells
    /// whether it was taken: one whose hash is known already is not.
    pub fn restore_repository(&mut self, repo: Repository) -> (taken: bool)
        requires
            old(self).wf(),
        ensures
            final(self).wf(),
            taken == !has_repo(old(self)@.repositories, repo.repo_hash@),
            final(self)@ == (DatabaseView {
                repositories: if taken {
                    old(self)@.repositories.push(repo@)
                } else {
                    old(self)@.repositories
                },
                ..old(self)@
            }),
    {
        match self.repo_position(repo.repo_hash.as_str()) {
            Some(_) => false,
            None => {
                let ghost before = self@.repositories;
                assert(repo_views(self.repositories@.push(repo)) == before.push(repo@));
                self.repositories.push(repo);
                true
            },
        }
    }

    /// Puts back a node that was kept elsewhere, as it is. Tells whether
    /// it was taken: one whose id is known already, or whose reputation is
    /// out of range, is not.
    pub fn restore_node(&mut self, node: Node) -> (taken: bool)
        requires
            old(self).wf(),
        ensures
            final(self).wf(),
            final(self)@ == (DatabaseView { nodes: restored(old(self)@.nodes, node@), ..old(self)@ }),
            taken == (!has_node(old(self)@.nodes, node.node_id@) && 0 <= node.reputation_score
                <= MAX_REPUTATION),
    {
        self.nodes.restore_node(node)
    }

    /// Puts back a replica that was kept elsewhere, as it is. Tells
    /// whether it was taken: one whose pair is on record already is not.
    pub fn restore_replica(&mut self, row: Replica) -> (taken: bool)
        requires
            old(self).wf(),
        ensures
            final(self).wf(),
            final(self)@ == (DatabaseView {
                replicas: replica_restored(old(self)@.replicas, row@),
                ..old(self)@
            }),
            taken == !holds_replica(old(self)@.replicas, row.repo_hash@, row.node_id@),
    {
        self.replicas.restore_replica(row)
    }

    /// Registers a node or refreshes a known one.
    pub fn register_node(&mut self, request: &RegisterNodeRequest, now: i64) -> (node: Node)
        requires
            old(self).wf(),
        ensures
            final(self).wf(),
            final(self)@ == (DatabaseView {
                nodes: registered(
                    old(self)@.nodes,
                    request.node_id@,
                    request.address@,
                    request.port,
                    request.storage_capacity,
                    request.is_anchor,
                    now,
                ),
                ..old(self)@
            }),
            has_node(final(self)@.nodes, request.node_id@),
            node@ == final(self)@.nodes[node_index(final(self)@.nodes, request.node_id@)],
    {
        self.nodes.register_node(request, now)
    }

    /// Looks a node up by its id.
    pub fn get_node(&self, node_id: &str) -> (found: Result<Node, CoreError>)
        requires
            self.wf(),
        ensures
            match found {
                Ok(node) => has_node(self@.nodes, node_id@) && node@ == self@.nodes[node_index(
                    self@.nodes,
                    node_id@,
                )],
                Err(e) => !has_node(self@.nodes, node_id@) && e == CoreError::NodeNotFound,
            },
    {
        self.nodes.get_node(node_id)
    }

    /// The nodes heard of within `timeout_minutes` before `now`, best
    /// reputation first.
    pub fn list_active_nodes(&self, timeout_minutes: i32, now: i64) -> (listed: Vec<Node>)
        requires
            self.wf(),
        ensures
            lists_active(self@.nodes, timeout_minutes, now, node_views(listed@)),
    {
        self.nodes.list_active_nodes(timeout_minutes, now)
    }

    /// Records a heartbeat; for an unknown node nothing changes.
    pub fn update_node_heartbeat(&mut self, node_id: &str, storage_used: i64, now: i64)
        requires
            old(self).wf(),
        ensures
            final(self).wf(),
            final(self)@ == (DatabaseView {
                nodes: heartbeat_applied(old(self)@.nodes, node_id@, storage_used, now),
                ..old(self)@
            }),
    {
        self.nodes.update_node_heartbeat(node_id, storage_used, now)
    }

    /// Records that `node_id` holds a copy of `repo_hash`.
    pub fn create_replica(&mut self, repo_hash: &str, node_id: &str, now: i64) -> (row: Replica)
        requires
            old(self).wf(),
        ensures
            final(self).wf(),
            final(self)@ == (DatabaseView {
                replicas: replica_added(old(self)@.replicas, repo_hash@, node_id@, now),
                ..old(self)@
            }),
            holds_replica(final(self)@.replicas, repo_hash@, node_id@),
            row@ == final(self)@.replicas[replica_index(
                final(self)@.replicas,
                repo_hash@,
                node_id@,
            )],
    {
        self.replicas.create_replica(repo_hash, node_id, now)
    }

    /// The row of `(repo_hash, node_id)`, if there is one on record.
    pub fn get_replica(&self, repo_hash: &str, node_id: &str) -> (row: Option<Replica>)
        requires
            self.wf(),
        ensures
            match row {
                Some(found) => holds_replica(self@.replicas, repo_hash@, node_id@) && found@
                    == self@.replicas[replica_index(self@.replicas, repo_hash@, node_id@)],
                None => !holds_replica(self@.replicas, repo_hash@, node_id@),
            },
    {
        self.replicas.get_replica(repo_hash, node_id)
    }

    /// The replicas on record for `repo_hash`, whether their nodes are
    /// active or not.
    pub fn list_replica_rows(&self, repo_hash: &str) -> (rows: Vec<Replica>)
        ensures
            crate::replicas::replica_views(rows@) == crate::replicas::rows_of(
                self@.replicas,
                repo_hash@,
            ),
    {
        self.replicas.list_replica_rows(repo_hash)
    }

    /// The active nodes that hold `repo_hash`.
    pub fn list_repo_replicas(&self, repo_hash: &str, now: i64) -> (hosts: Vec<NodeInfo>)
        requires
            self.wf(),
        ensures
            info_views(hosts@) == active_hosts(
                self@.replicas,
                self@.nodes,
                repo_hash@,
                self@.heartbeat_timeout_minutes,
                now,
            ),
    {
        self.replicas.list_repo_replicas(
            &self.nodes,
            repo_hash,
            self.heartbeat_timeout_minutes,
            now,
        )
    }

    /// The number of nodes on record as holders of `repo_hash`.
    pub fn get_replica_count(&self, repo_hash: &str) -> (count: i64)
        ensures
            count == clamped(replica_count(self@.replicas, repo_hash@) as int),
    {
        count_as_i64(self.replicas.get_replica_count(repo_hash))
    }

    /// Forgets that `node_id` holds a copy of `repo_hash`.
    pub fn delete_replica(&mut self, repo_hash: &str, node_id: &str)
        requires
            old(self).wf(),
        ensures
            final(self).wf(),
            final(self)@ == (DatabaseView {
                replicas: replica_removed(old(self)@.replicas, repo_hash@, node_id@),
                ..old(self)@
            }),
            !holds_replica(final(self)@.replicas, repo_hash@, node_id@),
    {
        self.replicas.delete_replica(repo_hash, node_id)
    }

    /// The number of repositories that `node_id` is on record as holding.
    pub fn count_node_repos(&self, node_id: &str) -> (count: i64)
        ensures
            count == clamped(hosted_count(self@.replicas, node_id@) as int),
    {
        count_as_i64(self.replicas.count_node_repos(node_id))
    }

    /// The figures of the network at `now`: how many repositories and
    /// active nodes there are, how many bytes the repositories take, and
    /// how many replica rows stand for how many repositories.
    pub fn get_network_stats(&self, now: i64) -> (stats: NetworkStats)
        ensures
            stats == network_stats(self@, now),
    {
        let active = count_as_i64(self.nodes.count_active(self.heartbeat_timeout_minutes, now));
        let mut total: i128 = 0;
        let mut k: usize = 0;
        while k < self.repositories.len()
            invariant
                k <= self.repositories.len(),
                self@.repositories == repo_views(self.repositories@),
                total == total_size(self@.repositories.take(k as int)),
                -(k as int) * 0x8000_0000_0000_0000 <= total <= (k as int) * 0x8000_0000_0000_0000,
            decreases self.repositories.len() - k,
        {
            proof {
                assert(self@.repositories.take(k + 1).drop_last() == self@.repositories.take(
                    k as int,
                ));
            }
            total = total + self.repositories[k].size as i128;
            k += 1;
        }
        assert(self@.repositories.take(k as int) == self@.repositories);
        let total_storage_used = if total > i64::MAX as i128 {
            i64::MAX
        } else if total < i64::MIN as i128 {
            i64::MIN
        } else {
            total as i64
        };
        NetworkStats {
            total_repos: count_as_i64(self.repositories.len()),
            total_nodes: active,
            total_storage_used,
            active_nodes: active,
            replica_rows: count_as_i64(self.replicas.len()),
            replicated_repos: count_as_i64(self.replicas.count_replicated_repos()),
        }
    }

    /// The repositories with fewer than `min_replicas` replicas on record.
    pub fn get_unhealthy_repos(&self, min_replicas: i32) -> (hashes: Vec<String>)
        ensures
            string_views(hashes@) == under_replicated(
                self@.repositories,
                self@.replicas,
                min_replicas as int,
            ),
    {
        let mut out: Vec<String> = Vec::new();
        let mut k: usize = 0;
        while k < self.repositories.len()
            invariant
                k <= self.repositories.len(),
                self@.repositories == repo_views(self.repositories@),
                self@.replicas == self.replicas@,
                string_views(out@) == under_replicated(
                    self@.repositories.take(k as int),
                    self@.replicas,
                    min_replicas as int,
                ),
            decreases self.repositories.len() - k,
        {
            proof {
                assert(self@.repositories.take(k + 1).drop_last() == self@.repositories.take(
                    k as int,
                ));
            }
            let hash = &self.repositories[k].repo_hash;
            let count = self.replicas.get_replica_count(hash.as_str());
            if min_replicas > 0 && count < min_replicas as usize {
                let copy = hash.clone();
                assert(string_views(out@.push(copy)) == string_views(out@).push(copy@));
                out.push(copy);
            }
            k += 1;
        }
        assert(self@.repositories.take(k as int) == self@.repositories);
        out
    }
}

/// One line of the activity log.
#[derive(Debug)]
pub struct ActivityLogEntry {
    pub id: i64,
    pub user_id: Option<i64>,
    pub action: String,
    pub resource_type: String,
    pub resource_id: String,
    pub details: Option<String>,
    pub ip_address: Option<String>,
    pub created_at: String,
}

} // verus!
