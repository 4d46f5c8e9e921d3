//! The placement engine: picks one more node for a repository and records
//! the new replica.

use vstd::prelude::*;
use crate::db::{Database, DatabaseView};
use crate::error::CoreError;
use crate::models::{NodeInfo, NodeView};
use crate::nodes::{
    active_count, has_node, is_active, lists_active, node_index, node_views, unique_node_ids,
};
use crate::replicas::{
    active_hosts, fresh_replica, holds_replica, info_views, lemma_active_hosts_are_holders,
    lemma_active_hosts_bounded, lemma_active_hosts_distinct, lists_host, replica_count,
    unique_replicas,
};
use crate::text::str_eq;

verus! {

/// `node` may take a new replica of `repo` at `now`: it is registered and
/// active, and no replica of `repo` is on record for it.
pub open spec fn eligible(db: DatabaseView, repo: Seq<char>, now: i64, node: NodeView) -> bool {
    &&& db.nodes.contains(node)
    &&& is_active(node.last_seen, now, db.heartbeat_timeout_minutes)
    &&& !holds_replica(db.replicas, repo, node.node_id)
}

/// `node` is eligible and no eligible node has a better reputation.
pub open spec fn best_eligible(db: DatabaseView, repo: Seq<char>, now: i64, node: NodeView)
    -> bool {
    &&& eligible(db, repo, now, node)
    &&& forall|other: NodeView| #[trigger]
        eligible(db, repo, now, other) ==> other.reputation_score <= node.reputation_score
}

/// No node may take a new replica of `repo` at `now`.
pub open spec fn none_eligible(db: DatabaseView, repo: Seq<char>, now: i64) -> bool {
    forall|node: NodeView| !#[trigger] eligible(db, repo, now, node)
}

/// What a placement comes to: the id of the chosen node if there is one.
/// A chosen node is a best eligible one.
pub open spec fn placement(
    db: DatabaseView,
    repo: Seq<char>,
    now: i64,
    chosen: Option<Seq<char>>,
) -> bool {
    match chosen {
        Some(id) => has_node(db.nodes, id) && best_eligible(
            db,
            repo,
            now,
            db.nodes[node_index(db.nodes, id)],
        ),
        None => none_eligible(db, repo, now),
    }
}

/// A row of a unique registry is the row that its id is looked up to.
pub proof fn lemma_row_by_id(nodes: Seq<NodeView>, node: NodeView)
    requires
        unique_node_ids(nodes),
        nodes.contains(node),
    ensures
        has_node(nodes, node.node_id),
        nodes[node_index(nodes, node.node_id)] == node,
{
    let j = choose|j: int| 0 <= j < nodes.len() && nodes[j] == node;
    assert(nodes[j].node_id == node.node_id);
}

/// The ids of the rows of `nodes` that are active at `now`, in order.
pub open spec fn active_ids(nodes: Seq<NodeView>, timeout_minutes: i32, now: i64) -> Seq<
    Seq<char>,
>
    decreases nodes.len(),
{
    if nodes.len() == 0 {
        Seq::empty()
    } else {
        let rest = active_ids(nodes.drop_last(), timeout_minutes, now);
        if is_active(nodes.last().last_seen, now, timeout_minutes) {
            rest.push(nodes.last().node_id)
        } else {
            rest
        }
    }
}

/// `id` is the id of a row of `nodes` that is active at `now`.
pub open spec fn names_active_row(
    nodes: Seq<NodeView>,
    timeout_minutes: i32,
    now: i64,
    id: Seq<char>,
) -> bool {
    exists|j: int|
        0 <= j < nodes.len() && (#[trigger] nodes[j]).node_id == id && is_active(
            nodes[j].last_seen,
            now,
            timeout_minutes,
        )
}

/// The ids of the active rows are as many as the active rows, each is the
/// id of an active row, and none occurs twice where the registry holds
/// each id once.
pub proof fn lemma_active_ids(nodes: Seq<NodeView>, timeout_minutes: i32, now: i64)
    ensures
        active_ids(nodes, timeout_minutes, now).len() == active_count(nodes, timeout_minutes, now),
        forall|k: int|
            0 <= k < active_ids(nodes, timeout_minutes, now).len() ==> names_active_row(
                nodes,
                timeout_minutes,
                now,
                #[trigger] active_ids(nodes, timeout_minutes, now)[k],
            ),
        unique_node_ids(nodes) ==> active_ids(nodes, timeout_minutes, now).no_duplicates(),
    decreases nodes.len(),
{
    let ids = active_ids(nodes, timeout_minutes, now);
    if nodes.len() > 0 {
        let init = nodes.drop_last();
        let rest = active_ids(init, timeout_minutes, now);
        lemma_active_ids(init, timeout_minutes, now);
        assert forall|k: int| 0 <= k < ids.len() implies names_active_row(
            nodes,
            timeout_minutes,
            now,
            #[trigger] ids[k],
        ) by {
            if k < rest.len() {
                assert(names_active_row(init, timeout_minutes, now, rest[k]));
                let j = choose|j: int|
                    0 <= j < init.len() && (#[trigger] init[j]).node_id == rest[k] && is_active(
                        init[j].last_seen,
                        now,
                        timeout_minutes,
                    );
                assert(nodes[j].node_id == ids[k]);
            } else {
                assert(nodes[nodes.len() - 1].node_id == ids[k]);
            }
        }
        if unique_node_ids(nodes) {
            assert(unique_node_ids(init)) by {
                assert forall|i: int, j: int| 0 <= i < j < init.len() implies (
                #[trigger] init[i]).node_id != (#[trigger] init[j]).node_id by {
                    assert(init[i] == nodes[i] && init[j] == nodes[j]);
                }
            }
            assert forall|a: int, b: int| 0 <= a < ids.len() && 0 <= b < ids.len() && a
                != b implies ids[a] != ids[b] by {
                let lo = if a < b { a } else { b };
                let hi = if a < b { b } else { a };
                if hi >= rest.len() {
                    assert(names_active_row(init, timeout_minutes, now, rest[lo]));
                    let j = choose|j: int|
                        0 <= j < init.len() && (#[trigger] init[j]).node_id == rest[lo]
                            && is_active(init[j].last_seen, now, timeout_minutes);
                    assert(nodes[j].node_id != nodes[nodes.len() - 1].node_id);
                } else {
                    assert(rest[lo] != rest[hi]);
                }
            }
        }
    }
}

/// While fewer active nodes hold a repository than there are active nodes,
/// some node is eligible for it: a placement then succeeds.
pub proof fn lemma_spare_node_is_eligible(db: DatabaseView, repo: Seq<char>, now: i64)
    requires
        unique_node_ids(db.nodes),
        unique_replicas(db.replicas),
        active_hosts(db.replicas, db.nodes, repo, db.heartbeat_timeout_minutes, now).len()
            < active_count(db.nodes, db.heartbeat_timeout_minutes, now),
    ensures
        !none_eligible(db, repo, now),
        !placement(db, repo, now, None),
{
    let timeout = db.heartbeat_timeout_minutes;
    let hosts = active_hosts(db.replicas, db.nodes, repo, timeout, now);
    let host_ids = hosts.map_values(|h: crate::models::NodeInfoView| h.node_id);
    let ids = active_ids(db.nodes, timeout, now);
    lemma_active_ids(db.nodes, timeout, now);
    lemma_active_hosts_distinct(db.replicas, db.nodes, repo, timeout, now);
    assert(host_ids.no_duplicates()) by {
        assert forall|a: int, b: int| 0 <= a < host_ids.len() && 0 <= b < host_ids.len() && a
            != b implies host_ids[a] != host_ids[b] by {
            if a < b {
                assert(hosts[a].node_id != hosts[b].node_id);
            } else {
                assert(hosts[b].node_id != hosts[a].node_id);
            }
        }
    }
    ids.unique_seq_to_set();
    host_ids.unique_seq_to_set();
    vstd::seq_lib::seq_to_set_is_finite(host_ids);
    if none_eligible(db, repo, now) {
        assert forall|id: Seq<char>| ids.to_set().contains(id) implies host_ids.to_set().contains(
            id,
        ) by {
            let k = choose|k: int| 0 <= k < ids.len() && ids[k] == id;
            assert(names_active_row(db.nodes, timeout, now, ids[k]));
            let j = choose|j: int|
                0 <= j < db.nodes.len() && (#[trigger] db.nodes[j]).node_id == ids[k] && is_active(
                    db.nodes[j].last_seen,
                    now,
                    timeout,
                );
            let node = db.nodes[j];
            assert(db.nodes.contains(node));
            lemma_row_by_id(db.nodes, node);
            assert(!eligible(db, repo, now, node));
            lemma_active_hosts_are_holders(db.replicas, db.nodes, repo, timeout, now, id);
            let h = choose|h: int| 0 <= h < hosts.len() && (#[trigger] hosts[h]).node_id == id;
            assert(host_ids[h] == id);
        }
        vstd::set_lib::lemma_len_subset(ids.to_set(), host_ids.to_set());
        assert(false);
    }
}

/// While a repository has fewer replicas on record than there are active
/// nodes, some node is eligible for it: a placement then succeeds.
pub proof fn lemma_fewer_holders_than_active_nodes(db: DatabaseView, repo: Seq<char>, now: i64)
    requires
        unique_node_ids(db.nodes),
        unique_replicas(db.replicas),
        replica_count(db.replicas, repo) < active_count(
            db.nodes,
            db.heartbeat_timeout_minutes,
            now,
        ),
    ensures
        !none_eligible(db, repo, now),
        !placement(db, repo, now, None),
{
    lemma_active_hosts_bounded(db.replicas, db.nodes, repo, db.heartbeat_timeout_minutes, now);
    lemma_spare_node_is_eligible(db, repo, now);
}

/// The node that a placement chooses is registered and active, and held no
/// replica of the repository before.
pub proof fn lemma_chosen_node_is_new(db: DatabaseView, repo: Seq<char>, now: i64, id: Seq<char>)
    requires
        placement(db, repo, now, Some(id)),
    ensures
        has_node(db.nodes, id),
        is_active(
            db.nodes[node_index(db.nodes, id)].last_seen,
            now,
            db.heartbeat_timeout_minutes,
        ),
        !holds_replica(db.replicas, repo, id),
{
}

/// Where every active node holds a replica of a repository, no node is
/// eligible for it: a placement then fails.
pub proof fn lemma_all_holders_none_eligible(db: DatabaseView, repo: Seq<char>, now: i64)
    requires
        forall|j: int|
            0 <= j < db.nodes.len() && is_active(
                (#[trigger] db.nodes[j]).last_seen,
                now,
                db.heartbeat_timeout_minutes,
            ) ==> holds_replica(db.replicas, repo, db.nodes[j].node_id),
    ensures
        none_eligible(db, repo, now),
        placement(db, repo, now, None),
{
    assert forall|node: NodeView| !#[trigger] eligible(db, repo, now, node) by {
        if eligible(db, repo, now, node) {
            let j = choose|j: int| 0 <= j < db.nodes.len() && db.nodes[j] == node;
            assert(db.nodes[j] == node);
        }
    }
}

/// Whether `hosts` names the node `node_id`.
pub fn names_host(hosts: &Vec<NodeInfo>, node_id: &str) -> (named: bool)
    ensures
        named == lists_host(info_views(hosts@), node_id@),
{
    let mut i: usize = 0;
    while i < hosts.len()
        invariant
            i <= hosts.len(),
            forall|k: int| 0 <= k < i ==> (#[trigger] info_views(hosts@)[k]).node_id != node_id@,
        decreases hosts.len() - i,
    {
        if str_eq(hosts[i].node_id.as_str(), node_id) {
            assert(info_views(hosts@)[i as int].node_id == node_id@);
            return true;
        }
        i += 1;
    }
    false
}

/// The placement engine.
pub struct ReplicationService {}

impl ReplicationService {
    pub fn new() -> (service: Self) {
        ReplicationService {  }
    }

    /// Gives the repository one more replica: among the active nodes that
    /// do not hold it yet, one of best reputation is chosen, the replica is
    /// recorded, and the node's id returned. Where every active node holds
    /// the repository already, nothing changes and `NoEligibleNode` is
    /// reported. Moving the data to the chosen node is the caller's part.
    pub fn trigger_replication(&self, db: &mut Database, repo_hash: &str, now: i64) -> (target:
        Result<String, CoreError>)
        requires
            old(db).wf(),
        ensures
            final(db).wf(),
            target is Err <==> none_eligible(old(db)@, repo_hash@, now),
            match target {
                Ok(node_id) => {
                    &&& placement(old(db)@, repo_hash@, now, Some(node_id@))
                    &&& final(db)@ == (DatabaseView {
                        replicas: old(db)@.replicas.push(
                            fresh_replica(repo_hash@, node_id@, now),
                        ),
                        ..old(db)@
                    })
                },
                Err(e) => {
                    &&& e == CoreError::NoEligibleNode
                    &&& placement(old(db)@, repo_hash@, now, None)
                    &&& final(db)@ == old(db)@
                },
            },
    {
        let holders = db.list_repo_replicas(repo_hash, now);
        let timeout = db.heartbeat_timeout_minutes();
        let candidates = db.list_active_nodes(timeout, now);
        let ghost before = db@;
        let ghost listed = node_views(candidates@);
        let mut i: usize = 0;
        while i < candidates.len()
            invariant
                i <= candidates.len(),
                db.wf(),
                db@ == before,
                before == old(db)@,
                timeout == before.heartbeat_timeout_minutes,
                listed == node_views(candidates@),
                lists_active(before.nodes, timeout, now, listed),
                info_views(holders@) == crate::replicas::active_hosts(
                    before.replicas,
                    before.nodes,
                    repo_hash@,
                    timeout,
                    now,
                ),
                forall|k: int|
                    0 <= k < i ==> lists_host(info_views(holders@), (#[trigger] listed[k]).node_id),
            decreases candidates.len() - i,
        {
            if !names_host(&holders, candidates[i].node_id.as_str()) {
                let node_id = candidates[i].node_id.clone();
                proof {
                    let chosen = listed[i as int];
                    assert(chosen.node_id == node_id@);
                    lemma_row_by_id(before.nodes, chosen);
                    lemma_active_hosts_are_holders(
                        before.replicas,
                        before.nodes,
                        repo_hash@,
                        timeout,
                        now,
                        chosen.node_id,
                    );
                    assert(eligible(before, repo_hash@, now, chosen));
                    assert forall|other: NodeView| #[trigger]
                        eligible(before, repo_hash@, now, other) implies other.reputation_score
                        <= chosen.reputation_score by {
                        let j = choose|j: int| 0 <= j < before.nodes.len() && before.nodes[j] == other;
                        assert(before.nodes[j] == other);
                        assert(listed.contains(before.nodes[j]));
                        let k = choose|k: int| 0 <= k < listed.len() && listed[k] == other;
                        if k < i {
                            assert(lists_host(info_views(holders@), listed[k].node_id));
                            lemma_active_hosts_are_holders(
                                before.replicas,
                                before.nodes,
                                repo_hash@,
                                timeout,
                                now,
                                other.node_id,
                            );
                        } else if k > i {
                            assert(listed[i as int].reputation_score >= listed[k].reputation_score);
                        }
                    }
                    assert(best_eligible(before, repo_hash@, now, chosen));
                    assert(placement(before, repo_hash@, now, Some(node_id@)));
                    assert(!holds_replica(before.replicas, repo_hash@, node_id@));
                }
                db.create_replica(repo_hash, node_id.as_str(), now);
                return Ok(node_id);
            }
            i += 1;
        }
        proof {
            assert forall|node: NodeView| !#[trigger] eligible(before, repo_hash@, now, node) by {
                if eligible(before, repo_hash@, now, node) {
                    let j = choose|j: int| 0 <= j < before.nodes.len() && before.nodes[j] == node;
                    assert(before.nodes[j] == node);
                    assert(listed.contains(before.nodes[j]));
                    let k = choose|k: int| 0 <= k < listed.len() && listed[k] == node;
                    assert(lists_host(info_views(holders@), listed[k].node_id));
                    lemma_active_hosts_are_holders(
                        before.replicas,
                        before.nodes,
                        repo_hash@,
                        timeout,
                        now,
                        node.node_id,
                    );
                }
            }
        }
        Err(CoreError::NoEligibleNode)
    }

    /// The repositories that a sweep of this service replicated. The
    /// sweep is the health monitor's; this service starts none.
    pub fn health_check(&self, _min_replicas: i32) -> (replicated: Vec<String>)
        ensures
            replicated@.len() == 0,
    {
        Vec::new()
    }
}

} // verus!
