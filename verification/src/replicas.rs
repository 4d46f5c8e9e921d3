//! The replica registry: which node holds a copy of which repository.

use vstd::prelude::*;
use crate::models::{NodeInfo, NodeInfoView, NodeView, Replica, ReplicaView};
use crate::nodes::{has_node, is_active, node_index, unique_node_ids, NodeRegistry};
use crate::text::str_eq;

verus! {

/// Some row records a copy of `repo` on `node`.
pub open spec fn holds_replica(rows: Seq<ReplicaView>, repo: Seq<char>, node: Seq<char>) -> bool {
    exists|i: int|
        0 <= i < rows.len() && (#[trigger] rows[i]).repo_hash == repo && rows[i].node_id == node
}

/// The place of the row for `(repo, node)`; meaningful where
/// `holds_replica` holds.
pub open spec fn replica_index(rows: Seq<ReplicaView>, repo: Seq<char>, node: Seq<char>) -> int {
    choose|i: int|
        0 <= i < rows.len() && (#[trigger] rows[i]).repo_hash == repo && rows[i].node_id == node
}

/// No pair of repository and node occurs in two rows.
pub open spec fn unique_replicas(rows: Seq<ReplicaView>) -> bool {
    forall|i: int, j: int|
        0 <= i < j < rows.len() ==> !((#[trigger] rows[i]).repo_hash == (#[trigger] rows[j]).repo_hash
            && rows[i].node_id == rows[j].node_id)
}

/// The row of a replica that is recorded for the first time.
pub open spec fn fresh_replica(repo: Seq<char>, node: Seq<char>, now: i64) -> ReplicaView {
    ReplicaView { repo_hash: repo, node_id: node, created_at: now, last_verified: None }
}

/// The registry after the upsert of `(repo, node)`: a new pair gets a row,
/// a known pair only a new `last_verified`.
pub open spec fn replica_added(
    rows: Seq<ReplicaView>,
    repo: Seq<char>,
    node: Seq<char>,
    now: i64,
) -> Seq<ReplicaView> {
    if holds_replica(rows, repo, node) {
        let at = replica_index(rows, repo, node);
        rows.update(at, ReplicaView { last_verified: Some(now), ..rows[at] })
    } else {
        rows.push(fresh_replica(repo, node, now))
    }
}

/// The registry after a row was put back as it was kept elsewhere: it is
/// added unless its pair is on record already.
pub open spec fn replica_restored(rows: Seq<ReplicaView>, row: ReplicaView) -> Seq<ReplicaView> {
    if holds_replica(rows, row.repo_hash, row.node_id) {
        rows
    } else {
        rows.push(row)
    }
}

/// The registry without the row of `(repo, node)`.
pub open spec fn replica_removed(
    rows: Seq<ReplicaView>,
    repo: Seq<char>,
    node: Seq<char>,
) -> Seq<ReplicaView> {
    if holds_replica(rows, repo, node) {
        rows.remove(replica_index(rows, repo, node))
    } else {
        rows
    }
}

/// The number of rows of `repo`.
pub open spec fn replica_count(rows: Seq<ReplicaView>, repo: Seq<char>) -> nat
    decreases rows.len(),
{
    if rows.len() == 0 {
        0
    } else {
        replica_count(rows.drop_last(), repo) + if rows.last().repo_hash == repo {
            1nat
        } else {
            0nat
        }
    }
}

/// The rows of `repo`, in their order.
pub open spec fn rows_of(rows: Seq<ReplicaView>, repo: Seq<char>) -> Seq<ReplicaView>
    decreases rows.len(),
{
    if rows.len() == 0 {
        Seq::empty()
    } else if rows.last().repo_hash == repo {
        rows_of(rows.drop_last(), repo).push(rows.last())
    } else {
        rows_of(rows.drop_last(), repo)
    }
}

/// The number of rows on `node`.
pub open spec fn hosted_count(rows: Seq<ReplicaView>, node: Seq<char>) -> nat
    decreases rows.len(),
{
    if rows.len() == 0 {
        0
    } else {
        hosted_count(rows.drop_last(), node) + if rows.last().node_id == node {
            1nat
        } else {
            0nat
        }
    }
}

/// Some row of `rows` is of `repo`.
pub open spec fn repo_has_rows(rows: Seq<ReplicaView>, repo: Seq<char>) -> bool {
    exists|i: int| 0 <= i < rows.len() && (#[trigger] rows[i]).repo_hash == repo
}

/// The number of repositories that have a row in `rows`.
pub open spec fn replicated_repos(rows: Seq<ReplicaView>) -> nat
    decreases rows.len(),
{
    if rows.len() == 0 {
        0
    } else {
        replicated_repos(rows.drop_last()) + if repo_has_rows(
            rows.drop_last(),
            rows.last().repo_hash,
        ) {
            0nat
        } else {
            1nat
        }
    }
}

/// The rows in their order, those of `repo` left out.
pub open spec fn without_repo(rows: Seq<ReplicaView>, repo: Seq<char>) -> Seq<ReplicaView>
    decreases rows.len(),
{
    if rows.len() == 0 {
        Seq::empty()
    } else if rows.last().repo_hash == repo {
        without_repo(rows.drop_last(), repo)
    } else {
        without_repo(rows.drop_last(), repo).push(rows.last())
    }
}

/// How a reader of the registry sees a node.
pub open spec fn info_of(node: NodeView) -> NodeInfoView {
    NodeInfoView {
        node_id: node.node_id,
        address: node.address,
        port: node.port,
        is_anchor: node.is_anchor != 0,
    }
}

/// `id` names a node of `nodes` that is active at `now`.
pub open spec fn active_node(nodes: Seq<NodeView>, id: Seq<char>, timeout_minutes: i32, now: i64)
    -> bool {
    has_node(nodes, id) && is_active(nodes[node_index(nodes, id)].last_seen, now, timeout_minutes)
}

/// What the join with the node registry yields for one row: the node, if
/// the row is of `repo` and its node is active.
pub open spec fn host_of_row(
    nodes: Seq<NodeView>,
    repo: Seq<char>,
    timeout_minutes: i32,
    now: i64,
    row: ReplicaView,
) -> Option<NodeInfoView> {
    if row.repo_hash == repo && active_node(nodes, row.node_id, timeout_minutes, now) {
        Some(info_of(nodes[node_index(nodes, row.node_id)]))
    } else {
        None
    }
}

/// The active nodes that hold `repo`, in the order of the rows. A replica
/// on a node that is silent or unknown is not seen here, though its row
/// stays.
pub open spec fn active_hosts(
    rows: Seq<ReplicaView>,
    nodes: Seq<NodeView>,
    repo: Seq<char>,
    timeout_minutes: i32,
    now: i64,
) -> Seq<NodeInfoView>
    decreases rows.len(),
{
    if rows.len() == 0 {
        Seq::empty()
    } else {
        let rest = active_hosts(rows.drop_last(), nodes, repo, timeout_minutes, now);
        match host_of_row(nodes, repo, timeout_minutes, now, rows.last()) {
            Some(info) => rest.push(info),
            None => rest,
        }
    }
}

/// Some entry of `hosts` names `id`.
pub open spec fn lists_host(hosts: Seq<NodeInfoView>, id: Seq<char>) -> bool {
    exists|i: int| 0 <= i < hosts.len() && (#[trigger] hosts[i]).node_id == id
}

/// The views of a sequence of replicas.
pub open spec fn replica_views(rows: Seq<Replica>) -> Seq<ReplicaView> {
    rows.map_values(|r: Replica| r@)
}

/// The views of a sequence of node descriptions.
pub open spec fn info_views(infos: Seq<NodeInfo>) -> Seq<NodeInfoView> {
    infos.map_values(|n: NodeInfo| n@)
}

/// The active hosts of a repository are exactly the active nodes for which
/// the registry holds a row of it.
pub proof fn lemma_active_hosts_are_holders(
    rows: Seq<ReplicaView>,
    nodes: Seq<NodeView>,
    repo: Seq<char>,
    timeout_minutes: i32,
    now: i64,
    id: Seq<char>,
)
    ensures
        lists_host(active_hosts(rows, nodes, repo, timeout_minutes, now), id) <==> holds_replica(
            rows,
            repo,
            id,
        ) && active_node(nodes, id, timeout_minutes, now),
    decreases rows.len(),
{
    let hosts = active_hosts(rows, nodes, repo, timeout_minutes, now);
    if rows.len() > 0 {
        let init = rows.drop_last();
        let rest = active_hosts(init, nodes, repo, timeout_minutes, now);
        lemma_active_hosts_are_holders(init, nodes, repo, timeout_minutes, now, id);
        let last = rows.last();
        let hit = last.repo_hash == repo && last.node_id == id && active_node(
            nodes,
            id,
            timeout_minutes,
            now,
        );
        if lists_host(hosts, id) {
            let i = choose|i: int| 0 <= i < hosts.len() && (#[trigger] hosts[i]).node_id == id;
            if i < rest.len() {
                assert(rest[i].node_id == id);
                let k = replica_index(init, repo, id);
                assert(rows[k].repo_hash == repo && rows[k].node_id == id);
            } else {
                assert(rows[rows.len() - 1].repo_hash == repo && rows[rows.len() - 1].node_id == id);
            }
        }
        if holds_replica(rows, repo, id) && active_node(nodes, id, timeout_minutes, now) {
            let k = replica_index(rows, repo, id);
            if k < init.len() {
                assert(init[k].repo_hash == repo && init[k].node_id == id);
                let i = choose|i: int| 0 <= i < rest.len() && (#[trigger] rest[i]).node_id == id;
                assert(hosts[i].node_id == id);
            } else {
                assert(hit);
                assert(hosts[hosts.len() - 1].node_id == id);
            }
        }
    }
}

/// Where every node that holds a copy of a repository is active, the
/// readers see as many hosts as the registry has rows of it.
pub proof fn lemma_count_matches_active_hosts(
    rows: Seq<ReplicaView>,
    nodes: Seq<NodeView>,
    repo: Seq<char>,
    timeout_minutes: i32,
    now: i64,
)
    requires
        forall|i: int|
            0 <= i < rows.len() && (#[trigger] rows[i]).repo_hash == repo ==> active_node(
                nodes,
                rows[i].node_id,
                timeout_minutes,
                now,
            ),
    ensures
        active_hosts(rows, nodes, repo, timeout_minutes, now).len() == replica_count(rows, repo),
    decreases rows.len(),
{
    if rows.len() > 0 {
        let init = rows.drop_last();
        assert forall|i: int|
            0 <= i < init.len() && (#[trigger] init[i]).repo_hash == repo implies active_node(
            nodes,
            init[i].node_id,
            timeout_minutes,
            now,
        ) by {
            assert(init[i] == rows[i]);
        }
        lemma_count_matches_active_hosts(init, nodes, repo, timeout_minutes, now);
        assert(rows.last() == rows[rows.len() - 1]);
    }
}

/// The hosts that readers see never outnumber the rows.
pub proof fn lemma_active_hosts_bounded(
    rows: Seq<ReplicaView>,
    nodes: Seq<NodeView>,
    repo: Seq<char>,
    timeout_minutes: i32,
    now: i64,
)
    ensures
        active_hosts(rows, nodes, repo, timeout_minutes, now).len() <= replica_count(rows, repo),
        replica_count(rows, repo) <= rows.len(),
    decreases rows.len(),
{
    if rows.len() > 0 {
        lemma_active_hosts_bounded(rows.drop_last(), nodes, repo, timeout_minutes, now);
    }
}

/// No node is listed twice among the active hosts of a repository.
pub proof fn lemma_active_hosts_distinct(
    rows: Seq<ReplicaView>,
    nodes: Seq<NodeView>,
    repo: Seq<char>,
    timeout_minutes: i32,
    now: i64,
)
    requires
        unique_replicas(rows),
    ensures
        forall|i: int, j: int|
            #![trigger active_hosts(rows, nodes, repo, timeout_minutes, now)[i], active_hosts(rows, nodes, repo, timeout_minutes, now)[j]]
            0 <= i < j < active_hosts(rows, nodes, repo, timeout_minutes, now).len()
                ==> active_hosts(rows, nodes, repo, timeout_minutes, now)[i].node_id
                != active_hosts(rows, nodes, repo, timeout_minutes, now)[j].node_id,
    decreases rows.len(),
{
    let hosts = active_hosts(rows, nodes, repo, timeout_minutes, now);
    if rows.len() > 0 {
        let init = rows.drop_last();
        let rest = active_hosts(init, nodes, repo, timeout_minutes, now);
        assert(unique_replicas(init)) by {
            assert forall|i: int, j: int| 0 <= i < j < init.len() implies !((
            #[trigger] init[i]).repo_hash == (#[trigger] init[j]).repo_hash && init[i].node_id
                == init[j].node_id) by {
                assert(init[i] == rows[i] && init[j] == rows[j]);
            }
        }
        lemma_active_hosts_distinct(init, nodes, repo, timeout_minutes, now);
        let last = rows.last();
        if host_of_row(nodes, repo, timeout_minutes, now, last) is Some {
            lemma_active_hosts_are_holders(init, nodes, repo, timeout_minutes, now, last.node_id);
            if lists_host(rest, last.node_id) {
                let k = replica_index(init, repo, last.node_id);
                assert(rows[k].repo_hash == rows[rows.len() - 1].repo_hash && rows[k].node_id
                    == rows[rows.len() - 1].node_id);
                assert(false);
            }
            assert forall|i: int, j: int| 0 <= i < j < hosts.len() implies hosts[i].node_id
                != hosts[j].node_id by {
                if j == hosts.len() - 1 {
                    assert(rest[i].node_id != last.node_id);
                } else {
                    assert(rest[i].node_id != rest[j].node_id);
                }
            }
        }
    }
}

/// The replicas on record, each pair of repository and node once.
pub struct ReplicaRegistry {
    rows: Vec<Replica>,
}

impl View for ReplicaRegistry {
    type V = Seq<ReplicaView>;

    closed spec fn view(&self) -> Seq<ReplicaView> {
        replica_views(self.rows@)
    }
}

impl ReplicaRegistry {
    /// Every registry that this module hands out holds each pair once.
    pub open spec fn wf(&self) -> bool {
        unique_replicas(self@)
    }

    /// A registry without rows.
    pub fn new() -> (registry: Self)
        ensures
            registry.wf(),
            registry@ == Seq::<ReplicaView>::empty(),
    {
        ReplicaRegistry { rows: Vec::new() }
    }

    /// The number of rows, whatever their repository.
    pub fn len(&self) -> (n: usize)
        ensures
            n == self@.len(),
    {
        self.rows.len()
    }

    fn position(&self, repo_hash: &str, node_id: &str) -> (at: Option<usize>)
        requires
            self.wf(),
        ensures
            match at {
                Some(i) => i < self@.len() && self@[i as int].repo_hash == repo_hash@
                    && self@[i as int].node_id == node_id@ && holds_replica(
                    self@,
                    repo_hash@,
                    node_id@,
                ) && replica_index(self@, repo_hash@, node_id@) == i,
                None => !holds_replica(self@, repo_hash@, node_id@),
            },
    {
        let mut i: usize = 0;
        while i < self.rows.len()
            invariant
                i <= self.rows.len(),
                self.wf(),
                self@ == replica_views(self.rows@),
                forall|k: int|
                    0 <= k < i ==> !((#[trigger] self@[k]).repo_hash == repo_hash@
                        && self@[k].node_id == node_id@),
            decreases self.rows.len() - i,
        {
            if str_eq(self.rows[i].repo_hash.as_str(), repo_hash) && str_eq(
                self.rows[i].node_id.as_str(),
                node_id,
            ) {
                assert(self@[i as int].repo_hash == repo_hash@ && self@[i as int].node_id
                    == node_id@);
                return Some(i);
            }
            i += 1;
        }
        None
    }

    /// Puts back a row that was kept elsewhere, as it is. Tells whether
    /// the row was taken: one whose pair is on record already is not.
    pub fn restore_replica(&mut self, row: Replica) -> (taken: bool)
        requires
            old(self).wf(),
        ensures
            final(self).wf(),
            final(self)@ == replica_restored(old(self)@, row@),
            taken == !holds_replica(old(self)@, row.repo_hash@, row.node_id@),
    {
        match self.position(row.repo_hash.as_str(), row.node_id.as_str()) {
            Some(_) => false,
            None => {
                let ghost before = self@;
                assert(replica_views(self.rows@.push(row)) == before.push(row@));
                self.rows.push(row);
                true
            },
        }
    }

    /// Records that `node_id` holds a copy of `repo_hash`. Recording a
    /// known pair again only sets its `last_verified`. Returns the row as
    /// it now stands.
    pub fn create_replica(&mut self, repo_hash: &str, node_id: &str, now: i64) -> (row: Replica)
        requires
            old(self).wf(),
        ensures
            final(self).wf(),
            final(self)@ == replica_added(old(self)@, repo_hash@, node_id@, now),
            holds_replica(final(self)@, repo_hash@, node_id@),
            row@ == final(self)@[replica_index(final(self)@, repo_hash@, node_id@)],
    {
        let found = self.position(repo_hash, node_id);
        let ghost before = self@;
        match found {
            Some(i) => {
                let known = &self.rows[i];
                let updated = Replica {
                    repo_hash: known.repo_hash.clone(),
                    node_id: known.node_id.clone(),
                    created_at: known.created_at,
                    last_verified: Some(now),
                };
                let result = updated.clone();
                assert(replica_views(self.rows@.update(i as int, updated)) == before.update(
                    i as int,
                    updated@,
                ));
                self.rows.set(i, updated);
                assert(self@[i as int].repo_hash == repo_hash@ && self@[i as int].node_id
                    == node_id@);
                result
            },
            None => {
                let created = Replica {
                    repo_hash: repo_hash.to_owned(),
                    node_id: node_id.to_owned(),
                    created_at: now,
                    last_verified: None,
                };
                let result = created.clone();
                assert(replica_views(self.rows@.push(created)) == before.push(created@));
                self.rows.push(created);
                assert(self@[before.len() as int].repo_hash == repo_hash@ && self@[before.len() as int].node_id
                    == node_id@);
                result
            },
        }
    }

    /// The row of `(repo_hash, node_id)`, if the registry has one.
    pub fn get_replica(&self, repo_hash: &str, node_id: &str) -> (row: Option<Replica>)
        requires
            self.wf(),
        ensures
            match row {
                Some(found) => holds_replica(self@, repo_hash@, node_id@) && found@
                    == self@[replica_index(self@, repo_hash@, node_id@)],
                None => !holds_replica(self@, repo_hash@, node_id@),
            },
    {
        match self.position(repo_hash, node_id) {
            Some(i) => Some(self.rows[i].clone()),
            None => None,
        }
    }

    /// The rows of `repo_hash`, whether their nodes are active or not.
    pub fn list_replica_rows(&self, repo_hash: &str) -> (rows: Vec<Replica>)
        ensures
            replica_views(rows@) == rows_of(self@, repo_hash@),
    {
        let mut out: Vec<Replica> = Vec::new();
        let mut k: usize = 0;
        assert(replica_views(out@) == Seq::<ReplicaView>::empty());
        while k < self.rows.len()
            invariant
                k <= self.rows.len(),
                self@ == replica_views(self.rows@),
                replica_views(out@) == rows_of(self@.take(k as int), repo_hash@),
            decreases self.rows.len() - k,
        {
            proof {
                assert(self@.take(k + 1).drop_last() == self@.take(k as int));
            }
            if str_eq(self.rows[k].repo_hash.as_str(), repo_hash) {
                let row = self.rows[k].clone();
                assert(replica_views(out@.push(row)) == replica_views(out@).push(row@));
                out.push(row);
            }
            k += 1;
        }
        assert(self@.take(k as int) == self@);
        out
    }

    /// Forgets that `node_id` holds a copy of `repo_hash`.
    pub fn delete_replica(&mut self, repo_hash: &str, node_id: &str)
        requires
            old(self).wf(),
        ensures
            final(self).wf(),
            final(self)@ == replica_removed(old(self)@, repo_hash@, node_id@),
            !holds_replica(final(self)@, repo_hash@, node_id@),
    {
        let found = self.position(repo_hash, node_id);
        let ghost before = self@;
        match found {
            Some(i) => {
                assert(replica_views(self.rows@.remove(i as int)) == before.remove(i as int));
                self.rows.remove(i);
                proof {
                    let after = self@;
                    assert forall|k: int| 0 <= k < after.len() implies !((
                    #[trigger] after[k]).repo_hash == repo_hash@ && after[k].node_id
                        == node_id@) by {
                        if k < i {
                            assert(after[k] == before[k]);
                        } else {
                            assert(after[k] == before[k + 1]);
                        }
                    }
                    assert forall|a: int, b: int| 0 <= a < b < after.len() implies !((
                    #[trigger] after[a]).repo_hash == (#[trigger] after[b]).repo_hash
                        && after[a].node_id == after[b].node_id) by {
                        let ia = if a < i { a } else { a + 1 };
                        let ib = if b < i { b } else { b + 1 };
                        assert(after[a] == before[ia] && after[b] == before[ib]);
                    }
                }
            },
            None => {},
        }
    }

    /// The number of nodes on record as holders of `repo_hash`.
    pub fn get_replica_count(&self, repo_hash: &str) -> (count: usize)
        ensures
            count == replica_count(self@, repo_hash@),
    {
        let mut count: usize = 0;
        let mut k: usize = 0;
        while k < self.rows.len()
            invariant
                k <= self.rows.len(),
                self@ == replica_views(self.rows@),
                count == replica_count(self@.take(k as int), repo_hash@),
                count <= k,
            decreases self.rows.len() - k,
        {
            proof {
                assert(self@.take(k + 1).drop_last() == self@.take(k as int));
            }
            if str_eq(self.rows[k].repo_hash.as_str(), repo_hash) {
                count += 1;
            }
            k += 1;
        }
        assert(self@.take(k as int) == self@);
        count
    }

    /// The number of repositories that `node_id` is on record as holding.
    pub fn count_node_repos(&self, node_id: &str) -> (count: usize)
        ensures
            count == hosted_count(self@, node_id@),
    {
        let mut count: usize = 0;
        let mut k: usize = 0;
        while k < self.rows.len()
            invariant
                k <= self.rows.len(),
                self@ == replica_views(self.rows@),
                count == hosted_count(self@.take(k as int), node_id@),
                count <= k,
            decreases self.rows.len() - k,
        {
            proof {
                assert(self@.take(k + 1).drop_last() == self@.take(k as int));
            }
            if str_eq(self.rows[k].node_id.as_str(), node_id) {
                count += 1;
            }
            k += 1;
        }
        assert(self@.take(k as int) == self@);
        count
    }

    /// The number of repositories with at least one replica on record.
    pub fn count_replicated_repos(&self) -> (count: usize)
        ensures
            count == replicated_repos(self@),
    {
        let mut count: usize = 0;
        let mut k: usize = 0;
        while k < self.rows.len()
            invariant
                k <= self.rows.len(),
                self@ == replica_views(self.rows@),
                count == replicated_repos(self@.take(k as int)),
                count <= k,
            decreases self.rows.len() - k,
        {
            let ghost seen = self@.take(k as int);
            proof {
                assert(self@.take(k + 1).drop_last() == seen);
            }
            let mut earlier = false;
            let mut j: usize = 0;
            while j < k
                invariant
                    j <= k,
                    k < self.rows.len(),
                    self@ == replica_views(self.rows@),
                    seen == self@.take(k as int),
                    earlier == repo_has_rows(seen.take(j as int), self@[k as int].repo_hash),
                decreases k - j,
            {
                if str_eq(self.rows[j].repo_hash.as_str(), self.rows[k].repo_hash.as_str()) {
                    earlier = true;
                }
                proof {
                    let repo = self@[k as int].repo_hash;
                    let shorter = seen.take(j as int);
                    let longer = seen.take(j + 1);
                    if repo_has_rows(shorter, repo) {
                        let i = choose|i: int|
                            0 <= i < shorter.len() && (#[trigger] shorter[i]).repo_hash == repo;
                        assert(longer[i].repo_hash == repo);
                    }
                    if self@[j as int].repo_hash == repo {
                        assert(longer[j as int].repo_hash == repo);
                    }
                    if repo_has_rows(longer, repo) {
                        let i = choose|i: int|
                            0 <= i < longer.len() && (#[trigger] longer[i]).repo_hash == repo;
                        if i < j {
                            assert(shorter[i].repo_hash == repo);
                        }
                    }
                }
                j += 1;
            }
            assert(seen.take(k as int) == seen);
            if !earlier {
                count += 1;
            }
            k += 1;
        }
        assert(self@.take(k as int) == self@);
        count
    }

    /// The nodes that hold `repo_hash` and are active at `now`.
    pub fn list_repo_replicas(
        &self,
        nodes: &NodeRegistry,
        repo_hash: &str,
        timeout_minutes: i32,
        now: i64,
    ) -> (hosts: Vec<NodeInfo>)
        requires
            nodes.wf(),
        ensures
            info_views(hosts@) == active_hosts(self@, nodes@, repo_hash@, timeout_minutes, now),
    {
        let mut out: Vec<NodeInfo> = Vec::new();
        let mut k: usize = 0;
        while k < self.rows.len()
            invariant
                k <= self.rows.len(),
                nodes.wf(),
                self@ == replica_views(self.rows@),
                info_views(out@) == active_hosts(
                    self@.take(k as int),
                    nodes@,
                    repo_hash@,
                    timeout_minutes,
                    now,
                ),
            decreases self.rows.len() - k,
        {
            proof {
                assert(self@.take(k + 1).drop_last() == self@.take(k as int));
            }
            let row = &self.rows[k];
            if str_eq(row.repo_hash.as_str(), repo_hash) {
                match nodes.get_node(row.node_id.as_str()) {
                    Ok(node) => {
                        if crate::nodes::node_is_active(node.last_seen, now, timeout_minutes) {
                            let info = NodeInfo {
                                node_id: node.node_id,
                                address: node.address,
                                port: node.port,
                                is_anchor: node.is_anchor != 0,
                            };
                            assert(info_views(out@.push(info)) == info_views(out@).push(info@));
                            out.push(info);
                        }
                    },
                    Err(_) => {},
                }
            }
            k += 1;
        }
        assert(self@.take(k as int) == self@);
        out
    }

    /// Forgets every replica of `repo_hash`, as the removal of the
    /// repository demands.
    pub fn delete_repo_replicas(&mut self, repo_hash: &str)
        requires
            old(self).wf(),
        ensures
            final(self).wf(),
            final(self)@ == without_repo(old(self)@, repo_hash@),
            replica_count(final(self)@, repo_hash@) == 0,
    {
        let ghost before = self@;
        let mut kept: Vec<Replica> = Vec::new();
        let mut k: usize = 0;
        while k < self.rows.len()
            invariant
                k <= self.rows.len(),
                before == replica_views(self.rows@),
                replica_views(kept@) == without_repo(before.take(k as int), repo_hash@),
            decreases self.rows.len() - k,
        {
            proof {
                assert(before.take(k + 1).drop_last() == before.take(k as int));
            }
            if !str_eq(self.rows[k].repo_hash.as_str(), repo_hash) {
                let row = self.rows[k].clone();
                assert(replica_views(kept@.push(row)) == replica_views(kept@).push(row@));
                kept.push(row);
            }
            k += 1;
        }
        assert(before.take(k as int) == before);
        self.rows = kept;
        proof {
            lemma_without_repo(before, repo_hash@);
        }
    }
}

/// Leaving the rows of one repository out keeps the others as they were,
/// keeps every pair single, and leaves that repository without a row.
pub proof fn lemma_without_repo(rows: Seq<ReplicaView>, repo: Seq<char>)
    ensures
        replica_count(without_repo(rows, repo), repo) == 0,
        forall|other: Seq<char>|
            other != repo ==> #[trigger] replica_count(without_repo(rows, repo), other)
                == replica_count(rows, other),
        forall|i: int|
            0 <= i < without_repo(rows, repo).len() ==> rows.contains(
                #[trigger] without_repo(rows, repo)[i],
            ) && without_repo(rows, repo)[i].repo_hash != repo,
        unique_replicas(rows) ==> unique_replicas(without_repo(rows, repo)),
    decreases rows.len(),
{
    let kept = without_repo(rows, repo);
    if rows.len() > 0 {
        let init = rows.drop_last();
        let rest = without_repo(init, repo);
        lemma_without_repo(init, repo);
        let last = rows.last();
        assert forall|i: int| 0 <= i < kept.len() implies rows.contains(#[trigger] kept[i])
            && kept[i].repo_hash != repo by {
            if i < rest.len() {
                assert(init.contains(rest[i]));
                let j = choose|j: int| 0 <= j < init.len() && init[j] == rest[i];
                assert(rows[j] == kept[i]);
            } else {
                assert(rows[rows.len() - 1] == kept[i]);
            }
        }
        assert forall|other: Seq<char>| other != repo implies #[trigger] replica_count(
            kept,
            other,
        ) == replica_count(rows, other) by {
            assert(replica_count(rest, other) == replica_count(init, other));
            if last.repo_hash != repo {
                assert(kept.drop_last() == rest);
                assert(kept.last() == last);
            }
        }
        if last.repo_hash != repo {
            assert(kept.drop_last() == rest);
            assert(kept.last() == last);
        }
        if unique_replicas(rows) {
            assert(unique_replicas(init)) by {
                assert forall|i: int, j: int| 0 <= i < j < init.len() implies !((
                #[trigger] init[i]).repo_hash == (#[trigger] init[j]).repo_hash
                    && init[i].node_id == init[j].node_id) by {
                    assert(init[i] == rows[i] && init[j] == rows[j]);
                }
            }
            assert forall|a: int, b: int| 0 <= a < b < kept.len() implies !((
            #[trigger] kept[a]).repo_hash == (#[trigger] kept[b]).repo_hash && kept[a].node_id
                == kept[b].node_id) by {
                if b < rest.len() {
                    assert(kept[a] == rest[a] && kept[b] == rest[b]);
                } else {
                    assert(init.contains(rest[a]));
                    let j = choose|j: int| 0 <= j < init.len() && init[j] == rest[a];
                    assert(rows[j] == kept[a]);
                    assert(rows[rows.len() - 1] == kept[b]);
                }
            }
        }
    }
}

} // verus!
