//! The node registry: which storage nodes exist, where they are reached
//! and when each was last heard of.

use vstd::prelude::*;
use crate::error::CoreError;
use crate::models::{Node, NodeView, RegisterNodeRequest};
use crate::text::str_eq;

verus! {

/// The reputation that a node starts with.
pub const INITIAL_REPUTATION: i32 = 100;

/// The best reputation that a node can have; the worst is zero.
pub const MAX_REPUTATION: i32 = 100;

/// Every reputation lies between zero and `MAX_REPUTATION`.
pub open spec fn reputations_in_range(nodes: Seq<NodeView>) -> bool {
    forall|i: int|
        0 <= i < nodes.len() ==> 0 <= (#[trigger] nodes[i]).reputation_score <= MAX_REPUTATION
}

/// The registry after a row was put back as it was kept elsewhere: it is
/// added unless its id is taken or its reputation out of range.
pub open spec fn restored(nodes: Seq<NodeView>, row: NodeView) -> Seq<NodeView> {
    if has_node(nodes, row.node_id) || !(0 <= row.reputation_score <= MAX_REPUTATION) {
        nodes
    } else {
        nodes.push(row)
    }
}

/// A node is active at `now` when its last sign of life is at most
/// `timeout_minutes` old.
pub open spec fn is_active(last_seen: i64, now: i64, timeout_minutes: i32) -> bool {
    now - last_seen <= timeout_minutes * 60
}

/// Some row of `nodes` has the id `id`.
pub open spec fn has_node(nodes: Seq<NodeView>, id: Seq<char>) -> bool {
    exists|i: int| 0 <= i < nodes.len() && #[trigger] nodes[i].node_id == id
}

/// The place of the row with id `id`; meaningful where `has_node` holds.
pub open spec fn node_index(nodes: Seq<NodeView>, id: Seq<char>) -> int {
    choose|i: int| 0 <= i < nodes.len() && #[trigger] nodes[i].node_id == id
}

/// No id occurs in two rows.
pub open spec fn unique_node_ids(nodes: Seq<NodeView>) -> bool {
    forall|i: int, j: int|
        0 <= i < j < nodes.len() ==> #[trigger] nodes[i].node_id != #[trigger] nodes[j].node_id
}

/// The later of two instants.
pub open spec fn later(a: i64, b: i64) -> i64 {
    if a >= b {
        a
    } else {
        b
    }
}

/// The row of a node that registers for the first time.
pub open spec fn fresh_node(
    id: Seq<char>,
    address: Seq<char>,
    port: i32,
    storage_capacity: i64,
    is_anchor: bool,
    now: i64,
) -> NodeView {
    NodeView {
        node_id: id,
        address,
        port,
        last_seen: now,
        reputation_score: INITIAL_REPUTATION,
        storage_capacity,
        storage_used: 0,
        is_anchor: if is_anchor {
            1
        } else {
            0
        },
    }
}

/// The row of a known node after it registered again: the endpoint and the
/// capacity are overwritten and `last_seen` moves forward; reputation,
/// used storage and the anchor flag stay.
pub open spec fn refreshed_node(
    known: NodeView,
    address: Seq<char>,
    port: i32,
    storage_capacity: i64,
    now: i64,
) -> NodeView {
    NodeView { address, port, storage_capacity, last_seen: later(known.last_seen, now), ..known }
}

/// The registry after the upsert of a registration.
pub open spec fn registered(
    nodes: Seq<NodeView>,
    id: Seq<char>,
    address: Seq<char>,
    port: i32,
    storage_capacity: i64,
    is_anchor: bool,
    now: i64,
) -> Seq<NodeView> {
    if has_node(nodes, id) {
        let at = node_index(nodes, id);
        nodes.update(at, refreshed_node(nodes[at], address, port, storage_capacity, now))
    } else {
        nodes.push(fresh_node(id, address, port, storage_capacity, is_anchor, now))
    }
}

/// The registry after a heartbeat: a known node gets a newer `last_seen`
/// and the reported `storage_used`; an unknown id changes nothing.
pub open spec fn heartbeat_applied(
    nodes: Seq<NodeView>,
    id: Seq<char>,
    storage_used: i64,
    now: i64,
) -> Seq<NodeView> {
    if has_node(nodes, id) {
        let at = node_index(nodes, id);
        nodes.update(
            at,
            NodeView { last_seen: later(nodes[at].last_seen, now), storage_used, ..nodes[at] },
        )
    } else {
        nodes
    }
}

/// Neither a heartbeat nor a registration moves the `last_seen` of a node
/// back, changes its reputation, or adds or drops any other node.
pub proof fn lemma_last_seen_never_regresses(
    nodes: Seq<NodeView>,
    id: Seq<char>,
    address: Seq<char>,
    port: i32,
    storage_capacity: i64,
    is_anchor: bool,
    storage_used: i64,
    now: i64,
)
    requires
        unique_node_ids(nodes),
        has_node(nodes, id),
    ensures
        heartbeat_applied(nodes, id, storage_used, now).len() == nodes.len(),
        registered(nodes, id, address, port, storage_capacity, is_anchor, now).len()
            == nodes.len(),
        forall|i: int|
            0 <= i < nodes.len() ==> {
                let beaten = #[trigger] heartbeat_applied(nodes, id, storage_used, now)[i];
                &&& beaten.node_id == nodes[i].node_id
                &&& beaten.last_seen >= nodes[i].last_seen
                &&& beaten.reputation_score == nodes[i].reputation_score
                &&& nodes[i].node_id != id ==> beaten == nodes[i]
            },
        forall|i: int|
            0 <= i < nodes.len() ==> {
                let renewed = #[trigger] registered(
                    nodes,
                    id,
                    address,
                    port,
                    storage_capacity,
                    is_anchor,
                    now,
                )[i];
                &&& renewed.node_id == nodes[i].node_id
                &&& renewed.last_seen >= nodes[i].last_seen
                &&& renewed.reputation_score == nodes[i].reputation_score
                &&& nodes[i].node_id != id ==> renewed == nodes[i]
            },
{
    let at = node_index(nodes, id);
    assert(nodes[at].node_id == id);
}

/// Reputation never rises along `listed`.
pub open spec fn by_reputation(listed: Seq<NodeView>) -> bool {
    forall|i: int, j: int|
        0 <= i < j < listed.len() ==> #[trigger] listed[i].reputation_score
            >= #[trigger] listed[j].reputation_score
}

/// `listed` holds exactly the rows of `nodes` that are active at `now`,
/// each once, best reputation first.
pub open spec fn lists_active(
    nodes: Seq<NodeView>,
    timeout_minutes: i32,
    now: i64,
    listed: Seq<NodeView>,
) -> bool {
    &&& unique_node_ids(listed)
    &&& by_reputation(listed)
    &&& forall|i: int|
        0 <= i < listed.len() ==> nodes.contains(#[trigger] listed[i]) && is_active(
            listed[i].last_seen,
            now,
            timeout_minutes,
        )
    &&& forall|j: int|
        0 <= j < nodes.len() && is_active((#[trigger] nodes[j]).last_seen, now, timeout_minutes)
            ==> listed.contains(nodes[j])
}

/// The number of rows of `nodes` that are active at `now`.
pub open spec fn active_count(nodes: Seq<NodeView>, timeout_minutes: i32, now: i64) -> nat
    decreases nodes.len(),
{
    if nodes.len() == 0 {
        0
    } else {
        active_count(nodes.drop_last(), timeout_minutes, now) + if is_active(
            nodes.last().last_seen,
            now,
            timeout_minutes,
        ) {
            1nat
        } else {
            0nat
        }
    }
}

/// `row` is among the first `upto` rows of `nodes`.
pub open spec fn among_first(nodes: Seq<NodeView>, upto: int, row: NodeView) -> bool {
    exists|j: int| 0 <= j < upto && j < nodes.len() && #[trigger] nodes[j] == row
}

/// The views of a sequence of nodes.
pub open spec fn node_views(nodes: Seq<Node>) -> Seq<NodeView> {
    nodes.map_values(|n: Node| n@)
}

/// The known storage nodes, each id once.
pub struct NodeRegistry {
    nodes: Vec<Node>,
}

impl View for NodeRegistry {
    type V = Seq<NodeView>;

    closed spec fn view(&self) -> Seq<NodeView> {
        node_views(self.nodes@)
    }
}

/// Whether a node last seen at `last_seen` counts as active at `now`.
pub fn node_is_active(last_seen: i64, now: i64, timeout_minutes: i32) -> (active: bool)
    ensures
        active == is_active(last_seen, now, timeout_minutes),
{
    (now as i128) - (last_seen as i128) <= (timeout_minutes as i128) * 60
}

impl NodeRegistry {
    /// Every registry that this module hands out holds each id once, and
    /// reputations between zero and `MAX_REPUTATION` only.
    pub open spec fn wf(&self) -> bool {
        unique_node_ids(self@) && reputations_in_range(self@)
    }

    /// A registry without nodes.
    pub fn new() -> (registry: Self)
        ensures
            registry.wf(),
            registry@ == Seq::<NodeView>::empty(),
    {
        NodeRegistry { nodes: Vec::new() }
    }

    /// How many nodes are known.
    pub fn len(&self) -> (n: usize)
        ensures
            n == self@.len(),
    {
        self.nodes.len()
    }

    fn position(&self, node_id: &str) -> (at: Option<usize>)
        requires
            self.wf(),
        ensures
            match at {
                Some(i) => i < self@.len() && self@[i as int].node_id == node_id@ && has_node(
                    self@,
                    node_id@,
                ) && node_index(self@, node_id@) == i,
                None => !has_node(self@, node_id@),
            },
    {
        let mut i: usize = 0;
        while i < self.nodes.len()
            invariant
                i <= self.nodes.len(),
                self.wf(),
                self@ == node_views(self.nodes@),
                forall|k: int| 0 <= k < i ==> (#[trigger] self@[k]).node_id != node_id@,
            decreases self.nodes.len() - i,
        {
            if str_eq(self.nodes[i].node_id.as_str(), node_id) {
                assert(self@[i as int].node_id == node_id@);
                return Some(i);
            }
            i += 1;
        }
        None
    }

    /// Puts back a row that was kept elsewhere, as it is. Tells whether
    /// the row was taken: one whose id is known already, or whose
    /// reputation is out of range, is not.
    pub fn restore_node(&mut self, node: Node) -> (taken: bool)
        requires
            old(self).wf(),
        ensures
            final(self).wf(),
            final(self)@ == restored(old(self)@, node@),
            taken == (!has_node(old(self)@, node.node_id@) && 0 <= node.reputation_score
                <= MAX_REPUTATION),
    {
        if node.reputation_score < 0 || node.reputation_score > MAX_REPUTATION {
            return false;
        }
        match self.position(node.node_id.as_str()) {
            Some(_) => false,
            None => {
                let ghost before = self@;
                assert(node_views(self.nodes@.push(node)) == before.push(node@));
                self.nodes.push(node);
                true
            },
        }
    }

    /// Registers a node, or refreshes the endpoint, the capacity and
    /// `last_seen` of a node that is known already. Returns the row as it
    /// now stands.
    pub fn register_node(&mut self, request: &RegisterNodeRequest, now: i64) -> (node: Node)
        requires
            old(self).wf(),
        ensures
            final(self).wf(),
            final(self)@ == registered(
                old(self)@,
                request.node_id@,
                request.address@,
                request.port,
                request.storage_capacity,
                request.is_anchor,
                now,
            ),
            has_node(final(self)@, request.node_id@),
            node@ == final(self)@[node_index(final(self)@, request.node_id@)],
    {
        let found = self.position(request.node_id.as_str());
        let ghost before = self@;
        match found {
            Some(i) => {
                let known = &self.nodes[i];
                let updated = Node {
                    node_id: known.node_id.clone(),
                    address: request.address.clone(),
                    port: request.port,
                    last_seen: if known.last_seen >= now {
                        known.last_seen
                    } else {
                        now
                    },
                    reputation_score: known.reputation_score,
                    storage_capacity: request.storage_capacity,
                    storage_used: known.storage_used,
                    is_anchor: known.is_anchor,
                };
                let result = updated.clone();
                assert(node_views(self.nodes@.update(i as int, updated)) == before.update(
                    i as int,
                    updated@,
                ));
                self.nodes.set(i, updated);
                assert(self@[i as int].node_id == request.node_id@);
                result
            },
            None => {
                let created = Node {
                    node_id: request.node_id.clone(),
                    address: request.address.clone(),
                    port: request.port,
                    last_seen: now,
                    reputation_score: INITIAL_REPUTATION,
                    storage_capacity: request.storage_capacity,
                    storage_used: 0,
                    is_anchor: if request.is_anchor {
                        1
                    } else {
                        0
                    },
                };
                let result = created.clone();
                assert(node_views(self.nodes@.push(created)) == before.push(created@));
                self.nodes.push(created);
                assert(self@[before.len() as int].node_id == request.node_id@);
                result
            },
        }
    }

    /// Looks a node up by its id.
    pub fn get_node(&self, node_id: &str) -> (found: Result<Node, CoreError>)
        requires
            self.wf(),
        ensures
            match found {
                Ok(node) => has_node(self@, node_id@) && node@ == self@[node_index(
                    self@,
                    node_id@,
                )],
                Err(e) => !has_node(self@, node_id@) && e == CoreError::NodeNotFound,
            },
    {
        match self.position(node_id) {
            Some(i) => Ok(self.nodes[i].clone()),
            None => Err(CoreError::NodeNotFound),
        }
    }

    /// How many nodes are active at `now`.
    pub fn count_active(&self, timeout_minutes: i32, now: i64) -> (count: usize)
        ensures
            count == active_count(self@, timeout_minutes, now),
    {
        let mut count: usize = 0;
        let mut k: usize = 0;
        while k < self.nodes.len()
            invariant
                k <= self.nodes.len(),
                self@ == node_views(self.nodes@),
                count == active_count(self@.take(k as int), timeout_minutes, now),
                count <= k,
            decreases self.nodes.len() - k,
        {
            proof {
                assert(self@.take(k + 1).drop_last() == self@.take(k as int));
            }
            if node_is_active(self.nodes[k].last_seen, now, timeout_minutes) {
                count += 1;
            }
            k += 1;
        }
        assert(self@.take(k as int) == self@);
        count
    }

    /// The nodes that are active at `now`, best reputation first.
    pub fn list_active_nodes(&self, timeout_minutes: i32, now: i64) -> (listed: Vec<Node>)
        requires
            self.wf(),
        ensures
            lists_active(self@, timeout_minutes, now, node_views(listed@)),
    {
        let mut out: Vec<Node> = Vec::new();
        let mut k: usize = 0;
        while k < self.nodes.len()
            invariant
                k <= self.nodes.len(),
                self.wf(),
                self@ == node_views(self.nodes@),
                unique_node_ids(node_views(out@)),
                by_reputation(node_views(out@)),
                forall|i: int|
                    0 <= i < out@.len() ==> is_active(
                        (#[trigger] node_views(out@)[i]).last_seen,
                        now,
                        timeout_minutes,
                    ) && among_first(self@, k as int, node_views(out@)[i]),
                forall|j: int|
                    0 <= j < k && is_active((#[trigger] self@[j]).last_seen, now, timeout_minutes)
                        ==> node_views(out@).contains(self@[j]),
            decreases self.nodes.len() - k,
        {
            let node = &self.nodes[k];
            if node_is_active(node.last_seen, now, timeout_minutes) {
                let mut p: usize = 0;
                while p < out.len() && out[p].reputation_score >= node.reputation_score
                    invariant
                        p <= out.len(),
                        forall|q: int|
                            0 <= q < p ==> (#[trigger] out@[q]).reputation_score
                                >= node.reputation_score,
                    decreases out.len() - p,
                {
                    p += 1;
                }
                let ghost before = node_views(out@);
                let entry = node.clone();
                out.insert(p, entry);
                proof {
                    let after = node_views(out@);
                    assert(after == before.insert(p as int, entry@));
                    assert(entry@ == self@[k as int]);
                    assert forall|i: int| 0 <= i < after.len() implies is_active(
                        (#[trigger] after[i]).last_seen,
                        now,
                        timeout_minutes,
                    ) && among_first(self@, k + 1, after[i]) by {
                        if i < p {
                            assert(after[i] == before[i]);
                            assert(among_first(self@, k as int, before[i]));
                        } else if i == p {
                            assert(self@[k as int] == after[i]);
                        } else {
                            assert(after[i] == before[i - 1]);
                            assert(among_first(self@, k as int, before[i - 1]));
                        }
                    }
                    assert forall|j: int|
                        0 <= j < k + 1 && is_active(
                            (#[trigger] self@[j]).last_seen,
                            now,
                            timeout_minutes,
                        ) implies after.contains(self@[j]) by {
                        if j == k {
                            assert(after[p as int] == self@[j]);
                        } else {
                            let i = choose|i: int| 0 <= i < before.len() && before[i] == self@[j];
                            if i < p {
                                assert(after[i] == self@[j]);
                            } else {
                                assert(after[i + 1] == self@[j]);
                            }
                        }
                    }
                    assert forall|a: int, b: int| 0 <= a < b < after.len() implies (
                    #[trigger] after[a]).node_id != (#[trigger] after[b]).node_id by {
                        let ia = if a < p { a } else { a - 1 };
                        let ib = if b < p { b } else { b - 1 };
                        if a == p {
                            assert(after[b] == before[ib]);
                            assert(among_first(self@, k as int, before[ib]));
                            let j = choose|j: int| 0 <= j < k && self@[j] == before[ib];
                            assert(self@[j].node_id != self@[k as int].node_id);
                        } else if b == p {
                            assert(after[a] == before[ia]);
                            assert(among_first(self@, k as int, before[ia]));
                            let j = choose|j: int| 0 <= j < k && self@[j] == before[ia];
                            assert(self@[j].node_id != self@[k as int].node_id);
                        } else {
                            assert(after[a] == before[ia]);
                            assert(after[b] == before[ib]);
                        }
                    }
                    assert forall|a: int, b: int| 0 <= a < b < after.len() implies (
                    #[trigger] after[a]).reputation_score >= (
                    #[trigger] after[b]).reputation_score by {
                        let ia = if a < p { a } else { a - 1 };
                        let ib = if b < p { b } else { b - 1 };
                        if a == p {
                            assert(after[b] == before[ib]);
                            assert(before[p as int].reputation_score >= before[ib].reputation_score);
                        } else if b == p {
                            assert(after[a] == before[ia]);
                        } else {
                            assert(after[a] == before[ia]);
                            assert(after[b] == before[ib]);
                        }
                    }
                }
            }
            proof {
                assert forall|i: int| 0 <= i < out@.len() implies among_first(
                    self@,
                    k + 1,
                    #[trigger] node_views(out@)[i],
                ) by {
                    let row = node_views(out@)[i];
                    if among_first(self@, k as int, row) {
                        let j = choose|j: int| 0 <= j < k && self@[j] == row;
                        assert(self@[j] == row);
                    }
                }
            }
            k += 1;
        }
        proof {
            let listed = node_views(out@);
            assert forall|i: int| 0 <= i < listed.len() implies self@.contains(
                #[trigger] listed[i],
            ) by {
                assert(among_first(self@, k as int, listed[i]));
                let j = choose|j: int| 0 <= j < k && self@[j] == listed[i];
                assert(self@[j] == listed[i]);
            }
        }
        out
    }

    /// Records a heartbeat. A heartbeat is no registration: for an unknown
    /// id nothing changes.
    pub fn update_node_heartbeat(&mut self, node_id: &str, storage_used: i64, now: i64)
        requires
            old(self).wf(),
        ensures
            final(self).wf(),
            final(self)@ == heartbeat_applied(old(self)@, node_id@, storage_used, now),
    {
        let found = self.position(node_id);
        let ghost before = self@;
        match found {
            Some(i) => {
                let known = &self.nodes[i];
                let updated = Node {
                    node_id: known.node_id.clone(),
                    address: known.address.clone(),
                    port: known.port,
                    last_seen: if known.last_seen >= now {
                        known.last_seen
                    } else {
                        now
                    },
                    reputation_score: known.reputation_score,
                    storage_capacity: known.storage_capacity,
                    storage_used,
                    is_anchor: known.is_anchor,
                };
                assert(node_views(self.nodes@.update(i as int, updated)) == before.update(
                    i as int,
                    updated@,
                ));
                self.nodes.set(i, updated);
            },
            None => {},
        }
    }
}

} // verus!
