//! The node pages of the administration: the figures of each node and
//! what the buttons ask for.

use vstd::prelude::*;
use crate::templates::layout::{page, render_page};
use vstd::string::StringExecFns;
use crate::db::{clamped, Database};
use crate::handlers::HttpStatus;
use crate::models::{Node, NodeView};
use crate::nodes::{lists_active, node_views};
use crate::replicas::hosted_count;
use crate::text::str_eq;

verus! {

/// A node with the figures that the administration shows.
#[derive(Debug)]
pub struct NodeStats {
    pub node: Node,
    pub repo_count: i64,
    pub storage_usage_percent: i32,
    pub is_healthy: bool,
}

/// What a button on a node page asks for.
#[derive(Debug)]
pub struct NodeAction {
    pub action: String,
    pub node_id: String,
}

/// The mathematical value of a [`NodeStats`].
pub ghost struct NodeStatsView {
    pub node: NodeView,
    pub repo_count: i64,
    pub storage_usage_percent: i32,
    pub is_healthy: bool,
}

impl View for NodeStats {
    type V = NodeStatsView;

    open spec fn view(&self) -> NodeStatsView {
        NodeStatsView {
            node: self.node@,
            repo_count: self.repo_count,
            storage_usage_percent: self.storage_usage_percent,
            is_healthy: self.is_healthy,
        }
    }
}

/// From this reputation on a node can count as healthy.
pub const HEALTHY_REPUTATION: i32 = 80;

/// From this share of its capacity on a node counts as full.
pub const FULL_PERCENT: i32 = 90;

/// The share of its capacity that a node uses, in whole percent, the
/// fraction cut off; zero for a node without capacity, and the bounds of
/// `i32` for what lies beyond them.
pub open spec fn usage_percent(used: i64, capacity: i64) -> i32 {
    if capacity <= 0 {
        0
    } else {
        let exact = if used >= 0 {
            (used * 100) / (capacity as int)
        } else {
            -((-used * 100) / (capacity as int))
        };
        if exact > i32::MAX {
            i32::MAX
        } else if exact < i32::MIN {
            i32::MIN
        } else {
            exact as i32
        }
    }
}

/// The share of its capacity that a node uses.
pub fn storage_usage_percent(used: i64, capacity: i64) -> (percent: i32)
    ensures
        percent == usage_percent(used, capacity),
{
    if capacity <= 0 {
        return 0;
    }
    let exact: i128 = if used >= 0 {
        (used as i128 * 100) / (capacity as i128)
    } else {
        -((-(used as i128) * 100) / (capacity as i128))
    };
    if exact > i32::MAX as i128 {
        i32::MAX
    } else if exact < i32::MIN as i128 {
        i32::MIN
    } else {
        exact as i32
    }
}

/// A node is healthy while its reputation is good and its storage not
/// nearly full.
pub open spec fn healthy(node: NodeView) -> bool {
    node.reputation_score >= HEALTHY_REPUTATION && usage_percent(
        node.storage_used,
        node.storage_capacity,
    ) < FULL_PERCENT
}

/// The figures of a node that holds `repo_count` repositories.
pub open spec fn stats_of(node: NodeView, repo_count: i64) -> NodeStatsView {
    NodeStatsView {
        node,
        repo_count,
        storage_usage_percent: usage_percent(node.storage_used, node.storage_capacity),
        is_healthy: healthy(node),
    }
}

/// The figures of a node.
pub fn node_stats(node: Node, repo_count: i64) -> (stats: NodeStats)
    ensures
        stats@ == stats_of(node@, repo_count),
{
    let storage_usage_percent = storage_usage_percent(node.storage_used, node.storage_capacity);
    let is_healthy = node.reputation_score >= HEALTHY_REPUTATION && storage_usage_percent
        < FULL_PERCENT;
    NodeStats { node, repo_count, storage_usage_percent, is_healthy }
}

/// The nodes of `nodes` that are healthy, or those that are not, in
/// their order.
pub open spec fn by_health(nodes: Seq<NodeView>, wanted: bool) -> Seq<NodeView>
    decreases nodes.len(),
{
    if nodes.len() == 0 {
        Seq::empty()
    } else if healthy(nodes.last()) == wanted {
        by_health(nodes.drop_last(), wanted).push(nodes.last())
    } else {
        by_health(nodes.drop_last(), wanted)
    }
}

/// The views of a sequence of node figures.
pub open spec fn stats_views(stats: Seq<NodeStats>) -> Seq<NodeStatsView> {
    stats.map_values(|s: NodeStats| s@)
}

/// The nodes of a listing.
pub open spec fn stats_nodes(stats: Seq<NodeStatsView>) -> Seq<NodeView> {
    stats.map_values(|s: NodeStatsView| s.node)
}

fn collect_by_health(db: &Database, nodes: &Vec<Node>, wanted: bool, out: &mut Vec<NodeStats>)
    ensures
        stats_nodes(stats_views(final(out)@)) == stats_nodes(stats_views(old(out)@)) + by_health(
            node_views(nodes@),
            wanted,
        ),
        forall|i: int|
            0 <= i < old(out)@.len() ==> (#[trigger] final(out)@[i])@ == old(out)@[i]@,
        final(out)@.len() >= old(out)@.len(),
        forall|i: int|
            old(out)@.len() <= i < final(out)@.len() ==> (#[trigger] final(out)@[i])@ == stats_of(
                final(out)@[i].node@,
                clamped(hosted_count(db@.replicas, final(out)@[i].node.node_id@) as int),
            ),
{
    let ghost listed = node_views(nodes@);
    let ghost before = stats_views(out@);
    let ghost start = out@.len();
    let mut i: usize = 0;
    assert(stats_nodes(before) + Seq::<NodeView>::empty() == stats_nodes(before));
    while i < nodes.len()
        invariant
            i <= nodes.len(),
            listed == node_views(nodes@),
            start <= out@.len(),
            before.len() == start,
            forall|k: int| 0 <= k < start ==> (#[trigger] out@[k])@ == before[k],
            stats_nodes(stats_views(out@)) == stats_nodes(before) + by_health(
                listed.take(i as int),
                wanted,
            ),
            forall|k: int|
                start <= k < out@.len() ==> (#[trigger] out@[k])@ == stats_of(
                    out@[k].node@,
                    clamped(hosted_count(db@.replicas, out@[k].node.node_id@) as int),
                ),
        decreases nodes.len() - i,
    {
        proof {
            assert(listed.take(i + 1).drop_last() == listed.take(i as int));
            assert(listed.take(i + 1).last() == nodes@[i as int]@);
        }
        let node = nodes[i].clone();
        let count = db.count_node_repos(node.node_id.as_str());
        let stats = node_stats(node, count);
        if stats.is_healthy == wanted {
            proof {
                let so_far = stats_views(out@);
                assert(stats_views(out@.push(stats)) == so_far.push(stats@));
                assert(stats_nodes(so_far.push(stats@)) == stats_nodes(so_far).push(stats@.node));
                assert((stats_nodes(before) + by_health(listed.take(i as int), wanted)).push(
                    stats@.node,
                ) == stats_nodes(before) + by_health(listed.take(i as int), wanted).push(
                    stats@.node,
                ));
            }
            out.push(stats);
        }
        i += 1;
    }
    assert(listed.take(i as int) == listed);
    assert forall|k: int| 0 <= k < start implies (#[trigger] out@[k])@ == old(out)@[k]@ by {
        assert(before[k] == old(out)@[k]@);
    }
}

/// The active nodes with their figures for the administration: the
/// healthy ones first, and within each group the best reputation first.
pub fn admin_nodes_enhanced(db: &Database, timeout_minutes: i32, now: i64) -> (listing: Vec<
    NodeStats,
>)
    requires
        db.wf(),
    ensures
        exists|active: Seq<NodeView>|
            #![trigger lists_active(db@.nodes, timeout_minutes, now, active)]
            lists_active(db@.nodes, timeout_minutes, now, active) && stats_nodes(
                stats_views(listing@),
            ) == by_health(active, true) + by_health(active, false),
        forall|i: int|
            0 <= i < listing@.len() ==> (#[trigger] listing@[i])@ == stats_of(
                listing@[i].node@,
                clamped(hosted_count(db@.replicas, listing@[i].node.node_id@) as int),
            ),
{
    let nodes = db.list_active_nodes(timeout_minutes, now);
    let mut listing: Vec<NodeStats> = Vec::new();
    assert(stats_nodes(stats_views(listing@)) == Seq::<NodeView>::empty());
    collect_by_health(db, &nodes, true, &mut listing);
    assert(Seq::<NodeView>::empty() + by_health(node_views(nodes@), true) == by_health(
        node_views(nodes@),
        true,
    ));
    let ghost healthy_count = listing@.len();
    collect_by_health(db, &nodes, false, &mut listing);
    assert(lists_active(db@.nodes, timeout_minutes, now, node_views(nodes@)));
    listing
}

/// How many nodes of a listing are healthy.
pub open spec fn healthy_count(stats: Seq<NodeStatsView>) -> nat
    decreases stats.len(),
{
    if stats.len() == 0 {
        0
    } else {
        healthy_count(stats.drop_last()) + if stats.last().is_healthy {
            1nat
        } else {
            0nat
        }
    }
}

/// The capacity of all nodes of a listing, added up.
pub open spec fn total_capacity(stats: Seq<NodeStatsView>) -> int
    decreases stats.len(),
{
    if stats.len() == 0 {
        0
    } else {
        total_capacity(stats.drop_last()) + stats.last().node.storage_capacity
    }
}

/// The used storage of all nodes of a listing, added up.
pub open spec fn total_used(stats: Seq<NodeStatsView>) -> int
    decreases stats.len(),
{
    if stats.len() == 0 {
        0
    } else {
        total_used(stats.drop_last()) + stats.last().node.storage_used
    }
}

/// The sums below a listing of nodes: how many nodes there are, how many
/// of them are healthy, and their capacity and used storage.
pub fn node_totals(listing: &Vec<NodeStats>) -> (totals: (usize, usize, i64, i64))
    ensures
        totals.0 == listing@.len(),
        totals.1 == healthy_count(stats_views(listing@)),
        totals.2 == clamped(total_capacity(stats_views(listing@))),
        totals.3 == clamped(total_used(stats_views(listing@))),
{
    let ghost views = stats_views(listing@);
    let mut healthy_nodes: usize = 0;
    let mut capacity: i128 = 0;
    let mut used: i128 = 0;
    let mut k: usize = 0;
    while k < listing.len()
        invariant
            k <= listing.len(),
            views == stats_views(listing@),
            healthy_nodes == healthy_count(views.take(k as int)),
            healthy_nodes <= k,
            capacity == total_capacity(views.take(k as int)),
            used == total_used(views.take(k as int)),
            -(k as int) * 0x8000_0000_0000_0000 <= capacity <= (k as int) * 0x8000_0000_0000_0000,
            -(k as int) * 0x8000_0000_0000_0000 <= used <= (k as int) * 0x8000_0000_0000_0000,
        decreases listing.len() - k,
    {
        proof {
            assert(views.take(k + 1).drop_last() == views.take(k as int));
            assert(views.take(k + 1).last() == listing@[k as int]@);
        }
        if listing[k].is_healthy {
            healthy_nodes += 1;
        }
        capacity = capacity + listing[k].node.storage_capacity as i128;
        used = used + listing[k].node.storage_used as i128;
        k += 1;
    }
    assert(views.take(k as int) == views);
    let total_storage = if capacity > i64::MAX as i128 {
        i64::MAX
    } else if capacity < i64::MIN as i128 {
        i64::MIN
    } else {
        capacity as i64
    };
    let used_storage = if used > i64::MAX as i128 {
        i64::MAX
    } else if used < i64::MIN as i128 {
        i64::MIN
    } else {
        used as i64
    };
    (listing.len(), healthy_nodes, total_storage, used_storage)
}

/// The actions of the buttons of a node page.
#[derive(Debug, Clone, Copy, PartialEq, Eq, Structural)]
pub enum NodeActionKind {
    Ping,
    Remove,
    Ban,
    Trust,
}

/// The action that a word of the form names.
pub open spec fn node_action_of(word: Seq<char>) -> Option<NodeActionKind> {
    if word == "ping"@ {
        Some(NodeActionKind::Ping)
    } else if word == "remove"@ {
        Some(NodeActionKind::Remove)
    } else if word == "ban"@ {
        Some(NodeActionKind::Ban)
    } else if word == "trust"@ {
        Some(NodeActionKind::Trust)
    } else {
        None
    }
}

/// Reads the action of a button; an unknown word is a `BadRequest`.
pub fn parse_node_action(word: &str) -> (action: Result<NodeActionKind, HttpStatus>)
    ensures
        match action {
            Ok(kind) => node_action_of(word@) == Some(kind),
            Err(status) => node_action_of(word@) is None && status == HttpStatus::BadRequest,
        },
{
    if str_eq(word, "ping") {
        Ok(NodeActionKind::Ping)
    } else if str_eq(word, "remove") {
        Ok(NodeActionKind::Remove)
    } else if str_eq(word, "ban") {
        Ok(NodeActionKind::Ban)
    } else if str_eq(word, "trust") {
        Ok(NodeActionKind::Trust)
    } else {
        Err(HttpStatus::BadRequest)
    }
}

/// The address at which a node answers a ping.
pub fn ping_url(address: &str, port: i32) -> (url: String)
    ensures
        url@ == "http://"@ + address@ + ":"@ + crate::text::signed_decimal(port as int)
            + "/api/health"@,
{
    let mut url = String::from_str("http://");
    url.append(address);
    url.append(":");
    let port_text = crate::text::signed_decimal_text(port as i64);
    url.append(port_text.as_str());
    url.append("/api/health");
    url
}

/// Part 1 of the page of `error_page`.
pub const ERROR_0: &'static str = r#"<div class="section">
                <h1>Error</h1>
                <p>"#;

/// Part 2 of the page of `error_page`.
pub const ERROR_1: &'static str = r#"</p>
                <a href="/admin/nodes" class="btn btn-secondary">Back to Nodes</a>
            </div>"#;

/// The page that tells of an error.
pub fn error_page(message: &str) -> (html: String)
    ensures
        html@ == page("Error"@, ERROR_0@ + message@ + ERROR_1@, None),
{
    let mut body = String::from_str(ERROR_0);
    body.append(message);
    body.append(ERROR_1);
    render_page("Error", body.as_str())
}

} // verus!
