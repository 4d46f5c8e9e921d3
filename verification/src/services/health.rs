//! The health monitor: classifies repositories by their replica count and
//! runs the healing cycle that brings under-replicated repositories back
//! towards the minimum.

use vstd::prelude::*;
use crate::db::{
    clamped, network_stats, string_views, under_replicated, unique_repo_hashes, Database,
    DatabaseView,
};
use crate::error::CoreError;
use crate::models::{NetworkStats, ReplicaView, RepositoryView};
use crate::replicas::{fresh_replica, holds_replica, replica_count, unique_replicas};
use crate::services::replication::{eligible, placement, ReplicationService};

verus! {

/// From this replica count on a repository is `Excellent`, whatever the
/// configured minimum.
pub const EXCELLENT_REPLICAS: i64 = 5;

/// The four-tier status of a repository.
#[derive(Debug, Clone, Copy, PartialEq, Eq, Structural)]
pub enum HealthStatus {
    /// five replicas or more
    Excellent,
    /// at least the configured minimum
    Good,
    /// at least one replica, fewer than the minimum
    NeedsReplication,
    /// no replica at all
    Critical,
}

/// The status of a repository with `replica_count` replicas under the
/// minimum `min_replicas`.
pub open spec fn health_of(replica_count: int, min_replicas: int) -> HealthStatus {
    if replica_count >= EXCELLENT_REPLICAS {
        HealthStatus::Excellent
    } else if replica_count >= min_replicas {
        HealthStatus::Good
    } else if replica_count > 0 {
        HealthStatus::NeedsReplication
    } else {
        HealthStatus::Critical
    }
}

impl HealthStatus {
    /// Position of the status on the scale from `Critical` (0) to
    /// `Excellent` (3).
    pub open spec fn rank(self) -> int {
        match self {
            HealthStatus::Critical => 0,
            HealthStatus::NeedsReplication => 1,
            HealthStatus::Good => 2,
            HealthStatus::Excellent => 3,
        }
    }

    /// The name of the status as it is shown.
    pub open spec fn label_spec(self) -> Seq<char> {
        match self {
            HealthStatus::Excellent => "Excellent"@,
            HealthStatus::Good => "Good"@,
            HealthStatus::NeedsReplication => "Needs Replication"@,
            HealthStatus::Critical => "Critical"@,
        }
    }

    /// The name of the status as it is shown.
    pub fn label(&self) -> (name: &'static str)
        ensures
            name@ == self.label_spec(),
    {
        match self {
            HealthStatus::Excellent => "Excellent",
            HealthStatus::Good => "Good",
            HealthStatus::NeedsReplication => "Needs Replication",
            HealthStatus::Critical => "Critical",
        }
    }

    /// Classifies a replica count against the configured minimum.
    pub fn classify(replica_count: i64, min_replicas: i32) -> (status: HealthStatus)
        ensures
            status == health_of(replica_count as int, min_replicas as int),
    {
        if replica_count >= EXCELLENT_REPLICAS {
            HealthStatus::Excellent
        } else if replica_count >= min_replicas as i64 {
            HealthStatus::Good
        } else if replica_count > 0 {
            HealthStatus::NeedsReplication
        } else {
            HealthStatus::Critical
        }
    }
}

/// The replica count of one repository against the minimum, and the
/// status that follows from the two.
#[derive(Debug)]
pub struct RepoHealth {
    pub repo_hash: String,
    pub replica_count: i64,
    pub min_replicas: i32,
    pub status: HealthStatus,
}

/// What the healing cycle did for one repository: the node that got the
/// new replica, or `None` where no node was eligible.
#[derive(Debug)]
pub struct HealOutcome {
    pub repo_hash: String,
    pub node_id: Option<String>,
}

/// The mathematical value of a [`HealOutcome`].
pub ghost struct HealOutcomeView {
    pub repo_hash: Seq<char>,
    pub node_id: Option<Seq<char>>,
}

impl View for HealOutcome {
    type V = HealOutcomeView;

    open spec fn view(&self) -> HealOutcomeView {
        HealOutcomeView {
            repo_hash: self.repo_hash@,
            node_id: match self.node_id {
                Some(id) => Some(id@),
                None => None,
            },
        }
    }
}

/// What one cycle of the monitor found and did.
#[derive(Debug)]
pub struct HealthReport {
    /// how many repositories were below the minimum when the cycle began
    pub unhealthy_found: usize,
    /// one entry for each repository of the batch, in the batch's order
    pub outcomes: Vec<HealOutcome>,
    /// how many stale nodes the cycle retired
    pub stale_nodes_removed: usize,
    /// the figures of the network after healing
    pub stats: NetworkStats,
}

/// At most this many repositories are healed in one cycle.
pub const HEAL_BATCH: usize = 10;

/// The views of a sequence of outcomes.
pub open spec fn outcome_views(outcomes: Seq<HealOutcome>) -> Seq<HealOutcomeView> {
    outcomes.map_values(|o: HealOutcome| o@)
}

/// The replica rows that a run of outcomes adds, in their order: one for
/// each repository that got a node.
pub open spec fn healed_rows(outcomes: Seq<HealOutcomeView>, now: i64) -> Seq<ReplicaView>
    decreases outcomes.len(),
{
    if outcomes.len() == 0 {
        Seq::empty()
    } else {
        let rest = healed_rows(outcomes.drop_last(), now);
        match outcomes.last().node_id {
            Some(id) => rest.push(fresh_replica(outcomes.last().repo_hash, id, now)),
            None => rest,
        }
    }
}

/// The repositories that one cycle works on: the first `HEAL_BATCH` of
/// those below the minimum.
pub open spec fn heal_batch(db: DatabaseView, min_replicas: int) -> Seq<Seq<char>> {
    let deficient = under_replicated(db.repositories, db.replicas, min_replicas);
    if deficient.len() <= HEAL_BATCH {
        deficient
    } else {
        deficient.take(HEAL_BATCH as int)
    }
}

/// `outcomes` is what healing the repositories `batch` comes to in the
/// catalog `db`: one outcome for each repository, in order, each the
/// placement of one replica on a best eligible node, or none where no node
/// is eligible.
pub open spec fn heals(
    db: DatabaseView,
    batch: Seq<Seq<char>>,
    now: i64,
    outcomes: Seq<HealOutcomeView>,
) -> bool {
    &&& outcomes.len() == batch.len()
    &&& forall|i: int|
        0 <= i < outcomes.len() ==> (#[trigger] outcomes[i]).repo_hash == batch[i] && placement(
            db,
            batch[i],
            now,
            outcomes[i].node_id,
        )
}

/// No string occurs twice in `hashes`.
pub open spec fn distinct_hashes(hashes: Seq<Seq<char>>) -> bool {
    forall|i: int, j: int| 0 <= i < j < hashes.len() ==> hashes[i] != hashes[j]
}

/// Every hash listed as under-replicated is the hash of a repository of
/// the catalog, and none is listed twice.
pub proof fn lemma_under_replicated_distinct(
    repos: Seq<RepositoryView>,
    rows: Seq<ReplicaView>,
    min_replicas: int,
)
    requires
        unique_repo_hashes(repos),
    ensures
        distinct_hashes(under_replicated(repos, rows, min_replicas)),
        forall|k: int|
            0 <= k < under_replicated(repos, rows, min_replicas).len() ==> crate::db::has_repo(
                repos,
                #[trigger] under_replicated(repos, rows, min_replicas)[k],
            ),
    decreases repos.len(),
{
    let listed = under_replicated(repos, rows, min_replicas);
    if repos.len() > 0 {
        let init = repos.drop_last();
        let rest = under_replicated(init, rows, min_replicas);
        assert(unique_repo_hashes(init)) by {
            assert forall|i: int, j: int| 0 <= i < j < init.len() implies (
            #[trigger] init[i]).repo_hash != (#[trigger] init[j]).repo_hash by {
                assert(init[i] == repos[i] && init[j] == repos[j]);
            }
        }
        lemma_under_replicated_distinct(init, rows, min_replicas);
        assert forall|k: int| 0 <= k < listed.len() implies crate::db::has_repo(
            repos,
            #[trigger] listed[k],
        ) by {
            if k < rest.len() {
                assert(crate::db::has_repo(init, rest[k]));
                let i = choose|i: int|
                    0 <= i < init.len() && (#[trigger] init[i]).repo_hash == rest[k];
                assert(repos[i].repo_hash == listed[k]);
            } else {
                assert(repos[repos.len() - 1].repo_hash == listed[k]);
            }
        }
        assert forall|a: int, b: int| 0 <= a < b < listed.len() implies listed[a]
            != listed[b] by {
            if b >= rest.len() {
                assert(crate::db::has_repo(init, rest[a]));
                let i = choose|i: int|
                    0 <= i < init.len() && (#[trigger] init[i]).repo_hash == rest[a];
                assert(repos[i].repo_hash != repos[repos.len() - 1].repo_hash);
            }
        }
    }
}

/// Every row that a run of outcomes adds is of a repository of that run.
pub proof fn lemma_healed_rows_repos(outcomes: Seq<HealOutcomeView>, now: i64)
    ensures
        forall|k: int|
            0 <= k < healed_rows(outcomes, now).len() ==> exists|i: int|
                0 <= i < outcomes.len() && (#[trigger] outcomes[i]).repo_hash == (
                #[trigger] healed_rows(outcomes, now)[k]).repo_hash,
    decreases outcomes.len(),
{
    let rows = healed_rows(outcomes, now);
    if outcomes.len() > 0 {
        let init = outcomes.drop_last();
        let rest = healed_rows(init, now);
        lemma_healed_rows_repos(init, now);
        assert forall|k: int| 0 <= k < rows.len() implies exists|i: int|
            0 <= i < outcomes.len() && (#[trigger] outcomes[i]).repo_hash == (
            #[trigger] rows[k]).repo_hash by {
            if k < rest.len() {
                let i = choose|i: int|
                    0 <= i < init.len() && (#[trigger] init[i]).repo_hash == rest[k].repo_hash;
                assert(outcomes[i].repo_hash == rows[k].repo_hash);
            } else {
                assert(outcomes[outcomes.len() - 1].repo_hash == rows[k].repo_hash);
            }
        }
    }
}

/// Replicas of other repositories do not change where a repository may be
/// placed.
pub proof fn lemma_placement_unaffected(
    db: DatabaseView,
    extra: Seq<ReplicaView>,
    repo: Seq<char>,
    now: i64,
    chosen: Option<Seq<char>>,
)
    requires
        forall|k: int| 0 <= k < extra.len() ==> (#[trigger] extra[k]).repo_hash != repo,
    ensures
        placement(DatabaseView { replicas: db.replicas + extra, ..db }, repo, now, chosen)
            == placement(db, repo, now, chosen),
{
    let more = DatabaseView { replicas: db.replicas + extra, ..db };
    assert forall|id: Seq<char>|
        holds_replica(more.replicas, repo, id) == holds_replica(db.replicas, repo, id) by {
        if holds_replica(more.replicas, repo, id) {
            let i = choose|i: int|
                0 <= i < more.replicas.len() && (#[trigger] more.replicas[i]).repo_hash == repo
                    && more.replicas[i].node_id == id;
            if i < db.replicas.len() {
                assert(db.replicas[i].repo_hash == repo && db.replicas[i].node_id == id);
            } else {
                assert(extra[i - db.replicas.len()].repo_hash == repo);
            }
        }
        if holds_replica(db.replicas, repo, id) {
            let i = choose|i: int|
                0 <= i < db.replicas.len() && (#[trigger] db.replicas[i]).repo_hash == repo
                    && db.replicas[i].node_id == id;
            assert(more.replicas[i].repo_hash == repo && more.replicas[i].node_id == id);
        }
    }
    assert forall|node: crate::models::NodeView|
        eligible(more, repo, now, node) == eligible(db, repo, now, node) by {}
}

/// The scheduler of healing: holds the minimum replica count and the
/// pause between two cycles. The timer that wakes it belongs to the
/// caller; each cycle is one call of `check_network_health`.
pub struct HealthMonitor {
    min_replica_count: i32,
    check_interval_minutes: u64,
}

impl HealthMonitor {
    /// The configured minimum replica count.
    pub closed spec fn min_replicas(&self) -> i32 {
        self.min_replica_count
    }

    /// The configured pause between two cycles, in minutes.
    pub closed spec fn interval_minutes(&self) -> u64 {
        self.check_interval_minutes
    }

    pub fn new(min_replica_count: i32, check_interval_minutes: u64) -> (monitor: Self)
        ensures
            monitor.min_replicas() == min_replica_count,
            monitor.interval_minutes() == check_interval_minutes,
    {
        HealthMonitor { min_replica_count, check_interval_minutes }
    }

    /// The pause between two cycles in seconds, `u64::MAX` standing for
    /// all that is longer.
    pub fn check_interval_seconds(&self) -> (seconds: u64)
        ensures
            seconds == if self.interval_minutes() * 60 <= u64::MAX {
                self.interval_minutes() * 60
            } else {
                u64::MAX as int
            },
    {
        if self.check_interval_minutes > u64::MAX / 60 {
            u64::MAX
        } else {
            self.check_interval_minutes * 60
        }
    }

    /// Retires nodes that have been silent for long. No node is ever
    /// retired: the registry is left as it is and zero is reported.
    pub fn cleanup_stale_nodes(&self, db: &Database) -> (removed: usize)
        ensures
            removed == 0,
    {
        0
    }

    /// One cycle of the monitor. The repositories below the minimum are
    /// looked up; the first `HEAL_BATCH` of them get one more replica each,
    /// where a node is eligible, and a repository for which none is does
    /// not stop the others; stale nodes are retired; the figures of the
    /// network are taken.
    pub fn check_network_health(&self, db: &mut Database, now: i64) -> (report: HealthReport)
        requires
            old(db).wf(),
        ensures
            final(db).wf(),
            report.unhealthy_found == under_replicated(
                old(db)@.repositories,
                old(db)@.replicas,
                self.min_replicas() as int,
            ).len(),
            heals(
                old(db)@,
                heal_batch(old(db)@, self.min_replicas() as int),
                now,
                outcome_views(report.outcomes@),
            ),
            final(db)@ == (DatabaseView {
                replicas: old(db)@.replicas + healed_rows(outcome_views(report.outcomes@), now),
                ..old(db)@
            }),
            report.stale_nodes_removed == 0,
            report.stats == network_stats(final(db)@, now),
    {
        let unhealthy = db.get_unhealthy_repos(self.min_replica_count);
        let ghost before = db@;
        let ghost batch = heal_batch(before, self.min_replica_count as int);
        let limit = if unhealthy.len() <= HEAL_BATCH {
            unhealthy.len()
        } else {
            HEAL_BATCH
        };
        proof {
            lemma_under_replicated_distinct(
                before.repositories,
                before.replicas,
                self.min_replica_count as int,
            );
            assert(string_views(unhealthy@).take(limit as int) == batch);
            assert(before.replicas + Seq::<ReplicaView>::empty() == before.replicas);
        }
        let service = ReplicationService::new();
        let mut outcomes: Vec<HealOutcome> = Vec::new();
        let mut i: usize = 0;
        while i < limit
            invariant
                i <= limit,
                limit <= unhealthy.len(),
                db.wf(),
                before == old(db)@,
                batch.len() == limit,
                distinct_hashes(batch),
                forall|k: int| 0 <= k < limit ==> (#[trigger] unhealthy@[k])@ == batch[k],
                heals(before, batch.take(i as int), now, outcome_views(outcomes@)),
                db@ == (DatabaseView {
                    replicas: before.replicas + healed_rows(outcome_views(outcomes@), now),
                    ..before
                }),
            decreases limit - i,
        {
            let ghost done = outcome_views(outcomes@);
            let ghost added = healed_rows(done, now);
            let repo = &unhealthy[i];
            let target = service.trigger_replication(db, repo.as_str(), now);
            let node_id = match target {
                Ok(id) => Some(id),
                Err(_) => None,
            };
            let outcome = HealOutcome { repo_hash: repo.clone(), node_id };
            proof {
                let now_done = done.push(outcome@);
                assert(outcome_views(outcomes@.push(outcome)) == now_done);
                assert(now_done.drop_last() == done);
                lemma_healed_rows_repos(done, now);
                assert forall|k: int| 0 <= k < added.len() implies (
                #[trigger] added[k]).repo_hash != repo@ by {
                    let j = choose|j: int|
                        0 <= j < done.len() && (#[trigger] done[j]).repo_hash
                            == added[k].repo_hash;
                    assert(done[j].repo_hash == batch.take(i as int)[j]);
                    assert(batch[j] != batch[i as int]);
                }
                lemma_placement_unaffected(before, added, repo@, now, outcome@.node_id);
                assert forall|k: int| 0 <= k < now_done.len() implies (
                #[trigger] now_done[k]).repo_hash == batch.take(i + 1)[k] && placement(
                    before,
                    batch.take(i + 1)[k],
                    now,
                    now_done[k].node_id,
                ) by {
                    if k < i {
                        assert(now_done[k] == done[k]);
                        assert(batch.take(i + 1)[k] == batch.take(i as int)[k]);
                    }
                }
                match outcome@.node_id {
                    Some(id) => {
                        assert(db@.replicas == before.replicas + healed_rows(now_done, now));
                    },
                    None => {},
                }
            }
            outcomes.push(outcome);
            i += 1;
        }
        assert(batch.take(limit as int) == batch);
        let stale_nodes_removed = self.cleanup_stale_nodes(db);
        let stats = db.get_network_stats(now);
        HealthReport { unhealthy_found: unhealthy.len(), outcomes, stale_nodes_removed, stats }
    }

    /// Classifies one repository. This never fails: a repository without
    /// replicas is `Critical`.
    pub fn check_repo_health(&self, db: &Database, repo_hash: &str) -> (health: RepoHealth)
        ensures
            health.repo_hash@ == repo_hash@,
            health.replica_count == clamped(replica_count(db@.replicas, repo_hash@) as int),
            health.min_replicas == self.min_replicas(),
            health.status == health_of(health.replica_count as int, self.min_replicas() as int),
    {
        let replica_count = db.get_replica_count(repo_hash);
        RepoHealth {
            repo_hash: repo_hash.to_owned(),
            replica_count,
            min_replicas: self.min_replica_count,
            status: HealthStatus::classify(replica_count, self.min_replica_count),
        }
    }
}

/// A repository never looks less healthy for having more replicas.
pub proof fn lemma_health_monotonic(fewer: int, more: int, min_replicas: int)
    requires
        fewer <= more,
    ensures
        health_of(fewer, min_replicas).rank() <= health_of(more, min_replicas).rank(),
{
}

/// With a minimum between one and four the four tiers are the ranges
/// `0`, `1..min`, `min..5` and `5..`.
pub proof fn lemma_health_tiers(replica_count: int, min_replicas: int)
    requires
        0 <= replica_count,
        1 <= min_replicas <= 4,
    ensures
        replica_count == 0 <==> health_of(replica_count, min_replicas) == HealthStatus::Critical,
        1 <= replica_count < min_replicas <==> health_of(replica_count, min_replicas)
            == HealthStatus::NeedsReplication,
        min_replicas <= replica_count <= 4 <==> health_of(replica_count, min_replicas)
            == HealthStatus::Good,
        5 <= replica_count <==> health_of(replica_count, min_replicas) == HealthStatus::Excellent,
{
}

} // verus!
