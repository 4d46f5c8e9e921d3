//! What the routes without a handler module answer with.

use vstd::prelude::*;
use vstd::string::StringExecFns;
use crate::models::NetworkStats;

verus! {

/// A tag and the number of repositories that carry it.
#[derive(Debug)]
pub struct TagWithCount {
    pub tag: String,
    pub count: i64,
}

impl View for TagWithCount {
    type V = (Seq<char>, i64);

    open spec fn view(&self) -> (Seq<char>, i64) {
        (self.tag@, self.count)
    }
}

/// What the health endpoint answers with.
#[derive(Debug)]
pub struct HealthCheckResponse {
    pub status: String,
    pub version: String,
    pub total_repos: i64,
    pub active_nodes: i64,
}

/// No larger body of a request is read: a hundred mebibytes.
pub const BODY_LIMIT: usize = 100 * 1024 * 1024;

/// The answer of the health endpoint: the service is healthy, its
/// version, and the two main figures of the network.
pub fn health_check(stats: &NetworkStats, version: &str) -> (response: HealthCheckResponse)
    ensures
        response.status@ == "healthy"@,
        response.version@ == version@,
        response.total_repos == stats.total_repos,
        response.active_nodes == stats.active_nodes,
{
    HealthCheckResponse {
        status: String::from_str("healthy"),
        version: String::from_str(version),
        total_repos: stats.total_repos,
        active_nodes: stats.active_nodes,
    }
}

} // verus!
