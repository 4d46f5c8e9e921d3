//! The records of the catalog: users, repositories, storage nodes and
//! replicas, and the request and response shapes built from them.
//!
//! Timestamps are whole seconds since the Unix epoch.

use vstd::prelude::*;

verus! {

pub const MAX_USERNAME_LEN: usize = 32;

pub const MIN_USERNAME_LEN: usize = 3;

pub const MAX_REPO_NAME_LEN: usize = 64;

pub const MIN_REPO_NAME_LEN: usize = 3;

pub const MAX_DESCRIPTION_LEN: usize = 500;

pub const MAX_SEARCH_QUERY_LEN: usize = 100;

/// An account.
#[derive(Debug)]
pub struct User {
    pub id: i64,
    pub username: String,
    pub email: String,
    pub is_admin: i32,
    pub password_hash: String,
    pub public_key: String,
    pub storage_quota: i64,
    pub storage_used: i64,
    pub created_at: String,
}

/// A hosted repository, identified by `repo_hash`.
#[derive(Debug)]
pub struct Repository {
    pub repo_hash: String,
    pub owner_id: i64,
    pub name: String,
    pub description: Option<String>,
    pub size: i64,
    pub storage_tier: String,
    pub is_private: i64,
    pub created_at: i64,
    pub last_updated: i64,
}

/// The mathematical value of a [`Repository`].
pub ghost struct RepositoryView {
    pub repo_hash: Seq<char>,
    pub owner_id: i64,
    pub name: Seq<char>,
    pub description: Option<Seq<char>>,
    pub size: i64,
    pub storage_tier: Seq<char>,
    pub is_private: i64,
    pub created_at: i64,
    pub last_updated: i64,
}

impl View for Repository {
    type V = RepositoryView;

    open spec fn view(&self) -> RepositoryView {
        RepositoryView {
            repo_hash: self.repo_hash@,
            owner_id: self.owner_id,
            name: self.name@,
            description: match self.description {
                Some(d) => Some(d@),
                None => None,
            },
            size: self.size,
            storage_tier: self.storage_tier@,
            is_private: self.is_private,
            created_at: self.created_at,
            last_updated: self.last_updated,
        }
    }
}

impl Clone for Repository {
    fn clone(&self) -> (copy: Self)
        ensures
            copy@ == self@,
    {
        Repository {
            repo_hash: self.repo_hash.clone(),
            owner_id: self.owner_id,
            name: self.name.clone(),
            description: match &self.description {
                Some(d) => Some(d.clone()),
                None => None,
            },
            size: self.size,
            storage_tier: self.storage_tier.clone(),
            is_private: self.is_private,
            created_at: self.created_at,
            last_updated: self.last_updated,
        }
    }
}

/// A storage node as the registry knows it.
#[derive(Debug)]
pub struct Node {
    pub node_id: String,
    pub address: String,
    pub port: i32,
    pub last_seen: i64,
    pub reputation_score: i32,
    pub storage_capacity: i64,
    pub storage_used: i64,
    pub is_anchor: i64,
}

/// The mathematical value of a [`Node`].
pub ghost struct NodeView {
    pub node_id: Seq<char>,
    pub address: Seq<char>,
    pub port: i32,
    pub last_seen: i64,
    pub reputation_score: i32,
    pub storage_capacity: i64,
    pub storage_used: i64,
    pub is_anchor: i64,
}

impl View for Node {
    type V = NodeView;

    open spec fn view(&self) -> NodeView {
        NodeView {
            node_id: self.node_id@,
            address: self.address@,
            port: self.port,
            last_seen: self.last_seen,
            reputation_score: self.reputation_score,
            storage_capacity: self.storage_capacity,
            storage_used: self.storage_used,
            is_anchor: self.is_anchor,
        }
    }
}

impl Clone for Node {
    fn clone(&self) -> (copy: Self)
        ensures
            copy@ == self@,
    {
        Node {
            node_id: self.node_id.clone(),
            address: self.address.clone(),
            port: self.port,
            last_seen: self.last_seen,
            reputation_score: self.reputation_score,
            storage_capacity: self.storage_capacity,
            storage_used: self.storage_used,
            is_anchor: self.is_anchor,
        }
    }
}

/// The fact that repository `repo_hash` has a copy on node `node_id`.
#[derive(Debug)]
pub struct Replica {
    pub repo_hash: String,
    pub node_id: String,
    pub created_at: i64,
    pub last_verified: Option<i64>,
}

/// The mathematical value of a [`Replica`].
pub ghost struct ReplicaView {
    pub repo_hash: Seq<char>,
    pub node_id: Seq<char>,
    pub created_at: i64,
    pub last_verified: Option<i64>,
}

impl View for Replica {
    type V = ReplicaView;

    open spec fn view(&self) -> ReplicaView {
        ReplicaView {
            repo_hash: self.repo_hash@,
            node_id: self.node_id@,
            created_at: self.created_at,
            last_verified: self.last_verified,
        }
    }
}

impl Clone for Replica {
    fn clone(&self) -> (copy: Self)
        ensures
            copy@ == self@,
    {
        Replica {
            repo_hash: self.repo_hash.clone(),
            node_id: self.node_id.clone(),
            created_at: self.created_at,
            last_verified: self.last_verified,
        }
    }
}

#[derive(Debug)]
pub struct CreateUserRequest {
    pub username: String,
    pub email: String,
    pub password_hash: String,
    pub public_key: String,
    pub storage_quota: i64,
}

#[derive(Debug)]
pub struct CreateRepoRequest {
    pub name: String,
    pub description: Option<String>,
    pub storage_tier: String,
    pub is_private: bool,
}

#[derive(Debug)]
pub struct CreateRepoResponse {
    pub repo_hash: String,
    pub message: String,
}

/// What a node sends to join the network or to announce a new endpoint.
#[derive(Debug)]
pub struct RegisterNodeRequest {
    pub node_id: String,
    pub address: String,
    pub port: i32,
    pub storage_capacity: i64,
    pub is_anchor: bool,
}

/// The periodic sign of life of a node.
#[derive(Debug)]
pub struct NodeHeartbeat {
    pub node_id: String,
    pub storage_used: i64,
    pub hosted_repos: Vec<String>,
}

#[derive(Debug)]
pub struct RepoMetadata {
    pub repo_hash: String,
    pub name: String,
    pub description: Option<String>,
    pub size: i64,
    pub replica_count: i64,
    pub nodes: Vec<NodeInfo>,
    pub health_status: String,
}

/// Where a replica can be reached.
#[derive(Debug)]
pub struct NodeInfo {
    pub node_id: String,
    pub address: String,
    pub port: i32,
    pub is_anchor: bool,
}

/// The mathematical value of a [`NodeInfo`].
pub ghost struct NodeInfoView {
    pub node_id: Seq<char>,
    pub address: Seq<char>,
    pub port: i32,
    pub is_anchor: bool,
}

impl View for NodeInfo {
    type V = NodeInfoView;

    open spec fn view(&self) -> NodeInfoView {
        NodeInfoView {
            node_id: self.node_id@,
            address: self.address@,
            port: self.port,
            is_anchor: self.is_anchor,
        }
    }
}

impl Clone for NodeInfo {
    fn clone(&self) -> (copy: Self)
        ensures
            copy@ == self@,
    {
        NodeInfo {
            node_id: self.node_id.clone(),
            address: self.address.clone(),
            port: self.port,
            is_anchor: self.is_anchor,
        }
    }
}

#[derive(Debug)]
pub struct ReplicationRequest {
    pub repo_hash: String,
    pub target_node_id: String,
}

#[derive(Debug)]
pub struct ReplicationResponse {
    pub success: bool,
    pub message: String,
}

/// Aggregate figures of the network. The mean replica count is kept as
/// the exact fraction `replica_rows / replicated_repos` (zero when no
/// repository has a replica).
#[derive(Debug, Clone, Copy, PartialEq, Eq, Structural)]
pub struct NetworkStats {
    pub total_repos: i64,
    pub total_nodes: i64,
    pub total_storage_used: i64,
    pub active_nodes: i64,
    pub replica_rows: i64,
    pub replicated_repos: i64,
}

#[derive(Debug)]
pub struct ActivityLogEntry {
    pub id: i64,
    pub user_id: Option<i64>,
    pub action: String,
    pub resource_type: String,
    pub resource_id: String,
    pub details: Option<String>,
    pub ip_address: Option<String>,
    pub created_at: String,
}

} // verus!
