//! Forks, tags, details of repositories and the administration of nodes.

use vstd::prelude::*;
use vstd::string::StringExecFns;
use pulldown_cmark::html;
use pulldown_cmark::Parser;
use crate::db::{
    clamped, count_as_i64, has_repo, network_stats, repo_index, repo_removed, string_views,
    under_replicated, Database, DatabaseView,
};
use crate::handlers::api::{health_label, health_label_of};
use crate::handlers::HttpStatus;
use crate::models::{
    CreateRepoRequest, NetworkStats, Node, NodeInfo, Repository, RepositoryView,
};
use crate::nodes::{lists_active, node_views};
use crate::replicas::{hosted_count, replica_count, without_repo};
use crate::storage::git::{objects_without, refs_without, strings_without, GitStorage, StorageView};
use crate::templates::{escaped, html_escape};
use crate::text::{ends_with, has_suffix};

verus! {

/// What asks for a fork of a repository.
#[derive(Debug)]
pub struct ForkRepoRequest {
    pub new_name: Option<String>,
    pub description: Option<String>,
}

/// What a fork answers with.
#[derive(Debug)]
pub struct ForkRepoResponse {
    pub original_hash: String,
    pub forked_hash: String,
    pub message: String,
}

/// A repository with all that the interface shows of it.
#[derive(Debug)]
pub struct DetailedRepoInfo {
    pub repo: Repository,
    pub owner_username: String,
    pub replica_count: i64,
    pub nodes: Vec<NodeInfo>,
    pub health_status: String,
    pub total_commits: i64,
    pub total_bandwidth: i64,
    pub stars: i64,
}

/// The tags to put on a repository.
#[derive(Debug)]
pub struct AddTagsRequest {
    pub tags: Vec<String>,
}

/// A node as the administration sees it.
#[derive(Debug)]
pub struct AdminNodeInfo {
    pub node: Node,
    pub hosted_repos: i64,
    pub total_bandwidth: i64,
}

/// What asks for one more replica by hand.
#[derive(Debug)]
pub struct ManualReplicationRequest {
    pub repo_hash: String,
    pub target_node_id: Option<String>,
}

/// The state of the whole network as the administration sees it. The
/// mean replica count is the fraction `replica_rows / replicated_repos`.
#[derive(Debug, Clone, Copy, PartialEq, Eq, Structural)]
pub struct SystemHealth {
    pub total_repos: i64,
    pub total_nodes: i64,
    pub active_nodes: i64,
    pub total_storage_used: i64,
    pub unhealthy_repos: i64,
    pub replica_rows: i64,
    pub replicated_repos: i64,
    pub total_bandwidth_24h: i64,
}

/// Why `user` may not work with a repository, if there is a reason: a
/// private repository is for its owner, and so is every repository where
/// ownership is asked for.
pub open spec fn access_fault(repo: RepositoryView, user: i64, require_ownership: bool) -> Option<
    HttpStatus,
> {
    if (repo.is_private != 0 || require_ownership) && repo.owner_id != user {
        Some(HttpStatus::Forbidden)
    } else {
        None
    }
}

/// Looks a repository up for a user and decides whether the user may
/// work with it.
pub fn check_repo_access(db: &Database, repo_hash: &str, user_id: i64, require_ownership: bool)
    -> (access: Result<Repository, HttpStatus>)
    requires
        db.wf(),
    ensures
        match access {
            Ok(repo) => has_repo(db@.repositories, repo_hash@) && repo@
                == db@.repositories[repo_index(db@.repositories, repo_hash@)] && access_fault(
                repo@,
                user_id,
                require_ownership,
            ) is None,
            Err(status) => if !has_repo(db@.repositories, repo_hash@) {
                status == HttpStatus::NotFound
            } else {
                access_fault(
                    db@.repositories[repo_index(db@.repositories, repo_hash@)],
                    user_id,
                    require_ownership,
                ) == Some(status)
            },
        },
{
    let repo = match db.get_repository(repo_hash) {
        Ok(repo) => repo,
        Err(_) => {
            return Err(HttpStatus::NotFound);
        },
    };
    if repo.is_private != 0 {
        if repo.owner_id != user_id {
            return Err(HttpStatus::Forbidden);
        }
    }
    if require_ownership && repo.owner_id != user_id {
        return Err(HttpStatus::Forbidden);
    }
    Ok(repo)
}

/// The names under which a readme is looked for, in this order.
pub fn readme_names() -> (names: Vec<&'static str>)
    ensures
        names@.len() == 5,
        names@[0]@ == "README.md"@,
        names@[1]@ == "README.txt"@,
        names@[2]@ == "README"@,
        names@[3]@ == "Readme.md"@,
        names@[4]@ == "readme.md"@,
{
    let mut names: Vec<&'static str> = Vec::new();
    names.push("README.md");
    names.push("README.txt");
    names.push("README");
    names.push("Readme.md");
    names.push("readme.md");
    names
}

/// The page that Markdown text is rendered to.
pub uninterp spec fn markdown_html(text: Seq<char>) -> Seq<char>;

/// Renders Markdown.
///
/// Parses the text with `pulldown_cmark::Parser::new` and writes the
/// events with `pulldown_cmark::html::push_html`. The page depends on the
/// text alone.
#[verifier::external_body]
fn render_markdown(text: &str) -> (page: String)
    ensures
        page@ == markdown_html(text@),
{
    let parser = Parser::new(text);
    let mut page = String::new();
    html::push_html(&mut page, parser);
    page
}

/// A readme as a page shows it: Markdown rendered where the name of the
/// file ends in `.md`, the escaped text as it is otherwise.
pub open spec fn readme_html(name: Seq<char>, content: Seq<char>) -> Seq<char> {
    if has_suffix(name, ".md"@) {
        markdown_html(content)
    } else {
        "<pre>"@ + escaped(content) + "</pre>"@
    }
}

/// Renders the readme `name` with the text `content`.
pub fn render_readme(name: &str, content: &str) -> (page: String)
    ensures
        page@ == readme_html(name@, content@),
{
    if ends_with(name, ".md") {
        render_markdown(content)
    } else {
        let mut page = String::from_str("<pre>");
        let body = html_escape(content);
        page.append(body.as_str());
        page.append("</pre>");
        page
    }
}

/// The name of a fork: the name that was asked for, else the name of the
/// parent with `-fork` behind it.
pub open spec fn fork_name_of(new_name: Option<Seq<char>>, parent: Seq<char>) -> Seq<char> {
    match new_name {
        Some(name) => name,
        None => parent + "-fork"@,
    }
}

/// The description of a fork: the one that was asked for, else `Fork of`
/// and the name of the parent.
pub open spec fn fork_description_of(description: Option<Seq<char>>, parent: Seq<char>) -> Seq<
    char,
> {
    match description {
        Some(text) => text,
        None => "Fork of "@ + parent,
    }
}

/// The request that creates the fork of `parent`: under the name and
/// with the description that were asked for or their defaults, in the
/// free tier, and private where the parent is.
pub fn fork_request(parent: &Repository, new_name: Option<String>, description: Option<String>)
    -> (request: CreateRepoRequest)
    ensures
        request.name@ == fork_name_of(
            match new_name {
                Some(n) => Some(n@),
                None => None,
            },
            parent.name@,
        ),
        request.description matches Some(text) && text@ == fork_description_of(
            match description {
                Some(d) => Some(d@),
                None => None,
            },
            parent.name@,
        ),
        request.storage_tier@ == "free"@,
        request.is_private == (parent.is_private != 0),
{
    let name = match new_name {
        Some(name) => name,
        None => {
            let mut name = parent.name.clone();
            name.append("-fork");
            name
        },
    };
    let description = match description {
        Some(text) => text,
        None => {
            let mut text = String::from_str("Fork of ");
            text.append(parent.name.as_str());
            text
        },
    };
    CreateRepoRequest {
        name,
        description: Some(description),
        storage_tier: String::from_str("free"),
        is_private: parent.is_private != 0,
    }
}

/// What a fork tells the client.
pub fn fork_response(repo_hash: String, fork_hash: String, fork_name: &str) -> (response:
    ForkRepoResponse)
    ensures
        response.original_hash@ == repo_hash@,
        response.forked_hash@ == fork_hash@,
        response.message@ == "Repository forked successfully as "@ + fork_name@,
{
    let mut message = String::from_str("Repository forked successfully as ");
    message.append(fork_name);
    ForkRepoResponse { original_hash: repo_hash, forked_hash: fork_hash, message }
}

/// Removes a repository for its owner: what the store keeps for it, its
/// record in the catalog and every replica on record for it.
pub fn delete_repo_complete(
    db: &mut Database,
    storage: &mut GitStorage,
    user_id: i64,
    repo_hash: &str,
) -> (response: Result<HttpStatus, HttpStatus>)
    requires
        old(db).wf(),
        old(storage).wf(),
    ensures
        final(db).wf(),
        final(storage).wf(),
        match response {
            Ok(status) => {
                &&& status == HttpStatus::NoContent
                &&& has_repo(old(db)@.repositories, repo_hash@)
                &&& old(db)@.repositories[repo_index(old(db)@.repositories, repo_hash@)].owner_id
                    == user_id
                &&& replica_count(final(db)@.replicas, repo_hash@) == 0
                &&& final(db)@ == (DatabaseView {
                    repositories: repo_removed(old(db)@.repositories, repo_hash@),
                    replicas: without_repo(old(db)@.replicas, repo_hash@),
                    ..old(db)@
                })
                &&& final(storage)@ == (StorageView {
                    base_path: old(storage)@.base_path,
                    roots: strings_without(old(storage)@.roots, repo_hash@),
                    objects: objects_without(old(storage)@.objects, repo_hash@),
                    refs: refs_without(old(storage)@.refs, repo_hash@),
                })
            },
            Err(status) => {
                &&& final(db)@ == old(db)@
                &&& final(storage)@ == old(storage)@
                &&& if !has_repo(old(db)@.repositories, repo_hash@) {
                    status == HttpStatus::NotFound
                } else {
                    status == HttpStatus::Forbidden && old(db)@.repositories[repo_index(
                        old(db)@.repositories,
                        repo_hash@,
                    )].owner_id != user_id
                }
            },
        },
{
    let repo = match db.get_repository(repo_hash) {
        Ok(repo) => repo,
        Err(_) => {
            return Err(HttpStatus::NotFound);
        },
    };
    if repo.owner_id != user_id {
        return Err(HttpStatus::Forbidden);
    }
    storage.delete_repo(repo_hash);
    db.delete_repository_complete(repo_hash);
    Ok(HttpStatus::NoContent)
}

/// Decides whether `user_id` may put tags on a repository: its owner
/// may.
pub fn add_tags_access(db: &Database, repo_hash: &str, user_id: i64) -> (verdict: Result<
    (),
    HttpStatus,
>)
    requires
        db.wf(),
    ensures
        match verdict {
            Ok(_) => has_repo(db@.repositories, repo_hash@) && db@.repositories[repo_index(
                db@.repositories,
                repo_hash@,
            )].owner_id == user_id,
            Err(status) => if !has_repo(db@.repositories, repo_hash@) {
                status == HttpStatus::NotFound
            } else {
                status == HttpStatus::Forbidden && db@.repositories[repo_index(
                    db@.repositories,
                    repo_hash@,
                )].owner_id != user_id
            },
        },
{
    match db.get_repository(repo_hash) {
        Ok(repo) => if repo.owner_id != user_id {
            Err(HttpStatus::Forbidden)
        } else {
            Ok(())
        },
        Err(_) => Err(HttpStatus::NotFound),
    }
}

/// The active nodes, best reputation first, each with the number of
/// repositories that it is on record as holding.
pub fn admin_list_nodes(db: &Database, timeout_minutes: i32, now: i64) -> (listing: Vec<
    AdminNodeInfo,
>)
    requires
        db.wf(),
    ensures
        lists_active(
            db@.nodes,
            timeout_minutes,
            now,
            listing@.map_values(|info: AdminNodeInfo| info.node@),
        ),
        forall|i: int|
            0 <= i < listing@.len() ==> (#[trigger] listing@[i]).hosted_repos == clamped(
                hosted_count(db@.replicas, listing@[i].node.node_id@) as int,
            ) && listing@[i].total_bandwidth == 0,
{
    let nodes = db.list_active_nodes(timeout_minutes, now);
    let ghost listed = node_views(nodes@);
    let mut listing: Vec<AdminNodeInfo> = Vec::new();
    let mut i: usize = 0;
    while i < nodes.len()
        invariant
            i <= nodes.len(),
            listed == node_views(nodes@),
            listing@.map_values(|info: AdminNodeInfo| info.node@) == listed.take(i as int),
            forall|k: int|
                0 <= k < listing@.len() ==> (#[trigger] listing@[k]).hosted_repos == clamped(
                    hosted_count(db@.replicas, listing@[k].node.node_id@) as int,
                ) && listing@[k].total_bandwidth == 0,
        decreases nodes.len() - i,
    {
        let node = nodes[i].clone();
        let hosted_repos = db.count_node_repos(node.node_id.as_str());
        let info = AdminNodeInfo { node, hosted_repos, total_bandwidth: 0 };
        proof {
            assert(listing@.push(info).map_values(|info: AdminNodeInfo| info.node@)
                == listing@.map_values(|info: AdminNodeInfo| info.node@).push(info.node@));
            assert(listed.take(i + 1) == listed.take(i as int).push(listed[i as int]));
        }
        listing.push(info);
        i += 1;
    }
    assert(listed.take(i as int) == listed);
    listing
}

/// The state of the network for the administration: the figures of the
/// catalog at `now` and the number of repositories below the minimum.
pub fn admin_system_health(db: &Database, min_replica_count: i32, now: i64) -> (health:
    SystemHealth)
    requires
        db.wf(),
    ensures
        health == (SystemHealth {
            total_repos: network_stats(db@, now).total_repos,
            total_nodes: network_stats(db@, now).total_nodes,
            active_nodes: network_stats(db@, now).active_nodes,
            total_storage_used: network_stats(db@, now).total_storage_used,
            unhealthy_repos: clamped(
                under_replicated(
                    db@.repositories,
                    db@.replicas,
                    min_replica_count as int,
                ).len() as int,
            ),
            replica_rows: network_stats(db@, now).replica_rows,
            replicated_repos: network_stats(db@, now).replicated_repos,
            total_bandwidth_24h: 0,
        }),
{
    let stats = db.get_network_stats(now);
    let unhealthy = db.get_unhealthy_repos(min_replica_count);
    SystemHealth {
        total_repos: stats.total_repos,
        total_nodes: stats.total_nodes,
        active_nodes: stats.active_nodes,
        total_storage_used: stats.total_storage_used,
        unhealthy_repos: count_as_i64(unhealthy.len()),
        replica_rows: stats.replica_rows,
        replicated_repos: stats.replicated_repos,
        total_bandwidth_24h: 0,
    }
}

/// The details of a repository for the interface, apart from what the
/// accounts tell: the count of its active hosts and the health that it
/// stands for.
pub fn repo_health_details(db: &Database, min_replica_count: i32, repo_hash: &str, now: i64) -> (details:
    (i64, Vec<NodeInfo>, String))
    requires
        db.wf(),
    ensures
        crate::replicas::info_views(details.1@) == crate::replicas::active_hosts(
            db@.replicas,
            db@.nodes,
            repo_hash@,
            db@.heartbeat_timeout_minutes,
            now,
        ),
        details.0 == clamped(details.1@.len() as int),
        details.2@ == health_label_of(details.0 as int, min_replica_count as int),
{
    let nodes = db.list_repo_replicas(repo_hash, now);
    let replica_count = count_as_i64(nodes.len());
    let health_status = String::from_str(health_label(replica_count, min_replica_count));
    (replica_count, nodes, health_status)
}

} // verus!
