use hyrule::db::Database;
use hyrule::handlers::admin_web::{check_admin_access, AdminFault};
use hyrule::handlers::api::{get_repo, health_label, node_heartbeat, request_replication};
use hyrule::handlers::api_complete::{
    admin_list_nodes, admin_system_health, check_repo_access, delete_repo_complete, fork_request,
    render_readme,
};
use hyrule::handlers::api_enhanced::{check_signup, new_user_request, search_limit};
use hyrule::handlers::repo_browser::{
    browse, parse_branches, parse_commit_line, parse_commit_log, parse_tree_line,
    parse_tree_listing, tree_argument, CommitInfo, FileEntry,
};
use hyrule::handlers::web_enhanced::{
    action_redirect, create_repo_request, parse_repo_action, search_plan, CreateRepoForm,
    RepoActionKind, SearchPlan, SearchQuery,
};
use hyrule::handlers::HttpStatus;
use hyrule::models::{CreateRepoRequest, Node, NodeHeartbeat, Repository};
use hyrule::storage::git::GitStorage;
use hyrule::templates::admin_nodes_enchanced::{
    admin_nodes_enhanced, node_totals, parse_node_action, storage_usage_percent, NodeActionKind,
};
use hyrule::templates::{self, format_size, minute_text, read_branch_line};
use hyrule::text::{lines, split_text, trim, words};

const REPO: &str = "abcdef1234567890abcdef1234567890abcdef12";

fn repo() -> Repository {
    Repository {
        repo_hash: REPO.to_string(),
        owner_id: 1,
        name: "demo".to_string(),
        description: Some("a <demo>".to_string()),
        size: 4096,
        storage_tier: "free".to_string(),
        is_private: 0,
        created_at: 0,
        last_updated: 86400,
    }
}

fn node(id: &str, reputation: i32, used: i64) -> Node {
    Node {
        node_id: id.to_string(),
        address: "10.0.0.1".to_string(),
        port: 7000,
        last_seen: 100,
        reputation_score: reputation,
        storage_capacity: 1000,
        storage_used: used,
        is_anchor: 1,
    }
}

#[test]
fn text_is_split_as_the_standard_library_splits_it() {
    for text in ["", "a", "a\n", "a\nb", "a\r\nb\r\n", "\n\n", "a\r", "\r\n", "x\n\ny"] {
        let expected: Vec<String> = text.lines().map(|l| l.to_string()).collect();
        assert_eq!(lines(text), expected, "lines of {:?}", text);
    }
    for text in ["", "  ", "a", " a  b\tc\n", "a\u{a0}b", "100644 blob abc 12 my file.txt"] {
        let expected: Vec<String> = text.split_whitespace().map(|l| l.to_string()).collect();
        assert_eq!(words(text), expected, "words of {:?}", text);
    }
    for text in ["", "a", "a/b", "/a//b/", "///"] {
        let expected: Vec<String> = text.split('/').map(|l| l.to_string()).collect();
        assert_eq!(split_text(text, '/'), expected, "parts of {:?}", text);
    }
    for text in ["", "  ", " a b ", "\u{3000}a\u{85}", "\ta\r\n", "a"] {
        assert_eq!(trim(text), text.trim(), "trim of {:?}", text);
    }
}

#[test]
fn sizes_are_shown_as_float_formatting_shows_them() {
    let mut sizes: Vec<usize> = vec![0, 1, 1023, 1024, 1025, 1075, 1076, 1077, 1126, 1127, 1128];
    sizes.extend([1536, 10188, 10189, 10190, 1048575, 1048576, 1100000, 1101005, 1101004]);
    sizes.extend([1 << 30, (1 << 30) + 52428, (1 << 30) + 52429, 123456789012]);
    for k in 0..2000usize {
        sizes.push(1024 + k * 51);
        sizes.push(1048576 + k * 52429);
    }
    for bytes in sizes {
        let expected = if bytes < 1024 {
            format!("{} B", bytes)
        } else if bytes < 1024 * 1024 {
            format!("{:.1} KB", bytes as f64 / 1024.0)
        } else {
            format!("{:.1} MB", bytes as f64 / (1024.0 * 1024.0))
        };
        assert_eq!(format_size(bytes), expected, "size of {}", bytes);
    }
}

#[test]
fn tree_listing_is_read_line_by_line() {
    let entry = parse_tree_line("100644 blob 0123abc     12\tmy file.txt", "src").unwrap();
    assert_eq!(
        (entry.name.as_str(), entry.path.as_str(), entry.is_dir, entry.size),
        ("my file.txt", "src/my file.txt", false, Some(12))
    );
    let dir = parse_tree_line("040000 tree 0123abc       -\tdocs", "").unwrap();
    assert_eq!((dir.name.as_str(), dir.path.as_str(), dir.is_dir, dir.size), ("docs", "docs", true, None));
    let nameless = parse_tree_line("040000 tree 0123abc x", "").unwrap();
    assert_eq!((nameless.name.as_str(), nameless.size), ("", None));
    assert!(parse_tree_line("040000 tree 0123abc", "").is_none());
    let all = parse_tree_listing("100644 blob a 1\tx\nbroken\n100644 blob b 2\ty\n", "d");
    let paths: Vec<&str> = all.iter().map(|e| e.path.as_str()).collect();
    assert_eq!(paths, vec!["d/x", "d/y"]);
    assert_eq!(tree_argument("main", ""), "main:");
    assert_eq!(tree_argument("main", "src/lib"), "main:src/lib");
}

#[test]
fn history_is_read_line_by_line() {
    let commit = parse_commit_line("abc\0Zelda\0z@h.l\0 1700000000\0msg").unwrap();
    assert_eq!(commit.timestamp, 0);
    let commit = parse_commit_line("abc\0Zelda\0z@h.l\x001700000000\0fix: a\0b").unwrap();
    assert_eq!(
        (commit.hash.as_str(), commit.author.as_str(), commit.email.as_str(), commit.timestamp, commit.message.as_str()),
        ("abc", "Zelda", "z@h.l", 1700000000, "fix: a")
    );
    assert!(parse_commit_line("abc\0Zelda\0z@h.l\x001700000000").is_none());
    let log = parse_commit_log("a\0b\0c\x005\0d\nnot a commit\ne\0f\0g\0-7\0h\n");
    assert_eq!(log.len(), 2);
    assert_eq!(log[1].timestamp, -7);
    assert_eq!(parse_branches("* main\n  dev \n"), vec!["* main".to_string(), "dev".to_string()]);
    assert_eq!(read_branch_line("  * * main \n"), ("main".to_string(), true));
    assert_eq!(read_branch_line(" dev"), ("dev".to_string(), false));
    assert_eq!(read_branch_line("*main"), ("*main".to_string(), true));
    assert_eq!(read_branch_line(""), (String::new(), false));
}

#[test]
fn history_page_escapes_what_commits_say() {
    let commits = vec![CommitInfo {
        hash: "0123456789abcdef".to_string(),
        author: "A <B>".to_string(),
        email: "a@b".to_string(),
        timestamp: 1_700_000_000,
        message: "fix \"x\" & y".to_string(),
    }];
    let page = templates::commits::render(&repo(), "main", &commits);
    assert!(page.contains("<title>Commits - demo - Hyrule</title>"));
    assert!(page.contains("2023-11-14 22:13"));
    assert!(page.contains("fix &quot;x&quot; &amp; y"));
    assert!(page.contains("A &lt;B&gt;"));
    assert!(page.contains("01234567"));
    assert!(templates::commits::render(&repo(), "main", &Vec::new()).contains("No commits yet"));
    assert_eq!(minute_text(-60), "1969-12-31 23:59");
    let view = templates::commit_view::render(&repo(), "0123456789abcdef", "msg", "+++ b/x\n+new\n-old\n@@ -1 +1 @@\n ctx");
    assert!(view.contains("<title>Commit 01234567 - demo - Hyrule</title>"));
    assert!(view.contains("<tr class=\"diff-add\">"));
    assert!(view.contains("<tr class=\"diff-remove\">"));
    assert!(view.contains("<tr class=\"diff-info\">"));
    assert_eq!(view.matches("<tr class=\"diff-context\">").count(), 2);
    assert!(templates::commit_view::render(&repo(), "0123456789", "m", "")
        .contains("No changes in this commit"));
    let branches =
        templates::branches::render(&repo(), &vec!["* main".to_string(), "dev".to_string()]);
    assert!(branches.contains("<div class=\"branch-item branch-current\">"));
    assert!(branches.contains("<span class='current-badge'>Current</span>"));
    assert!(branches.contains("<div class=\"branch-item \">"));
}

#[test]
fn file_pages_link_every_directory_of_the_path() {
    let files = vec![
        FileEntry { name: "a b".to_string(), path: "src/a b".to_string(), is_dir: false, size: Some(1536) },
        FileEntry { name: "sub".to_string(), path: "src/sub".to_string(), is_dir: true, size: None },
    ];
    let page = templates::files::render(&repo(), "main", "src", &files);
    assert!(page.contains(&format!("<a href=\"/r/{}/file/src%2Fa%20b?branch=main\"", REPO)));
    assert!(page.contains(&format!("<a href=\"/r/{}/files/src%2Fsub?branch=main\"", REPO)));
    assert!(page.contains("1.5 KB"));
    let crumb = templates::files::render_breadcrumb(REPO, "a/b c/d", "main");
    assert!(crumb.contains(&format!(
        "<a href=\"/r/{h}/files?branch=main\">root</a> / <a href=\"/r/{h}/files/a?branch=main\">a</a> / <a href=\"/r/{h}/files/a%2Fb%20c?branch=main\">b c</a> / d",
        h = REPO
    )));
    assert!(templates::files::render(&repo(), "main", "", &Vec::new())
        .contains("This directory is empty"));
    let view = templates::files::file_view::render(&repo(), "main", "src/lib.rs", "fn <main>() {}");
    assert!(view.contains("<title>lib.rs - demo - Hyrule</title>"));
    assert!(view.contains("fn &lt;main&gt;() {}"));
    let binary = templates::files::file_view::render(&repo(), "main", "a.bin", "a\u{1}b");
    assert!(binary.contains("Binary file - cannot display"));
    assert!(!templates::files::file_view::looks_binary("a\tb\r\nc"));
}

#[test]
fn administration_pages_show_the_figures() {
    let dash = templates::admin::render_dashboard(12, 3, 1, 5 << 30, (3 << 30) - 1);
    assert!(dash.contains("<title>Admin Dashboard - Hyrule</title>"));
    let nodes = templates::admin::render_nodes(&vec![(node("0123456789abcdef", 90, 10), 4)]);
    assert!(nodes.contains("0123456789ab"));
    assert!(nodes.contains("1970-01-01 00:01:40"));
    assert!(nodes.contains("Healthy"));
    assert!(templates::admin::render_nodes(&vec![(node("short", 79, 10), 4)]).contains("Degraded"));
    assert!(templates::admin::render_repos(&vec![repo()]).contains("1970-01-02"));
    let stats = vec![templates::admin_nodes_enchanced::node_stats(node("n1", 90, 899), 2)];
    assert!(stats[0].is_healthy);
    assert_eq!(stats[0].storage_usage_percent, 89);
    let page = templates::admin_enhanced::nodes_enhanced::render(&stats, 1, 1, 1000, 899);
    assert!(page.contains("node-healthy"));
    let details = templates::admin_enhanced::node_details::render(&node("n1", 90, 1), 0, &Vec::new());
    assert!(details.contains("No repositories hosted"));
    let dashboard = templates::dashboard_enhanced::render(&vec![repo()], "ze<l>da", 2, 3);
    assert!(dashboard.contains("ze&lt;l&gt;da"));
    assert!(dashboard.contains("a &lt;demo&gt;"));
    assert!(templates::dashboard_enhanced::render_with_user(&Vec::new(), None, 0, 0)
        .contains("Guest"));
}

#[test]
fn node_figures_sort_healthy_nodes_first() {
    assert_eq!(storage_usage_percent(899, 1000), 89);
    assert_eq!(storage_usage_percent(900, 1000), 90);
    assert_eq!(storage_usage_percent(5, 0), 0);
    assert_eq!(storage_usage_percent(-15, 10), -150);
    assert_eq!(storage_usage_percent(i64::MAX, 1), i32::MAX);
    let mut db = Database::new(10);
    assert!(db.restore_node(node("full", 100, 950)));
    assert!(db.restore_node(node("weak", 50, 1)));
    assert!(db.restore_node(node("good", 85, 1)));
    assert!(db.restore_node(node("best", 95, 1)));
    db.create_replica("R", "good", 0);
    let listing = admin_nodes_enhanced(&db, 10, 100);
    let ids: Vec<&str> = listing.iter().map(|s| s.node.node_id.as_str()).collect();
    assert_eq!(ids, vec!["best", "good", "full", "weak"]);
    assert_eq!(listing[1].repo_count, 1);
    assert_eq!(node_totals(&listing), (4, 2, 4000, 953));
    assert_eq!(parse_node_action("ping"), Ok(NodeActionKind::Ping));
    assert_eq!(parse_node_action("trust"), Ok(NodeActionKind::Trust));
    assert_eq!(parse_node_action("explode"), Err(HttpStatus::BadRequest));
    let plain = admin_list_nodes(&db, 10, 100);
    assert_eq!(plain[0].node.node_id, "full");
    assert_eq!(plain[2].hosted_repos, 1);
    let health = admin_system_health(&db, 3, 100);
    assert_eq!((health.active_nodes, health.unhealthy_repos, health.replica_rows), (4, 0, 1));
}

#[test]
fn endpoints_of_repositories_decide_by_owner_and_privacy() {
    let mut db = Database::new(10);
    let request = CreateRepoRequest {
        name: "secret".to_string(),
        description: None,
        storage_tier: "free".to_string(),
        is_private: true,
    };
    db.create_repository(&request, 1, REPO, 0).unwrap();
    assert!(check_repo_access(&db, REPO, 1, true).is_ok());
    assert_eq!(check_repo_access(&db, REPO, 2, false).err(), Some(HttpStatus::Forbidden));
    assert_eq!(check_repo_access(&db, "none", 1, false).err(), Some(HttpStatus::NotFound));
    assert_eq!(browse(&db, REPO, None, None, None, None).err(), Some(HttpStatus::Unauthorized));
    assert_eq!(browse(&db, REPO, None, None, Some(2), None).err(), Some(HttpStatus::Forbidden));
    assert_eq!(
        browse(&db, REPO, Some("../x"), None, Some(1), None).err(),
        Some(HttpStatus::BadRequest)
    );
    assert_eq!(
        browse(&db, REPO, None, Some("xyz"), Some(1), None).err(),
        Some(HttpStatus::BadRequest)
    );
    assert_eq!(
        browse(&db, REPO, None, None, Some(1), Some("a..b".to_string())).err(),
        Some(HttpStatus::BadRequest)
    );
    let (found, branch) = browse(&db, REPO, Some("src"), None, Some(1), None).unwrap();
    assert_eq!((found.name.as_str(), branch.as_str()), ("secret", "main"));

    db.restore_node(node("n1", 50, 0));
    assert_eq!(get_repo(&db, 3, REPO, 100).unwrap().health_status, "Needs replication");
    let answer = request_replication(&mut db, REPO, 100);
    assert!(answer.success);
    assert_eq!(answer.message, "Replication requested to node: n1");
    let again = request_replication(&mut db, REPO, 100);
    assert!(!again.success);
    assert_eq!(again.message, "Replication failed: No available nodes for replication");
    assert_eq!(get_repo(&db, 1, REPO, 100).unwrap().health_status, "Good");
    assert_eq!(health_label(5, 9), "Excellent");
    let beat = NodeHeartbeat {
        node_id: "n1".to_string(),
        storage_used: 5,
        hosted_repos: vec![REPO.to_string(), "other".to_string()],
    };
    assert_eq!(node_heartbeat(&mut db, &beat, 200), HttpStatus::Success);
    assert_eq!(db.get_node("n1").unwrap().last_seen, 200);
    assert_eq!(db.count_node_repos("n1"), 2);

    let mut storage = GitStorage::new("/data".to_string());
    storage.store_object(REPO, "0123456789abcdef0123456789abcdef01234567", b"x").unwrap();
    assert_eq!(
        delete_repo_complete(&mut db, &mut storage, 2, REPO),
        Err(HttpStatus::Forbidden)
    );
    assert_eq!(delete_repo_complete(&mut db, &mut storage, 1, REPO), Ok(HttpStatus::NoContent));
    assert_eq!(db.get_replica_count(REPO), 0);
    assert!(storage.list_objects(REPO).is_empty());
    assert_eq!(delete_repo_complete(&mut db, &mut storage, 1, REPO), Err(HttpStatus::NotFound));
}

#[test]
fn forms_are_read_into_requests() {
    let fork = fork_request(&repo(), None, None);
    assert_eq!(fork.name, "demo-fork");
    assert_eq!(fork.description, Some("Fork of demo".to_string()));
    assert!(!fork.is_private);
    let named = fork_request(&repo(), Some("mine".to_string()), Some("d".to_string()));
    assert_eq!((named.name.as_str(), named.description.as_deref()), ("mine", Some("d")));
    assert_eq!(check_signup("ab", "longenough"), Err("Username must be 3-32 characters"));
    assert_eq!(check_signup("abc", "short"), Err("Password must be at least 8 characters"));
    assert_eq!(check_signup("abc", "longenough"), Ok(()));
    let user = new_user_request("zelda", "hash".to_string(), 7);
    assert_eq!(user.email, "zelda@hyrule.local");
    assert_eq!(user.public_key, hex::encode(blake3::hash(b"zelda").as_bytes()));
    assert_eq!(search_limit(None), 20);
    assert_eq!(search_limit(Some(500)), 100);
    assert_eq!(search_limit(Some(-3)), -3);
    assert_eq!(parse_repo_action("unpin"), Ok(RepoActionKind::Unpin));
    assert_eq!(parse_repo_action("Star"), Err(HttpStatus::BadRequest));
    assert_eq!(action_redirect(RepoActionKind::Delete, "h"), "/dashboard");
    assert_eq!(action_redirect(RepoActionKind::Star, "h"), "/r/h");
    let form = CreateRepoForm { name: "ab".to_string(), description: None, is_private: None };
    assert_eq!(create_repo_request(form).err(), Some(HttpStatus::BadRequest));
    let form = CreateRepoForm {
        name: "abc".to_string(),
        description: None,
        is_private: Some("on".to_string()),
    };
    assert!(create_repo_request(form).unwrap().is_private);
    let (plan, term) = search_plan(SearchQuery { q: None, tag: Some("rust".to_string()) });
    assert!(matches!(plan, SearchPlan::Tag(_)));
    assert_eq!(term, "tag:rust");
    assert_eq!(render_readme("README", "a<b"), "<pre>a&lt;b</pre>");
    assert_eq!(render_readme("README.md", "# Title"), "<h1>Title</h1>\n");
    assert_eq!(check_admin_access(None, Some(1)), Err(AdminFault::LoginRequired));
    assert_eq!(check_admin_access(Some((1, "a".to_string())), None), Err(AdminFault::Unverified));
    assert_eq!(check_admin_access(Some((1, "a".to_string())), Some(0)), Err(AdminFault::Denied));
    assert_eq!(
        check_admin_access(Some((1, "a".to_string())), Some(1)),
        Ok((1, "a".to_string()))
    );
}

#[test]
fn links_write_every_other_byte_in_upper_case_hex() {
    let files = vec![FileEntry {
        name: "z\u{e9}l-d_a.~x".to_string(),
        path: "d\u{e9}/a+b&c=d?#%".to_string(),
        is_dir: false,
        size: None,
    }];
    let page = templates::files::render(&repo(), "main", "", &files);
    assert!(page.contains(&format!(
        "<a href=\"/r/{}/file/d%C3%A9%2Fa%2Bb%26c%3Dd%3F%23%25?branch=main\"",
        REPO
    )));
    let plain = vec![FileEntry {
        name: "n".to_string(),
        path: "Az09-._~".to_string(),
        is_dir: true,
        size: None,
    }];
    let page = templates::files::render(&repo(), "main", "", &plain);
    assert!(page.contains(&format!("<a href=\"/r/{}/files/Az09-._~?branch=main\"", REPO)));
}
