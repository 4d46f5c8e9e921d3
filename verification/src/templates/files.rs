//! The page of a directory of a repository.

use vstd::prelude::*;
use vstd::string::StringExecFns;
use crate::models::{Repository, RepositoryView};
use crate::templates::layout::{page, render_page};
use crate::encoding::{url_encode, url_encoded};
use crate::handlers::repo_browser::{entry_views, FileEntry, FileEntryView};
use crate::templates::{escaped, format_size, html_escape, size_of};
use crate::text::{joined_with, split_on, split_text, texts};

pub mod file_view;

verus! {

/// Part 1 of the body of the page.
pub const BODY_0: &'static str = r#"
    "#;

/// Part 2 of the body of the page.
pub const BODY_1: &'static str = r#"
    
    <div class="repo-header">
        <h1>"#;

/// Part 3 of the body of the page.
pub const BODY_2: &'static str = r#"</h1>
        <p class="repo-description">Browse Files</p>
    </div>
    
    <div class="repo-nav">
        <a href="/r/"#;

/// Part 4 of the body of the page.
pub const BODY_3: &'static str = "/files?branch=";

/// Part 5 of the body of the page.
pub const BODY_4: &'static str = r#"" class="nav-tab active">Files</a>
        <a href="/r/"#;

/// Part 6 of the body of the page.
pub const BODY_5: &'static str = "/commits?branch=";

/// Part 7 of the body of the page.
pub const BODY_6: &'static str = r#"" class="nav-tab">Commits</a>
        <a href="/r/"#;

/// Part 8 of the body of the page.
pub const BODY_7: &'static str = r#"/branches" class="nav-tab">Branches</a>
        <a href="/r/"#;

/// Part 9 of the body of the page.
pub const BODY_8: &'static str = r#"/clone" class="nav-tab">Clone</a>
    </div>
    
    <div class="branch-selector">
        <strong>Branch:</strong> "#;

/// Part 10 of the body of the page.
pub const BODY_9: &'static str = r#" 
        <a href="/r/"#;

/// Part 11 of the body of the page.
pub const BODY_10: &'static str = r#"/branches" class="btn btn-secondary">Switch Branch</a>
    </div>
    
    <div class="file-browser">
        <div class="file-list">
            "#;

/// Part 12 of the body of the page.
pub const BODY_11: &'static str = r#"
        </div>
    </div>
    
    <style>
        .branch-selector {
            background: var(--bg-glass);
            padding: 1rem 2rem;
            border-radius: var(--border-radius);
            margin: 2rem 0;
            display: flex;
            justify-content: space-between;
            align-items: center;
            border: 2px solid var(--border-color);
        }
        
        .file-browser {
            background: var(--bg-glass);
            border: 2px solid var(--border-color);
            border-radius: var(--border-radius);
            overflow: hidden;
            margin-top: 2rem;
        }
        
        .file-list {
            display: flex;
            flex-direction: column;
        }
        
        .file-entry {
            display: flex;
            align-items: center;
            padding: 1rem 2rem;
            border-bottom: 1px solid var(--border-color);
            transition: all 0.3s ease;
            text-decoration: none;
            color: var(--text-color);
        }
        
        .file-entry:last-child {
            border-bottom: none;
        }
        
        .file-entry:hover {
            background: rgba(0, 255, 136, 0.05);
            transform: translateX(8px);
        }
        
        .file-icon {
            font-size: 1.5rem;
            margin-right: 1rem;
            min-width: 2rem;
            text-align: center;
        }
        
        .file-name {
            flex: 1;
            font-weight: 600;
            color: var(--text-color);
        }
        
        .file-size {
            color: var(--text-muted);
            font-size: 0.9rem;
            min-width: 100px;
            text-align: right;
        }
        
        .parent-dir {
            background: rgba(0, 255, 136, 0.05);
        }
    </style>
    "#;

/// Part 1 of the breadcrumb of the root.
pub const ROOT_0: &'static str = r#"<div class="breadcrumb">
                <a href="/r/"#;

/// Part 2 of the breadcrumb of the root.
pub const ROOT_1: &'static str = r#"">← Back to Repository</a>
            </div>"#;

/// Part 1 of the link to the root.
pub const ROOT_LINK_0: &'static str = r#"<a href="/r/"#;

/// Part 2 of the link to the root.
pub const ROOT_LINK_1: &'static str = "/files?branch=";

/// Part 3 of the link to the root.
pub const ROOT_LINK_2: &'static str = r#"">root</a>"#;

/// Part 1 of the link to a directory above.
pub const CRUMB_0: &'static str = r#"<a href="/r/"#;

/// Part 2 of the link to a directory above.
pub const CRUMB_1: &'static str = "/files/";

/// Part 3 of the link to a directory above.
pub const CRUMB_2: &'static str = "?branch=";

/// Part 4 of the link to a directory above.
pub const CRUMB_3: &'static str = r#"">"#;

/// Part 5 of the link to a directory above.
pub const CRUMB_4: &'static str = "</a>";

/// Part 1 of the breadcrumb of a directory.
pub const TRAIL_0: &'static str = r#"<div class="breadcrumb">
                <a href="/r/"#;

/// Part 2 of the breadcrumb of a directory.
pub const TRAIL_1: &'static str = r#"">← Repository</a> / "#;

/// Part 3 of the breadcrumb of a directory.
pub const TRAIL_2: &'static str = r#"
            </div>"#;

/// Part 1 of the entry of a file.
pub const ENTRY_0: &'static str = r#"<a href=""#;

/// Part 2 of the entry of a file.
pub const ENTRY_1: &'static str = r#"" class="file-entry">
            <span class="file-icon">"#;

/// Part 3 of the entry of a file.
pub const ENTRY_2: &'static str = r#"</span>
            <span class="file-name">"#;

/// Part 4 of the entry of a file.
pub const ENTRY_3: &'static str = r#"</span>
            <span class="file-size">"#;

/// Part 5 of the entry of a file.
pub const ENTRY_4: &'static str = r#"</span>
        </a>"#;

/// The icon of a directory.
pub const DIR_ICON: &'static str = "";

/// The icon of a file.
pub const FILE_ICON: &'static str = "";

/// What the page shows for an empty directory.
pub const EMPTY: &'static str = "<p class='empty-state'>This directory is empty or the branch doesn't exist yet.</p>";

/// The links of a breadcrumb to the first `count` parts of a path, each
/// to the directory that the parts up to it name; the last part of the
/// path stands without a link.
pub open spec fn crumbs(
    parts: Seq<Seq<char>>,
    count: int,
    repo_hash: Seq<char>,
    branch: Seq<char>,
) -> Seq<Seq<char>>
    decreases count,
{
    if count <= 0 {
        seq![ROOT_LINK_0@ + repo_hash + ROOT_LINK_1@ + branch + ROOT_LINK_2@]
    } else {
        crumbs(parts, count - 1, repo_hash, branch).push(
            if count == parts.len() {
                parts[count - 1]
            } else {
                CRUMB_0@ + repo_hash + CRUMB_1@ + url_encoded(joined_with(parts.take(count), "/"@)) + CRUMB_2@ + branch + CRUMB_3@ + parts[count - 1] + CRUMB_4@
            },
        )
    }
}

/// The breadcrumb above a listing: the root alone for the root, else the
/// root and the directories of the path, ` / ` between them.
pub open spec fn breadcrumb(repo_hash: Seq<char>, current_path: Seq<char>, branch: Seq<char>) -> Seq<
    char,
> {
    if current_path.len() == 0 {
        ROOT_0@ + repo_hash + ROOT_1@
    } else {
        let parts = split_on(current_path, '/');
        TRAIL_0@ + repo_hash + TRAIL_1@ + joined_with(crumbs(parts, parts.len() as int, repo_hash, branch), " / "@) + TRAIL_2@
    }
}

/// Renders the breadcrumb above a listing.
pub fn render_breadcrumb(repo_hash: &str, current_path: &str, branch: &str) -> (html: String)
    ensures
        html@ == breadcrumb(repo_hash@, current_path@, branch@),
{
    if current_path.is_empty() {
        let mut html = String::from_str(ROOT_0);
        html.append(repo_hash);
        html.append(ROOT_1);
        return html;
    }
    let parts = split_text(current_path, '/');
    let ghost names = texts(parts@);
    let mut path_so_far = String::new();
    let mut root = String::from_str(ROOT_LINK_0);
    root.append(repo_hash);
    root.append(ROOT_LINK_1);
    root.append(branch);
    root.append(ROOT_LINK_2);
    let mut joined = root;
    let mut i: usize = 0;
    proof {
        assert(names.take(0).len() == 0);
    }
    while i < parts.len()
        invariant
            i <= parts.len(),
            names == texts(parts@),
            path_so_far@ == joined_with(names.take(i as int), "/"@),
            joined@ == joined_with(crumbs(names, i as int, repo_hash@, branch@), " / "@),
            crumbs(names, i as int, repo_hash@, branch@).len() == i + 1,
        decreases parts.len() - i,
    {
        let part = parts[i].as_str();
        proof {
            assert(names.take(i + 1).drop_last() == names.take(i as int));
            assert(names.take(i + 1).last() == part@);
            assert(names[i as int] == part@);
            if i == 0 {
                assert(Seq::<char>::empty() + part@ == part@);
            }
        }
        if i > 0 {
            path_so_far.append("/");
        }
        path_so_far.append(part);
        let ghost before = crumbs(names, i as int, repo_hash@, branch@);
        let ghost after = crumbs(names, i + 1, repo_hash@, branch@);
        proof {
            assert(after.drop_last() == before);
        }
        joined.append(" / ");
        if i == parts.len() - 1 {
            joined.append(part);
        } else {
            let encoded = url_encode(path_so_far.as_str());
            let mut link = String::from_str(CRUMB_0);
            link.append(repo_hash);
            link.append(CRUMB_1);
            link.append(encoded.as_str());
            link.append(CRUMB_2);
            link.append(branch);
            link.append(CRUMB_3);
            link.append(part);
            link.append(CRUMB_4);
            joined.append(link.as_str());
        }
        i += 1;
    }
    let mut html = String::from_str(TRAIL_0);
    html.append(repo_hash);
    html.append(TRAIL_1);
    html.append(joined.as_str());
    html.append(TRAIL_2);
    html
}

/// The address of the page of an entry: the listing of a directory, or
/// the view of a file.
pub open spec fn entry_url(file: FileEntryView, repo_hash: Seq<char>, branch: Seq<char>) -> Seq<char> {
    "/r/"@ + repo_hash + (if file.is_dir {
        "/files/"@
    } else {
        "/file/"@
    }) + url_encoded(file.path) + "?branch="@ + branch
}

/// The entry of a file or directory: its icon, its escaped name with a
/// link, and its size, or `-` where it has none.
pub open spec fn file_entry(file: FileEntryView, repo_hash: Seq<char>, branch: Seq<char>) -> Seq<char> {
    ENTRY_0@ + entry_url(file, repo_hash, branch) + ENTRY_1@ + (if file.is_dir {
        DIR_ICON@
    } else {
        FILE_ICON@
    }) + ENTRY_2@ + escaped(file.name) + ENTRY_3@ + (match file.size {
        Some(bytes) => size_of(bytes as nat),
        None => "-"@,
    }) + ENTRY_4@
}

/// Renders the entry of a file or directory.
pub fn render_file_entry(file: &FileEntry, repo_hash: &str, branch: &str) -> (html: String)
    ensures
        html@ == file_entry(file@, repo_hash@, branch@),
{
    let icon = if file.is_dir {
        DIR_ICON
    } else {
        FILE_ICON
    };
    let kind = if file.is_dir {
        "/files/"
    } else {
        "/file/"
    };
    let encoded = url_encode(file.path.as_str());
    let mut url = String::from_str("/r/");
    url.append(repo_hash);
    url.append(kind);
    url.append(encoded.as_str());
    url.append("?branch=");
    url.append(branch);
    let size = match file.size {
        Some(bytes) => format_size(bytes),
        None => String::from_str("-"),
    };
    let name = html_escape(file.name.as_str());
    let mut html = String::from_str(ENTRY_0);
    html.append(url.as_str());
    html.append(ENTRY_1);
    html.append(icon);
    html.append(ENTRY_2);
    html.append(name.as_str());
    html.append(ENTRY_3);
    html.append(size.as_str());
    html.append(ENTRY_4);
    html
}

/// The entries of all items, a line break between each two.
pub open spec fn file_entry_joined(items: Seq<FileEntryView>, repo_hash: Seq<char>, branch: Seq<char>) -> Seq<char>
    decreases items.len(),
{
    if items.len() == 0 {
        Seq::empty()
    } else if items.len() == 1 {
        file_entry(items[0], repo_hash, branch)
    } else {
        file_entry_joined(items.drop_last(), repo_hash, branch) + "\n"@ + file_entry(items.last(), repo_hash, branch)
    }
}

fn file_entry_all(items: &Vec<FileEntry>, repo_hash: &str, branch: &str) -> (html: String)
    ensures
        html@ == file_entry_joined(entry_views(items@), repo_hash@, branch@),
{
    let ghost views = entry_views(items@);
    let mut html = String::new();
    let mut i: usize = 0;
    while i < items.len()
        invariant
            i <= items.len(),
            views == entry_views(items@),
            html@ == file_entry_joined(views.take(i as int), repo_hash@, branch@),
        decreases items.len() - i,
    {
        proof {
            assert(views.take(i + 1).drop_last() == views.take(i as int));
            assert(views.take(i + 1).last() == views[i as int]);
            if i == 0 {
                assert(views.take(0).len() == 0);
                assert(Seq::<char>::empty() + file_entry(views[0], repo_hash@, branch@) == file_entry(views[0], repo_hash@, branch@));
            }
        }
        if i > 0 {
            html.append("\n");
        }
        let row = render_file_entry(&items[i], repo_hash, branch);
        html.append(row.as_str());
        i += 1;
    }
    assert(views.take(i as int) == views);
    html
}

/// The body of the page: the breadcrumb, the branch, and the entries of
/// the directory, or a note where it has none.
pub open spec fn content(repo: RepositoryView, branch: Seq<char>, current_path: Seq<char>, files: Seq<FileEntryView>) -> Seq<char> {
    BODY_0@ + breadcrumb(repo.repo_hash, current_path, branch) + BODY_1@ + repo.name + BODY_2@ + repo.repo_hash + BODY_3@ + branch + BODY_4@ + repo.repo_hash + BODY_5@ + branch + BODY_6@ + repo.repo_hash + BODY_7@ + repo.repo_hash + BODY_8@ + branch + BODY_9@ + repo.repo_hash + BODY_10@ + (if files.len() == 0 {
        EMPTY@
    } else {
        file_entry_joined(files, repo.repo_hash, branch)
    }) + BODY_11@
}

/// The page of the directory `current_path` on the branch `branch`.
pub fn render(repo: &Repository, branch: &str, current_path: &str, files: &Vec<FileEntry>) -> (html: String)
    ensures
        html@ == page(
            "Files - "@ + repo.name@,
            content(repo@, branch@, current_path@, entry_views(files@)),
            None,
        ),
{
    let hash = repo.repo_hash.as_str();
    let crumb = render_breadcrumb(hash, current_path, branch);
    let files_html = if files.len() == 0 {
        String::from_str(EMPTY)
    } else {
        file_entry_all(files, hash, branch)
    };
    let mut body = String::from_str(BODY_0);
    body.append(crumb.as_str());
    body.append(BODY_1);
    body.append(repo.name.as_str());
    body.append(BODY_2);
    body.append(hash);
    body.append(BODY_3);
    body.append(branch);
    body.append(BODY_4);
    body.append(hash);
    body.append(BODY_5);
    body.append(branch);
    body.append(BODY_6);
    body.append(hash);
    body.append(BODY_7);
    body.append(hash);
    body.append(BODY_8);
    body.append(branch);
    body.append(BODY_9);
    body.append(hash);
    body.append(BODY_10);
    body.append(files_html.as_str());
    body.append(BODY_11);
    let mut title = String::from_str("Files - ");
    title.append(repo.name.as_str());
    render_page(title.as_str(), body.as_str())
}

} // verus!
