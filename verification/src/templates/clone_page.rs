//! The page that tells how to clone a repository.

use vstd::prelude::*;
use vstd::string::StringExecFns;
use crate::models::{Repository, RepositoryView};
use crate::templates::layout::{page, render_page};
use crate::templates::{in_units, quotient};
use crate::text::signed_decimal;

verus! {

/// Part 1 of the body of the page.
pub const BODY_0: &'static str = r#"
    <div class="breadcrumb">
        <a href="/r/"#;

/// Part 2 of the body of the page.
pub const BODY_1: &'static str = r#"">← Back to Repository</a>
    </div>
    
    <div class="repo-header">
        <h1>"#;

/// Part 3 of the body of the page.
pub const BODY_2: &'static str = r#"</h1>
        <p class="repo-description">Clone Instructions</p>
    </div>
    
    <div class="repo-nav">
        <a href="/r/"#;

/// Part 4 of the body of the page.
pub const BODY_3: &'static str = r#"/files" class="nav-tab">Files</a>
        <a href="/r/"#;

/// Part 5 of the body of the page.
pub const BODY_4: &'static str = r#"/commits" class="nav-tab">Commits</a>
        <a href="/r/"#;

/// Part 6 of the body of the page.
pub const BODY_5: &'static str = r#"/branches" class="nav-tab">Branches</a>
        <a href="/r/"#;

/// Part 7 of the body of the page.
pub const BODY_6: &'static str = r#"/clone" class="nav-tab active">Clone</a>
    </div>
    
    <div class="clone-instructions">
        <h2> Clone via Git (Smart HTTP)</h2>
        <div class="clone-method">
            <p>Standard git clone (works with any git client):</p>
            <div class="code-block">
                <pre><code>git clone "#;

/// Part 8 of the body of the page.
pub const BODY_7: &'static str = r#"</code></pre>
            </div>
            <button onclick="navigator.clipboard.writeText('git clone "#;

/// Part 9 of the body of the page.
pub const BODY_8: &'static str = r#"')" class="btn btn-primary">Copy Command</button>
            <noscript><p class="hint"> Copy the command above manually</p></noscript>
        </div>
        
        <h2> Direct Download (No Git Required)</h2>
        <div class="clone-method">
            <p>Download repository as a bundle:</p>
            <div class="action-box">
                <a href=""#;

/// Part 10 of the body of the page.
pub const BODY_9: &'static str = r#"" class="btn btn-primary" download>Download .bundle File</a>
            </div>
            <p class="hint"> To use: <code>git clone "#;

/// Part 11 of the body of the page.
pub const BODY_10: &'static str = r#".bundle</code></p>
        </div>
        
        <h2> Clone via Tor (Anonymous)</h2>
        <div class="clone-method">
            <p>For anonymous cloning, use Tor:</p>
            <div class="code-block">
                <pre><code># Configure git to use Tor SOCKS proxy
git config --global http.proxy socks5h://127.0.0.1:9050

# Clone anonymously
git clone "#;

/// Part 12 of the body of the page.
pub const BODY_11: &'static str = r#"

# Reset proxy after cloning
git config --global --unset http.proxy</code></pre>
            </div>
            <p class="hint"> Requires Tor Browser or tor daemon running on port 9050</p>
        </div>
        
        <h2> Repository Information</h2>
        <div class="info-grid">
            <div class="info-card">
                <div class="info-label">Repository Hash</div>
                <div class="info-value"><code>"#;

/// Part 13 of the body of the page.
pub const BODY_12: &'static str = r#"</code></div>
            </div>
            <div class="info-card">
                <div class="info-label">Size</div>
                <div class="info-value">"#;

/// Part 14 of the body of the page.
pub const BODY_13: &'static str = r#" KB</div>
            </div>
            <div class="info-card">
                <div class="info-label">Visibility</div>
                <div class="info-value">"#;

/// Part 15 of the body of the page.
pub const BODY_14: &'static str = r#"</div>
            </div>
        </div>
        
        <h2> Push Changes</h2>
        <div class="clone-method">
            <p>After cloning, you can push changes:</p>
            <div class="code-block">
                <pre><code># Make your changes
git add .
git commit -m "Your changes"

# Push to Hyrule
git push origin main</code></pre>
            </div>
            <p class="hint"> Requires authentication. Make sure you're logged in.</p>
        </div>
    </div>
    
    <style>
        .clone-instructions {
            max-width: 900px;
        }
        
        .clone-instructions h2 {
            color: var(--primary-color);
            margin-top: 3rem;
            margin-bottom: 1.5rem;
            font-size: 1.8rem;
        }
        
        .clone-method {
            background: var(--bg-glass);
            border: 2px solid var(--border-color);
            border-radius: var(--border-radius);
            padding: 2rem;
            margin-bottom: 2rem;
        }
        
        .clone-method p {
            color: var(--text-secondary);
            margin-bottom: 1rem;
        }
        
        .action-box {
            margin: 1.5rem 0;
            text-align: center;
        }
        
        .info-grid {
            display: grid;
            grid-template-columns: repeat(auto-fit, minmax(250px, 1fr));
            gap: 1.5rem;
            margin-top: 1.5rem;
        }
        
        .info-card {
            background: var(--bg-glass);
            border: 2px solid var(--border-color);
            border-radius: var(--border-radius);
            padding: 1.5rem;
        }
        
        .info-label {
            color: var(--text-muted);
            font-size: 0.9rem;
            text-transform: uppercase;
            letter-spacing: 1px;
            margin-bottom: 0.5rem;
        }
        
        .info-value {
            color: var(--text-color);
            font-size: 1.2rem;
            font-weight: 600;
        }
        
        .info-value code {
            font-size: 1rem;
        }
    </style>
    "#;

/// How a private repository is marked.
pub const PRIVATE: &'static str = " Private";

/// How a public repository is marked.
pub const PUBLIC: &'static str = " Public";

/// The address of a repository for `git`.
pub open spec fn git_url(server_url: Seq<char>, repo_hash: Seq<char>) -> Seq<char> {
    server_url + "/git/"@ + repo_hash + ".git"@
}

/// The address at which a repository is downloaded.
pub open spec fn http_url(server_url: Seq<char>, repo_hash: Seq<char>) -> Seq<char> {
    server_url + "/r/"@ + repo_hash + "/download"@
}

/// The body of the page: the addresses of the repository and the
/// commands that clone it.
pub open spec fn content(repo: RepositoryView, server_url: Seq<char>) -> Seq<char> {
    BODY_0@ + repo.repo_hash + BODY_1@ + repo.name + BODY_2@ + repo.repo_hash + BODY_3@ + repo.repo_hash + BODY_4@ + repo.repo_hash + BODY_5@ + repo.repo_hash + BODY_6@ + git_url(server_url, repo.repo_hash) + BODY_7@ + git_url(server_url, repo.repo_hash) + BODY_8@ + http_url(server_url, repo.repo_hash) + BODY_9@ + repo.name + BODY_10@ + git_url(server_url, repo.repo_hash) + BODY_11@ + repo.repo_hash + BODY_12@ + signed_decimal(quotient(repo.size as int, 1024)) + BODY_13@ + (if repo.is_private != 0 {
        PRIVATE@
    } else {
        PUBLIC@
    }) + BODY_14@
}

/// The page that tells how to clone a repository from the server at
/// `server_url`.
pub fn render(repo: &Repository, server_url: &str) -> (html: String)
    ensures
        html@ == page("Clone - "@ + repo.name@, content(repo@, server_url@), None),
{
    let mut git = String::from_str(server_url);
    git.append("/git/");
    git.append(repo.repo_hash.as_str());
    git.append(".git");
    let mut http = String::from_str(server_url);
    http.append("/r/");
    http.append(repo.repo_hash.as_str());
    http.append("/download");
    let size = in_units(repo.size, 1024);
    let visibility = if repo.is_private != 0 {
        PRIVATE
    } else {
        PUBLIC
    };
    let mut body = String::from_str(BODY_0);
    body.append(repo.repo_hash.as_str());
    body.append(BODY_1);
    body.append(repo.name.as_str());
    body.append(BODY_2);
    body.append(repo.repo_hash.as_str());
    body.append(BODY_3);
    body.append(repo.repo_hash.as_str());
    body.append(BODY_4);
    body.append(repo.repo_hash.as_str());
    body.append(BODY_5);
    body.append(repo.repo_hash.as_str());
    body.append(BODY_6);
    body.append(git.as_str());
    body.append(BODY_7);
    body.append(git.as_str());
    body.append(BODY_8);
    body.append(http.as_str());
    body.append(BODY_9);
    body.append(repo.name.as_str());
    body.append(BODY_10);
    body.append(git.as_str());
    body.append(BODY_11);
    body.append(repo.repo_hash.as_str());
    body.append(BODY_12);
    body.append(size.as_str());
    body.append(BODY_13);
    body.append(visibility);
    body.append(BODY_14);
    let mut title = String::from_str("Clone - ");
    title.append(repo.name.as_str());
    render_page(title.as_str(), body.as_str())
}

} // verus!
