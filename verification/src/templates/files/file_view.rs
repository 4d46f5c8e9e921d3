//! The page that shows one file.

use vstd::prelude::*;
use vstd::string::StringExecFns;
use crate::models::{Repository, RepositoryView};
use crate::templates::layout::{page, render_page};
use crate::templates::{escaped, html_escape};
use crate::text::{chars_of, split_on, split_text, texts};

verus! {

/// Part 1 of the text of a file.
pub const SHOWN_0: &'static str = r#"<pre class="file-content"><code>"#;

/// Part 2 of the text of a file.
pub const SHOWN_1: &'static str = "</code></pre>";

/// Part 1 of the body of the page.
pub const BODY_0: &'static str = r#"
        <div class="breadcrumb">
            <a href="/r/"#;

/// Part 2 of the body of the page.
pub const BODY_1: &'static str = "/files?branch=";

/// Part 3 of the body of the page.
pub const BODY_2: &'static str = r#"">← Back to Files</a>
        </div>
        
        <div class="repo-header">
            <h1>"#;

/// Part 4 of the body of the page.
pub const BODY_3: &'static str = r#"</h1>
            <p class="repo-description">"#;

/// Part 5 of the body of the page.
pub const BODY_4: &'static str = r#"</p>
        </div>
        
        <div class="repo-nav">
            <a href="/r/"#;

/// Part 6 of the body of the page.
pub const BODY_5: &'static str = "/files?branch=";

/// Part 7 of the body of the page.
pub const BODY_6: &'static str = r#"" class="nav-tab">Files</a>
            <a href="/r/"#;

/// Part 8 of the body of the page.
pub const BODY_7: &'static str = "/commits?branch=";

/// Part 9 of the body of the page.
pub const BODY_8: &'static str = r#"" class="nav-tab">Commits</a>
            <a href="/r/"#;

/// Part 10 of the body of the page.
pub const BODY_9: &'static str = r#"/branches" class="nav-tab">Branches</a>
            <a href="/r/"#;

/// Part 11 of the body of the page.
pub const BODY_10: &'static str = r#"/clone" class="nav-tab">Clone</a>
        </div>
        
        <div class="file-viewer">
            <div class="file-header">
                <span class="file-path">"#;

/// Part 12 of the body of the page.
pub const BODY_11: &'static str = r#"</span>
                <span class="file-branch">Branch: "#;

/// Part 13 of the body of the page.
pub const BODY_12: &'static str = r#"</span>
            </div>
            <div class="file-content-wrapper">
                "#;

/// Part 14 of the body of the page.
pub const BODY_13: &'static str = r#"
            </div>
        </div>
        
        <style>
            .file-viewer {
                background: var(--bg-glass);
                border: 2px solid var(--border-color);
                border-radius: var(--border-radius);
                overflow: hidden;
                margin-top: 2rem;
            }
            
            .file-header {
                background: rgba(0, 255, 136, 0.05);
                padding: 1rem 2rem;
                border-bottom: 1px solid var(--border-color);
                display: flex;
                justify-content: space-between;
                align-items: center;
            }
            
            .file-path {
                font-family: 'Courier New', monospace;
                color: var(--primary-color);
                font-weight: 700;
            }
            
            .file-branch {
                color: var(--text-muted);
                font-size: 0.9rem;
            }
            
            .file-content-wrapper {
                overflow-x: auto;
            }
            
            .file-content {
                margin: 0;
                padding: 2rem;
                background: linear-gradient(135deg, #0a1510 0%, #0d1a14 100%);
                color: var(--primary-color);
                font-family: 'Courier New', monospace;
                font-size: 0.95rem;
                line-height: 1.6;
                max-height: 80vh;
                overflow: auto;
            }
            
            .file-content code {
                background: none;
                border: none;
                padding: 0;
                color: inherit;
            }
            
            .binary-file {
                padding: 3rem;
                text-align: center;
                color: var(--text-muted);
                font-size: 1.2rem;
            }
        </style>
        "#;

/// What the page shows in place of a binary file.
pub const BINARY: &'static str = "<p class='binary-file'> Binary file - cannot display</p>";

/// A character that no text holds: a control character below the blank
/// other than the line feed, the carriage return and the tab.
pub open spec fn is_binary_char(c: char) -> bool {
    c == '\0' || ((c as u32) < 32 && c != '\n' && c != '\r' && c != '\t')
}

/// The content holds a character that no text holds.
pub open spec fn is_binary(content: Seq<char>) -> bool {
    exists|i: int| 0 <= i < content.len() && is_binary_char(#[trigger] content[i])
}

/// Whether the content of a file is no text.
pub fn looks_binary(content: &str) -> (binary: bool)
    ensures
        binary == is_binary(content@),
{
    let chars = chars_of(content);
    let mut i: usize = 0;
    while i < chars.len()
        invariant
            i <= chars.len(),
            chars@ == content@,
            forall|k: int| 0 <= k < i ==> !is_binary_char(#[trigger] chars@[k]),
        decreases chars.len() - i,
    {
        let c = chars[i];
        if c == '\0' || ((c as u32) < 32 && c != '\n' && c != '\r' && c != '\t') {
            assert(is_binary_char(content@[i as int]));
            return true;
        }
        i += 1;
    }
    false
}

/// The name of the file at a path: what stands behind its last `/`.
pub open spec fn file_name_of(file_path: Seq<char>) -> Seq<char> {
    split_on(file_path, '/').last()
}

/// The name of the file at a path.
pub fn file_name(file_path: &str) -> (name: String)
    ensures
        name@ == file_name_of(file_path@),
{
    let parts = split_text(file_path, '/');
    let last = parts.len() - 1;
    assert(texts(parts@).last() == parts@[last as int]@);
    parts[last].clone()
}

/// The body of the page: the path and the branch of the file and its
/// escaped text, or a note in place of a binary file.
pub open spec fn content(repo: RepositoryView, branch: Seq<char>, file_path: Seq<char>, text: Seq<char>) -> Seq<char> {
    BODY_0@ + repo.repo_hash + BODY_1@ + branch + BODY_2@ + repo.name + BODY_3@ + file_name_of(file_path) + BODY_4@ + repo.repo_hash + BODY_5@ + branch + BODY_6@ + repo.repo_hash + BODY_7@ + branch + BODY_8@ + repo.repo_hash + BODY_9@ + repo.repo_hash + BODY_10@ + file_path + BODY_11@ + branch + BODY_12@ + (if is_binary(text) {
        BINARY@
    } else {
        SHOWN_0@ + escaped(text) + SHOWN_1@
    }) + BODY_13@
}

/// The page that shows the file at `file_path` on the branch `branch`.
pub fn render(repo: &Repository, branch: &str, file_path: &str, content: &str) -> (html: String)
    ensures
        html@ == page(
            file_name_of(file_path@) + " - "@ + repo.name@,
            self::content(repo@, branch@, file_path@, content@),
            None,
        ),
{
    let content_html = if looks_binary(content) {
        String::from_str(BINARY)
    } else {
        let text = html_escape(content);
        let mut shown = String::from_str(SHOWN_0);
        shown.append(text.as_str());
        shown.append(SHOWN_1);
        shown
    };
    let name = file_name(file_path);
    let hash = repo.repo_hash.as_str();
    let mut body = String::from_str(BODY_0);
    body.append(hash);
    body.append(BODY_1);
    body.append(branch);
    body.append(BODY_2);
    body.append(repo.name.as_str());
    body.append(BODY_3);
    body.append(name.as_str());
    body.append(BODY_4);
    body.append(hash);
    body.append(BODY_5);
    body.append(branch);
    body.append(BODY_6);
    body.append(hash);
    body.append(BODY_7);
    body.append(branch);
    body.append(BODY_8);
    body.append(hash);
    body.append(BODY_9);
    body.append(hash);
    body.append(BODY_10);
    body.append(file_path);
    body.append(BODY_11);
    body.append(branch);
    body.append(BODY_12);
    body.append(content_html.as_str());
    body.append(BODY_13);
    let mut title = name.clone();
    title.append(" - ");
    title.append(repo.name.as_str());
    render_page(title.as_str(), body.as_str())
}

} // verus!
