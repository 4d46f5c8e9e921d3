//! The page of one commit: its message and what it changed.

use vstd::prelude::*;
use vstd::string::StringExecFns;
use crate::models::{Repository, RepositoryView};
use crate::templates::layout::{page, render_page};
use crate::templates::{escaped, head, html_escape, short_text};
use crate::text::{has_prefix, lines, lines_of, starts_with, texts};

verus! {

/// Part 1 of a line of the changes.
pub const LINE_0: &'static str = r#"<tr class=""#;

/// Part 2 of a line of the changes.
pub const LINE_1: &'static str = r#"">
                        <td class="diff-marker">"#;

/// Part 3 of a line of the changes.
pub const LINE_2: &'static str = r#"</td>
                        <td class="diff-line"><code>"#;

/// Part 4 of a line of the changes.
pub const LINE_3: &'static str = r#"</code></td>
                    </tr>"#;

/// Part 1 of the table of the changes.
pub const TABLE_0: &'static str = r#"<table class="diff-table"><tbody>"#;

/// Part 2 of the table of the changes.
pub const TABLE_1: &'static str = "</tbody></table>";

/// Part 1 of the body of the page.
pub const BODY_0: &'static str = r#"
        <div class="breadcrumb">
            <a href="/r/"#;

/// Part 2 of the body of the page.
pub const BODY_1: &'static str = r#"/commits">← Back to Commits</a>
        </div>
        
        <div class="commit-detail">
            <div class="commit-header-box">
                <h1>Commit <code class="commit-hash-display">"#;

/// Part 3 of the body of the page.
pub const BODY_2: &'static str = r#"</code></h1>
                <p class="commit-full-hash">"#;

/// Part 4 of the body of the page.
pub const BODY_3: &'static str = r#"</p>
            </div>
            
            <div class="commit-info-box">
                <pre class="commit-message">"#;

/// Part 5 of the body of the page.
pub const BODY_4: &'static str = r#"</pre>
            </div>
            
            <div class="diff-viewer">
                <h2>Changes</h2>
                <div class="diff-content">
                    "#;

/// Part 6 of the body of the page.
pub const BODY_5: &'static str = r#"
                </div>
            </div>
        </div>
        
        <style>
            .commit-detail {
                max-width: 1400px;
                margin: 0 auto;
            }
            
            .commit-header-box {
                background: var(--bg-glass);
                padding: 2rem;
                border-radius: var(--border-radius);
                border: 2px solid var(--border-color);
                margin-bottom: 2rem;
            }
            
            .commit-hash-display {
                color: var(--primary-color);
                font-size: 1.5rem;
            }
            
            .commit-full-hash {
                font-family: 'Courier New', monospace;
                color: var(--text-muted);
                font-size: 0.9rem;
                margin-top: 0.5rem;
            }
            
            .commit-info-box {
                background: var(--bg-glass);
                padding: 2rem;
                border-radius: var(--border-radius);
                border: 2px solid var(--border-color);
                margin-bottom: 2rem;
            }
            
            .commit-message {
                color: var(--text-color);
                font-size: 1.1rem;
                line-height: 1.6;
                white-space: pre-wrap;
                margin: 0;
            }
            
            .diff-viewer {
                background: var(--bg-glass);
                border: 2px solid var(--border-color);
                border-radius: var(--border-radius);
                overflow: hidden;
            }
            
            .diff-viewer h2 {
                background: rgba(0, 255, 136, 0.05);
                padding: 1rem 2rem;
                margin: 0;
                border-bottom: 1px solid var(--border-color);
            }
            
            .diff-content {
                overflow-x: auto;
            }
            
            .diff-table {
                width: 100%;
                border-collapse: collapse;
                font-family: 'Courier New', monospace;
                font-size: 0.9rem;
            }
            
            .diff-marker {
                width: 30px;
                padding: 0.3rem 0.5rem;
                text-align: center;
                background: rgba(0, 0, 0, 0.3);
                border-right: 1px solid var(--border-color);
                user-select: none;
            }
            
            .diff-line {
                padding: 0.3rem 1rem;
                white-space: pre;
            }
            
            .diff-line code {
                background: none;
                border: none;
                padding: 0;
                color: inherit;
            }
            
            .diff-add {
                background: rgba(0, 255, 0, 0.1);
            }
            
            .diff-add .diff-marker {
                background: rgba(0, 255, 0, 0.2);
                color: #0f0;
            }
            
            .diff-remove {
                background: rgba(255, 0, 0, 0.1);
            }
            
            .diff-remove .diff-marker {
                background: rgba(255, 0, 0, 0.2);
                color: #f00;
            }
            
            .diff-info {
                background: rgba(0, 136, 255, 0.1);
                color: var(--text-muted);
            }
            
            .diff-context {
                background: transparent;
            }
        </style>
        "#;

/// What the page shows for a commit that changes nothing.
pub const NO_CHANGES: &'static str = "<p class='empty-state'>No changes in this commit</p>";

/// A line of the changes adds something: it begins with `+`, and is no
/// header of a file.
pub open spec fn adds(line: Seq<char>) -> bool {
    has_prefix(line, "+"@) && !has_prefix(line, "+++"@)
}

/// A line of the changes removes something: it begins with `-`, and is
/// no header of a file.
pub open spec fn removes(line: Seq<char>) -> bool {
    has_prefix(line, "-"@) && !has_prefix(line, "---"@)
}

/// The class of a line of the changes.
pub open spec fn line_class(line: Seq<char>) -> Seq<char> {
    if adds(line) {
        "diff-add"@
    } else if removes(line) {
        "diff-remove"@
    } else if has_prefix(line, "@@"@) {
        "diff-info"@
    } else {
        "diff-context"@
    }
}

/// The mark before a line of the changes.
pub open spec fn line_symbol(line: Seq<char>) -> Seq<char> {
    if adds(line) {
        "+"@
    } else if removes(line) {
        "-"@
    } else if has_prefix(line, "@@"@) {
        "@"@
    } else {
        " "@
    }
}

/// A line of the changes as a row of the table, escaped.
pub open spec fn diff_line(line: Seq<char>) -> Seq<char> {
    LINE_0@ + line_class(line) + LINE_1@ + line_symbol(line) + LINE_2@ + escaped(line) + LINE_3@
}

/// Renders a line of the changes.
pub fn render_diff_line(line: &String) -> (html: String)
    ensures
        html@ == diff_line(line@),
{
    let text = line.as_str();
    let (class, symbol) = if starts_with(text, "+") && !starts_with(text, "+++") {
        ("diff-add", "+")
    } else if starts_with(text, "-") && !starts_with(text, "---") {
        ("diff-remove", "-")
    } else if starts_with(text, "@@") {
        ("diff-info", "@")
    } else {
        ("diff-context", " ")
    };
    let shown = html_escape(text);
    let mut html = String::from_str(LINE_0);
    html.append(class);
    html.append(LINE_1);
    html.append(symbol);
    html.append(LINE_2);
    html.append(shown.as_str());
    html.append(LINE_3);
    html
}

/// The rows of all items, a line break between each two.
pub open spec fn diff_line_joined(items: Seq<Seq<char>>) -> Seq<char>
    decreases items.len(),
{
    if items.len() == 0 {
        Seq::empty()
    } else if items.len() == 1 {
        diff_line(items[0])
    } else {
        diff_line_joined(items.drop_last()) + "\n"@ + diff_line(items.last())
    }
}

fn diff_line_all(items: &Vec<String>) -> (html: String)
    ensures
        html@ == diff_line_joined(texts(items@)),
{
    let ghost views = texts(items@);
    let mut html = String::new();
    let mut i: usize = 0;
    while i < items.len()
        invariant
            i <= items.len(),
            views == texts(items@),
            html@ == diff_line_joined(views.take(i as int)),
        decreases items.len() - i,
    {
        proof {
            assert(views.take(i + 1).drop_last() == views.take(i as int));
            assert(views.take(i + 1).last() == views[i as int]);
            if i == 0 {
                assert(views.take(0).len() == 0);
                assert(Seq::<char>::empty() + diff_line(views[0]) == diff_line(views[0]));
            }
        }
        if i > 0 {
            html.append("\n");
        }
        let row = render_diff_line(&items[i]);
        html.append(row.as_str());
        i += 1;
    }
    assert(views.take(i as int) == views);
    html
}

/// What the page shows of the changes: a note where there are none,
/// else the table of their lines.
pub open spec fn diff_html(diff: Seq<char>) -> Seq<char> {
    if diff.len() == 0 {
        NO_CHANGES@
    } else {
        TABLE_0@ + diff_line_joined(lines_of(diff)) + TABLE_1@
    }
}

/// The body of the page: the first eight characters of the hash, the
/// hash, the escaped message and the changes.
pub open spec fn content(repo: RepositoryView, commit_hash: Seq<char>, info: Seq<char>, diff: Seq<char>) -> Seq<char> {
    BODY_0@ + repo.repo_hash + BODY_1@ + head(commit_hash, 8) + BODY_2@ + commit_hash + BODY_3@ + escaped(info) + BODY_4@ + diff_html(diff) + BODY_5@
}

/// The title of the page.
pub open spec fn title(repo: RepositoryView, commit_hash: Seq<char>) -> Seq<char> {
    "Commit "@ + head(commit_hash, 8) + " - "@ + repo.name
}

/// The page of the commit `commit_hash` with the message `info` and the
/// changes `diff`.
pub fn render(repo: &Repository, commit_hash: &str, info: &str, diff: &str) -> (html: String)
    ensures
        html@ == page(title(repo@, commit_hash@), content(repo@, commit_hash@, info@, diff@), None),
{
    let short_hash = short_text(commit_hash, 8);
    let diff_html = if diff.is_empty() {
        String::from_str(NO_CHANGES)
    } else {
        let all = lines(diff);
        let rows = diff_line_all(&all);
        let mut table = String::from_str(TABLE_0);
        table.append(rows.as_str());
        table.append(TABLE_1);
        table
    };
    let message = html_escape(info);
    let mut body = String::from_str(BODY_0);
    body.append(repo.repo_hash.as_str());
    body.append(BODY_1);
    body.append(short_hash.as_str());
    body.append(BODY_2);
    body.append(commit_hash);
    body.append(BODY_3);
    body.append(message.as_str());
    body.append(BODY_4);
    body.append(diff_html.as_str());
    body.append(BODY_5);
    let mut title = String::from_str("Commit ");
    title.append(short_hash.as_str());
    title.append(" - ");
    title.append(repo.name.as_str());
    render_page(title.as_str(), body.as_str())
}

} // verus!
