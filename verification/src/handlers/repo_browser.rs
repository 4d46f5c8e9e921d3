//! The pages that show files and history: who may see them, which branch
//! they show, and what `git` is asked.

use vstd::prelude::*;
use vstd::string::StringExecFns;
use crate::db::{has_repo, repo_index, Database};
use crate::handlers::{check_read_access, read_fault, HttpStatus};
use crate::models::Repository;
use crate::text::{
    joined_with, join_from, lines, lines_of, parse_int, parsed_int, split_on, split_text, str_eq,
    texts, trim, trimmed, words, words_of,
};
use crate::utils::validation::{
    is_safe_path, safe_path, valid_object_id, valid_ref_name, valid_repo_hash, validate_object_id,
    validate_ref_name, validate_repo_hash,
};

verus! {

/// The branch that a page of the browser shows.
#[derive(Debug)]
pub struct BranchQuery {
    pub branch: Option<String>,
}

/// One entry of a directory listing.
#[derive(Debug)]
pub struct FileEntry {
    pub name: String,
    pub path: String,
    pub is_dir: bool,
    pub size: Option<usize>,
}

/// One commit of a history.
#[derive(Debug)]
pub struct CommitInfo {
    pub hash: String,
    pub author: String,
    pub email: String,
    pub timestamp: i64,
    pub message: String,
}

/// How many commits a page of history shows.
pub const COMMITS_PER_PAGE: usize = 50;

/// The branch of a query: `main` unless it names another.
pub open spec fn branch_of(branch: Option<Seq<char>>) -> Seq<char> {
    match branch {
        Some(name) => name,
        None => "main"@,
    }
}

/// Why a page of the browser is not shown, if there is a reason: the hash,
/// the path or the commit is malformed, the repository unknown or not the
/// user's to see, or the branch malformed.
pub open spec fn browse_fault(
    repos: Seq<crate::models::RepositoryView>,
    repo_hash: Seq<char>,
    path: Option<Seq<char>>,
    commit: Option<Seq<char>>,
    user: Option<i64>,
    branch: Option<Seq<char>>,
) -> Option<HttpStatus> {
    if !valid_repo_hash(repo_hash) {
        Some(HttpStatus::BadRequest)
    } else if path is Some && !safe_path(path.unwrap()) {
        Some(HttpStatus::BadRequest)
    } else if commit is Some && !valid_object_id(commit.unwrap()) {
        Some(HttpStatus::BadRequest)
    } else if !has_repo(repos, repo_hash) {
        Some(HttpStatus::NotFound)
    } else if read_fault(repos[repo_index(repos, repo_hash)], user) is Some {
        read_fault(repos[repo_index(repos, repo_hash)], user)
    } else if !valid_ref_name(branch_of(branch)) {
        Some(HttpStatus::BadRequest)
    } else {
        None
    }
}

/// Decides whether a page of the browser is shown to `user`, and hands
/// out the repository and the branch to show.
pub fn browse(
    db: &Database,
    repo_hash: &str,
    path: Option<&str>,
    commit: Option<&str>,
    user: Option<i64>,
    branch: Option<String>,
) -> (page: Result<(Repository, String), HttpStatus>)
    requires
        db.wf(),
    ensures
        match page {
            Ok((repo, shown)) => {
                &&& browse_fault(
                    db@.repositories,
                    repo_hash@,
                    match path {
                        Some(p) => Some(p@),
                        None => None,
                    },
                    match commit {
                        Some(c) => Some(c@),
                        None => None,
                    },
                    user,
                    match branch {
                        Some(b) => Some(b@),
                        None => None,
                    },
                ) is None
                &&& repo@ == db@.repositories[repo_index(db@.repositories, repo_hash@)]
                &&& shown@ == branch_of(
                    match branch {
                        Some(b) => Some(b@),
                        None => None,
                    },
                )
            },
            Err(status) => browse_fault(
                db@.repositories,
                repo_hash@,
                match path {
                    Some(p) => Some(p@),
                    None => None,
                },
                match commit {
                    Some(c) => Some(c@),
                    None => None,
                },
                user,
                match branch {
                    Some(b) => Some(b@),
                    None => None,
                },
            ) == Some(status),
        },
{
    if !validate_repo_hash(repo_hash) {
        return Err(HttpStatus::BadRequest);
    }
    match path {
        Some(p) => {
            if !is_safe_path(p) {
                return Err(HttpStatus::BadRequest);
            }
        },
        None => {},
    }
    match commit {
        Some(c) => {
            if !validate_object_id(c) {
                return Err(HttpStatus::BadRequest);
            }
        },
        None => {},
    }
    let repo = match db.get_repository(repo_hash) {
        Ok(repo) => repo,
        Err(_) => {
            return Err(HttpStatus::NotFound);
        },
    };
    match check_read_access(repo.owner_id, repo.is_private, user) {
        Ok(_) => {},
        Err(status) => {
            return Err(status);
        },
    }
    let shown = match branch {
        Some(name) => name,
        None => String::from_str("main"),
    };
    if !validate_ref_name(shown.as_str()) {
        return Err(HttpStatus::BadRequest);
    }
    Ok((repo, shown))
}

/// What `git` is asked to show: the branch, a colon, and the path below
/// it.
pub fn tree_argument(branch: &str, subpath: &str) -> (argument: String)
    ensures
        argument@ == branch@ + ":"@ + subpath@,
{
    let mut argument = String::from_str(branch);
    argument.append(":");
    argument.append(subpath);
    argument
}

/// The path of an entry of the directory `subpath`.
pub fn entry_path(subpath: &str, name: &str) -> (path: String)
    ensures
        path@ == if subpath@.len() == 0 {
            name@
        } else {
            subpath@ + "/"@ + name@
        },
{
    if subpath.is_empty() {
        String::from_str(name)
    } else {
        let mut path = String::from_str(subpath);
        path.append("/");
        path.append(name);
        path
    }
}

/// The mathematical value of a [`FileEntry`].
pub ghost struct FileEntryView {
    pub name: Seq<char>,
    pub path: Seq<char>,
    pub is_dir: bool,
    pub size: Option<usize>,
}

impl View for FileEntry {
    type V = FileEntryView;

    open spec fn view(&self) -> FileEntryView {
        FileEntryView { name: self.name@, path: self.path@, is_dir: self.is_dir, size: self.size }
    }
}

/// The mathematical value of a [`CommitInfo`].
pub ghost struct CommitView {
    pub hash: Seq<char>,
    pub author: Seq<char>,
    pub email: Seq<char>,
    pub timestamp: i64,
    pub message: Seq<char>,
}

impl View for CommitInfo {
    type V = CommitView;

    open spec fn view(&self) -> CommitView {
        CommitView {
            hash: self.hash@,
            author: self.author@,
            email: self.email@,
            timestamp: self.timestamp,
            message: self.message@,
        }
    }
}

/// The size that a listing states: none for `-` and for what is no
/// number.
pub open spec fn listed_size(word: Seq<char>) -> Option<usize> {
    if word == "-"@ {
        None
    } else {
        match parsed_int(word, false, 0, usize::MAX as int) {
            Some(n) => Some(n as usize),
            None => None,
        }
    }
}

/// The entry that one line of a long tree listing stands for. The line
/// holds the mode, the type, the id and the size of an object and then
/// its name; a line of fewer than four words stands for nothing.
pub open spec fn tree_entry(line: Seq<char>, subpath: Seq<char>) -> Option<FileEntryView> {
    let parts = words_of(line);
    if parts.len() >= 4 {
        let name = joined_with(parts.skip(4), " "@);
        Some(
            FileEntryView {
                name,
                path: if subpath.len() == 0 {
                    name
                } else {
                    subpath + "/"@ + name
                },
                is_dir: parts[1] == "tree"@,
                size: listed_size(parts[3]),
            },
        )
    } else {
        None
    }
}

/// Reads one line of a long tree listing of the directory `subpath`.
pub fn parse_tree_line(line: &str, subpath: &str) -> (entry: Option<FileEntry>)
    ensures
        tree_entry(line@, subpath@) == match entry {
            Some(e) => Some(e@),
            None => None,
        },
{
    let parts = words(line);
    if parts.len() < 4 {
        return None;
    }
    proof {
        assert(texts(parts@)[1] == parts@[1]@);
        assert(texts(parts@)[3] == parts@[3]@);
    }
    let name = join_from(&parts, 4, " ");
    let is_dir = str_eq(parts[1].as_str(), "tree");
    let size = if str_eq(parts[3].as_str(), "-") {
        None
    } else {
        match parse_int(parts[3].as_str(), false, 0, usize::MAX as i128) {
            Some(n) => Some(n as usize),
            None => None,
        }
    };
    let path = entry_path(subpath, name.as_str());
    Some(FileEntry { name, path, is_dir, size })
}

/// The entries that the lines `lines` of a tree listing stand for.
pub open spec fn tree_entries(lines: Seq<Seq<char>>, subpath: Seq<char>) -> Seq<FileEntryView>
    decreases lines.len(),
{
    if lines.len() == 0 {
        Seq::empty()
    } else {
        match tree_entry(lines.last(), subpath) {
            Some(entry) => tree_entries(lines.drop_last(), subpath).push(entry),
            None => tree_entries(lines.drop_last(), subpath),
        }
    }
}

/// The views of a sequence of entries.
pub open spec fn entry_views(entries: Seq<FileEntry>) -> Seq<FileEntryView> {
    entries.map_values(|e: FileEntry| e@)
}

/// Reads a long tree listing of the directory `subpath`, as `git` prints
/// it.
pub fn parse_tree_listing(output: &str, subpath: &str) -> (entries: Vec<FileEntry>)
    ensures
        entry_views(entries@) == tree_entries(lines_of(output@), subpath@),
{
    let all = lines(output);
    let ghost views = texts(all@);
    let mut entries: Vec<FileEntry> = Vec::new();
    let mut i: usize = 0;
    assert(entry_views(entries@) == Seq::<FileEntryView>::empty());
    while i < all.len()
        invariant
            i <= all.len(),
            views == texts(all@),
            entry_views(entries@) == tree_entries(views.take(i as int), subpath@),
        decreases all.len() - i,
    {
        proof {
            assert(views.take(i + 1).drop_last() == views.take(i as int));
            assert(views.take(i + 1).last() == all@[i as int]@);
        }
        match parse_tree_line(all[i].as_str(), subpath) {
            Some(entry) => {
                assert(entry_views(entries@.push(entry)) == entry_views(entries@).push(entry@));
                entries.push(entry);
            },
            None => {},
        }
        i += 1;
    }
    assert(views.take(i as int) == views);
    entries
}

/// The number that a history states as the time of a commit; zero for
/// what is no number.
pub open spec fn stated_time(word: Seq<char>) -> i64 {
    match parsed_int(word, true, i64::MIN as int, i64::MAX as int) {
        Some(n) => n as i64,
        None => 0,
    }
}

/// The commit that one line of a history stands for. The line holds the
/// hash, the author, the address, the time and the subject of a commit
/// with zero characters between them; a line of fewer than five fields
/// stands for nothing.
pub open spec fn commit_of(line: Seq<char>) -> Option<CommitView> {
    let parts = split_on(line, '\0');
    if parts.len() >= 5 {
        Some(
            CommitView {
                hash: parts[0],
                author: parts[1],
                email: parts[2],
                timestamp: stated_time(parts[3]),
                message: parts[4],
            },
        )
    } else {
        None
    }
}

/// Reads one line of a history.
pub fn parse_commit_line(line: &str) -> (commit: Option<CommitInfo>)
    ensures
        commit_of(line@) == match commit {
            Some(c) => Some(c@),
            None => None,
        },
{
    let parts = split_text(line, '\0');
    if parts.len() < 5 {
        return None;
    }
    proof {
        assert(texts(parts@)[0] == parts@[0]@);
        assert(texts(parts@)[1] == parts@[1]@);
        assert(texts(parts@)[2] == parts@[2]@);
        assert(texts(parts@)[3] == parts@[3]@);
        assert(texts(parts@)[4] == parts@[4]@);
    }
    let timestamp = match parse_int(parts[3].as_str(), true, i64::MIN as i128, i64::MAX as i128) {
        Some(n) => n as i64,
        None => 0,
    };
    Some(
        CommitInfo {
            hash: parts[0].clone(),
            author: parts[1].clone(),
            email: parts[2].clone(),
            timestamp,
            message: parts[4].clone(),
        },
    )
}

/// The commits that the lines `lines` of a history stand for.
pub open spec fn commits_of(lines: Seq<Seq<char>>) -> Seq<CommitView>
    decreases lines.len(),
{
    if lines.len() == 0 {
        Seq::empty()
    } else {
        match commit_of(lines.last()) {
            Some(commit) => commits_of(lines.drop_last()).push(commit),
            None => commits_of(lines.drop_last()),
        }
    }
}

/// The views of a sequence of commits.
pub open spec fn commit_views(commits: Seq<CommitInfo>) -> Seq<CommitView> {
    commits.map_values(|c: CommitInfo| c@)
}

/// Reads a history, as `git` prints it in the format of five fields.
pub fn parse_commit_log(output: &str) -> (commits: Vec<CommitInfo>)
    ensures
        commit_views(commits@) == commits_of(lines_of(output@)),
{
    let all = lines(output);
    let ghost views = texts(all@);
    let mut commits: Vec<CommitInfo> = Vec::new();
    let mut i: usize = 0;
    assert(commit_views(commits@) == Seq::<CommitView>::empty());
    while i < all.len()
        invariant
            i <= all.len(),
            views == texts(all@),
            commit_views(commits@) == commits_of(views.take(i as int)),
        decreases all.len() - i,
    {
        proof {
            assert(views.take(i + 1).drop_last() == views.take(i as int));
            assert(views.take(i + 1).last() == all@[i as int]@);
        }
        match parse_commit_line(all[i].as_str()) {
            Some(commit) => {
                assert(commit_views(commits@.push(commit)) == commit_views(commits@).push(
                    commit@,
                ));
                commits.push(commit);
            },
            None => {},
        }
        i += 1;
    }
    assert(views.take(i as int) == views);
    commits
}

/// The lines, each without the white space around it.
pub open spec fn trimmed_lines(lines: Seq<Seq<char>>) -> Seq<Seq<char>> {
    lines.map_values(|line: Seq<char>| trimmed(line))
}

/// Reads the list of branches, as `git` prints it: one branch on each
/// line.
pub fn parse_branches(output: &str) -> (branches: Vec<String>)
    ensures
        texts(branches@) == trimmed_lines(lines_of(output@)),
{
    let all = lines(output);
    let ghost views = texts(all@);
    let mut branches: Vec<String> = Vec::new();
    let mut i: usize = 0;
    assert(texts(branches@) == trimmed_lines(views.take(0)));
    while i < all.len()
        invariant
            i <= all.len(),
            views == texts(all@),
            texts(branches@) == trimmed_lines(views.take(i as int)),
        decreases all.len() - i,
    {
        let branch = trim(all[i].as_str());
        proof {
            assert(texts(branches@.push(branch)) == texts(branches@).push(branch@));
            assert(views.take(i + 1) == views.take(i as int).push(all@[i as int]@));
            assert(trimmed_lines(views.take(i as int).push(all@[i as int]@)) == trimmed_lines(
                views.take(i as int),
            ).push(trimmed(all@[i as int]@)));
        }
        branches.push(branch);
        i += 1;
    }
    assert(views.take(i as int) == views);
    branches
}

/// The branches of a repository whose list could not be had: `main`
/// alone.
pub fn default_branches() -> (branches: Vec<String>)
    ensures
        branches@.len() == 1,
        branches@[0]@ == "main"@,
{
    let mut branches: Vec<String> = Vec::new();
    branches.push(String::from_str("main"));
    branches
}

} // verus!
