//! Commit history: summaries of recent commits, per-commit diff statistics
//! and full patches.

use vstd::prelude::*;
use crate::content::{highlighted_html, syntax_highlight, Highlighter};
use crate::diff::{count_origin, diff_info, diff_marker, patch_text, render_patch, DiffLine, DiffStats};
use crate::error::GititError;
use crate::object_id::{is_object_id, ObjectId, SHORT_ID_LEN};
use crate::store::{
    commit_author, commit_id, commit_message, diff_trees, root_tree, find_commit, head_target,
    next_in_walk, parent, parent_count, walk_ids, patch_lines, push_head, revwalk, sort_by_time, to_oid,
};

verus! {

/// How many commits the repository overview shows.
pub const RECENT_LIMIT: usize = 500;

/// A commit, ready to be shown.
#[derive(Debug)]
pub struct CommitSummary {
    pub hash: String,
    pub short_hash: String,
    /// The first line of the message.
    pub summary: String,
    /// The rest of the message, after the first line break.
    pub message: String,
    pub author_name: Option<String>,
    pub author_email: Option<String>,
    pub added: usize,
    pub removed: usize,
    /// One `+`, `-` or space per content line of the patch.
    pub diff_summary: String,
}

/// Index of the first `c` in `s`, or -1.
pub open spec fn first_index_of(s: Seq<char>, c: char) -> int
    decreases s.len(),
{
    if s.len() == 0 {
        -1
    } else if first_index_of(s.drop_last(), c) != -1 {
        first_index_of(s.drop_last(), c)
    } else if s.last() == c {
        s.len() - 1
    } else {
        -1
    }
}

/// A message split at its first line break: the summary line and the rest.
/// A message without a line break is all summary.
pub open spec fn split_message_spec(m: Seq<char>) -> (Seq<char>, Seq<char>) {
    let k = first_index_of(m, '\n');
    if k == -1 {
        (m, Seq::empty())
    } else {
        (m.subrange(0, k), m.subrange(k + 1, m.len() as int))
    }
}

proof fn lemma_first_index_bounds(s: Seq<char>, c: char)
    ensures
        -1 <= first_index_of(s, c) < s.len(),
        first_index_of(s, c) != -1 ==> s[first_index_of(s, c)] == c,
    decreases s.len(),
{
    if s.len() > 0 {
        lemma_first_index_bounds(s.drop_last(), c);
    }
}

proof fn lemma_first_index_extend(s: Seq<char>, c: char, i: int)
    requires
        0 <= i < s.len(),
        first_index_of(s.subrange(0, i + 1), c) != -1,
    ensures
        first_index_of(s, c) == first_index_of(s.subrange(0, i + 1), c),
    decreases s.len() - i,
{
    if i + 1 < s.len() {
        assert(s.subrange(0, i + 2).drop_last() =~= s.subrange(0, i + 1));
        lemma_first_index_extend(s, c, i + 1);
    } else {
        assert(s.subrange(0, i + 1) =~= s);
    }
}

/// Splits a commit message at its first line break.
pub fn split_message(m: &str) -> (r: (String, String))
    ensures
        (r.0@, r.1@) == split_message_spec(m@),
{
    let n = m.unicode_len();
    let mut i: usize = 0;
    while i < n
        invariant
            n == m@.len(),
            i <= n,
            first_index_of(m@.subrange(0, i as int), '\n') == -1,
        decreases n - i,
    {
        proof {
            assert(m@.subrange(0, i as int + 1).drop_last() =~= m@.subrange(0, i as int));
        }
        if m.get_char(i) == '\n' {
            proof {
                lemma_first_index_extend(m@, '\n', i as int);
            }
            let summary = m.substring_char(0, i).to_owned();
            let rest = m.substring_char(i + 1, n).to_owned();
            return (summary, rest);
        }
        i = i + 1;
    }
    assert(m@.subrange(0, n as int) =~= m@);
    (m.to_owned(), String::new())
}

/// The parent a commit is diffed against: its sole parent when it has
/// exactly one, otherwise none (the empty tree), so that root and merge
/// commits show everything their tree holds as added.
pub fn comparison_base(parents: usize) -> (r: Option<usize>)
    ensures
        parents == 1 ==> r == Some(0usize),
        parents != 1 ==> r is None,
{
    if parents == 1 {
        Some(0)
    } else {
        None
    }
}

/// The patch lines of a commit against its comparison base.
pub fn commit_patch(repo: &git2::Repository, commit: &git2::Commit) -> (r: Result<Vec<DiffLine>, GititError>)
    ensures
        r matches Err(e) ==> e is GitError,
{
    let base = match comparison_base(parent_count(commit)) {
        Some(i) => match parent(commit, i) {
            Ok(p) => match root_tree(&p) {
                Ok(t) => Some(t),
                Err(e) => return Err(GititError::GitError(e)),
            },
            Err(e) => return Err(GititError::GitError(e)),
        },
        None => None,
    };
    let tree = match root_tree(commit) {
        Ok(t) => t,
        Err(e) => return Err(GititError::GitError(e)),
    };
    let diff = match diff_trees(repo, base.as_ref(), &tree) {
        Ok(d) => d,
        Err(e) => return Err(GititError::GitError(e)),
    };
    match patch_lines(&diff) {
        Ok(lines) => Ok(lines),
        Err(e) => Err(GititError::GitError(e)),
    }
}

/// Assembles a summary from what the store says of a commit: its id, its
/// author, its message and the statistics of its patch.
pub fn summarize(
    hash: &ObjectId,
    author: (Option<String>, Option<String>),
    message: &str,
    stats: DiffStats,
) -> (r: CommitSummary)
    ensures
        r.hash@ == hash@,
        is_object_id(r.hash@),
        r.short_hash@ == hash@.subrange(0, SHORT_ID_LEN as int),
        (r.summary@, r.message@) == split_message_spec(message@),
        r.author_name == author.0,
        r.author_email == author.1,
        r.added == stats.added,
        r.removed == stats.removed,
        r.diff_summary == stats.marker,
{
    let (summary, rest) = split_message(message);
    CommitSummary {
        hash: hash.as_str().to_owned(),
        short_hash: hash.short(),
        summary,
        message: rest,
        author_name: author.0,
        author_email: author.1,
        added: stats.added,
        removed: stats.removed,
        diff_summary: stats.marker,
    }
}

/// Summarizes the commit of id `id`, with the statistics of its patch
/// against its comparison base. A message that is not UTF-8 is a
/// `DecodingError`.
pub fn commit_summary(repo: &git2::Repository, commit: &git2::Commit, id: &ObjectId) -> (r: Result<CommitSummary, GititError>)
    ensures
        r matches Ok(s) ==> (s.hash@ == id@ && is_object_id(s.hash@)
            && s.short_hash@ == s.hash@.subrange(0, SHORT_ID_LEN as int)
            && exists|lines: Seq<DiffLine>|
                s.added as nat == count_origin(lines, '+')
                && s.removed as nat == count_origin(lines, '-')
                && s.diff_summary@ == diff_marker(lines)
            && exists|m: Seq<char>| (s.summary@, s.message@) == split_message_spec(m)),
        r matches Err(e) ==> e is GitError || e is DecodingError,
{
    let author = commit_author(commit);
    let lines = match commit_patch(repo, commit) {
        Ok(l) => l,
        Err(e) => return Err(e),
    };
    let stats = diff_info(&lines);
    let message = match commit_message(commit) {
        Some(m) => m,
        None => return Err(GititError::DecodingError),
    };
    Ok(summarize(id, author, message.as_str(), stats))
}

/// Summarizes one commit, with the statistics of its patch against its
/// comparison base. A message that is not UTF-8 is a `DecodingError`.
pub fn commit_to_object(repo: &git2::Repository, commit: &git2::Commit) -> (r: Result<CommitSummary, GititError>)
    ensures
        r matches Ok(s) ==> (is_object_id(s.hash@)
            && s.short_hash@ == s.hash@.subrange(0, SHORT_ID_LEN as int)
            && exists|lines: Seq<DiffLine>|
                s.added as nat == count_origin(lines, '+')
                && s.removed as nat == count_origin(lines, '-')
                && s.diff_summary@ == diff_marker(lines)
            && exists|m: Seq<char>| (s.summary@, s.message@) == split_message_spec(m)),
        r matches Err(e) ==> e is GitError || e is DecodingError,
{
    let id = ObjectId::from_hex(commit_id(commit));
    commit_summary(repo, commit, &id)
}

/// Renders a patch: verbatim when `raw`, else decorated and highlighted as a
/// patch. A line that is not UTF-8 is a `DecodingError`.
pub fn finish_diff(lines: &Vec<DiffLine>, raw: bool, highlighter: &Highlighter) -> (r: Result<String, GititError>)
    ensures
        patch_text(lines@, raw) is None ==> r matches Err(GititError::DecodingError),
        patch_text(lines@, raw) is Some && raw ==> (r matches Ok(t) && t@ == patch_text(lines@, raw)->Some_0),
        patch_text(lines@, raw) is Some && !raw ==> match r {
            Ok(h) => h@ == highlighted_html(seq!['p', 'a', 't', 'c', 'h'], patch_text(lines@, raw)->Some_0),
            Err(e) => e is HighlightingError,
        },
        r matches Err(e) ==> e is DecodingError || e is HighlightingError,
{
    let text = match render_patch(lines, raw) {
        Some(t) => t,
        None => return Err(GititError::DecodingError),
    };
    if raw {
        return Ok(text);
    }
    let key = "patch";
    proof {
        reveal_strlit("patch");
        assert(key@ =~= seq!['p', 'a', 't', 'c', 'h']);
    }
    syntax_highlight(highlighter, key, text.as_str())
}

/// The full patch of a commit against its comparison base.
pub fn full_diff(
    repo: &git2::Repository,
    commit: &git2::Commit,
    raw: bool,
    highlighter: &Highlighter,
) -> (r: Result<String, GititError>)
    ensures
        r matches Ok(t) ==> (raw ==> exists|lines: Seq<DiffLine>| patch_text(lines, true) == Some(t@)),
        r matches Ok(t) ==> (!raw ==> exists|lines: Seq<DiffLine>| patch_text(lines, false) is Some
            && t@ == highlighted_html(seq!['p', 'a', 't', 'c', 'h'], patch_text(lines, false)->Some_0)),
        r matches Err(e) ==> e is GitError || e is DecodingError || e is HighlightingError,
{
    let lines = match commit_patch(repo, commit) {
        Ok(l) => l,
        Err(e) => return Err(e),
    };
    finish_diff(&lines, raw, highlighter)
}

/// Summarizes the commits a walk yields, in walk order, until it ends or
/// `limit` of them are summarized: one summary per id, none skipped.
pub fn commits_from_walk(
    repo: &git2::Repository,
    walk: &mut git2::Revwalk,
    limit: usize,
) -> (r: Result<Vec<CommitSummary>, GititError>)
    ensures
        r matches Ok(v) ==> {
            &&& v.len() == if limit < walk_ids(*old(walk)).len() { limit as int } else { walk_ids(*old(walk)).len() as int }
            &&& forall|k: int| 0 <= k < v.len() ==> {
                &&& (#[trigger] v[k]).hash@ == walk_ids(*old(walk))[k]
                &&& is_object_id(v[k].hash@)
                &&& v[k].short_hash@ == v[k].hash@.subrange(0, SHORT_ID_LEN as int)
            }
        },
        r matches Err(e) ==> e is NotFound || e is GitError || e is DecodingError,
{
    let ghost start = walk_ids(*walk);
    let mut out: Vec<CommitSummary> = Vec::new();
    let mut done = false;
    while !done && out.len() < limit
        invariant
            out.len() <= limit,
            out.len() <= start.len(),
            !done ==> walk_ids(*walk) == start.subrange(out.len() as int, start.len() as int),
            done ==> out.len() == start.len(),
            forall|k: int| 0 <= k < out.len() ==> {
                &&& (#[trigger] out[k]).hash@ == start[k]
                &&& is_object_id(out[k].hash@)
                &&& out[k].short_hash@ == out[k].hash@.subrange(0, SHORT_ID_LEN as int)
            },
        decreases 2 * (limit - out.len()) + if done { 0int } else { 1int },
    {
        let ghost n = out.len() as int;
        match next_in_walk(walk) {
            None => {
                done = true;
            },
            Some(Err(e)) => return Err(GititError::GitError(e)),
            Some(Ok(hex)) => {
                proof {
                    let rest = walk_ids(*walk);
                    let sub = start.subrange(n, start.len() as int);
                    assert(sub == seq![hex@] + rest);
                    assert(sub.len() == rest.len() + 1);
                    assert(n < start.len());
                    assert(sub[0] == hex@);
                    assert(start[n] == hex@);
                    assert forall|j: int| 0 <= j < rest.len() implies rest[j] == start[n + 1 + j] by {
                        assert(sub[j + 1] == rest[j]);
                    }
                    assert(rest =~= start.subrange(n + 1, start.len() as int));
                }
                let id = ObjectId::from_hex(hex);
                let c = match lookup_commit(repo, &id) {
                    Ok(c) => c,
                    Err(e) => return Err(e),
                };
                match commit_summary(repo, &c, &id) {
                    Ok(s) => out.push(s),
                    Err(e) => return Err(e),
                }
            },
        }
    }
    Ok(out)
}

/// Summaries of the newest commits reachable from HEAD, newest first by
/// commit time, at most `limit` of them.
pub fn recent_commits(repo: &git2::Repository, limit: usize) -> (r: Result<Vec<CommitSummary>, GititError>)
    ensures
        r matches Ok(v) ==> v.len() <= limit && forall|k: int| 0 <= k < v.len() ==> {
            &&& is_object_id((#[trigger] v[k]).hash@)
            &&& v[k].short_hash@ == v[k].hash@.subrange(0, SHORT_ID_LEN as int)
        },
        r matches Err(e) ==> e is NotFound || e is GitError || e is DecodingError,
{
    let mut walk = match revwalk(repo) {
        Ok(w) => w,
        Err(e) => return Err(GititError::GitError(e)),
    };
    if let Err(e) = push_head(&mut walk) {
        return Err(GititError::GitError(e));
    }
    if let Err(e) = sort_by_time(&mut walk) {
        return Err(GititError::GitError(e));
    }
    commits_from_walk(repo, &mut walk, limit)
}

/// The id HEAD resolves to; `NotFound` where HEAD does not resolve to one.
pub fn head_id(repo: &git2::Repository) -> (r: Result<ObjectId, GititError>)
    ensures
        r matches Err(e) ==> e is NotFound || e is GitError,
{
    match head_target(repo) {
        Ok(Some(hex)) => Ok(ObjectId::from_hex(hex)),
        Ok(None) => Err(GititError::NotFound),
        Err(e) => Err(GititError::GitError(e)),
    }
}

/// The commit of the given id; `NotFound` where the mirror has none.
pub fn lookup_commit<'r>(repo: &'r git2::Repository, id: &ObjectId) -> (r: Result<git2::Commit<'r>, GititError>)
    ensures
        r matches Err(e) ==> e is NotFound || e is GitError,
{
    let oid = to_oid(id).unwrap();
    match find_commit(repo, oid) {
        Ok(c) => Ok(c),
        Err(e) => Err(e.into_error()),
    }
}

/// One commit with its summary and full patch.
pub fn commit_detail(
    repo: &git2::Repository,
    id: &ObjectId,
    raw: bool,
    highlighter: &Highlighter,
) -> (r: Result<(CommitSummary, String), GititError>)
    ensures
        r matches Ok((s, d)) ==> {
            &&& s.hash@ == id@
            &&& s.short_hash@ == s.hash@.subrange(0, SHORT_ID_LEN as int)
            &&& raw ==> exists|lines: Seq<DiffLine>| patch_text(lines, true) == Some(d@)
            &&& !raw ==> exists|lines: Seq<DiffLine>| patch_text(lines, false) is Some
                && d@ == highlighted_html(seq!['p', 'a', 't', 'c', 'h'], patch_text(lines, false)->Some_0)
        },
        r matches Err(e) ==> e is NotFound || e is GitError || e is DecodingError || e is HighlightingError,
{
    let c = match lookup_commit(repo, id) {
        Ok(c) => c,
        Err(e) => return Err(e),
    };
    let summary = match commit_summary(repo, &c, id) {
        Ok(s) => s,
        Err(e) => return Err(e),
    };
    match full_diff(repo, &c, raw, highlighter) {
        Ok(d) => Ok((summary, d)),
        Err(e) => Err(e),
    }
}

} // verus!
