//! The object store, reached through libgit2. Each function here is trusted:
//! it makes a call into `git2` and converts what comes back to plain values.

use vstd::prelude::*;
use crate::diff::DiffLine;
use crate::error::LookupFailure;
use crate::object_id::{is_object_id, ObjectId};

verus! {

#[verifier::external_type_specification]
#[verifier::external_body]
pub struct ExRepository(git2::Repository);

#[verifier::external_type_specification]
#[verifier::external_body]
pub struct ExCommit<'r>(git2::Commit<'r>);

#[verifier::external_type_specification]
#[verifier::external_body]
pub struct ExTree<'r>(git2::Tree<'r>);

#[verifier::external_type_specification]
#[verifier::external_body]
pub struct ExBlob<'r>(git2::Blob<'r>);

#[verifier::external_type_specification]
#[verifier::external_body]
pub struct ExDiff<'r>(git2::Diff<'r>);

#[verifier::external_type_specification]
#[verifier::external_body]
pub struct ExOid(git2::Oid);

#[verifier::external_type_specification]
#[verifier::external_body]
pub struct ExRevwalk<'r>(git2::Revwalk<'r>);

/// The kind of object a tree entry names.
#[derive(Clone, Copy, PartialEq, Eq, Structural, Debug)]
pub enum ObjectKind {
    Tree,
    Blob,
    /// Anything else: a submodule link, a tag, or an unknown kind.
    Other,
}

/// One entry of a tree as the store lists it.
#[derive(Debug)]
pub struct TreeItem {
    pub name: String,
    pub kind: ObjectKind,
}

/// Relies on `git2::Repository::open_bare`: opens the bare repository at
/// `path`; an error with code `NotFound` means that there is none.
#[verifier::external_body]
pub(crate) fn open_mirror(path: &str) -> (r: Result<git2::Repository, LookupFailure>) {
    git2::Repository::open_bare(path).map_err(|e| match e.code() {
        git2::ErrorCode::NotFound => LookupFailure::Missing,
        _ => LookupFailure::Store(e),
    })
}

/// Relies on `git2::Oid::from_str`, which parses up to forty hexadecimal
/// digits; an id always has forty, so it succeeds.
#[verifier::external_body]
pub(crate) fn to_oid(id: &ObjectId) -> (r: Result<git2::Oid, git2::Error>)
    ensures
        r is Ok,
{
    git2::Oid::from_str(id.as_str())
}

/// Relies on `git2::Repository::find_commit`; an error with code `NotFound`
/// means that the mirror has no commit of that id.
#[verifier::external_body]
pub(crate) fn find_commit<'r>(repo: &'r git2::Repository, oid: git2::Oid) -> (r: Result<git2::Commit<'r>, LookupFailure>) {
    repo.find_commit(oid).map_err(|e| match e.code() {
        git2::ErrorCode::NotFound => LookupFailure::Missing,
        _ => LookupFailure::Store(e),
    })
}

/// Relies on `git2::Commit::id` and `Oid`'s `Display`, which writes the forty
/// hexadecimal digits of the id.
#[verifier::external_body]
pub(crate) fn commit_id(c: &git2::Commit) -> (r: String)
    ensures
        is_object_id(r@),
{
    c.id().to_string()
}

/// Relies on `git2::Commit::author` with `Signature::name` and
/// `Signature::email`; each is `None` where it is not UTF-8.
#[verifier::external_body]
pub(crate) fn commit_author(c: &git2::Commit) -> (r: (Option<String>, Option<String>)) {
    let author = c.author();
    (author.name().map(|s| s.to_owned()), author.email().map(|s| s.to_owned()))
}

/// Relies on `git2::Commit::message`: the full message, `None` where it is
/// not UTF-8.
#[verifier::external_body]
pub(crate) fn commit_message(c: &git2::Commit) -> (r: Option<String>) {
    c.message().map(|s| s.to_owned())
}

/// Relies on `git2::Commit::parent_count`.
#[verifier::external_body]
pub(crate) fn parent_count(c: &git2::Commit) -> (r: usize) {
    c.parent_count()
}

/// Relies on `git2::Commit::parent`, which fails for an index past the last
/// parent.
#[verifier::external_body]
pub(crate) fn parent<'r>(c: &git2::Commit<'r>, i: usize) -> (r: Result<git2::Commit<'r>, git2::Error>) {
    c.parent(i)
}

/// Relies on `git2::Commit::tree`: the commit's root tree.
#[verifier::external_body]
pub(crate) fn root_tree<'r>(c: &git2::Commit<'r>) -> (r: Result<git2::Tree<'r>, git2::Error>) {
    c.tree()
}

/// Relies on `git2::Tree::iter`, which yields the entries in the order the
/// tree stores them; a name that is not UTF-8 is given as empty.
#[verifier::external_body]
pub(crate) fn tree_items(t: &git2::Tree) -> (r: Vec<TreeItem>) {
    t.iter().map(|e| TreeItem {
        name: e.name().unwrap_or_default().to_owned(),
        kind: match e.kind() {
            Some(git2::ObjectType::Tree) => ObjectKind::Tree,
            Some(git2::ObjectType::Blob) => ObjectKind::Blob,
            _ => ObjectKind::Other,
        },
    }).collect()
}

/// Relies on `git2::Tree::get_path`: the kind and id of the entry at the
/// relative path `rel`; an error with code `NotFound` means that a segment
/// of the path does not exist.
#[verifier::external_body]
pub(crate) fn entry_at(t: &git2::Tree, rel: &str) -> (r: Result<(ObjectKind, String), LookupFailure>)
    ensures
        r matches Ok((_, id)) ==> is_object_id(id@),
{
    match t.get_path(std::path::Path::new(rel)) {
        Ok(e) => Ok((match e.kind() {
            Some(git2::ObjectType::Tree) => ObjectKind::Tree,
            Some(git2::ObjectType::Blob) => ObjectKind::Blob,
            _ => ObjectKind::Other,
        }, e.id().to_string())),
        Err(e) if e.code() == git2::ErrorCode::NotFound => Err(LookupFailure::Missing),
        Err(e) => Err(LookupFailure::Store(e)),
    }
}

/// Relies on `git2::Repository::find_tree`.
#[verifier::external_body]
pub(crate) fn find_tree<'r>(repo: &'r git2::Repository, oid: git2::Oid) -> (r: Result<git2::Tree<'r>, git2::Error>) {
    repo.find_tree(oid)
}

/// Relies on `git2::Repository::find_blob`.
#[verifier::external_body]
pub(crate) fn find_blob<'r>(repo: &'r git2::Repository, oid: git2::Oid) -> (r: Result<git2::Blob<'r>, git2::Error>) {
    repo.find_blob(oid)
}

/// Relies on `git2::Blob::is_binary`, libgit2's binary-content heuristic.
#[verifier::external_body]
pub(crate) fn blob_is_binary(b: &git2::Blob) -> (r: bool) {
    b.is_binary()
}

/// Relies on `git2::Blob::content`: the blob's bytes.
#[verifier::external_body]
pub(crate) fn blob_content(b: &git2::Blob) -> (r: Vec<u8>) {
    b.content().to_vec()
}

/// Relies on `git2::Repository::diff_tree_to_tree` with default options;
/// `None` as the old side stands for the empty tree.
#[verifier::external_body]
pub(crate) fn diff_trees<'r>(
    repo: &'r git2::Repository,
    old: Option<&git2::Tree>,
    new: &git2::Tree,
) -> (r: Result<git2::Diff<'r>, git2::Error>) {
    repo.diff_tree_to_tree(old, Some(new), Some(&mut git2::DiffOptions::new()))
}

/// Relies on `git2::Diff::print` in patch format: every printed line, in
/// order, with its origin tag and bytes.
#[verifier::external_body]
pub(crate) fn patch_lines(d: &git2::Diff) -> (r: Result<Vec<DiffLine>, git2::Error>) {
    let mut lines = Vec::new();
    d.print(git2::DiffFormat::Patch, |_delta, _hunk, line| {
        lines.push(DiffLine { origin: line.origin(), content: line.content().to_vec() });
        true
    }).map(|_| lines)
}

/// Relies on `git2::Repository::revwalk`: a walk with nothing pushed yet.
#[verifier::external_body]
pub(crate) fn revwalk<'r>(repo: &'r git2::Repository) -> (r: Result<git2::Revwalk<'r>, git2::Error>) {
    repo.revwalk()
}

/// Relies on `git2::Revwalk::push_head`: the walk starts from HEAD.
#[verifier::external_body]
pub(crate) fn push_head(w: &mut git2::Revwalk) -> (r: Result<(), git2::Error>) {
    w.push_head()
}

/// Relies on `git2::Revwalk::set_sorting` with `Sort::TIME`: newest commit
/// time first.
#[verifier::external_body]
pub(crate) fn sort_by_time(w: &mut git2::Revwalk) -> (r: Result<(), git2::Error>) {
    w.set_sorting(git2::Sort::TIME)
}

/// The ids, in hexadecimal, that a walk has still to yield, in order.
pub uninterp spec fn walk_ids(w: git2::Revwalk) -> Seq<Seq<char>>;

/// Relies on `Revwalk`'s `Iterator::next`: the next commit id of the walk,
/// in hexadecimal, which the walk then no longer holds; `None` once it has
/// yielded them all.
#[verifier::external_body]
pub(crate) fn next_in_walk(w: &mut git2::Revwalk) -> (r: Option<Result<String, git2::Error>>)
    ensures
        r matches Some(Ok(id)) ==> is_object_id(id@) && walk_ids(*old(w)) == seq![id@] + walk_ids(*final(w)),
        r is None ==> walk_ids(*old(w)).len() == 0,
{
    w.next().map(|step| step.map(|oid| oid.to_string()))
}

/// Relies on `git2::Repository::head` and `Reference::target`: the id HEAD
/// resolves to.
#[verifier::external_body]
pub(crate) fn head_target(repo: &git2::Repository) -> (r: Result<Option<String>, git2::Error>)
    ensures
        r matches Ok(Some(id)) ==> is_object_id(id@),
{
    repo.head().map(|h| h.target().map(|oid| oid.to_string()))
}

} // verus!
