//! Resolving a path at a commit to a directory listing, a file view, or a
//! redirect to the slash-terminated form of a directory path.

use vstd::prelude::*;
use crate::content::{content_type_for, guessed_mime, highlighted_html, served_mime, Highlighter, HtmlOrRaw, syntax_highlight};
use crate::diff::utf8_text;
use vstd::utf8::{decode_utf8, valid_utf8};
use crate::error::{GititError, LookupFailure};
use crate::object_id::ObjectId;
use crate::history::lookup_commit;
use crate::store::{
    blob_content, blob_is_binary, root_tree, entry_at, find_blob, find_tree, to_oid, tree_items,
    ObjectKind, TreeItem,
};

verus! {

/// The kind of an entry shown in a directory listing.
#[derive(Clone, Copy, PartialEq, Eq, Structural, Debug)]
pub enum EntryKind {
    Tree,
    Blob,
}

/// One child of a listed directory.
#[derive(Debug)]
pub struct ListingEntry {
    pub name: String,
    pub kind: EntryKind,
}

/// A directory at a commit: its children, in the order the tree stores them.
#[derive(Debug)]
pub struct TreeListing {
    pub commit: String,
    pub path: String,
    pub entries: Vec<ListingEntry>,
}

/// A file at a commit. A binary file is served raw with a narrowed content
/// type; a text file as highlighted markup.
#[derive(Debug)]
pub struct BlobView {
    pub commit: String,
    pub path: String,
    pub binary: bool,
    pub body: HtmlOrRaw,
}

/// What a path at a commit resolves to.
#[derive(Debug)]
pub enum PathView {
    Tree(TreeListing),
    Blob(BlobView),
    /// The path names a directory but lacks its trailing slash: the request
    /// is to be reissued at the given location.
    Redirect(String),
}

/// The next step after looking a path up in the commit's root tree.
#[derive(Debug)]
pub enum Resolution {
    Subtree(ObjectId),
    File(ObjectId),
    Redirect(String),
}

/// The listing entry a stored tree entry becomes, if any: entries that are
/// neither trees nor blobs (submodule links) are left out.
pub open spec fn listed_kind(k: ObjectKind) -> Option<EntryKind> {
    match k {
        ObjectKind::Tree => Some(EntryKind::Tree),
        ObjectKind::Blob => Some(EntryKind::Blob),
        ObjectKind::Other => None,
    }
}

/// The listing of stored entries, as (name, kind) pairs in stored order.
pub open spec fn listed(items: Seq<TreeItem>) -> Seq<(Seq<char>, EntryKind)>
    decreases items.len(),
{
    if items.len() == 0 {
        Seq::empty()
    } else {
        let rest = listed(items.drop_last());
        match listed_kind(items.last().kind) {
            Some(k) => rest.push((items.last().name@, k)),
            None => rest,
        }
    }
}

/// The (name, kind) pairs of a listing.
pub open spec fn entries_view(entries: Seq<ListingEntry>) -> Seq<(Seq<char>, EntryKind)> {
    entries.map_values(|e: ListingEntry| (e.name@, e.kind))
}

/// Builds the listing of a directory from its stored entries.
pub fn tree_listing(commit: &str, path: &str, items: &Vec<TreeItem>) -> (r: TreeListing)
    ensures
        r.commit@ == commit@,
        r.path@ == path@,
        entries_view(r.entries@) == listed(items@),
{
    let mut entries: Vec<ListingEntry> = Vec::new();
    let mut i: usize = 0;
    while i < items.len()
        invariant
            i <= items@.len(),
            entries_view(entries@) == listed(items@.subrange(0, i as int)),
        decreases items.len() - i,
    {
        proof {
            assert(items@.subrange(0, i as int + 1).drop_last() =~= items@.subrange(0, i as int));
        }
        let item = &items[i];
        let kind = match item.kind {
            ObjectKind::Tree => Some(EntryKind::Tree),
            ObjectKind::Blob => Some(EntryKind::Blob),
            ObjectKind::Other => None,
        };
        match kind {
            Some(k) => {
                let ghost before = entries@;
                entries.push(ListingEntry { name: item.name.clone(), kind: k });
                assert(entries_view(entries@) =~= entries_view(before).push((item.name@, k)));
            },
            None => {},
        }
        i = i + 1;
    }
    assert(items@.subrange(0, items@.len() as int) =~= items@);
    TreeListing { commit: commit.to_owned(), path: path.to_owned(), entries }
}

/// Lists a tree of the store.
pub fn render_tree(commit: &str, path: &str, tree: &git2::Tree) -> (r: TreeListing)
    ensures
        r.commit@ == commit@,
        r.path@ == path@,
{
    let items = tree_items(tree);
    tree_listing(commit, path, &items)
}

/// Whether the path is slash-terminated.
pub open spec fn ends_with_slash(p: Seq<char>) -> bool {
    p.len() > 0 && p.last() == '/'
}

/// Where a directory request without its trailing slash is sent: the same
/// path with one `/` appended, the query string kept verbatim.
pub open spec fn redirect_location(uri_path: Seq<char>, query: Option<Seq<char>>) -> Seq<char> {
    match query {
        Some(q) => uri_path + seq!['/', '?'] + q,
        None => uri_path + seq!['/'],
    }
}

/// Builds the redirect location for a directory path that lacks its slash.
pub fn redirect_target(uri_path: &str, query: Option<&str>) -> (r: String)
    ensures
        r@ == redirect_location(uri_path@, match query {
            Some(q) => Some(q@),
            None => None,
        }),
{
    let mut r = uri_path.to_owned();
    match query {
        Some(q) => {
            r.append("/?");
            r.append(q);
            proof {
                reveal_strlit("/?");
            }
            assert(r@ =~= uri_path@ + seq!['/', '?'] + q@);
        },
        None => {
            r.append("/");
            proof {
                reveal_strlit("/");
            }
            assert(r@ =~= uri_path@ + seq!['/']);
        },
    }
    r
}

/// Decides what a looked-up path becomes. A missing segment is `NotFound`;
/// so is an entry that is neither a tree nor a blob. A directory is listed
/// only under its slash-terminated path, otherwise the request is redirected.
pub fn resolve_step(
    path: &str,
    uri_path: &str,
    query: Option<&str>,
    found: Result<(ObjectKind, ObjectId), LookupFailure>,
) -> (r: Result<Resolution, GititError>)
    ensures
        found matches Err(LookupFailure::Missing) ==> r matches Err(GititError::NotFound),
        found matches Err(LookupFailure::Store(_)) ==> r matches Err(GititError::GitError(_)),
        found matches Ok((ObjectKind::Other, _)) ==> r matches Err(GititError::NotFound),
        found matches Ok((ObjectKind::Blob, id)) ==> r matches Ok(Resolution::File(f)) && f@ == id@,
        found matches Ok((ObjectKind::Tree, id)) ==> (if ends_with_slash(path@) {
            r matches Ok(Resolution::Subtree(t)) && t@ == id@
        } else {
            r matches Ok(Resolution::Redirect(to)) && to@ == redirect_location(uri_path@, match query {
                Some(q) => Some(q@),
                None => None,
            })
        }),
{
    match found {
        Err(e) => Err(e.into_error()),
        Ok((ObjectKind::Other, _)) => Err(GititError::NotFound),
        Ok((ObjectKind::Blob, id)) => Ok(Resolution::File(id)),
        Ok((ObjectKind::Tree, id)) => {
            let n = path.unicode_len();
            if n > 0 && path.get_char(n - 1) == '/' {
                Ok(Resolution::Subtree(id))
            } else {
                Ok(Resolution::Redirect(redirect_target(uri_path, query)))
            }
        },
    }
}


/// Index of the last `c` in `s`, or -1.
pub open spec fn last_index_of(s: Seq<char>, c: char) -> int
    decreases s.len(),
{
    if s.len() == 0 {
        -1
    } else if s.last() == c {
        s.len() - 1
    } else {
        last_index_of(s.drop_last(), c)
    }
}

proof fn lemma_last_index_bounds(s: Seq<char>, c: char)
    ensures
        -1 <= last_index_of(s, c) < s.len(),
    decreases s.len(),
{
    if s.len() > 0 {
        lemma_last_index_bounds(s.drop_last(), c);
    }
}

/// Finds the last `c` in `s`.
fn find_last(s: &str, c: char) -> (r: Option<usize>)
    ensures
        match r {
            Some(i) => i as int == last_index_of(s@, c),
            None => last_index_of(s@, c) == -1,
        },
{
    let n = s.unicode_len();
    let mut found: Option<usize> = None;
    let mut i: usize = 0;
    while i < n
        invariant
            n == s@.len(),
            i <= n,
            match found {
                Some(k) => k as int == last_index_of(s@.subrange(0, i as int), c),
                None => last_index_of(s@.subrange(0, i as int), c) == -1,
            },
        decreases n - i,
    {
        proof {
            assert(s@.subrange(0, i as int + 1).drop_last() =~= s@.subrange(0, i as int));
        }
        if s.get_char(i) == c {
            found = Some(i);
        }
        i = i + 1;
    }
    assert(s@.subrange(0, n as int) =~= s@);
    found
}

/// The last component of a path.
pub open spec fn file_name(p: Seq<char>) -> Seq<char> {
    p.subrange(last_index_of(p, '/') + 1, p.len() as int)
}

/// The extension of a path as `std::path::Path::extension` gives it: what
/// follows the last dot of the file name, where that dot is not its first
/// character and the name is not `..`.
pub open spec fn extension_of(p: Seq<char>) -> Option<Seq<char>> {
    let name = file_name(p);
    let dot = last_index_of(name, '.');
    if dot <= 0 || name == seq!['.', '.'] {
        None
    } else {
        Some(name.subrange(dot + 1, name.len() as int))
    }
}

/// The extension that selects the highlighting grammar: the path's own,
/// `txt` where it has none.
pub open spec fn highlight_key(p: Seq<char>) -> Seq<char> {
    match extension_of(p) {
        Some(e) => e,
        None => seq!['t', 'x', 't'],
    }
}

/// The extension of a path, if it has one.
pub fn file_extension(path: &str) -> (r: Option<String>)
    ensures
        match r {
            Some(e) => extension_of(path@) == Some(e@),
            None => extension_of(path@) is None,
        },
{
    proof {
        lemma_last_index_bounds(path@, '/');
    }
    let n = path.unicode_len();
    let start = match find_last(path, '/') {
        Some(i) => i + 1,
        None => 0,
    };
    let name = path.substring_char(start, n);
    assert(name@ == file_name(path@));
    proof {
        lemma_last_index_bounds(name@, '.');
    }
    let m = name.unicode_len();
    if m == 2 && name.get_char(0) == '.' && name.get_char(1) == '.' {
        assert(name@ =~= seq!['.', '.']);
        return None;
    }
    assert(name@ != seq!['.', '.']);
    match find_last(name, '.') {
        Some(dot) => {
            if dot == 0 {
                None
            } else {
                Some(name.substring_char(dot + 1, m).to_owned())
            }
        },
        None => None,
    }
}

/// Builds the view of a file from what the store says of its blob: whether
/// libgit2 deems it binary, and its bytes. A binary blob is served raw under
/// the narrowed content type of its path; a text blob must be UTF-8 and is
/// highlighted by its extension.
pub fn blob_view(
    commit: &str,
    path: &str,
    binary: bool,
    content: Vec<u8>,
    highlighter: &Highlighter,
) -> (r: Result<BlobView, GititError>)
    ensures
        binary ==> match r {
            Ok(v) => v.binary && v.commit@ == commit@ && v.path@ == path@ && match v.body {
                HtmlOrRaw::Raw(ct, data) => ct@ == served_mime(guessed_mime(path@)) && data@ == content@,
                _ => false,
            },
            Err(_) => false,
        },
        !binary && !valid_utf8(content@) ==> r matches Err(GititError::DecodingError),
        !binary && valid_utf8(content@) ==> match r {
            Ok(v) => !v.binary && v.commit@ == commit@ && v.path@ == path@ && match v.body {
                HtmlOrRaw::Html(h) => h@ == highlighted_html(highlight_key(path@), decode_utf8(content@)),
                _ => false,
            },
            Err(e) => e is HighlightingError,
        },
{
    if binary {
        let ct = content_type_for(path);
        return Ok(BlobView {
            commit: commit.to_owned(),
            path: path.to_owned(),
            binary: true,
            body: HtmlOrRaw::Raw(ct, content),
        });
    }
    let text = match utf8_text(&content) {
        Some(t) => t,
        None => return Err(GititError::DecodingError),
    };
    let ext = match file_extension(path) {
        Some(e) => e,
        None => {
            let e = String::from_str("txt");
            proof {
                reveal_strlit("txt");
            }
            assert(e@ =~= seq!['t', 'x', 't']);
            e
        },
    };
    match syntax_highlight(highlighter, ext.as_str(), text.as_str()) {
        Ok(h) => Ok(BlobView {
            commit: commit.to_owned(),
            path: path.to_owned(),
            binary: false,
            body: HtmlOrRaw::Html(h),
        }),
        Err(e) => Err(e),
    }
}

/// Shows a blob of the store.
pub fn render_file(
    commit: &str,
    path: &str,
    blob: &git2::Blob,
    highlighter: &Highlighter,
) -> (r: Result<BlobView, GititError>)
    ensures
        r matches Ok(v) ==> v.commit@ == commit@ && v.path@ == path@,
        r matches Err(e) ==> e is DecodingError || e is HighlightingError,
{
    let binary = blob_is_binary(blob);
    let content = blob_content(blob);
    blob_view(commit, path, binary, content, highlighter)
}

/// Resolves `path` (which begins with `/`) at a commit. The root path lists
/// the root tree; any other is looked up segment by segment. `uri_path` and
/// `query` are the request's own, kept for a redirect.
pub fn resolve_path(
    repo: &git2::Repository,
    commit: &ObjectId,
    path: &str,
    uri_path: &str,
    query: Option<&str>,
    highlighter: &Highlighter,
) -> (r: Result<PathView, GititError>)
    ensures
        r matches Ok(PathView::Tree(l)) ==> l.path@ == path@ && l.commit@ == commit@
            && (path@.len() <= 1 || ends_with_slash(path@)),
        path@.len() <= 1 ==> r matches Ok(PathView::Tree(_)) || r is Err,
        r matches Ok(PathView::Blob(v)) ==> v.path@ == path@ && path@.len() > 1,
        r matches Ok(PathView::Redirect(to)) ==> path@.len() > 1 && !ends_with_slash(path@)
            && to@ == redirect_location(uri_path@, match query {
                Some(q) => Some(q@),
                None => None,
            }),
        r matches Err(e) ==> !(e is InvalidInput),
{
    let c = match lookup_commit(repo, commit) {
        Ok(c) => c,
        Err(e) => return Err(e),
    };
    let root = match root_tree(&c) {
        Ok(t) => t,
        Err(e) => return Err(GititError::GitError(e)),
    };
    let hex = commit.as_str();
    let n = path.unicode_len();
    if n <= 1 {
        return Ok(PathView::Tree(render_tree(hex, path, &root)));
    }
    let rel = path.substring_char(1, n);
    let found = match entry_at(&root, rel) {
        Ok((kind, id)) => Ok((kind, ObjectId::from_hex(id))),
        Err(e) => Err(e),
    };
    match resolve_step(path, uri_path, query, found) {
        Err(e) => Err(e),
        Ok(Resolution::Redirect(to)) => Ok(PathView::Redirect(to)),
        Ok(Resolution::Subtree(id)) => match find_tree(repo, to_oid(&id).unwrap()) {
            Ok(t) => Ok(PathView::Tree(render_tree(hex, path, &t))),
            Err(e) => Err(GititError::GitError(e)),
        },
        Ok(Resolution::File(id)) => match find_blob(repo, to_oid(&id).unwrap()) {
            Ok(b) => match render_file(hex, path, &b, highlighter) {
                Ok(v) => Ok(PathView::Blob(v)),
                Err(e) => Err(e),
            },
            Err(e) => Err(GititError::GitError(e)),
        },
    }
}

} // verus!
