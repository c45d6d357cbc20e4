//! Properties that relate several operations, stated over their models.

use vstd::prelude::*;
use crate::content::{application_prefix, has_prefix, octet_stream, served_mime};
use crate::store::{ObjectKind, TreeItem};
use crate::sync::{index_line, refs_index_text, RefRecord};
use crate::tree::{listed, redirect_location, EntryKind};

verus! {

/// Whether a stored entry is shown in a listing.
pub open spec fn is_tree_or_blob(i: TreeItem) -> bool {
    i.kind == ObjectKind::Tree || i.kind == ObjectKind::Blob
}

/// The listing entry of a stored tree or blob.
pub open spec fn shown_entry(i: TreeItem) -> (Seq<char>, EntryKind) {
    (i.name@, if i.kind == ObjectKind::Tree { EntryKind::Tree } else { EntryKind::Blob })
}

/// A directory listing is exactly the directory's stored children that are
/// trees or blobs, in stored order, each with its own name and kind.
pub proof fn lemma_listing_is_direct_children(items: Seq<TreeItem>)
    ensures
        listed(items) == items.filter(|i: TreeItem| is_tree_or_blob(i)).map_values(|i: TreeItem| shown_entry(i)),
    decreases items.len(),
{
    if items.len() > 0 {
        lemma_listing_is_direct_children(items.drop_last());
        let f = |i: TreeItem| shown_entry(i);
        let p = |i: TreeItem| is_tree_or_blob(i);
        let kept = items.drop_last().filter(p);
        let x = items.last();
        assert(items =~= items.drop_last().push(x));
        items.drop_last().lemma_filter_push(x, p);
        assert(items.filter(p) == if p(x) { kept.push(x) } else { kept });
        if p(x) {
            assert(kept.push(x).map_values(f) =~= kept.map_values(f).push(f(x)));
            assert(listed(items) == listed(items.drop_last()).push(f(x)));
        } else {
            assert(listed(items) == listed(items.drop_last()));
        }
    }
}

/// The redirect for a directory path without its slash is that path with
/// exactly one `/` appended, followed by the request's query string verbatim.
pub proof fn lemma_redirect_appends_one_slash(uri_path: Seq<char>, query: Option<Seq<char>>)
    ensures
        redirect_location(uri_path, query).subrange(0, uri_path.len() as int) == uri_path,
        redirect_location(uri_path, query)[uri_path.len() as int] == '/',
        query is None ==> redirect_location(uri_path, query).len() == uri_path.len() as int + 1,
        query matches Some(q) ==> redirect_location(uri_path, query).subrange(
            uri_path.len() as int + 1,
            redirect_location(uri_path, query).len() as int,
        ) == seq!['?'] + q,
{
    let r = redirect_location(uri_path, query);
    assert(r.subrange(0, uri_path.len() as int) =~= uri_path);
    if let Some(q) = query {
        assert(r.subrange(uri_path.len() as int + 1, r.len() as int) =~= seq!['?'] + q);
    }
}

/// No inferred `application/*` type is served as itself: every one becomes
/// `application/octet-stream`, and any other type is served unchanged.
pub proof fn lemma_application_types_narrowed(mime: Seq<char>)
    ensures
        has_prefix(mime, application_prefix()) ==> served_mime(mime) == octet_stream(),
        !has_prefix(mime, application_prefix()) ==> served_mime(mime) == mime,
        has_prefix(served_mime(mime), application_prefix()) ==> served_mime(mime) == octet_stream(),
{
}

proof fn lemma_index_text_concat(a: Seq<RefRecord>, b: Seq<RefRecord>)
    ensures
        refs_index_text(a + b) == refs_index_text(a) + refs_index_text(b),
    decreases b.len(),
{
    if b.len() == 0 {
        assert(a + b =~= a);
    } else {
        lemma_index_text_concat(a, b.drop_last());
        assert((a + b).drop_last() =~= a + b.drop_last());
    }
}

/// Every reference that points directly at an id has its line
/// `<id>\t<name>\n` in the regenerated ref index.
pub proof fn lemma_index_lists_each_ref(refs: Seq<RefRecord>, i: int)
    requires
        0 <= i < refs.len(),
        refs[i].target is Some,
    ensures
        exists|k: int|
            0 <= k && k + index_line(refs[i]).len() <= refs_index_text(refs).len()
            && #[trigger] refs_index_text(refs).subrange(k, k + index_line(refs[i]).len()) == index_line(refs[i]),
        index_line(refs[i]) == refs[i].target->Some_0@ + seq!['\t'] + refs[i].name@ + seq!['\n'],
{
    let pre = refs.subrange(0, i);
    let post = refs.subrange(i + 1, refs.len() as int);
    let x = seq![refs[i]];
    assert(refs =~= pre + x + post);
    lemma_index_text_concat(pre + x, post);
    lemma_index_text_concat(pre, x);
    assert(x.drop_last() =~= Seq::<RefRecord>::empty() && x.last() == refs[i]);
    assert(refs_index_text(Seq::<RefRecord>::empty()) == Seq::<char>::empty());
    assert(refs_index_text(x) == refs_index_text(x.drop_last()) + index_line(refs[i]));
    assert(refs_index_text(x) =~= index_line(refs[i]));
    assert(refs_index_text(refs) =~= refs_index_text(pre) + index_line(refs[i]) + refs_index_text(post));
    let k = refs_index_text(pre).len() as int;
    assert(refs_index_text(refs).subrange(k, k + index_line(refs[i]).len()) =~= index_line(refs[i]));
}

} // verus!
