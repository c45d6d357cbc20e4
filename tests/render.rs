use gitit::{
    blob_view, comparison_base, content_type_for, diff_info, file_extension, format_line,
    render_patch, redirect_target, resolve_step, safe_mime, split_message, summarize,
    tree_listing, DiffLine, EntryKind, GititError, Highlighter, HtmlOrRaw, LookupFailure,
    ObjectId, ObjectKind, Resolution, TreeItem,
};

const ID: &str = "0123456789abcdef0123456789abcdef01234567";

fn line(origin: char, text: &str) -> DiffLine {
    DiffLine { origin, content: text.as_bytes().to_vec() }
}

fn item(name: &str, kind: ObjectKind) -> TreeItem {
    TreeItem { name: name.to_owned(), kind }
}

#[test]
fn format_line_raw_is_verbatim() {
    assert_eq!(format_line("fn main() {}\n", '+', true), "fn main() {}\n");
}

#[test]
fn format_line_decorated_prefixes_tag() {
    assert_eq!(format_line("x\n", '+', false), "+ x\n");
    assert_eq!(format_line("x\n", '-', false), "- x\n");
    assert_eq!(format_line("x\n", ' ', false), "  x\n");
}

#[test]
fn format_line_takes_any_tag() {
    assert_eq!(format_line("@@ -1 +1 @@\n", 'H', false), "H @@ -1 +1 @@\n");
    assert_eq!(format_line("é\n", 'é', false), "é é\n");
}

#[test]
fn raw_patch_keeps_context_marker() {
    let lines = vec![line('H', "@@ -1,2 +1,2 @@\n"), line(' ', "same\n"), line('+', "new\n")];
    assert_eq!(render_patch(&lines, true).unwrap(), "@@ -1,2 +1,2 @@\n same\n+new\n");
}

#[test]
fn diff_info_counts_added_and_removed() {
    let lines = vec![
        line('F', "diff --git a/f b/f\n"),
        line('H', "@@ -1,2 +1,2 @@\n"),
        line(' ', "same\n"),
        line('-', "old\n"),
        line('+', "new\n"),
        line('+', "more\n"),
    ];
    let s = diff_info(&lines);
    assert_eq!(s.added, 2);
    assert_eq!(s.removed, 1);
    assert_eq!(s.marker, " -++");
}

#[test]
fn diff_info_of_empty_patch() {
    let s = diff_info(&Vec::new());
    assert_eq!((s.added, s.removed, s.marker.as_str()), (0, 0, ""));
}

#[test]
fn render_patch_raw_and_decorated() {
    let lines = vec![line('F', "diff --git a/f b/f\n"), line('-', "old\n"), line('+', "new\n")];
    assert_eq!(render_patch(&lines, true).unwrap(), "diff --git a/f b/f\n-old\n+new\n");
    assert_eq!(render_patch(&lines, false).unwrap(), "  diff --git a/f b/f\n- old\n+ new\n");
}

#[test]
fn render_patch_rejects_non_utf8() {
    let lines = vec![line('+', "ok\n"), DiffLine { origin: '+', content: vec![0xff, 0xfe] }];
    assert!(render_patch(&lines, true).is_none());
}

#[test]
fn application_types_are_narrowed() {
    assert_eq!(safe_mime("application/json"), "application/octet-stream");
    assert_eq!(safe_mime("application/javascript"), "application/octet-stream");
    assert_eq!(safe_mime("text/plain"), "text/plain");
    assert_eq!(safe_mime("image/png"), "image/png");
}

#[test]
fn json_blob_is_not_served_as_json() {
    assert_eq!(content_type_for("/app.json"), "application/octet-stream");
}

#[test]
fn png_blob_keeps_its_type() {
    assert_eq!(content_type_for("/img/logo.png"), "image/png");
}

#[test]
fn binary_json_blob_is_raw_octet_stream() {
    let h = Highlighter::new();
    let v = blob_view(ID, "/app.json", true, vec![0, 1, 2], &h).unwrap();
    assert!(v.binary);
    match v.body {
        HtmlOrRaw::Raw(ct, data) => {
            assert_eq!(ct, "application/octet-stream");
            assert_eq!(data, vec![0, 1, 2]);
        }
        _ => panic!("expected raw content"),
    }
}

#[test]
fn text_json_blob_is_highlighted() {
    let h = Highlighter::new();
    let v = blob_view(ID, "/app.json", false, b"{\"a\": 1}\n".to_vec(), &h).unwrap();
    assert!(!v.binary);
    assert_eq!(v.path, "/app.json");
    match v.body {
        HtmlOrRaw::Html(html) => assert!(html.contains("<pre")),
        _ => panic!("expected highlighted markup"),
    }
}

#[test]
fn text_blob_that_is_not_utf8_fails() {
    let h = Highlighter::new();
    let r = blob_view(ID, "/a.txt", false, vec![0xc3, 0x28], &h);
    assert!(matches!(r, Err(GititError::DecodingError)));
}

#[test]
fn highlighting_is_deterministic() {
    let h = Highlighter::new();
    let a = gitit::syntax_highlight(&h, "rs", "fn main() {}\n").unwrap();
    let b = gitit::syntax_highlight(&h, "rs", "fn main() {}\n").unwrap();
    assert_eq!(a, b);
    assert!(a.contains("main"));
}

#[test]
fn extensions_follow_the_file_name() {
    assert_eq!(file_extension("/src/main.rs").as_deref(), Some("rs"));
    assert_eq!(file_extension("/archive.tar.gz").as_deref(), Some("gz"));
    assert_eq!(file_extension("/Makefile"), None);
    assert_eq!(file_extension("/.gitignore"), None);
    assert_eq!(file_extension("/dir.d/README"), None);
    assert_eq!(file_extension("/a/.."), None);
}

#[test]
fn redirect_keeps_query_and_appends_one_slash() {
    let from = format!("/repo/commit/{}/contents/src", ID);
    assert_eq!(redirect_target(&from, Some("x=1")), format!("/repo/commit/{}/contents/src/?x=1", ID));
    assert_eq!(redirect_target(&from, None), format!("/repo/commit/{}/contents/src/", ID));
}

#[test]
fn missing_segment_is_not_found() {
    let r = resolve_step("/nope", "/r/commit/x/contents/nope", None, Err(LookupFailure::Missing));
    assert!(matches!(r, Err(GititError::NotFound)));
}

#[test]
fn submodule_entry_is_not_found() {
    let id = ObjectId::parse(ID).unwrap();
    let r = resolve_step("/sub", "/r/c/sub", None, Ok((ObjectKind::Other, id)));
    assert!(matches!(r, Err(GititError::NotFound)));
}

#[test]
fn directory_without_slash_redirects() {
    let id = ObjectId::parse(ID).unwrap();
    let r = resolve_step("/src", "/r/commit/c/contents/src", Some("x=1"), Ok((ObjectKind::Tree, id)));
    match r {
        Ok(Resolution::Redirect(to)) => assert_eq!(to, "/r/commit/c/contents/src/?x=1"),
        _ => panic!("expected a redirect"),
    }
}

#[test]
fn directory_with_slash_is_listed() {
    let id = ObjectId::parse(ID).unwrap();
    let r = resolve_step("/src/", "/r/commit/c/contents/src/", None, Ok((ObjectKind::Tree, id)));
    match r {
        Ok(Resolution::Subtree(t)) => assert_eq!(t.as_str(), ID),
        _ => panic!("expected a subtree"),
    }
}

#[test]
fn file_path_resolves_to_file() {
    let id = ObjectId::parse(ID).unwrap();
    let r = resolve_step("/src/main.rs", "/r/c/src/main.rs", None, Ok((ObjectKind::Blob, id)));
    assert!(matches!(r, Ok(Resolution::File(_))));
}

#[test]
fn listing_skips_submodules_and_keeps_order() {
    let items = vec![
        item("src", ObjectKind::Tree),
        item("vendor", ObjectKind::Other),
        item("README.md", ObjectKind::Blob),
        item("Cargo.toml", ObjectKind::Blob),
    ];
    let l = tree_listing(ID, "/", &items);
    assert_eq!(l.path, "/");
    assert_eq!(l.commit, ID);
    let got: Vec<(&str, EntryKind)> = l.entries.iter().map(|e| (e.name.as_str(), e.kind)).collect();
    assert_eq!(
        got,
        vec![("src", EntryKind::Tree), ("README.md", EntryKind::Blob), ("Cargo.toml", EntryKind::Blob)]
    );
}

#[test]
fn listing_of_empty_tree() {
    assert!(tree_listing(ID, "/", &Vec::new()).entries.is_empty());
}

#[test]
fn object_ids_are_forty_hex_digits() {
    assert!(ObjectId::parse(ID).is_ok());
    assert!(ObjectId::parse("0123456789ABCDEF0123456789abcdef01234567").is_ok());
    assert!(matches!(ObjectId::parse("0123"), Err(GititError::InvalidInput)));
    assert!(matches!(ObjectId::parse("g123456789abcdef0123456789abcdef01234567"), Err(GititError::InvalidInput)));
    assert!(matches!(ObjectId::parse(""), Err(GititError::InvalidInput)));
}

#[test]
fn uppercase_ids_are_kept_in_lowercase() {
    let id = ObjectId::parse("0123456789ABCDEF0123456789ABCDEF01234567").unwrap();
    assert_eq!(id.as_str(), "0123456789abcdef0123456789abcdef01234567");
    assert_eq!(id.short(), "0123456");
}

#[test]
fn short_id_is_first_seven_digits() {
    assert_eq!(ObjectId::parse(ID).unwrap().short(), "0123456");
}

#[test]
fn message_splits_at_first_line_break() {
    assert_eq!(split_message("Fix bug\n\nLong text\nmore"), ("Fix bug".to_owned(), "\nLong text\nmore".to_owned()));
    assert_eq!(split_message("one line"), ("one line".to_owned(), String::new()));
    assert_eq!(split_message(""), (String::new(), String::new()));
}

#[test]
fn single_parent_is_the_comparison_base() {
    assert_eq!(comparison_base(1), Some(0));
    assert_eq!(comparison_base(0), None);
    assert_eq!(comparison_base(2), None);
}

#[test]
fn summary_assembles_all_parts() {
    let id = ObjectId::parse(ID).unwrap();
    let stats = diff_info(&vec![line('+', "a\n"), line('+', "b\n"), line('-', "c\n")]);
    let s = summarize(&id, (Some("Ann".to_owned()), None), "Title\nBody", stats);
    assert_eq!(s.hash, ID);
    assert_eq!(s.short_hash, "0123456");
    assert_eq!(s.summary, "Title");
    assert_eq!(s.message, "Body");
    assert_eq!(s.author_name.as_deref(), Some("Ann"));
    assert_eq!(s.author_email, None);
    assert_eq!((s.added, s.removed), (2, 1));
    assert_eq!(s.diff_summary, "++-");
}
