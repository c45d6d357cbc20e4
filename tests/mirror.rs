use git2::{Oid, Repository, Signature, Time};
use gitit::{
    commits_from_walk, commit_detail, head_id, recent_commits, repo_from_name, resolve_path, Config, EntryKind,
    GititError, Highlighter, HtmlOrRaw, ListenConfig, ObjectId, PathView, RepoConfig,
};

struct Fixture {
    repo: Repository,
    root: String,
    second: String,
}

fn fixture(name: &str) -> Fixture {
    let nanos = std::time::SystemTime::now().duration_since(std::time::UNIX_EPOCH).unwrap().as_nanos();
    let repo = Repository::init_bare(format!("/tmp/gitit-fixture-{}-{}.git", name, nanos)).unwrap();
    let (root, second) = {
        let blob = |data: &[u8]| repo.blob(data).unwrap();
        let mut src = repo.treebuilder(None).unwrap();
        src.insert("main.rs", blob(b"fn main() {}\n"), 0o100644).unwrap();
        let src_id = src.write().unwrap();

        let tree_with = |readme: &[u8]| -> Oid {
            let mut t = repo.treebuilder(None).unwrap();
            t.insert("README.md", blob(readme), 0o100644).unwrap();
            t.insert("app.json", blob(b"{\"a\": 1}\n"), 0o100644).unwrap();
            t.insert("logo.bin", blob(&[0u8, 159, 146, 150, 0, 0]), 0o100644).unwrap();
            t.insert("src", src_id, 0o040000).unwrap();
            t.write().unwrap()
        };
        let first_sig = Signature::new("Ann", "ann@example.com", &Time::new(1_000_000, 0)).unwrap();
        let second_sig = Signature::new("Bob", "bob@example.com", &Time::new(1_000_100, 0)).unwrap();
        let t1 = repo.find_tree(tree_with(b"hello\nworld\n")).unwrap();
        let c1 = repo.commit(Some("HEAD"), &first_sig, &first_sig, "Initial commit\n\nBody text", &t1, &[]).unwrap();
        let parent = repo.find_commit(c1).unwrap();
        let t2 = repo.find_tree(tree_with(b"hello\nthere\n")).unwrap();
        let c2 = repo.commit(Some("HEAD"), &second_sig, &second_sig, "Update readme", &t2, &[&parent]).unwrap();
        (c1.to_string(), c2.to_string())
    };
    Fixture { repo, root, second }
}

fn id(s: &str) -> ObjectId {
    ObjectId::parse(s).unwrap()
}

#[test]
fn recent_commits_newest_first() {
    let f = fixture("recent");
    let commits = recent_commits(&f.repo, 500).unwrap();
    assert_eq!(commits.len(), 2);
    assert_eq!(commits[0].hash, f.second);
    assert_eq!(commits[1].hash, f.root);
    assert_eq!(commits[0].short_hash, &f.second[..7]);
    assert_eq!(commits[1].summary, "Initial commit");
    assert_eq!(commits[1].message, "\nBody text");
    assert_eq!(commits[0].author_name.as_deref(), Some("Bob"));
    assert_eq!(commits[0].author_email.as_deref(), Some("bob@example.com"));
}

#[test]
fn walk_is_summarized_in_order() {
    let f = fixture("walk");
    let mut w = f.repo.revwalk().unwrap();
    w.push_head().unwrap();
    w.set_sorting(git2::Sort::TIME).unwrap();
    let all = commits_from_walk(&f.repo, &mut w, 10).unwrap();
    let hashes: Vec<&str> = all.iter().map(|c| c.hash.as_str()).collect();
    assert_eq!(hashes, vec![f.second.as_str(), f.root.as_str()]);
    let mut w = f.repo.revwalk().unwrap();
    w.push_head().unwrap();
    w.set_sorting(git2::Sort::TIME).unwrap();
    let first = commits_from_walk(&f.repo, &mut w, 1).unwrap();
    assert_eq!(first.len(), 1);
    assert_eq!(first[0].hash, f.second);
}

#[test]
fn recent_commits_respect_the_limit() {
    let f = fixture("limit");
    assert_eq!(recent_commits(&f.repo, 1).unwrap().len(), 1);
    assert!(recent_commits(&f.repo, 0).unwrap().is_empty());
}

#[test]
fn single_parent_commit_counts_its_changes() {
    let f = fixture("single");
    let h = Highlighter::new();
    let (s, raw) = commit_detail(&f.repo, &id(&f.second), true, &h).unwrap();
    assert_eq!((s.added, s.removed), (1, 1));
    assert_eq!(s.diff_summary, " -+");
    assert!(raw.contains("\n-world\n"));
    assert!(raw.contains("\n+there\n"));
    let plus = raw.lines().filter(|l| l.starts_with('+') && !l.starts_with("+++")).count();
    let minus = raw.lines().filter(|l| l.starts_with('-') && !l.starts_with("---")).count();
    assert_eq!((plus, minus), (s.added, s.removed));
    assert_eq!(s.hash, f.second);
}

#[test]
fn root_commit_is_diffed_against_nothing() {
    let f = fixture("root");
    let h = Highlighter::new();
    let (s, _) = commit_detail(&f.repo, &id(&f.root), true, &h).unwrap();
    assert_eq!(s.removed, 0);
    assert_eq!(s.added, 4);
}

#[test]
fn decorated_diff_is_highlighted() {
    let f = fixture("decorated");
    let h = Highlighter::new();
    let (_, html) = commit_detail(&f.repo, &id(&f.second), false, &h).unwrap();
    assert!(html.contains("<pre"));
}

#[test]
fn unknown_commit_is_not_found() {
    let f = fixture("unknown");
    let h = Highlighter::new();
    let r = commit_detail(&f.repo, &id("0000000000000000000000000000000000000001"), true, &h);
    assert!(matches!(r, Err(GititError::NotFound)));
}

#[test]
fn head_is_the_newest_commit() {
    let f = fixture("head");
    assert_eq!(head_id(&f.repo).unwrap().as_str(), f.second);
}

#[test]
fn root_path_lists_direct_children() {
    let f = fixture("rootpath");
    let h = Highlighter::new();
    match resolve_path(&f.repo, &id(&f.root), "/", "/r/commit/x/contents/", None, &h).unwrap() {
        PathView::Tree(l) => {
            let got: Vec<(&str, EntryKind)> = l.entries.iter().map(|e| (e.name.as_str(), e.kind)).collect();
            assert_eq!(
                got,
                vec![
                    ("README.md", EntryKind::Blob),
                    ("app.json", EntryKind::Blob),
                    ("logo.bin", EntryKind::Blob),
                    ("src", EntryKind::Tree),
                ]
            );
            assert_eq!(l.commit, f.root);
        }
        _ => panic!("expected the root listing"),
    }
}

#[test]
fn directory_path_without_slash_redirects() {
    let f = fixture("redirect");
    let h = Highlighter::new();
    let uri = format!("/r/commit/{}/contents/src", f.root);
    match resolve_path(&f.repo, &id(&f.root), "/src", &uri, Some("x=1"), &h).unwrap() {
        PathView::Redirect(to) => assert_eq!(to, format!("/r/commit/{}/contents/src/?x=1", f.root)),
        _ => panic!("expected a redirect"),
    }
}

#[test]
fn directory_path_with_slash_is_listed() {
    let f = fixture("subdir");
    let h = Highlighter::new();
    match resolve_path(&f.repo, &id(&f.root), "/src/", "/r/c/src/", None, &h).unwrap() {
        PathView::Tree(l) => {
            assert_eq!(l.entries.len(), 1);
            assert_eq!(l.entries[0].name, "main.rs");
            assert_eq!(l.path, "/src/");
        }
        _ => panic!("expected a listing"),
    }
}

#[test]
fn missing_paths_are_not_found() {
    let f = fixture("missing");
    let h = Highlighter::new();
    for p in ["/nope", "/src/nope.rs", "/README.md/inner"] {
        let r = resolve_path(&f.repo, &id(&f.root), p, p, None, &h);
        assert!(matches!(r, Err(GititError::NotFound)), "{}", p);
    }
}

#[test]
fn json_text_file_is_highlighted_not_served_as_json() {
    let f = fixture("json");
    let h = Highlighter::new();
    match resolve_path(&f.repo, &id(&f.root), "/app.json", "/app.json", None, &h).unwrap() {
        PathView::Blob(v) => {
            assert!(!v.binary);
            assert!(matches!(v.body, HtmlOrRaw::Html(_)));
        }
        _ => panic!("expected a file"),
    }
}

#[test]
fn binary_file_is_served_raw() {
    let f = fixture("binary");
    let h = Highlighter::new();
    match resolve_path(&f.repo, &id(&f.root), "/logo.bin", "/logo.bin", None, &h).unwrap() {
        PathView::Blob(v) => {
            assert!(v.binary);
            match v.body {
                HtmlOrRaw::Raw(ct, data) => {
                    assert_eq!(ct, "application/octet-stream");
                    assert_eq!(data, vec![0u8, 159, 146, 150, 0, 0]);
                }
                _ => panic!("expected raw content"),
            }
        }
        _ => panic!("expected a file"),
    }
}

#[test]
fn configured_repo_without_mirror_is_not_found() {
    let c = Config {
        server: ListenConfig { address: "127.0.0.1:3000".to_owned() },
        repos: vec![(
            "never-synced".to_owned(),
            RepoConfig { url: "https://example.com/x.git".to_owned(), title: "X".to_owned(), head: "main".to_owned() },
        )],
    };
    assert!(matches!(repo_from_name("never-synced", &c), Err(GititError::NotFound)));
}
