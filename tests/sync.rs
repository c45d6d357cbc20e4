use gitit::{
    after_sync, classify_tip, default_head, find_repo, head_ref, mirror_path, plan_sync,
    progress_view, refs_index, repo_from_name, Config, GititError, ListenConfig, MirrorState,
    ProgressView, RefRecord, RepoConfig, SyncAction, TipUpdate, TransferOutcome, TransferStats,
};

const X: &str = "1111111111111111111111111111111111111111";
const Y: &str = "2222222222222222222222222222222222222222";

fn repo(head: &str) -> RepoConfig {
    RepoConfig { url: "https://example.com/r.git".to_owned(), title: "R".to_owned(), head: head.to_owned() }
}

fn refs() -> Vec<RefRecord> {
    vec![
        RefRecord { target: None, name: "HEAD".to_owned() },
        RefRecord { target: Some(X.to_owned()), name: "refs/heads/main".to_owned() },
        RefRecord { target: Some(Y.to_owned()), name: "refs/tags/v1".to_owned() },
    ]
}

#[test]
fn default_branch_is_main() {
    assert_eq!(default_head(), "main");
}

#[test]
fn mirror_lives_under_repos() {
    assert_eq!(mirror_path("gitit"), "repos/gitit.git");
}

#[test]
fn head_follows_configured_branch() {
    assert_eq!(head_ref(&repo("main")), "refs/heads/main");
    assert_eq!(head_ref(&repo("develop")), "refs/heads/develop");
}

#[test]
fn index_has_one_line_per_direct_ref() {
    let text = refs_index(&refs());
    assert_eq!(text, format!("{}\trefs/heads/main\n{}\trefs/tags/v1\n", X, Y));
    assert!(text.lines().any(|l| l == format!("{}\trefs/heads/main", X)));
}

#[test]
fn index_of_no_refs_is_empty() {
    assert_eq!(refs_index(&Vec::new()), "");
}

#[test]
fn completed_sync_records_index_and_configured_head() {
    let cfg = repo("develop");
    let m = after_sync(None, "repos/r.git", &cfg, TransferOutcome::Done(refs())).unwrap();
    assert!(m.refs_index.contains(&format!("{}\trefs/heads/main\n", X)));
    assert_eq!(m.head, "refs/heads/develop");
    assert_eq!(m.path, "repos/r.git");
}

#[test]
fn failed_syncs_leave_prior_state() {
    let cfg = repo("main");
    let first = after_sync(None, "repos/r.git", &cfg, TransferOutcome::Done(refs())).unwrap();
    let keep = (first.refs_index.clone(), first.head.clone());
    let second = after_sync(Some(first), "repos/r.git", &cfg, TransferOutcome::Failed).unwrap();
    let third = after_sync(Some(second), "repos/r.git", &cfg, TransferOutcome::Failed).unwrap();
    assert_eq!((third.refs_index, third.head), keep);
    let none: Option<MirrorState> = after_sync(None, "repos/r.git", &cfg, TransferOutcome::Failed);
    assert!(none.is_none());
}

#[test]
fn clone_when_absent_fetch_when_present() {
    let p = plan_sync("r", false);
    assert_eq!((p.path.as_str(), p.action), ("repos/r.git", SyncAction::Clone));
    assert_eq!(plan_sync("r", true).action, SyncAction::Fetch);
}

#[test]
fn zero_previous_id_is_a_new_tip() {
    assert_eq!(classify_tip("0000000000000000000000000000000000000000"), TipUpdate::New);
    assert_eq!(classify_tip(X), TipUpdate::Updated);
}

fn stats(received: u64, indexed: u64, total: u64) -> TransferStats {
    TransferStats {
        received_objects: received,
        indexed_objects: indexed,
        total_objects: total,
        received_bytes: 4096,
        indexed_deltas: 3,
        total_deltas: 9,
    }
}

#[test]
fn progress_while_receiving() {
    match progress_view(&stats(25, 10, 100), 4, 1) {
        ProgressView::Transfer { network_pct, index_pct, checkout_pct, kbytes, .. } => {
            assert_eq!((network_pct, index_pct, checkout_pct, kbytes), (25, 10, 25, 4));
        }
        _ => panic!("expected transfer progress"),
    }
}

#[test]
fn progress_without_checkout_total() {
    match progress_view(&stats(1, 0, 3), 0, 0) {
        ProgressView::Transfer { network_pct, checkout_pct, .. } => assert_eq!((network_pct, checkout_pct), (33, 0)),
        _ => panic!("expected transfer progress"),
    }
}

#[test]
fn progress_when_all_received() {
    match progress_view(&stats(100, 100, 100), 0, 0) {
        ProgressView::ResolvingDeltas { indexed, total } => assert_eq!((indexed, total), (3, 9)),
        _ => panic!("expected delta resolution"),
    }
}

fn config() -> Config {
    Config {
        server: ListenConfig { address: "127.0.0.1:3000".to_owned() },
        repos: vec![("alpha".to_owned(), repo("main")), ("beta".to_owned(), repo("trunk"))],
    }
}

#[test]
fn repos_are_found_by_slug() {
    let c = config();
    assert_eq!(find_repo(&c, "beta").map(|r| r.head.as_str()), Some("trunk"));
    assert!(find_repo(&c, "gamma").is_none());
}

#[test]
fn unknown_repo_is_not_found() {
    let c = config();
    assert!(matches!(repo_from_name("gamma", &c), Err(GititError::NotFound)));
}

#[test]
fn batch_plans_every_repository() {
    let c = config();
    let plans = gitit::update_repos(&c, &vec![true, false]);
    assert_eq!(plans.len(), 2);
    assert_eq!((plans[0].path.as_str(), plans[0].action), ("repos/alpha.git", SyncAction::Fetch));
    assert_eq!((plans[1].path.as_str(), plans[1].action), ("repos/beta.git", SyncAction::Clone));
}
