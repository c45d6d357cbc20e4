//! The mirror synchronizer's decisions. The transfers themselves (clone,
//! fetch) and the writes to disk are performed by the caller, which hands
//! their outcome back here.

use vstd::prelude::*;
use crate::config::{Config, RepoConfig};

verus! {

/// `repos/<slug>.git`: where the mirror of a repository lives.
pub open spec fn mirror_path_spec(slug: Seq<char>) -> Seq<char> {
    seq!['r', 'e', 'p', 'o', 's', '/'] + slug + seq!['.', 'g', 'i', 't']
}

/// `refs/heads/<branch>`.
pub open spec fn head_ref_spec(branch: Seq<char>) -> Seq<char> {
    seq!['r', 'e', 'f', 's', '/', 'h', 'e', 'a', 'd', 's', '/'] + branch
}

/// The path of a repository's mirror.
pub fn mirror_path(slug: &str) -> (r: String)
    ensures
        r@ == mirror_path_spec(slug@),
{
    let mut r = String::from_str("repos/");
    r.append(slug);
    r.append(".git");
    proof {
        reveal_strlit("repos/");
        reveal_strlit(".git");
    }
    assert(r@ =~= mirror_path_spec(slug@));
    r
}

/// The reference the mirror's HEAD is pointed at: the configured branch,
/// whatever the remote advertises.
pub fn head_ref(config: &RepoConfig) -> (r: String)
    ensures
        r@ == head_ref_spec(config.head@),
{
    let mut r = String::from_str("refs/heads/");
    r.append(config.head.as_str());
    proof {
        reveal_strlit("refs/heads/");
    }
    assert(r@ =~= head_ref_spec(config.head@));
    r
}

/// One reference of a mirror: its name, and the id it points at directly
/// (`None` for a symbolic reference).
#[derive(Debug)]
pub struct RefRecord {
    pub target: Option<String>,
    pub name: String,
}

/// The index line of one reference: `<id>\t<name>\n`; none for a symbolic one.
pub open spec fn index_line(r: RefRecord) -> Seq<char> {
    match r.target {
        Some(t) => t@ + seq!['\t'] + r.name@ + seq!['\n'],
        None => Seq::empty(),
    }
}

/// The ref-index file's text: one line per direct reference, in order.
pub open spec fn refs_index_text(refs: Seq<RefRecord>) -> Seq<char>
    decreases refs.len(),
{
    if refs.len() == 0 {
        Seq::empty()
    } else {
        refs_index_text(refs.drop_last()) + index_line(refs.last())
    }
}

/// Builds the text of the ref-index file.
pub fn refs_index(refs: &Vec<RefRecord>) -> (r: String)
    ensures
        r@ == refs_index_text(refs@),
{
    let mut out = String::new();
    let mut i: usize = 0;
    while i < refs.len()
        invariant
            i <= refs@.len(),
            out@ == refs_index_text(refs@.subrange(0, i as int)),
        decreases refs.len() - i,
    {
        proof {
            assert(refs@.subrange(0, i as int + 1).drop_last() =~= refs@.subrange(0, i as int));
        }
        let rf = &refs[i];
        match &rf.target {
            Some(t) => {
                let ghost before = out@;
                out.append(t.as_str());
                out.append("\t");
                out.append(rf.name.as_str());
                out.append("\n");
                proof {
                    reveal_strlit("\t");
                    reveal_strlit("\n");
                }
                assert(out@ =~= before + index_line(refs@[i as int]));
            },
            None => {},
        }
        i = i + 1;
    }
    assert(refs@.subrange(0, refs@.len() as int) =~= refs@);
    out
}

/// What a mirror looks like to readers: its ref index and its HEAD.
#[derive(Debug)]
pub struct MirrorState {
    pub path: String,
    pub refs_index: String,
    pub head: String,
}

/// How the transfer of one sync attempt ended: with the mirror's references
/// as they then stand, or in failure.
pub enum TransferOutcome {
    Done(Vec<RefRecord>),
    Failed,
}

/// What to do for a repository: clone it when no mirror exists yet, fetch
/// into the existing one otherwise.
#[derive(Clone, Copy, PartialEq, Eq, Structural, Debug)]
pub enum SyncAction {
    Clone,
    Fetch,
}

/// The plan for syncing one repository.
#[derive(Debug)]
pub struct SyncPlan {
    pub path: String,
    pub action: SyncAction,
}

/// Plans the sync of the repository `slug`, given whether its mirror exists.
pub fn plan_sync(slug: &str, mirror_exists: bool) -> (r: SyncPlan)
    ensures
        r.path@ == mirror_path_spec(slug@),
        r.action == (if mirror_exists { SyncAction::Fetch } else { SyncAction::Clone }),
{
    SyncPlan {
        path: mirror_path(slug),
        action: if mirror_exists {
            SyncAction::Fetch
        } else {
            SyncAction::Clone
        },
    }
}

/// Plans a sync of every configured repository, in configuration order, given
/// whether each one's mirror exists: one plan per repository, none skipped.
/// The caller carries each plan out on its own, so that one failure does not
/// keep the others from being synced.
pub fn update_repos(config: &Config, mirror_exists: &Vec<bool>) -> (r: Vec<SyncPlan>)
    requires
        mirror_exists@.len() == config.repos@.len(),
    ensures
        r@.len() == config.repos@.len(),
        forall|i: int| 0 <= i < r@.len() ==> {
            &&& (#[trigger] r@[i]).path@ == mirror_path_spec(config.repos@[i].0@)
            &&& r@[i].action == (if mirror_exists@[i] { SyncAction::Fetch } else { SyncAction::Clone })
        },
{
    let mut plans: Vec<SyncPlan> = Vec::new();
    let mut i: usize = 0;
    while i < config.repos.len()
        invariant
            i <= config.repos@.len(),
            mirror_exists@.len() == config.repos@.len(),
            plans@.len() == i,
            forall|j: int| 0 <= j < i ==> {
                &&& (#[trigger] plans@[j]).path@ == mirror_path_spec(config.repos@[j].0@)
                &&& plans@[j].action == (if mirror_exists@[j] { SyncAction::Fetch } else { SyncAction::Clone })
            },
        decreases config.repos.len() - i,
    {
        plans.push(plan_sync(config.repos[i].0.as_str(), mirror_exists[i]));
        i = i + 1;
    }
    plans
}

/// The state a mirror is left in by a sync attempt: after a completed
/// transfer, the regenerated index and HEAD on the configured branch; after a
/// failed one, exactly the prior state.
pub fn after_sync(
    prior: Option<MirrorState>,
    path: &str,
    config: &RepoConfig,
    outcome: TransferOutcome,
) -> (r: Option<MirrorState>)
    ensures
        outcome is Failed ==> r == prior,
        outcome matches TransferOutcome::Done(refs) ==> (r matches Some(m) && m.path@ == path@
            && m.refs_index@ == refs_index_text(refs@) && m.head@ == head_ref_spec(config.head@)),
{
    match outcome {
        TransferOutcome::Failed => prior,
        TransferOutcome::Done(refs) => Some(
            MirrorState { path: path.to_owned(), refs_index: refs_index(&refs), head: head_ref(config) },
        ),
    }
}

/// Whether a previous tip id is the all-zero id.
pub open spec fn is_zero_id(s: Seq<char>) -> bool {
    forall|i: int| 0 <= i < s.len() ==> #[trigger] s[i] == '0'
}

/// How a remote-tracking tip moved during a fetch.
#[derive(Clone, Copy, PartialEq, Eq, Structural, Debug)]
pub enum TipUpdate {
    /// The reference did not exist before (its previous id is zero).
    New,
    /// The reference pointed at a known id before.
    Updated,
}

/// Classifies a tip update by the reference's previous id.
pub fn classify_tip(previous: &str) -> (r: TipUpdate)
    ensures
        r == (if is_zero_id(previous@) { TipUpdate::New } else { TipUpdate::Updated }),
{
    let n = previous.unicode_len();
    let mut i: usize = 0;
    while i < n
        invariant
            n == previous@.len(),
            i <= n,
            forall|j: int| 0 <= j < i ==> #[trigger] previous@[j] == '0',
        decreases n - i,
    {
        if previous.get_char(i) != '0' {
            return TipUpdate::Updated;
        }
        i = i + 1;
    }
    TipUpdate::New
}

/// Transfer statistics of a clone or fetch, as the object store reports them.
#[derive(Debug)]
pub struct TransferStats {
    pub received_objects: u64,
    pub indexed_objects: u64,
    pub total_objects: u64,
    pub received_bytes: u64,
    pub indexed_deltas: u64,
    pub total_deltas: u64,
}

/// A progress line to show.
#[derive(Debug)]
pub enum ProgressView {
    /// Every object has arrived; deltas are being resolved.
    ResolvingDeltas { indexed: u64, total: u64 },
    /// Objects are still arriving.
    Transfer {
        network_pct: u128,
        index_pct: u128,
        checkout_pct: u128,
        kbytes: u64,
        received: u64,
        indexed: u64,
        total: u64,
        checkout_current: u64,
        checkout_total: u64,
    },
}

/// `part` as a whole percentage of `whole`, rounded down; 0 of nothing.
pub open spec fn percent(part: u64, whole: u64) -> int {
    if whole == 0 {
        0
    } else {
        (100 * part as int) / (whole as int)
    }
}

fn percent_of(part: u64, whole: u64) -> (r: u128)
    ensures
        r as int == percent(part, whole),
{
    if whole == 0 {
        0
    } else {
        assert(100 * (part as int) <= 100 * (u64::MAX as int));
        let p: u128 = 100u128 * (part as u128);
        let r = p / (whole as u128);
        assert(r as int == (100 * part as int) / (whole as int));
        r
    }
}

/// The progress line for the given statistics and checkout counters.
pub fn progress_view(stats: &TransferStats, checkout_total: u64, checkout_current: u64) -> (r: ProgressView)
    ensures
        stats.received_objects == stats.total_objects ==> r == (ProgressView::ResolvingDeltas {
            indexed: stats.indexed_deltas,
            total: stats.total_deltas,
        }),
        stats.received_objects != stats.total_objects ==> r == (ProgressView::Transfer {
            network_pct: percent(stats.received_objects, stats.total_objects) as u128,
            index_pct: percent(stats.indexed_objects, stats.total_objects) as u128,
            checkout_pct: percent(checkout_current, checkout_total) as u128,
            kbytes: stats.received_bytes / 1024,
            received: stats.received_objects,
            indexed: stats.indexed_objects,
            total: stats.total_objects,
            checkout_current,
            checkout_total,
        }),
{
    if stats.received_objects == stats.total_objects {
        ProgressView::ResolvingDeltas { indexed: stats.indexed_deltas, total: stats.total_deltas }
    } else {
        ProgressView::Transfer {
            network_pct: percent_of(stats.received_objects, stats.total_objects),
            index_pct: percent_of(stats.indexed_objects, stats.total_objects),
            checkout_pct: percent_of(checkout_current, checkout_total),
            kbytes: stats.received_bytes / 1024,
            received: stats.received_objects,
            indexed: stats.indexed_objects,
            total: stats.total_objects,
            checkout_current,
            checkout_total,
        }
    }
}

} // verus!
