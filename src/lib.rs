//! Mirrors remote git repositories and renders their history, trees and diffs.
//!
//! The logic of the two core subsystems, the mirror synchronizer and the
//! history/content renderer, is stated and proved here; the object store
//! (libgit2), MIME guessing and syntax highlighting are reached through small
//! trusted wrappers whose contracts are spelled out next to them.

pub mod config;
pub mod content;
pub mod diff;
pub mod error;
pub mod history;
pub mod laws;
pub mod object_id;
pub mod store;
pub mod sync;
pub mod tree;

pub use config::{default_head, find_repo, repo_from_name, Config, ListenConfig, RepoConfig};
pub use content::{content_type_for, safe_mime, starts_with, syntax_highlight, Highlighter, HtmlOrRaw};
pub use diff::{diff_info, format_line, render_patch, DiffLine, DiffStats};
pub use error::{GititError, LookupFailure};
pub use history::{
    commit_detail, commit_patch, commit_summary, commit_to_object, commits_from_walk, comparison_base, finish_diff, full_diff, head_id,
    lookup_commit, recent_commits, split_message, summarize, CommitSummary, RECENT_LIMIT,
};
pub use laws::{
    lemma_application_types_narrowed, lemma_index_lists_each_ref, lemma_listing_is_direct_children,
    lemma_redirect_appends_one_slash,
};
pub use object_id::ObjectId;
pub use store::{ObjectKind, TreeItem};
pub use sync::{
    after_sync, classify_tip, head_ref, mirror_path, plan_sync, progress_view, refs_index, MirrorState,
    ProgressView, RefRecord, SyncAction, SyncPlan, TipUpdate, TransferOutcome, TransferStats, update_repos,
};
pub use tree::{
    blob_view, file_extension, redirect_target, render_file, render_tree, resolve_path, resolve_step,
    tree_listing, BlobView, EntryKind, ListingEntry, PathView, Resolution, TreeListing,
};
