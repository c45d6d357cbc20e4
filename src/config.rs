use vstd::prelude::*;
use crate::error::GititError;
use crate::store::open_mirror;
use crate::sync::mirror_path;

verus! {

/// The branch a mirror's HEAD is pointed at when the configuration names none.
pub open spec fn default_head_name() -> Seq<char> {
    seq!['m', 'a', 'i', 'n']
}

/// Where the server listens.
#[derive(Clone, Debug)]
pub struct ListenConfig {
    pub address: String,
}

/// One configured remote repository.
#[derive(Clone, Debug)]
pub struct RepoConfig {
    pub url: String,
    pub title: String,
    /// The branch whose tip the mirror's HEAD follows.
    pub head: String,
}

/// The whole configuration: the listen address and the repositories, by slug.
#[derive(Clone, Debug)]
pub struct Config {
    pub server: ListenConfig,
    pub repos: Vec<(String, RepoConfig)>,
}

/// The default branch name, `main`.
pub fn default_head() -> (r: String)
    ensures
        r@ == default_head_name(),
{
    let r = String::from_str("main");
    proof {
        reveal_strlit("main");
    }
    assert(r@ =~= default_head_name());
    r
}


/// Whether the configuration has a repository under `slug`.
pub open spec fn has_slug(config: Config, slug: Seq<char>) -> bool {
    exists|i: int| 0 <= i < config.repos@.len() && (#[trigger] config.repos@[i]).0@ == slug
}

/// The configuration of the repository `slug`, if there is one.
pub fn find_repo<'c>(config: &'c Config, slug: &str) -> (r: Option<&'c RepoConfig>)
    ensures
        r is None <==> !has_slug(*config, slug@),
        r matches Some(c) ==> exists|i: int| 0 <= i < config.repos@.len()
            && (#[trigger] config.repos@[i]).0@ == slug@ && config.repos@[i].1 == *c,
{
    let wanted = slug.to_owned();
    let mut i: usize = 0;
    while i < config.repos.len()
        invariant
            i <= config.repos@.len(),
            wanted@ == slug@,
            forall|j: int| 0 <= j < i ==> (#[trigger] config.repos@[j]).0@ != slug@,
        decreases config.repos.len() - i,
    {
        if config.repos[i].0 == wanted {
            return Some(&config.repos[i].1);
        }
        i = i + 1;
    }
    None
}

/// The configuration and the opened mirror of the repository `slug`;
/// `NotFound` when no such repository is configured or its mirror does not
/// exist yet.
pub fn repo_from_name<'c>(slug: &str, config: &'c Config) -> (r: Result<(&'c RepoConfig, git2::Repository), GititError>)
    ensures
        !has_slug(*config, slug@) ==> r matches Err(GititError::NotFound),
        r matches Ok((c, _)) ==> exists|i: int| 0 <= i < config.repos@.len()
            && (#[trigger] config.repos@[i]).0@ == slug@ && config.repos@[i].1 == *c,
        r matches Err(e) ==> e is NotFound || e is GitError,
{
    let repo_config = match find_repo(config, slug) {
        Some(c) => c,
        None => return Err(GititError::NotFound),
    };
    let path = mirror_path(slug);
    match open_mirror(path.as_str()) {
        Ok(repo) => Ok((repo_config, repo)),
        Err(e) => Err(e.into_error()),
    }
}

} // verus!
