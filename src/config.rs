//! The run configuration, as loaded from the configuration file.
use vstd::prelude::*;
use crate::build_config::{Build, Committer};
use vstd::string::*;

verus! {

/// The whole configuration of a run.
#[derive(Clone, Debug)]
pub struct ReleaserConfig {
    pub build: Build,
    pub brew: Option<BrewConfig>,
    pub release: ReleaseConfig,
    pub crates_io: Option<CratesIoConfig>,
}

/// Publishing to a crate registry after the release.
#[derive(Clone, Debug)]
pub struct CratesIoConfig {
    pub packages: Vec<String>,
    pub registry: Option<String>,
    pub index: Option<String>,
    pub allow_dirty: Option<bool>,
    pub skip_verify: Option<bool>,
}

/// Whether an optional flag is set.
pub open spec fn flag(f: Option<bool>) -> bool {
    match f {
        Some(b) => b,
        None => false,
    }
}

/// The arguments of the registry publication of `package`:
/// `publish [--allow-dirty] [--no-verify] [--registry R] [--index I] --package P`.
pub open spec fn publish_args_of(c: CratesIoConfig, package: Seq<char>) -> Seq<Seq<char>> {
    seq!["publish"@] + (if flag(c.allow_dirty) { seq!["--allow-dirty"@] } else { Seq::empty() }) + (if flag(
        c.skip_verify,
    ) {
        seq!["--no-verify"@]
    } else {
        Seq::empty()
    }) + (match c.registry {
        Some(r) => seq!["--registry"@, r@],
        None => Seq::empty(),
    }) + (match c.index {
        Some(i) => seq!["--index"@, i@],
        None => Seq::empty(),
    }) + seq!["--package"@, package]
}

impl CratesIoConfig {
    /// The arguments of the registry publication of `package`.
    pub fn publish_args(&self, package: &str) -> (r: Vec<String>)
        ensures
            r@.map_values(|s: String| s@) == publish_args_of(*self, package@),
    {
        let mut r: Vec<String> = Vec::new();
        r.push(String::from_str("publish"));
        let ghost g0 = r@.map_values(|s: String| s@);
        assert(g0 =~= seq!["publish"@]);
        if let Some(true) = self.allow_dirty {
            r.push(String::from_str("--allow-dirty"));
        }
        let ghost g1 = r@.map_values(|s: String| s@);
        assert(g1 =~= seq!["publish"@] + (if flag(self.allow_dirty) { seq!["--allow-dirty"@] } else { Seq::empty() }));
        if let Some(true) = self.skip_verify {
            r.push(String::from_str("--no-verify"));
        }
        let ghost g2 = r@.map_values(|s: String| s@);
        assert(g2 =~= g1 + (if flag(self.skip_verify) { seq!["--no-verify"@] } else { Seq::empty() }));
        if let Some(reg) = &self.registry {
            r.push(String::from_str("--registry"));
            r.push(reg.clone());
        }
        let ghost g3 = r@.map_values(|s: String| s@);
        assert(g3 =~= g2 + match self.registry {
            Some(x) => seq!["--registry"@, x@],
            None => Seq::empty(),
        });
        if let Some(idx) = &self.index {
            r.push(String::from_str("--index"));
            r.push(idx.clone());
        }
        let ghost g4 = r@.map_values(|s: String| s@);
        assert(g4 =~= g3 + match self.index {
            Some(x) => seq!["--index"@, x@],
            None => Seq::empty(),
        });
        r.push(String::from_str("--package"));
        r.push(String::from_str(package));
        assert(r@.map_values(|s: String| s@) =~= g4 + seq!["--package"@, package@]);
        r
    }
}

/// The package-manager formula to publish.
#[derive(Clone, Debug)]
pub struct BrewConfig {
    pub name: String,
    pub description: String,
    pub homepage: String,
    pub license: String,
    pub head: String,
    pub test: String,
    pub caveats: String,
    pub commit_message: String,
    pub commit_author: Option<CommitterConfig>,
    pub pull_request: Option<PullRequestConfig>,
    pub repository_owner: String,
    pub repository_name: String,
    pub path: Option<String>,
}

/// The author of formula commits.
#[derive(Clone, Debug)]
pub struct CommitterConfig {
    pub email: String,
    pub name: String,
}

impl Committer {
    /// The committer of a configured author.
    pub fn from_config(value: CommitterConfig) -> (r: Committer)
        ensures
            r.author == value.name,
            r.email == value.email,
    {
        Committer { author: value.name, email: value.email }
    }
}

/// The pull request that proposes a formula update.
#[derive(Clone, Debug)]
pub struct PullRequestConfig {
    pub title: Option<String>,
    pub body: Option<String>,
    pub labels: Option<Vec<String>>,
    pub assignees: Option<Vec<String>>,
    pub draft: bool,
    pub base: String,
    pub head: String,
}

/// Where and how the release is published.
#[derive(Clone, Debug)]
pub struct ReleaseConfig {
    pub owner: String,
    pub repo: String,
    pub target_branch: String,
    pub prerelease: bool,
    pub draft: bool,
    pub body: Option<String>,
}

} // verus!
