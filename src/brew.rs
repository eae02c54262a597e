//! The data of a package-manager formula: where each platform's archive is
//! downloaded from, grouped by operating system.
use vstd::prelude::*;
use vstd::string::*;
use crate::build_config::{Arch, Os};
use crate::config::{BrewConfig, CommitterConfig, PullRequestConfig};
use crate::package::Package;
use crate::tag::Tag;
use itertools::Itertools;

verus! {

/// A repository on the hosting platform.
#[derive(Clone, Debug)]
pub struct Repository {
    pub owner: String,
    pub name: String,
}

impl Repository {
    /// `https://github.com/{owner}/{name}`.
    pub fn url(&self) -> (r: String)
        ensures
            r@ == "https://github.com/"@ + self.owner@ + seq!['/'] + self.name@,
    {
        let mut r = String::from_str("https://github.com/");
        r.append(self.owner.as_str());
        r.append("/");
        proof { reveal_strlit("/"); }
        r.append(self.name.as_str());
        r
    }
}

/// The archive of one architecture.
#[derive(Clone, Debug)]
pub struct BrewArch {
    pub arch: Arch,
    pub url: String,
    pub hash: String,
}

/// The archives of one operating system.
#[derive(Clone, Debug)]
pub struct MultiTarget {
    pub os: Os,
    pub archs: Vec<BrewArch>,
}

/// The one archive of a single-target build.
#[derive(Clone, Debug)]
pub struct SingleTarget {
    pub url: String,
    pub hash: String,
}

/// The archives of a formula.
#[derive(Clone, Debug)]
pub enum Target {
    Single(SingleTarget),
    Multi(MultiTarget),
}

/// All archives of a formula.
#[derive(Clone, Debug)]
pub struct Targets(pub Vec<Target>);

/// The text of an optional address, empty when absent.
pub open spec fn url_text(u: Option<String>) -> Seq<char> {
    match u {
        Some(s) => s@,
        None => Seq::empty(),
    }
}

/// The total length of the first `k` runs.
pub open spec fn run_start(lens: Seq<usize>, k: int) -> int
    decreases k,
{
    if k <= 0 {
        0
    } else {
        run_start(lens, k - 1) + lens[k - 1]
    }
}

/// `lens` splits `keys` into maximal runs of equal consecutive keys, in
/// order: each run is non-empty, the runs cover the keys, keys inside a run
/// are equal, and neighbouring runs have different keys.
pub open spec fn is_runs(keys: Seq<Option<Os>>, lens: Seq<usize>) -> bool {
    &&& forall|k: int| 0 <= k < lens.len() ==> #[trigger] lens[k] > 0
    &&& run_start(lens, lens.len() as int) == keys.len()
    &&& forall|k: int, i: int|
        0 <= k < lens.len() && run_start(lens, k) <= i < run_start(lens, k) + lens[k] ==> #[trigger] keys[i]
            == keys[#[trigger] run_start(lens, k)]
    &&& forall|k: int| 0 < k < lens.len() ==> keys[#[trigger] run_start(lens, k)] != keys[run_start(lens, k) - 1]
}

/// The operating systems of the packages, in order.
pub open spec fn os_keys(packages: Seq<Package>) -> Seq<Option<Os>> {
    packages.map_values(|p: Package| p.os)
}

/// Relies on itertools::Itertools::chunk_by, which splits a sequence into the
/// maximal runs of consecutive items with equal keys, in order; gives the
/// length of each run.
#[verifier::external_body]
fn os_run_lengths(packages: &Vec<Package>) -> (r: Vec<usize>)
    ensures
        is_runs(os_keys(packages@), r@),
{
    packages.iter().chunk_by(|p| p.os).into_iter().map(|(_, run)| run.count()).collect()
}

/// The archive of a package, for its architecture.
pub open spec fn is_brew_arch(b: BrewArch, p: Package) -> bool {
    &&& p.arch == Some(b.arch)
    &&& b.url@ == url_text(p.url)
    &&& b.hash == p.sha256
}

/// Target `t` holds the packages of run `k`: their operating system, and
/// one archive per package in order.
pub open spec fn is_run_target(t: Target, packages: Seq<Package>, lens: Seq<usize>, k: int) -> bool {
    t matches Target::Multi(m) && packages[run_start(lens, k)].os == Some(m.os) && m.archs@.len() == lens[k]
        && forall|i: int| 0 <= i < lens[k] ==> is_brew_arch(#[trigger] m.archs@[i], packages[run_start(lens, k) + i])
}

/// Whether every package has a target.
pub open spec fn all_targeted(packages: Seq<Package>) -> bool {
    forall|i: int| 0 <= i < packages.len() ==> (#[trigger] packages[i]).os is Some && packages[i].arch is Some
}

proof fn lemma_run_start_mono(lens: Seq<usize>, k: int, m: int)
    requires
        0 <= k <= m <= lens.len(),
    ensures
        run_start(lens, k) <= run_start(lens, m),
    decreases m - k,
{
    if k < m {
        lemma_run_start_mono(lens, k, m - 1);
    }
}

/// The targets of a list of packages: none for no packages; the first
/// package's archive alone when it has no target; otherwise one group per
/// run of consecutive packages with the same operating system.
pub open spec fn is_targets_of(t: Targets, packages: Seq<Package>) -> bool {
    &&& packages.len() == 0 ==> t.0@.len() == 0
    &&& packages.len() > 0 && packages[0].arch is None && packages[0].os is None ==> (t.0@.len() == 1 && (
    t.0@[0] matches Target::Single(s) && s.url@ == url_text(packages[0].url) && s.hash == packages[0].sha256))
    &&& packages.len() > 0 && (packages[0].arch is Some || packages[0].os is Some) ==> exists|lens: Seq<usize>|
        is_runs(os_keys(packages), lens) && t.0@.len() == lens.len() && forall|k: int|
            0 <= k < lens.len() ==> is_run_target(#[trigger] t.0@[k], packages, lens, k)
}

impl Targets {
    /// The targets of a list of packages. None: no targets. A first package
    /// without target: a single-target build, whose one archive is that
    /// package's. Otherwise one group per run of consecutive packages with
    /// the same operating system, listing each package's archive.
    pub fn from_packages(packages: &Vec<Package>) -> (r: Targets)
        requires
            packages@.len() > 0 && (packages@[0].arch is Some || packages@[0].os is Some) ==> all_targeted(packages@),
        ensures
            is_targets_of(r, packages@),
    {
        let mut targets: Vec<Target> = Vec::new();
        if packages.len() == 0 {
            return Targets(targets);
        }
        let first = &packages[0];
        if first.arch.is_none() && first.os.is_none() {
            let url = match &first.url {
                Some(u) => u.clone(),
                None => String::new(),
            };
            targets.push(Target::Single(SingleTarget { url, hash: first.sha256.clone() }));
            return Targets(targets);
        }
        let total = packages.len();
        let lens = os_run_lengths(packages);
        let ghost keys = os_keys(packages@);
        let mut k: usize = 0;
        let mut pos: usize = 0;
        while k < lens.len()
            invariant
                is_runs(keys, lens@),
                keys == os_keys(packages@),
                all_targeted(packages@),
                total == packages@.len(),
                k <= lens@.len(),
                pos == run_start(lens@, k as int),
                targets@.len() == k,
                forall|q: int| 0 <= q < k ==> is_run_target(#[trigger] targets@[q], packages@, lens@, q),
            decreases lens@.len() - k,
        {
            proof {
                lemma_run_start_mono(lens@, k + 1, lens@.len() as int);
                assert(keys[pos as int] == packages@[pos as int].os);
                assert(run_start(lens@, k + 1) == pos + lens@[k as int]);
                assert(keys.len() == packages@.len());
                assert(pos + lens@[k as int] <= packages@.len());
            }
            let os = match packages[pos].os {
                Some(o) => o,
                None => Os::AppleDarwin,
            };
            let mut archs: Vec<BrewArch> = Vec::new();
            let mut i: usize = 0;
            while i < lens[k]
                invariant
                    is_runs(keys, lens@),
                    all_targeted(packages@),
                    total == packages@.len(),
                    k < lens@.len(),
                    pos == run_start(lens@, k as int),
                    pos + lens@[k as int] <= packages@.len(),
                    i <= lens@[k as int],
                    archs@.len() == i,
                    forall|q: int| 0 <= q < i ==> is_brew_arch(#[trigger] archs@[q], packages@[pos + q]),
                decreases lens@[k as int] - i,
            {
                let p = &packages[pos + i];
                let arch = match p.arch {
                    Some(a) => a,
                    None => Arch::Amd64,
                };
                let url = match &p.url {
                    Some(u) => u.clone(),
                    None => String::new(),
                };
                archs.push(BrewArch { arch, url, hash: p.sha256.clone() });
                i = i + 1;
            }
            targets.push(Target::Multi(MultiTarget { os, archs }));
            pos = pos + lens[k];
            k = k + 1;
        }
        Targets(targets)
    }
}

/// The upper-case form of a character.
pub uninterp spec fn upper_of(c: char) -> Seq<char>;

/// Relies on char::to_uppercase: the upper-case form of a character, which
/// depends on the character alone.
#[verifier::external_body]
fn uppercase(c: char) -> (r: String)
    ensures
        r@ == upper_of(c),
{
    c.to_uppercase().collect()
}

/// A name with its first character in upper case.
pub open spec fn capitalized(s: Seq<char>) -> Seq<char> {
    upper_of(s[0]) + s.subrange(1, s.len() as int)
}

/// A formula class name from a formula name: the first character in upper
/// case, the rest unchanged.
pub fn captalize(s: &str) -> (r: String)
    requires
        s@.len() > 0,
    ensures
        r@ == capitalized(s@),
{
    let n = s.unicode_len();
    let mut r = uppercase(s.get_char(0));
    r.append(s.substring_char(1, n));
    r
}

/// The data a formula is rendered from.
#[derive(Clone, Debug)]
pub struct Brew {
    pub name: String,
    pub description: String,
    pub homepage: String,
    pub license: String,
    pub head: String,
    pub test: String,
    pub caveats: String,
    pub commit_message: String,
    pub commit_author: Option<CommitterConfig>,
    pub repository: Repository,
    pub tag: Tag,
    pub pull_request: Option<PullRequestConfig>,
    pub targets: Targets,
    pub path: Option<String>,
}

impl Brew {
    /// The formula of `version` with the archives of `packages`; its name is
    /// the configured one, capitalized.
    pub fn new(brew: BrewConfig, version: Tag, packages: Vec<Package>) -> (r: Brew)
        requires
            brew.name@.len() > 0,
            packages@.len() > 0 && (packages@[0].arch is Some || packages@[0].os is Some) ==> all_targeted(packages@),
        ensures
            r.name@ == capitalized(brew.name@),
            r.description == brew.description,
            r.homepage == brew.homepage,
            r.license == brew.license,
            r.head == brew.head,
            r.test == brew.test,
            r.caveats == brew.caveats,
            r.commit_message == brew.commit_message,
            r.repository.owner == brew.repository_owner,
            r.repository.name == brew.repository_name,
            r.tag == version,
            r.path == brew.path,
            r.commit_author == brew.commit_author,
            r.pull_request == brew.pull_request,
            is_targets_of(r.targets, packages@),
    {
        let name = captalize(brew.name.as_str());
        let targets = Targets::from_packages(&packages);
        Brew {
            name,
            description: brew.description,
            homepage: brew.homepage,
            license: brew.license,
            head: brew.head,
            test: brew.test,
            caveats: brew.caveats,
            commit_message: brew.commit_message,
            commit_author: brew.commit_author,
            repository: Repository { owner: brew.repository_owner, name: brew.repository_name },
            tag: version,
            pull_request: brew.pull_request,
            targets,
            path: brew.path,
        }
    }
}

} // verus!
