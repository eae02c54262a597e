//! Fluent construction of the platform calls: a client gives a repository
//! handler, which gives handlers and builders for releases, branches, files
//! and pull requests. Each ends in the `ApiCall` to perform.
use vstd::prelude::*;
use vstd::string::*;
use crate::api::{ApiCall, CreateReleaseRequest, release_by_tag_url, release_by_tag_url_of, releases_url, releases_url_of, repo_api, repo_api_url};
use crate::build_config::Committer;
use crate::requests::{
    AssigneesRequest, BranchRefRequest, CommitterRequest, LabelsRequest, PullRquestRequest, UpsertFileRequest,
};
use crate::tag::Tag;
use base64::Engine;
use vstd::utf8::encode_utf8;
use crate::text::decimal;
use crate::text::decimal_digits;

verus! {

/// The base64 encoding (standard alphabet, padded) of a byte sequence.
pub uninterp spec fn base64_of(data: Seq<u8>) -> Seq<char>;

/// Relies on base64's `BASE64_STANDARD.encode`: the padded standard-alphabet
/// encoding of the bytes.
#[verifier::external_body]
fn base64_encode(data: &[u8]) -> (r: String)
    ensures
        r@ == base64_of(data@),
{
    base64::prelude::BASE64_STANDARD.encode(data)
}

/// The entry point of call construction.
#[derive(Debug)]
pub struct GithubClient {}

/// A client.
pub fn instance() -> (r: GithubClient) {
    GithubClient {}
}

impl GithubClient {
    /// The handler of the repository `owner/name`.
    pub fn repo(&self, owner: String, name: String) -> (r: RepositoryHandler)
        ensures
            r.owner == owner,
            r.repo == name,
    {
        RepositoryHandler::new(owner, name)
    }
}

/// Calls about one repository.
#[derive(Debug)]
pub struct RepositoryHandler {
    pub owner: String,
    pub repo: String,
}

impl RepositoryHandler {
    pub fn new(owner: String, repo: String) -> (r: RepositoryHandler)
        ensures
            r.owner == owner,
            r.repo == repo,
    {
        RepositoryHandler { owner, repo }
    }

    pub fn releases(&self) -> (r: ReleaseHandler)
        ensures
            r.owner == self.owner,
            r.repo == self.repo,
    {
        ReleaseHandler::new(self.owner.clone(), self.repo.clone())
    }

    pub fn branches(&self) -> (r: BranchesHandler)
        ensures
            r.owner == self.owner,
            r.repo == self.repo,
    {
        BranchesHandler::new(self.owner.clone(), self.repo.clone())
    }

    pub fn branch(&self, branch: &str) -> (r: BranchHandler)
        ensures
            r.owner == self.owner,
            r.repo == self.repo,
            r.base@ == branch@,
    {
        BranchHandler::new(self.owner.clone(), self.repo.clone(), String::from_str(branch))
    }

    pub fn pull_request(&self) -> (r: PullRequestHandler)
        ensures
            r.owner == self.owner,
            r.repo == self.repo,
    {
        PullRequestHandler::new(self.owner.clone(), self.repo.clone())
    }
}

/// Calls about the releases of a repository.
#[derive(Debug)]
pub struct ReleaseHandler {
    pub owner: String,
    pub repo: String,
}

impl ReleaseHandler {
    pub fn new(owner: String, repo: String) -> (r: ReleaseHandler)
        ensures
            r.owner == owner,
            r.repo == repo,
    {
        ReleaseHandler { owner, repo }
    }

    /// A release-creation builder with nothing set.
    pub fn create(&self) -> (r: CreateReleaseBuilder)
        ensures
            r.owner == self.owner,
            r.repo == self.repo,
            r.release_name@.len() == 0,
            r.release_tag.name@.len() == 0,
            r.target_branch@.len() == 0,
            r.draft is None,
            r.prerelease is None,
            r.body is None,
    {
        CreateReleaseBuilder::new(self.owner.clone(), self.repo.clone())
    }

    /// The lookup of the release of `tag`.
    pub fn get_by_tag(&self, tag: &Tag) -> (r: ApiCall)
        ensures
            r matches ApiCall::GetReleaseByTag { url } && url@ == release_by_tag_url_of(self.owner@, self.repo@, tag.name@),
    {
        ApiCall::GetReleaseByTag { url: release_by_tag_url(self.owner.as_str(), self.repo.as_str(), tag) }
    }
}

/// The fields of a release to create.
#[derive(Debug)]
pub struct CreateReleaseBuilder {
    pub owner: String,
    pub repo: String,
    pub release_name: String,
    pub release_tag: Tag,
    pub target_branch: String,
    pub draft: Option<bool>,
    pub prerelease: Option<bool>,
    pub body: Option<String>,
}

impl CreateReleaseBuilder {
    pub fn new(owner: String, repo: String) -> (r: CreateReleaseBuilder)
        ensures
            r.owner == owner,
            r.repo == repo,
            r.release_name@.len() == 0,
            r.release_tag.name@.len() == 0,
            r.target_branch@.len() == 0,
            r.draft is None,
            r.prerelease is None,
            r.body is None,
    {
        CreateReleaseBuilder {
            owner,
            repo,
            release_name: String::new(),
            release_tag: Tag::new(String::new()),
            target_branch: String::new(),
            draft: None,
            prerelease: None,
            body: None,
        }
    }

    pub fn name(self, release_name: String) -> (r: CreateReleaseBuilder)
        ensures
            r == (CreateReleaseBuilder { release_name, ..self }),
    {
        CreateReleaseBuilder { release_name, ..self }
    }

    pub fn tag(self, release_tag: &Tag) -> (r: CreateReleaseBuilder)
        ensures
            r == (CreateReleaseBuilder { release_tag: *release_tag, ..self }),
    {
        let t = Tag::new(release_tag.name.clone());
        CreateReleaseBuilder { release_tag: t, ..self }
    }

    pub fn target_branch(self, target_branch: String) -> (r: CreateReleaseBuilder)
        ensures
            r == (CreateReleaseBuilder { target_branch, ..self }),
    {
        CreateReleaseBuilder { target_branch, ..self }
    }

    pub fn draft(self, draft: bool) -> (r: CreateReleaseBuilder)
        ensures
            r == (CreateReleaseBuilder { draft: Some(draft), ..self }),
    {
        CreateReleaseBuilder { draft: Some(draft), ..self }
    }

    pub fn prerelease(self, pre_release: bool) -> (r: CreateReleaseBuilder)
        ensures
            r == (CreateReleaseBuilder { prerelease: Some(pre_release), ..self }),
    {
        CreateReleaseBuilder { prerelease: Some(pre_release), ..self }
    }

    pub fn body(self, body: String) -> (r: CreateReleaseBuilder)
        ensures
            r == (CreateReleaseBuilder { body: Some(body), ..self }),
    {
        CreateReleaseBuilder { body: Some(body), ..self }
    }

    /// The creation call. Draft and prerelease must have been set; an unset
    /// body is sent empty.
    pub fn call(self) -> (r: ApiCall)
        requires
            self.draft is Some,
            self.prerelease is Some,
        ensures
            r matches ApiCall::CreateRelease { url, request } && url@ == releases_url_of(self.owner@, self.repo@)
                && request.tag_name == self.release_tag.name && request.target_commitish == self.target_branch
                && request.name == self.release_name && request.draft == self.draft->0
                && request.prerelease == self.prerelease->0 && request.body@ == match self.body {
                Some(b) => b@,
                None => Seq::<char>::empty(),
            },
    {
        let url = releases_url(self.owner.as_str(), self.repo.as_str());
        let draft = match self.draft {
            Some(d) => d,
            None => false,
        };
        let prerelease = match self.prerelease {
            Some(p) => p,
            None => false,
        };
        let body = match self.body {
            Some(b) => b,
            None => String::new(),
        };
        let request = CreateReleaseRequest::new(
            self.release_tag.name,
            self.target_branch,
            self.release_name,
            body,
            draft,
            prerelease,
        );
        ApiCall::CreateRelease { url, request }
    }
}

/// Calls about the branches of a repository.
#[derive(Debug)]
pub struct BranchesHandler {
    pub owner: String,
    pub repo: String,
}

impl BranchesHandler {
    pub fn new(owner: String, repo: String) -> (r: BranchesHandler)
        ensures
            r.owner == owner,
            r.repo == repo,
    {
        BranchesHandler { owner, repo }
    }

    /// A branch-creation builder with no branch or commit set.
    pub fn create(&self) -> (r: CreateBranchBuilder)
        ensures
            r.owner == self.owner,
            r.repo == self.repo,
            r.branch@.len() == 0,
            r.sha@.len() == 0,
    {
        CreateBranchBuilder::new(self.owner.clone(), self.repo.clone())
    }
}

/// A branch to create at a commit.
#[derive(Debug)]
pub struct CreateBranchBuilder {
    pub owner: String,
    pub repo: String,
    pub branch: String,
    pub sha: String,
}

/// The endpoint that creates references.
pub open spec fn refs_url_of(owner: Seq<char>, repo: Seq<char>) -> Seq<char> {
    repo_api(owner, repo) + "/git/refs"@
}

impl CreateBranchBuilder {
    pub fn new(owner: String, repo: String) -> (r: CreateBranchBuilder)
        ensures
            r.owner == owner,
            r.repo == repo,
            r.branch@.len() == 0,
            r.sha@.len() == 0,
    {
        CreateBranchBuilder { owner, repo, branch: String::new(), sha: String::new() }
    }

    pub fn branch(self, branch: String) -> (r: CreateBranchBuilder)
        ensures
            r == (CreateBranchBuilder { branch, ..self }),
    {
        CreateBranchBuilder { branch, ..self }
    }

    pub fn sha(self, sha: String) -> (r: CreateBranchBuilder)
        ensures
            r == (CreateBranchBuilder { sha, ..self }),
    {
        CreateBranchBuilder { sha, ..self }
    }

    /// The call that creates the branch at the commit.
    pub fn call(self) -> (r: ApiCall)
        ensures
            r matches ApiCall::CreateBranch { url, request } && url@ == refs_url_of(self.owner@, self.repo@)
                && request.ref_name@ == "refs/heads/"@ + self.branch@ && request.sha == self.sha,
    {
        let mut url = repo_api_url(self.owner.as_str(), self.repo.as_str());
        url.append("/git/refs");
        ApiCall::CreateBranch { url, request: BranchRefRequest::new(self.branch, self.sha) }
    }
}

/// Calls about one branch of a repository.
#[derive(Debug)]
pub struct BranchHandler {
    pub owner: String,
    pub repo: String,
    pub base: String,
}

/// The endpoint that describes a commit.
pub open spec fn commit_url_of(owner: Seq<char>, repo: Seq<char>, reference: Seq<char>) -> Seq<char> {
    repo_api(owner, repo) + "/commits/"@ + reference
}

impl BranchHandler {
    pub fn new(owner: String, repo: String, branch: String) -> (r: BranchHandler)
        ensures
            r.owner == owner,
            r.repo == repo,
            r.base == branch,
    {
        BranchHandler { owner, repo, base: branch }
    }

    /// A file-writing builder on this branch, with the default committer.
    pub fn upsert_file(&self) -> (r: UpsertFileBuilder)
        ensures
            r.owner == self.owner,
            r.repo == self.repo,
            r.head == self.base,
            r.path@.len() == 0,
            r.commit_message@.len() == 0,
            r.content@.len() == 0,
            r.committer.author@ == "rust-releaser"@,
            r.committer.email@ == "rust-releaser@github.com"@,
    {
        UpsertFileBuilder::new(self.owner.clone(), self.repo.clone(), self.base.clone())
    }

    /// The lookup of the commit at the tip of this branch.
    pub fn get_commit_sha(&self) -> (r: ApiCall)
        ensures
            r matches ApiCall::GetCommitSha { url } && url@ == commit_url_of(self.owner@, self.repo@, self.base@),
    {
        let mut url = repo_api_url(self.owner.as_str(), self.repo.as_str());
        url.append("/commits/");
        url.append(self.base.as_str());
        ApiCall::GetCommitSha { url }
    }
}

/// A file to create or replace on a branch.
#[derive(Debug)]
pub struct UpsertFileBuilder {
    pub owner: String,
    pub repo: String,
    pub path: String,
    pub commit_message: String,
    pub content: String,
    pub committer: Committer,
    pub head: String,
}

/// The endpoint of a file of a repository.
pub open spec fn contents_url_of(owner: Seq<char>, repo: Seq<char>, path: Seq<char>) -> Seq<char> {
    repo_api(owner, repo) + "/contents/"@ + path
}

impl UpsertFileBuilder {
    pub fn new(owner: String, repo: String, branch: String) -> (r: UpsertFileBuilder)
        ensures
            r.owner == owner,
            r.repo == repo,
            r.head == branch,
            r.path@.len() == 0,
            r.commit_message@.len() == 0,
            r.content@.len() == 0,
            r.committer.author@ == "rust-releaser"@,
            r.committer.email@ == "rust-releaser@github.com"@,
    {
        UpsertFileBuilder {
            owner,
            repo,
            path: String::new(),
            commit_message: String::new(),
            content: String::new(),
            committer: Committer::default(),
            head: branch,
        }
    }

    pub fn path(self, path: String) -> (r: UpsertFileBuilder)
        ensures
            r == (UpsertFileBuilder { path, ..self }),
    {
        UpsertFileBuilder { path, ..self }
    }

    pub fn message(self, message: String) -> (r: UpsertFileBuilder)
        ensures
            r == (UpsertFileBuilder { commit_message: message, ..self }),
    {
        UpsertFileBuilder { commit_message: message, ..self }
    }

    pub fn content(self, content: String) -> (r: UpsertFileBuilder)
        ensures
            r == (UpsertFileBuilder { content, ..self }),
    {
        UpsertFileBuilder { content, ..self }
    }

    pub fn committer(self, committer: &Committer) -> (r: UpsertFileBuilder)
        ensures
            r.committer.author == committer.author,
            r.committer.email == committer.email,
            r.owner == self.owner,
            r.repo == self.repo,
            r.path == self.path,
            r.commit_message == self.commit_message,
            r.content == self.content,
            r.head == self.head,
    {
        let c = Committer { author: committer.author.clone(), email: committer.email.clone() };
        UpsertFileBuilder { committer: c, ..self }
    }

    /// The lookup of the file's current sha, which a replacement must name.
    pub fn lookup_call(&self) -> (r: ApiCall)
        ensures
            r matches ApiCall::GetFileSha { url } && url@ == contents_url_of(self.owner@, self.repo@, self.path@),
    {
        let mut url = repo_api_url(self.owner.as_str(), self.repo.as_str());
        url.append("/contents/");
        url.append(self.path.as_str());
        ApiCall::GetFileSha { url }
    }

    /// The call that writes the file on the head branch, its content
    /// base64-encoded. An empty `existing_sha` means the file is new;
    /// otherwise the call replaces the file with that sha.
    pub fn put_call(self, existing_sha: String) -> (r: ApiCall)
        ensures
            r matches ApiCall::PutFile { url, request } && url@ == contents_url_of(self.owner@, self.repo@, self.path@)
                && request.message == self.commit_message && request.content@ == base64_of(encode_utf8(self.content@))
                && request.branch == Some(self.head) && request.committer.name == self.committer.author
                && request.committer.email == self.committer.email && (if existing_sha@.len() == 0 {
                request.sha is None
            } else {
                request.sha == Some(existing_sha)
            }),
    {
        let mut url = repo_api_url(self.owner.as_str(), self.repo.as_str());
        url.append("/contents/");
        url.append(self.path.as_str());
        let content = base64_encode(self.content.as_str().as_bytes());
        let sha = if existing_sha.as_str().unicode_len() == 0 {
            None
        } else {
            Some(existing_sha)
        };
        let committer = CommitterRequest::from_committer(self.committer);
        let request = UpsertFileRequest::new(self.commit_message, content, Some(self.head), sha, committer);
        ApiCall::PutFile { url, request }
    }
}

/// Calls about the pull requests of a repository.
#[derive(Debug)]
pub struct PullRequestHandler {
    pub owner: String,
    pub repo: String,
}

impl PullRequestHandler {
    pub fn new(owner: String, repo: String) -> (r: PullRequestHandler)
        ensures
            r.owner == owner,
            r.repo == repo,
    {
        PullRequestHandler { owner, repo }
    }

    /// A pull-request builder with nothing set.
    pub fn create(&self) -> (r: CreatePullRequestBuilder)
        ensures
            r.owner == self.owner,
            r.repo == self.repo,
            r.title@.len() == 0,
            r.body is None,
            r.labels is None,
            r.assignees is None,
            r.committer is None,
            r.base@.len() == 0,
            r.head@.len() == 0,
    {
        CreatePullRequestBuilder::new(self.owner.clone(), self.repo.clone())
    }
}

/// A pull request to open.
#[derive(Debug)]
pub struct CreatePullRequestBuilder {
    pub owner: String,
    pub repo: String,
    pub title: String,
    pub body: Option<String>,
    pub labels: Option<Vec<String>>,
    pub assignees: Option<Vec<String>>,
    pub committer: Option<Committer>,
    pub base: String,
    pub head: String,
}

/// The endpoint that opens pull requests.
pub open spec fn pulls_url_of(owner: Seq<char>, repo: Seq<char>) -> Seq<char> {
    repo_api(owner, repo) + "/pulls"@
}

/// The endpoint of an issue's `what` (`assignees` or `labels`).
pub open spec fn issue_url_of(owner: Seq<char>, repo: Seq<char>, number: u64, what: Seq<char>) -> Seq<char> {
    repo_api(owner, repo) + "/issues/"@ + decimal_digits(number as nat) + seq!['/'] + what
}

impl CreatePullRequestBuilder {
    pub fn new(owner: String, repo: String) -> (r: CreatePullRequestBuilder)
        ensures
            r.owner == owner,
            r.repo == repo,
            r.title@.len() == 0,
            r.body is None,
            r.labels is None,
            r.assignees is None,
            r.committer is None,
            r.base@.len() == 0,
            r.head@.len() == 0,
    {
        CreatePullRequestBuilder {
            owner,
            repo,
            title: String::new(),
            body: None,
            labels: None,
            assignees: None,
            committer: None,
            base: String::new(),
            head: String::new(),
        }
    }

    pub fn title(self, title: String) -> (r: CreatePullRequestBuilder)
        ensures
            r == (CreatePullRequestBuilder { title, ..self }),
    {
        CreatePullRequestBuilder { title, ..self }
    }

    pub fn body(self, body: String) -> (r: CreatePullRequestBuilder)
        ensures
            r == (CreatePullRequestBuilder { body: Some(body), ..self }),
    {
        CreatePullRequestBuilder { body: Some(body), ..self }
    }

    pub fn labels(self, labels: Vec<String>) -> (r: CreatePullRequestBuilder)
        ensures
            r == (CreatePullRequestBuilder { labels: Some(labels), ..self }),
    {
        CreatePullRequestBuilder { labels: Some(labels), ..self }
    }

    pub fn assignees(self, assignees: Vec<String>) -> (r: CreatePullRequestBuilder)
        ensures
            r == (CreatePullRequestBuilder { assignees: Some(assignees), ..self }),
    {
        CreatePullRequestBuilder { assignees: Some(assignees), ..self }
    }

    pub fn committer(self, committer: &Committer) -> (r: CreatePullRequestBuilder)
        ensures
            r.committer matches Some(c) && c.author == committer.author && c.email == committer.email,
            r.owner == self.owner,
            r.repo == self.repo,
            r.title == self.title,
            r.body == self.body,
            r.labels == self.labels,
            r.assignees == self.assignees,
            r.base == self.base,
            r.head == self.head,
    {
        let c = Committer { author: committer.author.clone(), email: committer.email.clone() };
        CreatePullRequestBuilder { committer: Some(c), ..self }
    }

    pub fn base(self, base: String) -> (r: CreatePullRequestBuilder)
        ensures
            r == (CreatePullRequestBuilder { base, ..self }),
    {
        CreatePullRequestBuilder { base, ..self }
    }

    pub fn head(self, head: String) -> (r: CreatePullRequestBuilder)
        ensures
            r == (CreatePullRequestBuilder { head, ..self }),
    {
        CreatePullRequestBuilder { head, ..self }
    }

    /// The call that opens the pull request; an unset body is sent empty.
    pub fn call(&self) -> (r: ApiCall)
        ensures
            r matches ApiCall::CreatePullRequest { url, request } && url@ == pulls_url_of(self.owner@, self.repo@)
                && request.title == self.title && request.head == self.head && request.base == self.base
                && request.body@ == match self.body {
                Some(b) => b@,
                None => Seq::<char>::empty(),
            },
    {
        let mut url = repo_api_url(self.owner.as_str(), self.repo.as_str());
        url.append("/pulls");
        let body = match &self.body {
            Some(b) => b.clone(),
            None => String::new(),
        };
        let request = PullRquestRequest::new(self.title.clone(), self.head.clone(), self.base.clone(), body);
        ApiCall::CreatePullRequest { url, request }
    }

    fn issue_url(&self, number: u64, what: &str) -> (r: String)
        ensures
            r@ == issue_url_of(self.owner@, self.repo@, number, what@),
    {
        let mut url = repo_api_url(self.owner.as_str(), self.repo.as_str());
        url.append("/issues/");
        let n = decimal(number);
        url.append(n.as_str());
        url.append("/");
        proof { reveal_strlit("/"); }
        url.append(what);
        url
    }

    /// The call that assigns the pull request `number`, when assignees were
    /// given and there is at least one.
    pub fn assignees_call(&self, number: u64) -> (r: Option<ApiCall>)
        ensures
            match self.assignees {
                Some(a) if a@.len() > 0 => r matches Some(ApiCall::SetAssignees { url, request }) && url@
                    == issue_url_of(self.owner@, self.repo@, number, "assignees"@) && request.assignees@ == a@,
                _ => r is None,
            },
    {
        match &self.assignees {
            Some(a) => {
                if a.len() > 0 {
                    Some(ApiCall::SetAssignees {
                        url: self.issue_url(number, "assignees"),
                        request: AssigneesRequest::new(a.clone()),
                    })
                } else {
                    None
                }
            },
            None => None,
        }
    }

    /// The call that labels the pull request `number`, when labels were
    /// given and there is at least one.
    pub fn labels_call(&self, number: u64) -> (r: Option<ApiCall>)
        ensures
            match self.labels {
                Some(l) if l@.len() > 0 => r matches Some(ApiCall::SetLabels { url, request }) && url@
                    == issue_url_of(self.owner@, self.repo@, number, "labels"@) && request.labels@ == l@,
                _ => r is None,
            },
    {
        match &self.labels {
            Some(l) => {
                if l.len() > 0 {
                    Some(ApiCall::SetLabels {
                        url: self.issue_url(number, "labels"),
                        request: LabelsRequest::new(l.clone()),
                    })
                } else {
                    None
                }
            },
            None => None,
        }
    }
}

} // verus!
