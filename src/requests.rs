//! Request bodies of the hosting platform's branch, file and pull-request
//! endpoints, and the pull request it returns.
use vstd::prelude::*;
use vstd::string::*;
use crate::build_config::Committer;

verus! {

/// The body that creates a branch reference at a commit.
#[derive(Clone, Debug)]
pub struct BranchRefRequest {
    pub ref_name: String,
    pub sha: String,
}

impl BranchRefRequest {
    /// The reference of branch `branch`: `refs/heads/{branch}`.
    pub fn new(branch: String, sha: String) -> (r: BranchRefRequest)
        ensures
            r.ref_name@ == "refs/heads/"@ + branch@,
            r.sha == sha,
    {
        let mut ref_name = String::from_str("refs/heads/");
        ref_name.append(branch.as_str());
        BranchRefRequest { ref_name, sha }
    }
}

/// The committer of a file change.
#[derive(Clone, Debug)]
pub struct CommitterRequest {
    pub name: String,
    pub email: String,
}

impl CommitterRequest {
    /// The committer named by the author of `committer`.
    pub fn from_committer(committer: Committer) -> (r: CommitterRequest)
        ensures
            r.name == committer.author,
            r.email == committer.email,
    {
        CommitterRequest { name: committer.author, email: committer.email }
    }
}

/// The body that opens a pull request.
#[derive(Clone, Debug)]
pub struct PullRquestRequest {
    pub title: String,
    pub head: String,
    pub base: String,
    pub body: String,
}

impl PullRquestRequest {
    pub fn new(title: String, head: String, base: String, body: String) -> (r: PullRquestRequest)
        ensures
            r == (PullRquestRequest { title, head, base, body }),
    {
        PullRquestRequest { title, head, base, body }
    }
}

/// The body that creates or replaces a file on a branch. `sha` names the
/// file being replaced and is absent when the file is new.
#[derive(Clone, Debug)]
pub struct UpsertFileRequest {
    pub message: String,
    pub content: String,
    pub branch: Option<String>,
    pub sha: Option<String>,
    pub committer: CommitterRequest,
}

impl UpsertFileRequest {
    pub fn new(
        message: String,
        content: String,
        branch: Option<String>,
        sha: Option<String>,
        committer: CommitterRequest,
    ) -> (r: UpsertFileRequest)
        ensures
            r == (UpsertFileRequest { message, content, branch, sha, committer }),
    {
        UpsertFileRequest { message, content, branch, sha, committer }
    }
}

/// The body that assigns people to an issue or pull request.
#[derive(Clone, Debug)]
pub struct AssigneesRequest {
    pub assignees: Vec<String>,
}

impl AssigneesRequest {
    pub fn new(assignees: Vec<String>) -> (r: AssigneesRequest)
        ensures
            r.assignees == assignees,
    {
        AssigneesRequest { assignees }
    }
}

/// The body that labels an issue or pull request.
#[derive(Clone, Debug)]
pub struct LabelsRequest {
    pub labels: Vec<String>,
}

impl LabelsRequest {
    pub fn new(labels: Vec<String>) -> (r: LabelsRequest)
        ensures
            r.labels == labels,
    {
        LabelsRequest { labels }
    }
}

/// A pull request as the platform describes it.
#[derive(Clone, Debug)]
pub struct PullRequest {
    pub url: String,
    pub id: u64,
    pub number: u64,
    pub title: Option<String>,
    pub user: Option<String>,
    pub body: Option<String>,
    pub labels: Option<Vec<String>>,
    pub milestone: Option<String>,
    pub assignees: Option<Vec<String>>,
    pub base: String,
    pub draft: Option<bool>,
}

impl PullRequest {
    pub fn new(
        url: String,
        id: u64,
        number: u64,
        title: Option<String>,
        user: Option<String>,
        body: Option<String>,
        labels: Option<Vec<String>>,
        milestone: Option<String>,
        assignees: Option<Vec<String>>,
        base: String,
        draft: Option<bool>,
    ) -> (r: PullRequest)
        ensures
            r == (PullRequest { url, id, number, title, user, body, labels, milestone, assignees, base, draft }),
    {
        PullRequest { url, id, number, title, user, body, labels, milestone, assignees, base, draft }
    }
}

} // verus!
