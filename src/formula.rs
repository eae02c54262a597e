//! Pushing a rendered formula to its repository: committed straight to a
//! branch, or proposed through a new branch and a pull request.
//!
//! The remote calls are made by the caller: `next_call` says which call to
//! make, and `on_sha`, `on_pull_request` and `on_done` take its reply.
use vstd::prelude::*;
use vstd::string::*;
use crate::api::{ApiCall, repo_api};
use crate::brew::Brew;
use crate::build_config::Committer;
use crate::client::{
    BranchHandler, CreateBranchBuilder, CreatePullRequestBuilder, UpsertFileBuilder, base64_of, commit_url_of,
    contents_url_of, issue_url_of, pulls_url_of, refs_url_of,
};
use crate::config::{CommitterConfig, PullRequestConfig};
use vstd::utf8::encode_utf8;

verus! {

/// What `str::replace` gives: every occurrence of `from` in `s` replaced by
/// `to`.
pub uninterp spec fn replaced_of(s: Seq<char>, from: Seq<char>, to: Seq<char>) -> Seq<char>;

/// Relies on str::replace: each non-overlapping occurrence of `from`,
/// left to right, replaced by `to`; the result depends on the three texts
/// alone.
#[verifier::external_body]
fn replace_all(s: &str, from: &str, to: &str) -> (r: String)
    ensures
        r@ == replaced_of(s@, from@, to@),
{
    s.replace(from, to)
}

/// The path of a formula file: `{dir}/{name}.rb`, or `{name}.rb` at the root.
pub open spec fn formula_path_of(dir: Option<String>, name: Seq<char>) -> Seq<char> {
    match dir {
        Some(d) => d@ + seq!['/'] + name + ".rb"@,
        None => name + ".rb"@,
    }
}

/// The path of a formula file.
pub fn formula_path(dir: &Option<String>, name: &str) -> (r: String)
    ensures
        r@ == formula_path_of(*dir, name@),
{
    let mut r = match dir {
        Some(d) => {
            let mut p = d.clone();
            p.append("/");
            proof { reveal_strlit("/"); }
            p
        },
        None => String::new(),
    };
    r.append(name);
    r.append(".rb");
    r
}

/// Where a formula push stands.
#[derive(Debug)]
pub enum PushStep {
    /// The commit at the tip of the pull request's base is looked up.
    CommitSha,
    /// The pull request's branch is created at that commit.
    CreateBranch,
    /// The current sha of the formula file, if any, is looked up.
    FileSha,
    /// The formula file is written.
    PutFile,
    /// The pull request is opened.
    PullRequest,
    /// People are assigned to the pull request `number`.
    Assignees { number: u64 },
    /// Labels are put on the pull request `number`.
    Labels { number: u64 },
    /// Nothing is left to do.
    Done,
    /// The push stopped with the platform's error.
    Failed(String),
}

/// One push of a formula file.
#[derive(Debug)]
pub struct FormulaPush {
    pub owner: String,
    pub repo: String,
    pub file_path: String,
    pub message: String,
    pub content: String,
    pub committer: Committer,
    pub branch: String,
    pub pull_request: Option<PullRequestConfig>,
    pub commit_sha: String,
    pub existing_sha: String,
    pub step: PushStep,
}

/// Whether an optional list holds at least one item.
pub open spec fn non_empty(l: Option<Vec<String>>) -> bool {
    match l {
        Some(v) => v@.len() > 0,
        None => false,
    }
}

/// The committer of a configured author, or the default one.
pub open spec fn is_committer_of(c: Committer, author: Option<CommitterConfig>) -> bool {
    match author {
        Some(a) => c.author == a.name && c.email == a.email,
        None => c.author@ == "rust-releaser"@ && c.email@ == "rust-releaser@github.com"@,
    }
}

impl FormulaPush {
    /// The pull request settings (defaults when the push is direct).
    pub open spec fn pr(&self) -> PullRequestConfig {
        match self.pull_request {
            Some(p) => p,
            None => PullRequestConfig {
                title: None,
                body: None,
                labels: None,
                assignees: None,
                draft: false,
                base: self.branch,
                head: self.branch,
            },
        }
    }

    /// The step after the pull request `number` was opened.
    pub open spec fn after_opened(&self, number: u64) -> PushStep {
        if non_empty(self.pr().assignees) {
            PushStep::Assignees { number }
        } else if non_empty(self.pr().labels) {
            PushStep::Labels { number }
        } else {
            PushStep::Done
        }
    }

    /// The state after a sha lookup: the commit to branch from, or the
    /// file's current sha (empty when it has none).
    pub open spec fn after_sha(self, reply: Result<String, String>) -> FormulaPush {
        match reply {
            Ok(sha) => match self.step {
                PushStep::CommitSha => FormulaPush { commit_sha: sha, step: PushStep::CreateBranch, ..self },
                _ => FormulaPush { existing_sha: sha, step: PushStep::PutFile, ..self },
            },
            Err(e) => FormulaPush { step: PushStep::Failed(e), ..self },
        }
    }

    /// The state after the pull request was opened, or refused.
    pub open spec fn after_pull_request(self, reply: Result<u64, String>) -> FormulaPush {
        match reply {
            Ok(number) => FormulaPush { step: self.after_opened(number), ..self },
            Err(e) => FormulaPush { step: PushStep::Failed(e), ..self },
        }
    }

    /// The state after a call that returns nothing succeeded or failed.
    pub open spec fn after_done(self, reply: Result<(), String>) -> FormulaPush {
        match reply {
            Ok(_) => FormulaPush {
                step: match self.step {
                    PushStep::CreateBranch => PushStep::FileSha,
                    PushStep::PutFile => if self.pull_request is Some {
                        PushStep::PullRequest
                    } else {
                        PushStep::Done
                    },
                    PushStep::Assignees { number } => if non_empty(self.pr().labels) {
                        PushStep::Labels { number }
                    } else {
                        PushStep::Done
                    },
                    _ => PushStep::Done,
                },
                ..self
            },
            Err(e) => FormulaPush { step: PushStep::Failed(e), ..self },
        }
    }

    /// Starts the push of the rendered formula `content` of `brew`. The
    /// commit message has `{{version}}` replaced by the tag. With a pull
    /// request configured, the file `{name}.rb` goes to the pull request's
    /// head branch, created from its base, under the configured author;
    /// otherwise the file goes straight to the formula's head branch, under
    /// the configured path, with the default committer.
    pub fn start(brew: Brew, content: String) -> (r: FormulaPush)
        ensures
            r.owner == brew.repository.owner,
            r.repo == brew.repository.name,
            r.message@ == replaced_of(brew.commit_message@, "{{version}}"@, brew.tag.name@),
            r.content == content,
            r.pull_request == brew.pull_request,
            r.commit_sha@.len() == 0,
            r.existing_sha@.len() == 0,
            brew.pull_request matches Some(p) ==> r.branch == p.head && r.file_path@ == formula_path_of(
                None,
                brew.name@,
            ) && is_committer_of(r.committer, brew.commit_author) && r.step is CommitSha,
            brew.pull_request is None ==> r.branch == brew.head && r.file_path@ == formula_path_of(brew.path, brew.name@)
                && is_committer_of(r.committer, None) && r.step is FileSha,
    {
        let message = replace_all(brew.commit_message.as_str(), "{{version}}", brew.tag.name.as_str());
        let owner = brew.repository.owner;
        let repo = brew.repository.name;
        match brew.pull_request {
            Some(p) => {
                let committer = match brew.commit_author {
                    Some(a) => Committer::from_config(a),
                    None => Committer::default(),
                };
                let branch = p.head.clone();
                FormulaPush {
                    owner,
                    repo,
                    file_path: formula_path(&None, brew.name.as_str()),
                    message,
                    content,
                    committer,
                    branch,
                    pull_request: Some(p),
                    commit_sha: String::new(),
                    existing_sha: String::new(),
                    step: PushStep::CommitSha,
                }
            },
            None => FormulaPush {
                owner,
                repo,
                file_path: formula_path(&brew.path, brew.name.as_str()),
                message,
                content,
                committer: Committer::default(),
                branch: brew.head,
                pull_request: None,
                commit_sha: String::new(),
                existing_sha: String::new(),
                step: PushStep::FileSha,
            },
        }
    }

    /// Whether no call is left to make.
    pub fn is_finished(&self) -> (r: bool)
        ensures
            r == (self.step is Done || self.step is Failed),
    {
        match self.step {
            PushStep::Done => true,
            PushStep::Failed(_) => true,
            _ => false,
        }
    }

    fn file_builder(&self) -> (r: UpsertFileBuilder)
        ensures
            r.owner == self.owner,
            r.repo == self.repo,
            r.path == self.file_path,
            r.commit_message == self.message,
            r.content == self.content,
            r.committer.author == self.committer.author,
            r.committer.email == self.committer.email,
            r.head == self.branch,
    {
        UpsertFileBuilder {
            owner: self.owner.clone(),
            repo: self.repo.clone(),
            path: self.file_path.clone(),
            commit_message: self.message.clone(),
            content: self.content.clone(),
            committer: Committer { author: self.committer.author.clone(), email: self.committer.email.clone() },
            head: self.branch.clone(),
        }
    }

    fn pull_request_builder(&self, p: &PullRequestConfig) -> (r: CreatePullRequestBuilder)
        ensures
            r.owner == self.owner,
            r.repo == self.repo,
            r.title@ == match p.title { Some(t) => t@, None => Seq::<char>::empty() },
            r.body == p.body,
            r.head == p.head,
            r.base == p.base,
            match p.assignees {
                Some(a) => r.assignees matches Some(b) && b@ == a@,
                None => r.assignees is None,
            },
            match p.labels {
                Some(l) => r.labels matches Some(b) && b@ == l@,
                None => r.labels is None,
            },
    {
        let title = match &p.title {
            Some(t) => t.clone(),
            None => String::new(),
        };
        let body = match &p.body {
            Some(b) => Some(b.clone()),
            None => None,
        };
        let assignees = match &p.assignees {
            Some(a) => Some(a.clone()),
            None => None,
        };
        let labels = match &p.labels {
            Some(l) => Some(l.clone()),
            None => None,
        };
        CreatePullRequestBuilder {
            owner: self.owner.clone(),
            repo: self.repo.clone(),
            title,
            body,
            labels,
            assignees,
            committer: None,
            base: p.base.clone(),
            head: p.head.clone(),
        }
    }

    /// The call to make next: in pull-request mode the base commit lookup,
    /// then the branch creation; then the file's sha lookup and its write;
    /// in pull-request mode then the pull request, its assignees and its
    /// labels (each only when there are some). None once finished.
    pub fn next_call(&self) -> (r: Option<ApiCall>)
        requires
            self.step is CommitSha || self.step is CreateBranch || self.step is PullRequest
                || self.step is Assignees || self.step is Labels ==> self.pull_request is Some,
        ensures
            self.step is CommitSha ==> (r matches Some(ApiCall::GetCommitSha { url }) && url@ == commit_url_of(
                self.owner@,
                self.repo@,
                self.pr().base@,
            )),
            self.step is CreateBranch ==> (r matches Some(ApiCall::CreateBranch { url, request }) && url@
                == refs_url_of(self.owner@, self.repo@) && request.ref_name@ == "refs/heads/"@ + self.pr().head@
                && request.sha == self.commit_sha),
            self.step is FileSha ==> (r matches Some(ApiCall::GetFileSha { url }) && url@ == contents_url_of(
                self.owner@,
                self.repo@,
                self.file_path@,
            )),
            self.step is PutFile ==> (r matches Some(ApiCall::PutFile { url, request }) && url@ == contents_url_of(
                self.owner@,
                self.repo@,
                self.file_path@,
            ) && request.message == self.message && request.content@ == base64_of(encode_utf8(self.content@))
                && request.branch == Some(self.branch) && request.committer.name == self.committer.author
                && request.committer.email == self.committer.email && (if self.existing_sha@.len() == 0 {
                request.sha is None
            } else {
                request.sha == Some(self.existing_sha)
            })),
            self.step is PullRequest ==> (r matches Some(ApiCall::CreatePullRequest { url, request }) && url@
                == pulls_url_of(self.owner@, self.repo@) && request.title@ == match self.pr().title {
                Some(t) => t@,
                None => Seq::<char>::empty(),
            } && request.head == self.pr().head && request.base == self.pr().base && request.body@ == match self.pr().body {
                Some(b) => b@,
                None => Seq::<char>::empty(),
            }),
            self.step matches PushStep::Assignees { number } ==> match self.pr().assignees {
                Some(a) if a@.len() > 0 => r matches Some(ApiCall::SetAssignees { url, request }) && url@
                    == issue_url_of(self.owner@, self.repo@, number, "assignees"@) && request.assignees@ == a@,
                _ => r is None,
            },
            self.step matches PushStep::Labels { number } ==> match self.pr().labels {
                Some(l) if l@.len() > 0 => r matches Some(ApiCall::SetLabels { url, request }) && url@
                    == issue_url_of(self.owner@, self.repo@, number, "labels"@) && request.labels@ == l@,
                _ => r is None,
            },
            (self.step is Done || self.step is Failed) ==> r is None,
    {
        match &self.step {
            PushStep::CommitSha => match &self.pull_request {
                Some(p) => {
                    let handler = BranchHandler::new(self.owner.clone(), self.repo.clone(), p.base.clone());
                    Some(handler.get_commit_sha())
                },
                None => None,
            },
            PushStep::CreateBranch => match &self.pull_request {
                Some(p) => {
                    let builder = CreateBranchBuilder::new(self.owner.clone(), self.repo.clone()).branch(
                        p.head.clone(),
                    ).sha(self.commit_sha.clone());
                    Some(builder.call())
                },
                None => None,
            },
            PushStep::FileSha => Some(self.file_builder().lookup_call()),
            PushStep::PutFile => Some(self.file_builder().put_call(self.existing_sha.clone())),
            PushStep::PullRequest => match &self.pull_request {
                Some(p) => Some(self.pull_request_builder(p).call()),
                None => None,
            },
            PushStep::Assignees { number } => match &self.pull_request {
                Some(p) => self.pull_request_builder(p).assignees_call(*number),
                None => None,
            },
            PushStep::Labels { number } => match &self.pull_request {
                Some(p) => self.pull_request_builder(p).labels_call(*number),
                None => None,
            },
            PushStep::Done => None,
            PushStep::Failed(_) => None,
        }
    }

    /// Takes the reply to a sha lookup: the sha (empty when the file does
    /// not exist yet), or the platform's error.
    pub fn on_sha(&mut self, reply: Result<String, String>)
        requires
            old(self).step is CommitSha || old(self).step is FileSha,
        ensures
            *final(self) == old(self).after_sha(reply),
    {
        match reply {
            Ok(sha) => {
                if let PushStep::CommitSha = self.step {
                    self.commit_sha = sha;
                    self.step = PushStep::CreateBranch;
                } else {
                    self.existing_sha = sha;
                    self.step = PushStep::PutFile;
                }
            },
            Err(e) => {
                self.step = PushStep::Failed(e);
            },
        }
    }

    /// Takes the reply to the pull request's creation: its number, or the
    /// platform's error.
    pub fn on_pull_request(&mut self, reply: Result<u64, String>)
        requires
            old(self).step is PullRequest,
            old(self).pull_request is Some,
        ensures
            *final(self) == old(self).after_pull_request(reply),
    {
        match reply {
            Ok(number) => {
                let (assignees, labels) = match &self.pull_request {
                    Some(p) => (has_items(&p.assignees), has_items(&p.labels)),
                    None => (false, false),
                };
                self.step = if assignees {
                    PushStep::Assignees { number }
                } else if labels {
                    PushStep::Labels { number }
                } else {
                    PushStep::Done
                };
            },
            Err(e) => {
                self.step = PushStep::Failed(e);
            },
        }
    }

    /// Takes the reply to a branch creation, file write, assignment or
    /// labelling: success, or the platform's error.
    pub fn on_done(&mut self, reply: Result<(), String>)
        requires
            old(self).step is CreateBranch || old(self).step is PutFile || old(self).step is Assignees
                || old(self).step is Labels,
        ensures
            *final(self) == old(self).after_done(reply),
    {
        match reply {
            Ok(_) => {
                let labels = match &self.pull_request {
                    Some(p) => has_items(&p.labels),
                    None => false,
                };
                let next = match self.step {
                    PushStep::CreateBranch => PushStep::FileSha,
                    PushStep::PutFile => if self.pull_request.is_some() {
                        PushStep::PullRequest
                    } else {
                        PushStep::Done
                    },
                    PushStep::Assignees { number } => if labels {
                        PushStep::Labels { number }
                    } else {
                        PushStep::Done
                    },
                    _ => PushStep::Done,
                };
                self.step = next;
            },
            Err(e) => {
                self.step = PushStep::Failed(e);
            },
        }
    }

    /// The error that stopped the push, if it stopped.
    pub fn failure(&self) -> (r: Option<String>)
        ensures
            match self.step {
                PushStep::Failed(e) => r == Some(e),
                _ => r is None,
            },
    {
        match &self.step {
            PushStep::Failed(e) => Some(e.clone()),
            _ => None,
        }
    }
}

/// Whether an optional list holds at least one item.
fn has_items(l: &Option<Vec<String>>) -> (r: bool)
    ensures
        r == non_empty(*l),
{
    match l {
        Some(v) => v.len() > 0,
        None => false,
    }
}

} // verus!
