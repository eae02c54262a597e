//! The hosting platform's interface as this library uses it: the release
//! handle, request bodies, endpoint addresses and the calls to make.
use vstd::prelude::*;
use vstd::string::*;
use crate::asset::Asset;
use crate::config::ReleaseConfig;
use crate::requests::{AssigneesRequest, BranchRefRequest, LabelsRequest, PullRquestRequest, UpsertFileRequest};
use crate::tag::{Tag, without_v};
use crate::text::{decimal, decimal_digits};

verus! {

/// A release on the hosting platform.
#[derive(Clone, Debug)]
pub struct Release {
    pub owner: String,
    pub repo: String,
    pub id: u64,
}

impl Release {
    pub fn new(id: u64, owner: String, repo: String) -> (r: Release)
        ensures
            r == (Release { owner, repo, id }),
    {
        Release { id, owner, repo }
    }
}

/// The body of a release-creation request.
#[derive(Clone, Debug)]
pub struct CreateReleaseRequest {
    pub tag_name: String,
    pub target_commitish: String,
    pub name: String,
    pub body: String,
    pub draft: bool,
    pub prerelease: bool,
}

impl CreateReleaseRequest {
    pub fn new(
        tag_name: String,
        target_commitish: String,
        name: String,
        body: String,
        draft: bool,
        prerelease: bool,
    ) -> (r: CreateReleaseRequest)
        ensures
            r == (CreateReleaseRequest { tag_name, target_commitish, name, body, draft, prerelease }),
    {
        CreateReleaseRequest { tag_name, target_commitish, name, body, draft, prerelease }
    }
}

impl CreateReleaseRequest {
    /// A field-by-field copy.
    pub fn copied(&self) -> (r: CreateReleaseRequest)
        ensures
            r == *self,
    {
        CreateReleaseRequest {
            tag_name: self.tag_name.clone(),
            target_commitish: self.target_commitish.clone(),
            name: self.name.clone(),
            body: self.body.clone(),
            draft: self.draft,
            prerelease: self.prerelease,
        }
    }
}

/// The text of an optional string, empty when absent.
pub open spec fn text_or_empty(s: Option<String>) -> Seq<char> {
    match s {
        Some(t) => t@,
        None => Seq::empty(),
    }
}

/// The name of the release of a tag: the tag itself when it starts with
/// `v`, else the tag with a `v` in front.
pub open spec fn release_name_of(tag: Seq<char>) -> Seq<char> {
    if tag.len() > 0 && tag[0] == 'v' {
        tag
    } else {
        seq!['v'] + tag
    }
}

/// The request that creates the release of `tag`: named after the tag, on the
/// configured branch, with the configured draft and prerelease flags and body.
pub open spec fn is_release_request(r: CreateReleaseRequest, config: ReleaseConfig, tag: Tag) -> bool {
    &&& r.tag_name@ == tag.name@
    &&& r.target_commitish@ == config.target_branch@
    &&& r.name@ == release_name_of(tag.name@)
    &&& r.body@ == text_or_empty(config.body)
    &&& r.draft == config.draft
    &&& r.prerelease == config.prerelease
}

/// Builds the release-creation request for a tag.
pub fn release_request(config: &ReleaseConfig, tag: &Tag) -> (r: CreateReleaseRequest)
    ensures
        is_release_request(r, *config, *tag),
{
    let t = tag.value();
    let name = if t.unicode_len() > 0 && t.get_char(0) == 'v' {
        String::from_str(t)
    } else {
        let mut n = String::from_str("v");
        proof { reveal_strlit("v"); }
        assert("v"@ =~= seq!['v']);
        n.append(t);
        n
    };
    let body = match &config.body {
        Some(b) => b.clone(),
        None => String::new(),
    };
    CreateReleaseRequest::new(
        tag.name.clone(),
        config.target_branch.clone(),
        name,
        body,
        config.draft,
        config.prerelease,
    )
}

/// `https://api.github.com/repos/{owner}/{repo}`.
pub open spec fn repo_api(owner: Seq<char>, repo: Seq<char>) -> Seq<char> {
    "https://api.github.com/repos/"@ + owner + seq!['/'] + repo
}

/// The endpoint that creates releases.
pub open spec fn releases_url_of(owner: Seq<char>, repo: Seq<char>) -> Seq<char> {
    repo_api(owner, repo) + "/releases"@
}

/// The endpoint that looks a release up by its tag.
pub open spec fn release_by_tag_url_of(owner: Seq<char>, repo: Seq<char>, tag: Seq<char>) -> Seq<char> {
    repo_api(owner, repo) + "/releases/tags/"@ + tag
}

/// The endpoint that receives an asset of a release.
pub open spec fn upload_url_of(owner: Seq<char>, repo: Seq<char>, id: u64, name: Seq<char>) -> Seq<char> {
    "https://uploads.github.com/repos/"@ + owner + seq!['/'] + repo + "/releases/"@
        + decimal_digits(id as nat) + "/assets?name="@ + name
}

/// The public download address of an uploaded asset; the tag appears
/// without its leading `v`.
pub open spec fn download_url_of(owner: Seq<char>, repo: Seq<char>, tag: Seq<char>, name: Seq<char>) -> Seq<char> {
    "https://github.com/"@ + owner + seq!['/'] + repo + "/releases/download/"@ + without_v(tag)
        + seq!['/'] + name
}

pub(crate) fn repo_api_url(owner: &str, repo: &str) -> (r: String)
    ensures
        r@ == repo_api(owner@, repo@),
{
    let mut r = String::from_str("https://api.github.com/repos/");
    r.append(owner);
    r.append("/");
    proof { reveal_strlit("/"); }
    r.append(repo);
    r
}

/// The endpoint that creates releases.
pub fn releases_url(owner: &str, repo: &str) -> (r: String)
    ensures
        r@ == releases_url_of(owner@, repo@),
{
    let mut r = repo_api_url(owner, repo);
    r.append("/releases");
    r
}

/// The endpoint that looks a release up by its tag.
pub fn release_by_tag_url(owner: &str, repo: &str, tag: &Tag) -> (r: String)
    ensures
        r@ == release_by_tag_url_of(owner@, repo@, tag.name@),
{
    let mut r = repo_api_url(owner, repo);
    r.append("/releases/tags/");
    r.append(tag.value());
    r
}

/// The endpoint that receives an asset of a release.
pub fn upload_url(release: &Release, name: &str) -> (r: String)
    ensures
        r@ == upload_url_of(release.owner@, release.repo@, release.id, name@),
{
    let mut r = String::from_str("https://uploads.github.com/repos/");
    r.append(release.owner.as_str());
    r.append("/");
    proof { reveal_strlit("/"); }
    r.append(release.repo.as_str());
    r.append("/releases/");
    let id = decimal(release.id);
    r.append(id.as_str());
    r.append("/assets?name=");
    r.append(name);
    r
}

/// The public download address of an asset of the release of `tag`.
pub fn download_url(owner: &str, repo: &str, tag: &Tag, name: &str) -> (r: String)
    ensures
        r@ == download_url_of(owner@, repo@, tag.name@, name@),
{
    let mut r = String::from_str("https://github.com/");
    r.append(owner);
    r.append("/");
    proof { reveal_strlit("/"); }
    r.append(repo);
    r.append("/releases/download/");
    r.append(tag.strip_v_prefix());
    r.append("/");
    r.append(name);
    r
}

/// The media type that `mime_guess` gives a path, `application/octet-stream`
/// when it knows none.
pub uninterp spec fn media_type_of(path: Seq<char>) -> Seq<char>;

/// Relies on mime_guess::from_path and MimeGuess::first_or_octet_stream: the
/// media type guessed from the path's extension.
#[verifier::external_body]
pub(crate) fn media_type(path: &str) -> (r: String)
    ensures
        r@ == media_type_of(path@),
{
    mime_guess::from_path(path).first_or_octet_stream().as_ref().to_string()
}

/// A call to the hosting platform, for the caller to perform.
#[derive(Clone, Debug)]
pub enum ApiCall {
    /// POST the request, as JSON, to `url`; the reply carries the new
    /// release's id.
    CreateRelease { url: String, request: CreateReleaseRequest },
    /// GET `url`; the reply carries the release's id.
    GetReleaseByTag { url: String },
    /// Write `write_first` to `path` when it is given, then POST the file at
    /// `path` to `url` with the given content type.
    UploadAsset { url: String, path: String, content_type: String, write_first: Option<String> },
    /// GET `url`; the reply carries the commit's sha.
    GetCommitSha { url: String },
    /// POST the request, as JSON, to `url`.
    CreateBranch { url: String, request: BranchRefRequest },
    /// GET `url`; the reply carries the sha of the file, if it exists.
    GetFileSha { url: String },
    /// PUT the request, as JSON, to `url`.
    PutFile { url: String, request: UpsertFileRequest },
    /// POST the request, as JSON, to `url`; the reply carries the pull
    /// request's number.
    CreatePullRequest { url: String, request: PullRquestRequest },
    /// POST the request, as JSON, to `url`.
    SetAssignees { url: String, request: AssigneesRequest },
    /// POST the request, as JSON, to `url`.
    SetLabels { url: String, request: LabelsRequest },
}

} // verus!
