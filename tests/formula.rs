use rust_releaser::api::ApiCall;
use rust_releaser::brew::{captalize, Repository, Target, Targets};
use rust_releaser::build_config::{Arch, Build, Committer, Compression, Os, Tool};
use rust_releaser::client::{instance, CreatePullRequestBuilder};
use rust_releaser::config::CratesIoConfig;
use rust_releaser::http::{handle, handle_transfer_error, ErrorResponse};
use rust_releaser::package::Package;
use rust_releaser::requests::BranchRefRequest;
use rust_releaser::tag::Tag;
use rust_releaser::template::Template;

fn pkg(name: &str, os: Option<Os>, arch: Option<Arch>) -> Package {
    Package::new(name.to_string(), os, arch, Some(format!("https://x/{}", name)), format!("h-{}", name))
}

#[test]
fn single_package_gives_single_target() {
    let t = Targets::from_packages(&vec![pkg("a", None, None)]);
    assert_eq!(t.0.len(), 1);
    match &t.0[0] {
        Target::Single(s) => {
            assert_eq!(s.url, "https://x/a");
            assert_eq!(s.hash, "h-a");
        },
        _ => panic!("expected a single target"),
    }
    assert!(Targets::from_packages(&vec![]).0.is_empty());
}

#[test]
fn packages_group_by_consecutive_os() {
    let packages = vec![
        pkg("a", Some(Os::UnknownLinuxGnu), Some(Arch::Amd64)),
        pkg("b", Some(Os::UnknownLinuxGnu), Some(Arch::Arm64)),
        pkg("c", Some(Os::AppleDarwin), Some(Arch::Amd64)),
        pkg("d", Some(Os::UnknownLinuxGnu), Some(Arch::Arm)),
    ];
    let t = Targets::from_packages(&packages);
    assert_eq!(t.0.len(), 3);
    match &t.0[0] {
        Target::Multi(m) => {
            assert_eq!(m.os, Os::UnknownLinuxGnu);
            assert_eq!(m.archs.len(), 2);
            assert_eq!(m.archs[1].arch, Arch::Arm64);
            assert_eq!(m.archs[1].url, "https://x/b");
            assert_eq!(m.archs[1].hash, "h-b");
        },
        _ => panic!("expected a multi target"),
    }
    match &t.0[2] {
        Target::Multi(m) => assert_eq!((m.os, m.archs.len()), (Os::UnknownLinuxGnu, 1)),
        _ => panic!("expected a multi target"),
    }
}

#[test]
fn formula_name_is_capitalized() {
    assert_eq!(captalize("releaser"), "Releaser");
    assert_eq!(captalize("émile"), "Émile");
}

#[test]
fn repository_url() {
    let r = Repository { owner: "me".to_string(), name: "tap".to_string() };
    assert_eq!(r.url(), "https://github.com/me/tap");
}

#[test]
fn template_follows_build() {
    let mut b = Build { arch: None, os: None, binary: "t".to_string(), compression: Compression::TarGz, tool: Tool::Cargo };
    assert_eq!(Template::from_build(&b), Template::SingleTarget);
    assert_eq!(Template::SingleTarget.to_string(), "single_target");
    b.os = Some(vec![Os::AppleDarwin]);
    assert_eq!(Template::from_build(&b), Template::MultiTarget);
    assert_eq!(Template::MultiTarget.to_string(), "multi_target");
    assert_eq!(Compression::TarGz.extension(), "tar.gz");
}

#[test]
fn status_classification() {
    assert_eq!(handle(201, "ok".to_string()).unwrap(), "ok");
    let e: ErrorResponse = handle(422, "exists".to_string()).unwrap_err();
    assert_eq!((e.status, e.message.as_str()), (422, "exists"));
    assert_eq!(handle(199, "x".to_string()).unwrap_err().status, 199);
    assert_eq!(handle_transfer_error(String::new()).message, "Internal server error");
    assert_eq!(handle_transfer_error("timeout".to_string()).message, "timeout");
    assert_eq!(ErrorResponse::internal_server_error(None).status, 500);
}

#[test]
fn release_builder_call() {
    let call = instance()
        .repo("me".to_string(), "proj".to_string())
        .releases()
        .create()
        .tag(&Tag::new("1.0.0".to_string()))
        .name("v1.0.0".to_string())
        .target_branch("main".to_string())
        .draft(false)
        .prerelease(true)
        .call();
    match call {
        ApiCall::CreateRelease { url, request } => {
            assert_eq!(url, "https://api.github.com/repos/me/proj/releases");
            assert_eq!((request.tag_name.as_str(), request.name.as_str(), request.body.as_str()), ("1.0.0", "v1.0.0", ""));
            assert!(request.prerelease && !request.draft);
        },
        other => panic!("unexpected {:?}", other),
    }
}

#[test]
fn branch_and_file_calls() {
    let repo = instance().repo("me".to_string(), "tap".to_string());
    match repo.branch("main").get_commit_sha() {
        ApiCall::GetCommitSha { url } => assert_eq!(url, "https://api.github.com/repos/me/tap/commits/main"),
        other => panic!("unexpected {:?}", other),
    }
    match repo.branches().create().branch("bump".to_string()).sha("abc".to_string()).call() {
        ApiCall::CreateBranch { url, request } => {
            assert_eq!(url, "https://api.github.com/repos/me/tap/git/refs");
            assert_eq!((request.ref_name.as_str(), request.sha.as_str()), ("refs/heads/bump", "abc"));
        },
        other => panic!("unexpected {:?}", other),
    }
    let b = repo.branch("bump").upsert_file().path("Formula/t.rb".to_string()).message("m".to_string()).content("hello".to_string());
    assert_eq!(b.committer.author, "rust-releaser");
    match b.lookup_call() {
        ApiCall::GetFileSha { url } => assert_eq!(url, "https://api.github.com/repos/me/tap/contents/Formula/t.rb"),
        other => panic!("unexpected {:?}", other),
    }
    let c = Committer { author: "a".to_string(), email: "a@x".to_string() };
    match b.committer(&c).put_call("sha1".to_string()) {
        ApiCall::PutFile { url, request } => {
            assert_eq!(url, "https://api.github.com/repos/me/tap/contents/Formula/t.rb");
            assert_eq!(request.content, "aGVsbG8=");
            assert_eq!(request.sha.as_deref(), Some("sha1"));
            assert_eq!(request.branch.as_deref(), Some("bump"));
            assert_eq!((request.committer.name.as_str(), request.committer.email.as_str()), ("a", "a@x"));
        },
        other => panic!("unexpected {:?}", other),
    }
    let new_file = repo.branch("main").upsert_file().put_call(String::new());
    assert!(matches!(new_file, ApiCall::PutFile { request, .. } if request.sha.is_none()));
}

#[test]
fn pull_request_calls() {
    let pr: CreatePullRequestBuilder = instance()
        .repo("me".to_string(), "tap".to_string())
        .pull_request()
        .create()
        .title("bump".to_string())
        .head("bumps-formula-version".to_string())
        .base("main".to_string())
        .assignees(vec!["ann".to_string()])
        .labels(vec![]);
    match pr.call() {
        ApiCall::CreatePullRequest { url, request } => {
            assert_eq!(url, "https://api.github.com/repos/me/tap/pulls");
            assert_eq!((request.title.as_str(), request.head.as_str(), request.base.as_str(), request.body.as_str()), ("bump", "bumps-formula-version", "main", ""));
        },
        other => panic!("unexpected {:?}", other),
    }
    match pr.assignees_call(12) {
        Some(ApiCall::SetAssignees { url, request }) => {
            assert_eq!(url, "https://api.github.com/repos/me/tap/issues/12/assignees");
            assert_eq!(request.assignees, vec!["ann".to_string()]);
        },
        other => panic!("unexpected {:?}", other),
    }
    assert!(pr.labels_call(12).is_none());
}

#[test]
fn branch_ref_prefix() {
    assert_eq!(BranchRefRequest::new("x".to_string(), "s".to_string()).ref_name, "refs/heads/x");
}

#[test]
fn publish_arguments() {
    let c = CratesIoConfig {
        packages: vec!["a".to_string()],
        registry: Some("reg".to_string()),
        index: None,
        allow_dirty: Some(true),
        skip_verify: Some(false),
    };
    assert_eq!(c.publish_args("a"), vec!["publish", "--allow-dirty", "--registry", "reg", "--package", "a"]);
}
