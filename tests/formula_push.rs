use rust_releaser::api::ApiCall;
use rust_releaser::brew::Brew;
use rust_releaser::build_config::{Arch, Os};
use rust_releaser::config::{BrewConfig, CommitterConfig, PullRequestConfig};
use rust_releaser::formula::{formula_path, FormulaPush, PushStep};
use rust_releaser::package::Package;
use rust_releaser::tag::Tag;

fn brew_config(pull_request: Option<PullRequestConfig>) -> BrewConfig {
    BrewConfig {
        name: "releaser".to_string(),
        description: "d".to_string(),
        homepage: "h".to_string(),
        license: "MIT".to_string(),
        head: "main".to_string(),
        test: String::new(),
        caveats: String::new(),
        commit_message: "formula {{version}}".to_string(),
        commit_author: Some(CommitterConfig { email: "ann@x".to_string(), name: "ann".to_string() }),
        pull_request,
        repository_owner: "me".to_string(),
        repository_name: "tap".to_string(),
        path: Some("Formula".to_string()),
    }
}

fn packages() -> Vec<Package> {
    vec![Package::new("p".to_string(), Some(Os::AppleDarwin), Some(Arch::Arm64), Some("u".to_string()), "s".to_string())]
}

#[test]
fn brew_capitalizes_and_keeps_fields() {
    let b = Brew::new(brew_config(None), Tag::new("1.0.0".to_string()), packages());
    assert_eq!(b.name, "Releaser");
    assert_eq!(b.repository.owner, "me");
    assert_eq!(b.targets.0.len(), 1);
    assert_eq!(b.tag.name, "1.0.0");
}

#[test]
fn formula_paths() {
    assert_eq!(formula_path(&Some("Formula".to_string()), "Releaser"), "Formula/Releaser.rb");
    assert_eq!(formula_path(&None, "Releaser"), "Releaser.rb");
}

#[test]
fn direct_push_writes_file_on_head() {
    let b = Brew::new(brew_config(None), Tag::new("1.0.0".to_string()), packages());
    let mut push = FormulaPush::start(b, "class X".to_string());
    assert_eq!(push.message, "formula 1.0.0");
    assert_eq!(push.committer.author, "rust-releaser");
    match push.next_call() {
        Some(ApiCall::GetFileSha { url }) => {
            assert_eq!(url, "https://api.github.com/repos/me/tap/contents/Formula/Releaser.rb")
        },
        other => panic!("unexpected {:?}", other),
    }
    push.on_sha(Ok(String::new()));
    match push.next_call() {
        Some(ApiCall::PutFile { request, .. }) => {
            assert!(request.sha.is_none());
            assert_eq!(request.branch.as_deref(), Some("main"));
            assert_eq!(request.content, "Y2xhc3MgWA==");
        },
        other => panic!("unexpected {:?}", other),
    }
    push.on_done(Ok(()));
    assert!(push.is_finished());
    assert!(push.failure().is_none());
}

#[test]
fn pull_request_push_sequence() {
    let pr = PullRequestConfig {
        title: Some("Bump".to_string()),
        body: None,
        labels: Some(vec!["release".to_string()]),
        assignees: None,
        draft: false,
        base: "main".to_string(),
        head: "bumps-formula-version".to_string(),
    };
    let b = Brew::new(brew_config(Some(pr)), Tag::new("2.0.0".to_string()), packages());
    let mut push = FormulaPush::start(b, "class X".to_string());
    assert_eq!(push.committer.author, "ann");
    assert_eq!(push.file_path, "Releaser.rb");
    match push.next_call() {
        Some(ApiCall::GetCommitSha { url }) => assert_eq!(url, "https://api.github.com/repos/me/tap/commits/main"),
        other => panic!("unexpected {:?}", other),
    }
    push.on_sha(Ok("c0ffee".to_string()));
    match push.next_call() {
        Some(ApiCall::CreateBranch { request, .. }) => {
            assert_eq!(request.ref_name, "refs/heads/bumps-formula-version");
            assert_eq!(request.sha, "c0ffee");
        },
        other => panic!("unexpected {:?}", other),
    }
    push.on_done(Ok(()));
    assert!(matches!(push.step, PushStep::FileSha));
    push.on_sha(Ok("old".to_string()));
    match push.next_call() {
        Some(ApiCall::PutFile { request, .. }) => assert_eq!(request.sha.as_deref(), Some("old")),
        other => panic!("unexpected {:?}", other),
    }
    push.on_done(Ok(()));
    match push.next_call() {
        Some(ApiCall::CreatePullRequest { request, .. }) => assert_eq!(request.title, "Bump"),
        other => panic!("unexpected {:?}", other),
    }
    push.on_pull_request(Ok(31));
    match push.next_call() {
        Some(ApiCall::SetLabels { url, request }) => {
            assert_eq!(url, "https://api.github.com/repos/me/tap/issues/31/labels");
            assert_eq!(request.labels, vec!["release".to_string()]);
        },
        other => panic!("unexpected {:?}", other),
    }
    push.on_done(Ok(()));
    assert!(push.is_finished());
}

#[test]
fn failed_lookup_stops_push() {
    let b = Brew::new(brew_config(None), Tag::new("1.0.0".to_string()), packages());
    let mut push = FormulaPush::start(b, String::new());
    push.on_sha(Err("404".to_string()));
    assert!(push.next_call().is_none());
    assert_eq!(push.failure().as_deref(), Some("404"));
}
