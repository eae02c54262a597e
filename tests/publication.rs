use rust_releaser::api::{ApiCall, Release};
use rust_releaser::asset::{Asset, UploadedAsset};
use rust_releaser::build_config::{Arch, Compression, Os};
use rust_releaser::checksum::create;
use rust_releaser::config::ReleaseConfig;
use rust_releaser::error::ReleaseError;
use rust_releaser::matrix::{matrix_assets, package_binary, package_entry, ArchOsMatrixEntry};
use rust_releaser::package::{assemble_packages, dry_run_packages, Package};
use rust_releaser::publish::{Publication, Stage};
use rust_releaser::tag::Tag;

fn config() -> ReleaseConfig {
    ReleaseConfig {
        owner: "me".to_string(),
        repo: "proj".to_string(),
        target_branch: "main".to_string(),
        prerelease: false,
        draft: true,
        body: Some("notes".to_string()),
    }
}

fn checksummed(name: &str) -> Asset {
    let mut a = Asset::new(name.to_string(), format!("out/{}", name));
    a.add_checksum("abc123".to_string());
    a
}

fn upload_path(call: Option<ApiCall>) -> (String, String, String, Option<String>) {
    match call {
        Some(ApiCall::UploadAsset { url, path, content_type, write_first }) => (url, path, content_type, write_first),
        other => panic!("expected an upload, got {:?}", other),
    }
}

#[test]
fn creation_comes_first() {
    let p = Publication::start(&config(), Tag::new("1.0.0".to_string()), vec![checksummed("a.tar.gz")], None, "out".to_string(), false);
    match p.next_call() {
        Some(ApiCall::CreateRelease { url, request }) => {
            assert_eq!(url, "https://api.github.com/repos/me/proj/releases");
            assert_eq!(request.tag_name, "1.0.0");
            assert_eq!(request.name, "v1.0.0");
            assert_eq!(request.target_commitish, "main");
            assert_eq!(request.body, "notes");
            assert!(request.draft && !request.prerelease);
        },
        other => panic!("expected creation, got {:?}", other),
    }
}

#[test]
fn release_name_keeps_a_leading_v() {
    let p = Publication::start(&config(), Tag::new("v1.0.0".to_string()), vec![], None, "out".to_string(), false);
    match p.next_call() {
        Some(ApiCall::CreateRelease { request, .. }) => {
            assert_eq!(request.name, "v1.0.0");
            assert_eq!(request.tag_name, "v1.0.0");
        },
        other => panic!("expected creation, got {:?}", other),
    }
}

#[test]
fn existing_release_is_reused() {
    let mut p = Publication::start(&config(), Tag::new("v1.0.0".to_string()), vec![checksummed("a.tar.gz")], None, "out".to_string(), false);
    p.on_release(Err("already_exists".to_string()));
    match p.next_call() {
        Some(ApiCall::GetReleaseByTag { url }) => {
            assert_eq!(url, "https://api.github.com/repos/me/proj/releases/tags/v1.0.0")
        },
        other => panic!("expected lookup, got {:?}", other),
    }
    p.on_release(Ok(42));
    let r = p.release.as_ref().unwrap();
    assert_eq!((r.id, r.owner.as_str(), r.repo.as_str()), (42, "me", "proj"));
    assert!(matches!(p.stage, Stage::Uploading { index: 0 }));
}

#[test]
fn both_release_calls_failing_is_unavailable() {
    let mut p = Publication::start(&config(), Tag::new("v1".to_string()), vec![], None, "out".to_string(), false);
    p.on_release(Err("create failed".to_string()));
    p.on_release(Err("not found".to_string()));
    assert!(p.is_finished());
    assert!(p.next_call().is_none());
    match p.finish() {
        Err(ReleaseError::ReleaseUnavailable { create_error, fetch_error }) => {
            assert_eq!(create_error, "create failed");
            assert_eq!(fetch_error, "not found");
        },
        other => panic!("expected unavailable, got {:?}", other),
    }
}

#[test]
fn uploads_asset_then_checksum_file() {
    let mut p = Publication::start(
        &config(),
        Tag::new("v1.2.0".to_string()),
        vec![checksummed("tool_v1.2.0.tar.gz")],
        None,
        "out".to_string(),
        false,
    );
    p.on_release(Ok(7));
    let (url, path, content_type, write_first) = upload_path(p.next_call());
    assert_eq!(url, "https://uploads.github.com/repos/me/proj/releases/7/assets?name=tool_v1.2.0.tar.gz");
    assert_eq!(path, "out/tool_v1.2.0.tar.gz");
    assert_eq!(content_type, "application/gzip");
    assert!(write_first.is_none());
    p.on_upload(Ok(()));
    let (url, path, content_type, write_first) = upload_path(p.next_call());
    assert_eq!(url, "https://uploads.github.com/repos/me/proj/releases/7/assets?name=tool_v1.2.0.tar.gz.sha256");
    assert_eq!(path, "out/tool_v1.2.0.tar.gz.sha256");
    assert_eq!(content_type, "application/octet-stream");
    assert_eq!(write_first.as_deref(), Some("abc123  tool_v1.2.0.tar.gz"));
    p.on_upload(Ok(()));
    assert!(p.is_finished());
    let packages = p.finish().unwrap();
    assert_eq!(packages.len(), 1);
    assert_eq!(packages[0].name, "tool_v1.2.0.tar.gz");
    assert_eq!(packages[0].url.as_deref(), Some("https://github.com/me/proj/releases/download/1.2.0/tool_v1.2.0.tar.gz"));
    assert_eq!(packages[0].sha256, "abc123");
    assert!(packages[0].os.is_none() && packages[0].arch.is_none());
}

#[test]
fn failed_checksum_upload_fails_the_asset() {
    let mut p = Publication::start(&config(), Tag::new("v1".to_string()), vec![checksummed("a.tar.gz"), checksummed("b.tar.gz")], None, "out".to_string(), false);
    p.on_release(Ok(1));
    p.on_upload(Ok(()));
    p.on_upload(Err("rejected".to_string()));
    assert!(p.next_call().is_none());
    match p.finish() {
        Err(ReleaseError::Upload { asset, error }) => {
            assert_eq!(asset, "a.tar.gz");
            assert_eq!(error, "rejected");
        },
        other => panic!("expected upload error, got {:?}", other),
    }
}

#[test]
fn asset_without_checksum_cannot_be_paired() {
    let plain = Asset::new("a.tar.gz".to_string(), "out/a.tar.gz".to_string());
    let mut p = Publication::start(&config(), Tag::new("v1".to_string()), vec![plain], None, "out".to_string(), false);
    p.on_release(Ok(1));
    p.on_upload(Ok(()));
    assert!(matches!(p.finish(), Err(ReleaseError::MissingChecksum(n)) if n == "a.tar.gz"));
}

#[test]
fn single_target_end_to_end() {
    let (asset, archive) = package_binary("demo_v1.0.0.tar.gz", "demo", b"demo binary", 0o755, "dist").unwrap();
    let digest = create(&archive);
    let mut p = Publication::start(&config(), Tag::new("v1.0.0".to_string()), vec![asset], None, "dist".to_string(), false);
    p.on_release(Ok(5));
    p.on_upload(Ok(()));
    p.on_upload(Ok(()));
    let packages = p.finish().unwrap();
    assert_eq!(packages.len(), 1);
    assert_eq!(packages[0].name, "demo_v1.0.0.tar.gz");
    assert!(packages[0].os.is_none() && packages[0].arch.is_none());
    assert_eq!(packages[0].sha256, digest);
    assert_eq!(packages[0].sha256.len(), 64);
}

fn packaged_matrix() -> Vec<ArchOsMatrixEntry> {
    let mut entries = Vec::new();
    for arch in [Arch::Amd64, Arch::Arm64] {
        for os in [Os::UnknownLinuxGnu, Os::AppleDarwin] {
            let mut e = ArchOsMatrixEntry::new(&arch, &os, "tool".to_string(), "v2.0.0", &Compression::TarGz);
            package_entry(&mut e, "tool", b"bin", 0o755, "out").unwrap();
            entries.push(e);
        }
    }
    entries
}

#[test]
fn multi_target_end_to_end() {
    let entries = packaged_matrix();
    let assets = matrix_assets(&entries);
    assert_eq!(assets.len(), 4);
    let mut p = Publication::start(&config(), Tag::new("v2.0.0".to_string()), assets, Some(entries), "out".to_string(), false);
    p.on_release(Ok(9));
    let mut calls = 0;
    while !p.is_finished() {
        assert!(p.next_call().is_some());
        p.on_upload(Ok(()));
        calls += 1;
    }
    assert_eq!(calls, 8);
    let packages = p.finish().unwrap();
    assert_eq!(packages.len(), 4);
    assert_eq!(packages[1].name, "tool_v2.0.0_x86_64_apple-darwin.tar.gz");
    assert_eq!(packages[1].os, Some(Os::AppleDarwin));
    assert_eq!(packages[1].arch, Some(Arch::Amd64));
    assert!(packages.iter().all(|p| p.os.is_some() && p.arch.is_some() && p.url.is_some() && p.sha256.len() == 64));
}

#[test]
fn dry_run_makes_no_calls() {
    let entries = packaged_matrix();
    let assets = matrix_assets(&entries);
    let p = Publication::start(&config(), Tag::new("v2.0.0".to_string()), assets, Some(entries), "out".to_string(), true);
    assert!(p.is_finished());
    assert!(p.next_call().is_none());
    assert!(p.release.is_none());
    let packages = p.finish().unwrap();
    assert_eq!(packages.len(), 4);
    assert!(packages.iter().all(|p| p.url.is_none() && p.sha256.len() == 64 && p.os.is_some()));
}

#[test]
fn single_dry_run_package() {
    let mut a = Asset::new("demo_v1.0.0.tar.gz".to_string(), "d".to_string());
    a.add_checksum("f".repeat(64));
    let packages = dry_run_packages(None, &vec![a]).unwrap();
    assert_eq!(packages.len(), 1);
    assert_eq!(packages[0].name, "demo_v1.0.0.tar.gz");
    assert!(packages[0].url.is_none() && packages[0].os.is_none() && packages[0].arch.is_none());
    assert_eq!(packages[0].sha256, "f".repeat(64));
}

#[test]
fn dry_run_entry_without_asset_is_fault() {
    let e = ArchOsMatrixEntry::new(&Arch::Amd64, &Os::UnknownLinuxGnu, "t".to_string(), "v1", &Compression::TarGz);
    let r = dry_run_packages(Some(&vec![e]), &vec![]);
    assert!(matches!(r, Err(ReleaseError::AssetNotFound(n)) if n == "t_v1_x86_64_unknown-linux-gnu.tar.gz"));
}

#[test]
fn missing_upload_is_asset_not_found() {
    let entries = packaged_matrix();
    let uploaded = vec![UploadedAsset::new("tool_v2.0.0_x86_64_unknown-linux-gnu.tar.gz".to_string(), "u".to_string(), "c".to_string())];
    let r = assemble_packages(Some(&entries), &uploaded);
    assert!(matches!(r, Err(ReleaseError::AssetNotFound(n)) if n == "tool_v2.0.0_x86_64_apple-darwin.tar.gz"));
}

#[test]
fn packages_match_uploads_by_name() {
    let entries = packaged_matrix();
    let mut uploaded: Vec<UploadedAsset> = entries
        .iter()
        .rev()
        .map(|e| UploadedAsset::new(e.name.clone(), format!("url/{}", e.name), format!("sum/{}", e.name)))
        .collect();
    uploaded.push(UploadedAsset::new(entries[0].name.clone(), "late".to_string(), "late".to_string()));
    let packages: Vec<Package> = assemble_packages(Some(&entries), &uploaded).unwrap();
    for (p, e) in packages.iter().zip(entries.iter()) {
        assert_eq!(p.name, e.name);
        assert_eq!(p.url.as_deref(), Some(format!("url/{}", e.name).as_str()));
        assert_eq!(p.sha256, format!("sum/{}", e.name));
        assert_eq!((p.os, p.arch), (Some(e.os), Some(e.arch)));
    }
}

#[test]
fn release_handle_fields() {
    let r = Release::new(3, "o".to_string(), "r".to_string());
    assert_eq!((r.id, r.owner.as_str(), r.repo.as_str()), (3, "o", "r"));
}
