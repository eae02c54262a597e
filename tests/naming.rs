use rust_releaser::api::{download_url, release_by_tag_url, releases_url, upload_url, Release};
use rust_releaser::asset::{checksum_file_content, checksum_file_name, generate_checksum_asset, Asset};
use rust_releaser::build_config::{build_command, os_arch_to_toolchain, Arch, Build, Compression, Os, Tool};
use rust_releaser::matrix::{
    binary_path, build_targets, plan_multi, plan_single, single_asset_name, target_matrix, ArchOsMatrixEntry,
};
use rust_releaser::tag::Tag;
use rust_releaser::error::ReleaseError;

fn build(arch: Option<Vec<Arch>>, os: Option<Vec<Os>>) -> Build {
    Build { arch, os, binary: "tool".to_string(), compression: Compression::TarGz, tool: Tool::Cargo }
}

#[test]
fn matrix_is_arch_major() {
    let m = target_matrix(&vec![Arch::Amd64, Arch::Arm64], &vec![Os::UnknownLinuxGnu, Os::AppleDarwin]);
    assert_eq!(
        m,
        vec![
            (Arch::Amd64, Os::UnknownLinuxGnu),
            (Arch::Amd64, Os::AppleDarwin),
            (Arch::Arm64, Os::UnknownLinuxGnu),
            (Arch::Arm64, Os::AppleDarwin),
        ]
    );
}

#[test]
fn matrix_size_is_product() {
    let m = target_matrix(&vec![Arch::Amd64, Arch::Arm, Arch::Arm64], &vec![Os::AppleDarwin, Os::UnknownLinuxGnu]);
    assert_eq!(m.len(), 6);
    assert_eq!(m[3], (Arch::Arm, Os::UnknownLinuxGnu));
}

#[test]
fn empty_axis_gives_empty_matrix() {
    assert!(target_matrix(&vec![Arch::Amd64], &vec![]).is_empty());
    assert!(target_matrix(&vec![], &vec![Os::AppleDarwin]).is_empty());
}

#[test]
fn empty_matrix_is_configuration_error() {
    let b = build(Some(vec![Arch::Amd64]), Some(vec![]));
    let r = plan_multi(&b, &Tag::new("v1.0.0".to_string()));
    assert!(matches!(r, Err(ReleaseError::Configuration(_))));
}

#[test]
fn empty_tag_is_configuration_error() {
    let multi = build(Some(vec![Arch::Amd64]), Some(vec![Os::AppleDarwin]));
    assert!(matches!(plan_multi(&multi, &Tag::new(String::new())), Err(ReleaseError::Configuration(_))));
    let single = build(None, None);
    assert!(matches!(plan_single(&single, &Tag::new(String::new())), Err(ReleaseError::Configuration(_))));
    assert_eq!(plan_single(&single, &Tag::new("v1.0.0".to_string())).unwrap(), "tool_v1.0.0.tar.gz");
}

#[test]
fn four_entry_matrix_names() {
    let b = build(Some(vec![Arch::Amd64, Arch::Arm64]), Some(vec![Os::UnknownLinuxGnu, Os::AppleDarwin]));
    let entries = plan_multi(&b, &Tag::new("v1.2.0".to_string())).unwrap();
    let names: Vec<String> = entries.iter().map(|e| e.name.clone()).collect();
    assert_eq!(
        names,
        vec![
            "tool_v1.2.0_x86_64_unknown-linux-gnu.tar.gz",
            "tool_v1.2.0_x86_64_apple-darwin.tar.gz",
            "tool_v1.2.0_aarch64_unknown-linux-gnu.tar.gz",
            "tool_v1.2.0_aarch64_apple-darwin.tar.gz",
        ]
    );
    assert!(entries.iter().all(|e| e.asset.is_none()));
}

#[test]
fn entry_name_uses_canonical_tokens() {
    let e = ArchOsMatrixEntry::new(&Arch::Arm, &Os::AppleDarwin, "demo".to_string(), "1.0.0", &Compression::TarGz);
    assert_eq!(e.name, "demo_1.0.0_arm_apple-darwin.tar.gz");
}

#[test]
fn single_name_with_and_without_tag() {
    let tag = Tag::new("v1.0.0".to_string());
    assert_eq!(single_asset_name("demo", Some(&tag), &Compression::TarGz), "demo_v1.0.0.tar.gz");
    assert_eq!(single_asset_name("demo", None, &Compression::TarGz), "demo.tar.gz");
}

#[test]
fn aliases_normalize() {
    assert_eq!(Arch::parse("amd64"), Some(Arch::Amd64));
    assert_eq!(Arch::parse("X86_64"), Some(Arch::Amd64));
    assert_eq!(Arch::parse("AArch64"), Some(Arch::Arm64));
    assert_eq!(Arch::parse("arm"), Some(Arch::Arm));
    assert_eq!(Arch::parse("mips"), None);
    assert_eq!(Os::parse("darwin"), Some(Os::AppleDarwin));
    assert_eq!(Os::parse("MacOS"), Some(Os::AppleDarwin));
    assert_eq!(Os::parse("linux"), Some(Os::UnknownLinuxGnu));
    assert_eq!(Os::parse("windows"), None);
}

#[test]
fn tokens_and_toolchain() {
    assert_eq!(Arch::Amd64.to_string(), "x86_64");
    assert_eq!(Arch::Arm64.to_string(), "aarch64");
    assert_eq!(Os::UnknownLinuxGnu.to_string(), "unknown-linux-gnu");
    assert_eq!(os_arch_to_toolchain(&Os::AppleDarwin, &Arch::Arm64), "aarch64-apple-darwin");
}

#[test]
fn build_command_for_target() {
    let mut b = build(None, None);
    b.tool = Tool::Cross;
    let c = build_command(&b, &Arch::Amd64, &Os::UnknownLinuxGnu);
    assert_eq!(c.program, "cross");
    assert_eq!(c.args, vec!["build", "--release", "--target", "x86_64-unknown-linux-gnu"]);
}

#[test]
fn build_targets_host_or_matrix() {
    let single = build(None, Some(vec![]));
    assert!(!single.is_multi_target());
    assert_eq!(build_targets(&single, Arch::Arm, Os::AppleDarwin), vec![(Arch::Arm, Os::AppleDarwin)]);
    let multi = build(Some(vec![Arch::Amd64]), None);
    assert!(multi.is_multi_target() && multi.is_multi_arch() && !multi.is_multi_os());
    assert!(build_targets(&multi, Arch::Arm, Os::AppleDarwin).is_empty());
}

#[test]
fn binary_paths() {
    assert_eq!(binary_path("/src/app", "tool", None), "/src/app/target/release/tool");
    assert_eq!(
        binary_path("proj/", "tool", Some("x86_64-apple-darwin")),
        "proj/target/x86_64-apple-darwin/release/tool"
    );
    assert_eq!(binary_path("", "tool", None), "target/release/tool");
}

#[test]
fn tag_strips_one_v() {
    assert_eq!(Tag::new("v1.2.0".to_string()).strip_v_prefix(), "1.2.0");
    assert_eq!(Tag::new("1.2.0".to_string()).strip_v_prefix(), "1.2.0");
    assert_eq!(Tag::new("vv1".to_string()).strip_v_prefix(), "v1");
    assert_eq!(Tag::new("v1.2.0".to_string()).value(), "v1.2.0");
}

#[test]
fn sidecar_format() {
    assert_eq!(checksum_file_name("tool_v1.2.0.tar.gz"), "tool_v1.2.0.tar.gz.sha256");
    assert_eq!(checksum_file_content("abc123", "tool_v1.2.0.tar.gz"), "abc123  tool_v1.2.0.tar.gz");
    let mut a = Asset::new("tool_v1.2.0.tar.gz".to_string(), "out/tool_v1.2.0.tar.gz".to_string());
    a.add_checksum("abc123".to_string());
    let (side, content) = generate_checksum_asset(&a, "out").unwrap();
    assert_eq!(side.name, "tool_v1.2.0.tar.gz.sha256");
    assert_eq!(side.path, "out/tool_v1.2.0.tar.gz.sha256");
    assert!(side.checksum.is_none());
    assert_eq!(content, "abc123  tool_v1.2.0.tar.gz");
}

#[test]
fn sidecar_needs_checksum() {
    let a = Asset::new("x.tar.gz".to_string(), "x.tar.gz".to_string());
    assert!(matches!(generate_checksum_asset(&a, "out"), Err(ReleaseError::MissingChecksum(n)) if n == "x.tar.gz"));
}

#[test]
fn endpoint_addresses() {
    let tag = Tag::new("v1.2.0".to_string());
    assert_eq!(releases_url("me", "proj"), "https://api.github.com/repos/me/proj/releases");
    assert_eq!(release_by_tag_url("me", "proj", &tag), "https://api.github.com/repos/me/proj/releases/tags/v1.2.0");
    let rel = Release::new(98765, "me".to_string(), "proj".to_string());
    assert_eq!(
        upload_url(&rel, "tool.tar.gz"),
        "https://uploads.github.com/repos/me/proj/releases/98765/assets?name=tool.tar.gz"
    );
    assert_eq!(
        download_url("me", "proj", &tag, "tool.tar.gz"),
        "https://github.com/me/proj/releases/download/1.2.0/tool.tar.gz"
    );
}
