use rust_releaser::archive::zip_file;
use rust_releaser::checksum::create;
use rust_releaser::error::ReleaseError;
use rust_releaser::matrix::{package_binary, package_entry, ArchOsMatrixEntry};
use rust_releaser::build_config::{Arch, Compression, Os};
use std::io::Read;

fn extract(archive: &[u8]) -> Vec<(String, Vec<u8>, u32)> {
    let gz = flate2::read::GzDecoder::new(archive);
    let mut ar = tar::Archive::new(gz);
    let mut out = Vec::new();
    for entry in ar.entries().unwrap() {
        let mut entry = entry.unwrap();
        let name = entry.path().unwrap().to_string_lossy().to_string();
        let mode = entry.header().mode().unwrap();
        let mut data = Vec::new();
        entry.read_to_end(&mut data).unwrap();
        out.push((name, data, mode));
    }
    out
}

#[test]
fn checksum_of_known_input() {
    assert_eq!(create(b"abc"), "ba7816bf8f01cfea414140de5dae2223b00361a396177a9cb410ff61f20015ad");
    assert_eq!(create(b""), "e3b0c44298fc1c149afbf4c8996fb92427ae41e4649b934ca495991b7852b855");
}

#[test]
fn checksum_is_deterministic_and_sensitive() {
    let data = b"release payload".to_vec();
    let first = create(&data);
    assert_eq!(first, create(&data));
    assert_eq!(first.len(), 64);
    assert!(first.chars().all(|c| c.is_ascii_hexdigit() && !c.is_ascii_uppercase()));
    let mut changed = data.clone();
    changed[3] ^= 1;
    assert_ne!(first, create(&changed));
}

#[test]
fn archive_round_trip() {
    let contents = b"\x7fELF pretend binary".to_vec();
    let archive = zip_file("tool", &contents, 0o755).unwrap();
    assert_eq!(&archive[..2], &[0x1f, 0x8b]);
    let files = extract(&archive);
    assert_eq!(files.len(), 1);
    assert_eq!(files[0].0, "tool");
    assert_eq!(files[0].1, contents);
    assert_eq!(files[0].2, 0o755);
}

#[test]
fn archive_is_reproducible() {
    assert_eq!(zip_file("tool", b"abc", 0o755).unwrap(), zip_file("tool", b"abc", 0o755).unwrap());
}

#[test]
fn archive_rejects_parent_path() {
    assert!(matches!(zip_file("../tool", b"abc", 0o755), Err(ReleaseError::Packaging(n)) if n == "../tool"));
}

#[test]
fn archive_rejects_nul_in_name() {
    assert!(matches!(zip_file("a\u{0}b", b"abc", 0o755), Err(ReleaseError::Packaging(n)) if n == "a\u{0}b"));
}

#[test]
fn archive_accepts_long_name() {
    let name = "t".repeat(150);
    let files = extract(&zip_file(&name, b"x", 0o644).unwrap());
    assert_eq!(files[0].0, name);
}

#[test]
fn packaged_asset_has_archive_checksum() {
    let (asset, archive) = package_binary("demo_v1.0.0.tar.gz", "demo", b"bin", 0o755, "dist").unwrap();
    assert_eq!(asset.name, "demo_v1.0.0.tar.gz");
    assert_eq!(asset.path, "dist/demo_v1.0.0.tar.gz");
    assert_eq!(asset.checksum, Some(create(&archive)));
    assert_eq!(extract(&archive)[0].0, "demo");
}

#[test]
fn package_entry_attaches_asset() {
    let mut e = ArchOsMatrixEntry::new(&Arch::Amd64, &Os::UnknownLinuxGnu, "tool".to_string(), "v1", &Compression::TarGz);
    let archive = package_entry(&mut e, "tool", b"bin", 0o755, "out").unwrap();
    let a = e.asset.unwrap();
    assert_eq!(a.name, "tool_v1_x86_64_unknown-linux-gnu.tar.gz");
    assert_eq!(a.path, "out/tool_v1_x86_64_unknown-linux-gnu.tar.gz");
    assert_eq!(a.checksum, Some(create(&archive)));
}
