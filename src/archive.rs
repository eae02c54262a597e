//! Packaging a binary into a single-entry compressed archive.
use vstd::prelude::*;
use crate::error::ReleaseError;
use std::io::Write;
use vstd::string::*;

verus! {

/// The tar archive that holds exactly one file, `data` under the path `name`
/// with permission bits `mode`.
pub uninterp spec fn tar_of(name: Seq<char>, data: Seq<u8>, mode: u32) -> Seq<u8>;

/// The gzip stream of a byte sequence at the default compression level.
pub uninterp spec fn gzip_of(data: Seq<u8>) -> Seq<u8>;

/// A single-component entry name that tar accepts: not empty, not `..`,
/// and without `/`, a backslash or a nul character.
pub open spec fn is_entry_name(name: Seq<char>) -> bool {
    name.len() > 0 && !name.contains('/') && !name.contains('\\') && !name.contains('\0') && name != ".."@
}

/// Relies on tar::Builder::append_data with a fresh GNU header
/// (tar::Header::new_gnu): a one-entry archive of `data` named `name`. For
/// a single-component name the builder refuses only an empty name, `..` and
/// a nul byte (tar's `copy_path_into` and `copy_into`); a backslash may be
/// read as a separator on some platforms. Writing into a `Vec` cannot fail.
#[verifier::external_body]
fn tar_single(name: &str, data: &[u8], mode: u32) -> (r: Option<Vec<u8>>)
    ensures
        r matches Some(v) ==> v@ == tar_of(name@, data@, mode),
        is_entry_name(name@) ==> r is Some,
{
    let mut header = tar::Header::new_gnu();
    header.set_size(data.len() as u64);
    header.set_mode(mode);
    let mut builder = tar::Builder::new(Vec::new());
    builder.append_data(&mut header, name, data).ok()?;
    builder.into_inner().ok()
}

/// Relies on flate2::write::GzEncoder at flate2::Compression::default(): the
/// gzip stream of the bytes; writing into a `Vec` cannot fail.
#[verifier::external_body]
fn gzip(data: &[u8]) -> (r: Option<Vec<u8>>)
    ensures
        r is Some,
        r matches Some(v) ==> v@ == gzip_of(data@),
{
    let mut encoder = flate2::write::GzEncoder::new(Vec::new(), flate2::Compression::default());
    encoder.write_all(data).ok()?;
    encoder.finish().ok()
}

/// The content of the archive of one binary: a gzip-wrapped tar holding the
/// binary under its bare name, so that extraction yields a runnable file.
pub open spec fn archive_of(binary_name: Seq<char>, contents: Seq<u8>, mode: u32) -> Seq<u8> {
    gzip_of(tar_of(binary_name, contents, mode))
}

/// Packs the bytes of a binary into its archive. It succeeds for every
/// single-component name that `is_entry_name` admits; the error names the
/// binary.
pub fn zip_file(binary_name: &str, contents: &[u8], mode: u32) -> (r: Result<Vec<u8>, ReleaseError>)
    ensures
        is_entry_name(binary_name@) ==> r is Ok,
        r matches Ok(v) ==> v@ == archive_of(binary_name@, contents@, mode),
        r matches Err(e) ==> e matches ReleaseError::Packaging(n) && n@ == binary_name@,
{
    let packaging_error = ReleaseError::Packaging(String::from_str(binary_name));
    match tar_single(binary_name, contents, mode) {
        Some(tarball) => match gzip(tarball.as_slice()) {
            Some(v) => Ok(v),
            None => Err(packaging_error),
        },
        None => Err(packaging_error),
    }
}

} // verus!
