//! Files staged for upload, and what their upload produced.
use vstd::prelude::*;
use vstd::string::*;
use crate::error::ReleaseError;
use crate::text::{join_path, joined_path};

verus! {

/// A local file staged for upload.
#[derive(Clone, Debug)]
pub struct Asset {
    pub name: String,
    pub path: String,
    pub checksum: Option<String>,
}

impl Asset {
    /// An asset with no checksum yet.
    pub fn new(name: String, path: String) -> (r: Asset)
        ensures
            r.name == name,
            r.path == path,
            r.checksum is None,
    {
        Asset { name, path, checksum: None }
    }

    /// A field-by-field copy.
    pub fn copied(&self) -> (r: Asset)
        ensures
            r == *self,
    {
        let checksum = match &self.checksum {
            Some(c) => Some(c.clone()),
            None => None,
        };
        Asset { name: self.name.clone(), path: self.path.clone(), checksum }
    }

    /// Attaches the checksum of the file.
    pub fn add_checksum(&mut self, checksum: String)
        ensures
            final(self).name == old(self).name,
            final(self).path == old(self).path,
            final(self).checksum == Some(checksum),
    {
        self.checksum = Some(checksum);
    }
}

/// An asset that the hosting platform accepted.
#[derive(Clone, Debug)]
pub struct UploadedAsset {
    pub name: String,
    pub url: String,
    pub checksum: String,
}

impl UploadedAsset {
    pub fn new(name: String, url: String, checksum: String) -> (r: UploadedAsset)
        ensures
            r.name == name,
            r.url == url,
            r.checksum == checksum,
    {
        UploadedAsset { name, url, checksum }
    }
}

/// The file name of the checksum file of an asset: `{name}.sha256`.
pub open spec fn sidecar_name(name: Seq<char>) -> Seq<char> {
    name + ".sha256"@
}

/// The one line of a checksum file: digest, two spaces, asset name, as
/// checksum-verification tools read it.
pub open spec fn sidecar_content(digest: Seq<char>, name: Seq<char>) -> Seq<char> {
    digest + "  "@ + name
}

/// The name of the checksum file of an asset.
pub fn checksum_file_name(name: &str) -> (r: String)
    ensures
        r@ == sidecar_name(name@),
{
    let mut r = String::from_str(name);
    r.append(".sha256");
    r
}

/// The content of the checksum file of an asset.
pub fn checksum_file_content(digest: &str, name: &str) -> (r: String)
    ensures
        r@ == sidecar_content(digest@, name@),
{
    let mut r = String::from_str(digest);
    r.append("  ");
    r.append(name);
    r
}

/// The checksum file of an asset, to be written under `output_path`: the
/// asset that stands for it, and its content. Fails when the asset has no
/// checksum.
pub fn generate_checksum_asset(asset: &Asset, output_path: &str) -> (r: Result<(Asset, String), ReleaseError>)
    ensures
        match asset.checksum {
            Some(c) => r matches Ok((side, content)) && side.name@ == sidecar_name(asset.name@)
                && side.path@ == joined_path(output_path@, sidecar_name(asset.name@))
                && side.checksum is None && content@ == sidecar_content(c@, asset.name@),
            None => r matches Err(ReleaseError::MissingChecksum(n)) && n@ == asset.name@,
        },
{
    match &asset.checksum {
        Some(checksum) => {
            let name = checksum_file_name(asset.name.as_str());
            let path = join_path(output_path, name.as_str());
            let content = checksum_file_content(checksum.as_str(), asset.name.as_str());
            Ok((Asset::new(name, path), content))
        },
        None => Err(ReleaseError::MissingChecksum(asset.name.clone())),
    }
}

} // verus!
