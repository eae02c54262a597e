//! The per-artifact records handed to formula generation, and how they are
//! assembled from the matrix and the uploads.
use vstd::prelude::*;
use crate::asset::{Asset, UploadedAsset};
use crate::build_config::{Arch, Os};
use crate::error::ReleaseError;
use crate::matrix::ArchOsMatrixEntry;

verus! {

/// One published artifact: its name, target (absent for a single-target
/// build), download address (absent in a dry run) and checksum.
#[derive(Clone, Debug)]
pub struct Package {
    pub name: String,
    pub os: Option<Os>,
    pub arch: Option<Arch>,
    pub url: Option<String>,
    pub sha256: String,
}

impl Package {
    pub fn new(name: String, os: Option<Os>, arch: Option<Arch>, url: Option<String>, sha256: String) -> (r: Package)
        ensures
            r == (Package { name, os, arch, url, sha256 }),
    {
        Package { name, os, arch, url, sha256 }
    }
}

/// The package of an uploaded asset.
pub open spec fn package_of(u: UploadedAsset, os: Option<Os>, arch: Option<Arch>) -> Package {
    Package { name: u.name, os, arch, url: Some(u.url), sha256: u.checksum }
}

/// The checksum text of an asset, empty when it has none.
pub open spec fn checksum_text(a: Asset) -> Seq<char> {
    match a.checksum {
        Some(c) => c@,
        None => Seq::empty(),
    }
}

/// The package of an asset that was packaged but not uploaded.
pub open spec fn is_local_package(p: Package, a: Asset, os: Option<Os>, arch: Option<Arch>) -> bool {
    &&& p.name == a.name
    &&& p.os == os
    &&& p.arch == arch
    &&& p.url is None
    &&& p.sha256@ == checksum_text(a)
}

/// The package of an uploaded asset.
pub fn package_asset(asset: &UploadedAsset, os: Option<Os>, arch: Option<Arch>) -> (r: Package)
    ensures
        r == package_of(*asset, os, arch),
{
    Package::new(asset.name.clone(), os, arch, Some(asset.url.clone()), asset.checksum.clone())
}

/// The package of an asset that was packaged but not uploaded.
pub fn local_package(asset: &Asset, os: Option<Os>, arch: Option<Arch>) -> (r: Package)
    ensures
        is_local_package(r, *asset, os, arch),
{
    let sha256 = match &asset.checksum {
        Some(c) => c.clone(),
        None => String::new(),
    };
    Package::new(asset.name.clone(), os, arch, None, sha256)
}

/// `j` is the first uploaded asset named `name`.
pub open spec fn first_named(uploaded: Seq<UploadedAsset>, name: Seq<char>, j: int) -> bool {
    &&& 0 <= j < uploaded.len()
    &&& uploaded[j].name@ == name
    &&& forall|q: int| 0 <= q < j ==> uploaded[q].name@ != name
}

/// Some uploaded asset is named `name`.
pub open spec fn has_named(uploaded: Seq<UploadedAsset>, name: Seq<char>) -> bool {
    exists|j: int| 0 <= j < uploaded.len() && #[trigger] uploaded[j].name@ == name
}

/// The first uploaded asset named `name`, if any.
pub fn find_uploaded(uploaded: &Vec<UploadedAsset>, name: &String) -> (r: Option<usize>)
    ensures
        r matches Some(j) ==> first_named(uploaded@, name@, j as int),
        r is None <==> !has_named(uploaded@, name@),
{
    let mut j: usize = 0;
    while j < uploaded.len()
        invariant
            j <= uploaded@.len(),
            forall|q: int| 0 <= q < j ==> uploaded@[q].name@ != name@,
        decreases uploaded@.len() - j,
    {
        if uploaded[j].name == *name {
            return Some(j);
        }
        j = j + 1;
    }
    None
}

/// Whether every matrix entry has an uploaded asset of its name.
pub open spec fn all_uploaded(entries: Seq<ArchOsMatrixEntry>, uploaded: Seq<UploadedAsset>) -> bool {
    forall|i: int| 0 <= i < entries.len() ==> has_named(uploaded, #[trigger] entries[i].name@)
}

/// Package `p` is the one of matrix entry `e`: that of the first uploaded
/// asset with the entry's name, tagged with the entry's target.
pub open spec fn is_entry_package(p: Package, e: ArchOsMatrixEntry, uploaded: Seq<UploadedAsset>) -> bool {
    exists|j: int| first_named(uploaded, e.name@, j) && p == package_of(#[trigger] uploaded[j], Some(e.os), Some(e.arch))
}

/// One package per uploaded asset, in upload order, without target.
pub open spec fn uploaded_packages(uploaded: Seq<UploadedAsset>, v: Seq<Package>) -> bool {
    &&& v.len() == uploaded.len()
    &&& forall|i: int| 0 <= i < v.len() ==> #[trigger] v[i] == package_of(uploaded[i], None, None)
}

/// One package per matrix entry, in matrix order.
pub open spec fn entry_packages(es: Seq<ArchOsMatrixEntry>, uploaded: Seq<UploadedAsset>, v: Seq<Package>) -> bool {
    &&& v.len() == es.len()
    &&& forall|i: int| 0 <= i < v.len() ==> is_entry_package(#[trigger] v[i], es[i], uploaded)
}

/// The error names a matrix entry that has no uploaded asset.
pub open spec fn unmatched_entry(es: Seq<ArchOsMatrixEntry>, uploaded: Seq<UploadedAsset>, e: ReleaseError) -> bool {
    e matches ReleaseError::AssetNotFound(n) && exists|i: int|
        0 <= i < es.len() && n@ == #[trigger] es[i].name@ && !has_named(uploaded, n@)
}

/// What assembling gives: without matrix, one package per uploaded asset;
/// with one, a package per entry when every entry was uploaded, else the
/// error naming an entry that was not.
pub open spec fn is_assembled(
    entries: Option<Seq<ArchOsMatrixEntry>>,
    uploaded: Seq<UploadedAsset>,
    r: Result<Vec<Package>, ReleaseError>,
) -> bool {
    &&& entries is None ==> (r matches Ok(v) && uploaded_packages(uploaded, v@))
    &&& entries matches Some(es) ==> (all_uploaded(es, uploaded) <==> r is Ok)
    &&& entries matches Some(es) ==> (r matches Ok(v) ==> entry_packages(es, uploaded, v@))
    &&& entries matches Some(es) ==> (r matches Err(e) ==> unmatched_entry(es, uploaded, e))
}

/// Assembles the packages of a release. A single-target build (no matrix)
/// has one package per uploaded asset, without target. A multi-target build
/// has one package per matrix entry, in matrix order, matched to its upload
/// by name; an entry without upload is an internal fault.
pub fn assemble_packages(entries: Option<&Vec<ArchOsMatrixEntry>>, uploaded: &Vec<UploadedAsset>) -> (r: Result<
    Vec<Package>,
    ReleaseError,
>)
    ensures
        is_assembled(
            match entries { Some(es) => Some(es@), None => None },
            uploaded@,
            r,
        ),
{
    let mut packages: Vec<Package> = Vec::new();
    match entries {
        None => {
            let mut i: usize = 0;
            while i < uploaded.len()
                invariant
                    entries is None,
                    i <= uploaded@.len(),
                    packages@.len() == i,
                    forall|k: int| 0 <= k < i ==> #[trigger] packages@[k] == package_of(uploaded@[k], None, None),
                decreases uploaded@.len() - i,
            {
                packages.push(package_asset(&uploaded[i], None, None));
                i = i + 1;
            }
            Ok(packages)
        },
        Some(es) => {
            let mut i: usize = 0;
            while i < es.len()
                invariant
                    entries == Some(es),
                    i <= es@.len(),
                    packages@.len() == i,
                    forall|k: int| 0 <= k < i ==> has_named(uploaded@, #[trigger] es@[k].name@),
                    forall|k: int| 0 <= k < i ==> is_entry_package(#[trigger] packages@[k], es@[k], uploaded@),
                decreases es@.len() - i,
            {
                let e = &es[i];
                match find_uploaded(uploaded, &e.name) {
                    Some(j) => {
                        let p = package_asset(&uploaded[j], Some(e.os), Some(e.arch));
                        assert(uploaded@[j as int].name@ == e.name@);
                        packages.push(p);
                        assert(is_entry_package(packages@[i as int], es@[i as int], uploaded@));
                    },
                    None => {
                        assert(!all_uploaded(es@, uploaded@)) by {
                            assert(!has_named(uploaded@, es@[i as int].name@));
                        }
                        let n = e.name.clone();
                        assert(n@ == es@[i as int].name@);
                        return Err(ReleaseError::AssetNotFound(n));
                    },
                }
                i = i + 1;
            }
            Ok(packages)
        },
    }
}

/// The packages of a dry run: what a real run would report, with the
/// checksum of each packaged asset and no download address. A single-target
/// build has one package per asset, without target; a multi-target build has
/// one per matrix entry, from the asset attached to it.
pub open spec fn is_dry_run_result(
    entries: Option<Seq<ArchOsMatrixEntry>>,
    assets: Seq<Asset>,
    r: Result<Vec<Package>, ReleaseError>,
) -> bool {
    &&& entries is None ==> (r matches Ok(v) && local_packages(assets, v@))
    &&& entries matches Some(es) ==> ((forall|i: int| 0 <= i < es.len() ==> (#[trigger] es[i]).asset is Some)
        <==> r is Ok)
    &&& entries matches Some(es) ==> (r matches Ok(v) ==> local_entry_packages(es, v@))
    &&& entries matches Some(es) ==> (r matches Err(e) ==> unpackaged_entry(es, e))
}

/// One package per asset, in order, without target or address.
pub open spec fn local_packages(assets: Seq<Asset>, v: Seq<Package>) -> bool {
    &&& v.len() == assets.len()
    &&& forall|i: int| 0 <= i < v.len() ==> is_local_package(#[trigger] v[i], assets[i], None, None)
}

/// One package per matrix entry, from the asset attached to it.
pub open spec fn local_entry_packages(es: Seq<ArchOsMatrixEntry>, v: Seq<Package>) -> bool {
    &&& v.len() == es.len()
    &&& forall|i: int|
        0 <= i < v.len() ==> (es[i].asset matches Some(a) && is_local_package(
            #[trigger] v[i],
            a,
            Some(es[i].os),
            Some(es[i].arch),
        ))
}

/// The error names a matrix entry that has no asset attached.
pub open spec fn unpackaged_entry(es: Seq<ArchOsMatrixEntry>, e: ReleaseError) -> bool {
    e matches ReleaseError::AssetNotFound(n) && exists|i: int|
        0 <= i < es.len() && n@ == (#[trigger] es[i]).name@ && es[i].asset is None
}

/// The packages of a dry run.
pub fn dry_run_packages(entries: Option<&Vec<ArchOsMatrixEntry>>, assets: &Vec<Asset>) -> (r: Result<
    Vec<Package>,
    ReleaseError,
>)
    ensures
        is_dry_run_result(
            match entries { Some(es) => Some(es@), None => None },
            assets@,
            r,
        ),
{
    let mut packages: Vec<Package> = Vec::new();
    match entries {
        None => {
            let mut i: usize = 0;
            while i < assets.len()
                invariant
                    entries is None,
                    i <= assets@.len(),
                    packages@.len() == i,
                    forall|k: int| 0 <= k < i ==> is_local_package(#[trigger] packages@[k], assets@[k], None, None),
                decreases assets@.len() - i,
            {
                packages.push(local_package(&assets[i], None, None));
                i = i + 1;
            }
            Ok(packages)
        },
        Some(es) => {
            let mut i: usize = 0;
            while i < es.len()
                invariant
                    entries == Some(es),
                    i <= es@.len(),
                    packages@.len() == i,
                    forall|k: int| 0 <= k < i ==> (#[trigger] es@[k]).asset is Some,
                    forall|k: int|
                        0 <= k < i ==> (es@[k].asset matches Some(a) && is_local_package(
                            #[trigger] packages@[k],
                            a,
                            Some(es@[k].os),
                            Some(es@[k].arch),
                        )),
                decreases es@.len() - i,
            {
                let e = &es[i];
                match &e.asset {
                    Some(a) => {
                        packages.push(local_package(a, Some(e.os), Some(e.arch)));
                    },
                    None => {
                        let n = e.name.clone();
                        assert(n@ == es@[i as int].name@ && es@[i as int].asset is None);
                        return Err(ReleaseError::AssetNotFound(n));
                    },
                }
                i = i + 1;
            }
            Ok(packages)
        },
    }
}

} // verus!
