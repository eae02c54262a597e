//! The target matrix: every configured architecture crossed with every
//! configured operating system, and the archive each target produces.
use vstd::prelude::*;
use vstd::string::*;
use crate::archive::{archive_of, is_entry_name, zip_file};
use crate::asset::Asset;
use crate::build_config::{Arch, Build, Compression, Os, arch_token, axis_len, axis_values, extension_of, os_token};
use crate::checksum::{checksum_of, create};
use crate::error::ReleaseError;
use crate::tag::Tag;
use crate::text::{join_path, joined_path};

verus! {

/// The targets of a matrix: architectures in the outer position, operating
/// systems in the inner one, both in configuration order.
pub open spec fn matrix_of(archs: Seq<Arch>, oses: Seq<Os>) -> Seq<(Arch, Os)>
    decreases archs.len(),
{
    if archs.len() == 0 {
        Seq::empty()
    } else {
        matrix_of(archs.drop_last(), oses) + oses.map_values(|o: Os| (archs.last(), o))
    }
}

/// The matrix has one target per pair of an architecture and an operating
/// system, and the target at `i * |oses| + j` pairs the `i`-th architecture
/// with the `j`-th operating system.
pub proof fn lemma_matrix_shape(archs: Seq<Arch>, oses: Seq<Os>)
    ensures
        matrix_of(archs, oses).len() == archs.len() * oses.len(),
        forall|i: int, j: int|
            0 <= i < archs.len() && 0 <= j < oses.len() ==> #[trigger] matrix_of(archs, oses)[i * oses.len() + j]
                == (archs[i], oses[j]),
    decreases archs.len(),
{
    if archs.len() > 0 {
        let prefix = archs.drop_last();
        lemma_matrix_shape(prefix, oses);
        let n = oses.len() as int;
        let m = archs.len() as int;
        assert(prefix.len() * n + n == m * n) by (nonlinear_arith)
            requires prefix.len() == m - 1;
        assert forall|i: int, j: int| 0 <= i < m && 0 <= j < n implies #[trigger] matrix_of(archs, oses)[i * n + j]
            == (archs[i], oses[j]) by {
            if i < m - 1 {
                assert(i * n + j < (m - 1) * n) by (nonlinear_arith)
                    requires 0 <= i < m - 1, 0 <= j < n;
                assert(prefix[i] == archs[i]);
            } else {
                assert(i * n == (m - 1) * n);
            }
        }
    }
}

/// Expands architectures × operating systems into the list of targets.
pub fn target_matrix(archs: &Vec<Arch>, oses: &Vec<Os>) -> (r: Vec<(Arch, Os)>)
    ensures
        r@ == matrix_of(archs@, oses@),
        r@.len() == archs@.len() * oses@.len(),
{
    let mut r: Vec<(Arch, Os)> = Vec::new();
    let mut i: usize = 0;
    while i < archs.len()
        invariant
            i <= archs@.len(),
            r@ == matrix_of(archs@.subrange(0, i as int), oses@),
        decreases archs@.len() - i,
    {
        let a = archs[i];
        let mut j: usize = 0;
        while j < oses.len()
            invariant
                i < archs@.len(),
                j <= oses@.len(),
                a == archs@[i as int],
                r@ == matrix_of(archs@.subrange(0, i as int), oses@)
                    + oses@.subrange(0, j as int).map_values(|o: Os| (a, o)),
            decreases oses@.len() - j,
        {
            r.push((a, oses[j]));
            j = j + 1;
            assert(oses@.subrange(0, j as int).map_values(|o: Os| (a, o)) =~= oses@.subrange(0, j - 1 as int).map_values(
                |o: Os| (a, o),
            ).push((a, oses@[j - 1])));
        }
        assert(archs@.subrange(0, i + 1 as int).drop_last() =~= archs@.subrange(0, i as int));
        assert(oses@.subrange(0, oses@.len() as int) =~= oses@);
        i = i + 1;
    }
    assert(archs@.subrange(0, archs@.len() as int) =~= archs@);
    proof { lemma_matrix_shape(archs@, oses@); }
    r
}

/// The targets to build: the matrix for a multi-target build, else the host
/// alone.
pub fn build_targets(build: &Build, host_arch: Arch, host_os: Os) -> (r: Vec<(Arch, Os)>)
    ensures
        axis_len(build.arch) > 0 || axis_len(build.os) > 0 ==> r@ == matrix_of(
            axis_values(build.arch),
            axis_values(build.os),
        ),
        !(axis_len(build.arch) > 0 || axis_len(build.os) > 0) ==> r@ == seq![(host_arch, host_os)],
{
    if build.is_multi_target() {
        let empty_archs: Vec<Arch> = Vec::new();
        let empty_oses: Vec<Os> = Vec::new();
        let archs = match &build.arch {
            Some(a) => a,
            None => &empty_archs,
        };
        let oses = match &build.os {
            Some(o) => o,
            None => &empty_oses,
        };
        target_matrix(archs, oses)
    } else {
        let mut r: Vec<(Arch, Os)> = Vec::new();
        r.push((host_arch, host_os));
        r
    }
}

/// The archive name of a target: `{binary}_{tag}_{arch}_{os}.{ext}`.
pub open spec fn entry_name(binary: Seq<char>, tag: Seq<char>, arch: Arch, os: Os, c: Compression) -> Seq<char> {
    binary + seq!['_'] + tag + seq!['_'] + arch_token(arch) + seq!['_'] + os_token(os) + seq!['.']
        + extension_of(c)
}

/// The archive name of a single-target build: `{binary}_{tag}.{ext}`, or
/// `{binary}.{ext}` when there is no tag.
pub open spec fn single_name(binary: Seq<char>, tag: Option<Seq<char>>, c: Compression) -> Seq<char> {
    match tag {
        Some(t) => binary + seq!['_'] + t + seq!['.'] + extension_of(c),
        None => binary + seq!['.'] + extension_of(c),
    }
}

/// The archive name of a single-target build.
pub fn single_asset_name(binary: &str, tag: Option<&Tag>, compression: &Compression) -> (r: String)
    ensures
        r@ == single_name(binary@, match tag { Some(t) => Some(t.name@), None => None }, *compression),
{
    let mut r = String::from_str(binary);
    proof { reveal_strlit("_"); reveal_strlit("."); }
    match tag {
        Some(t) => {
            r.append("_");
            r.append(t.value());
        },
        None => {},
    }
    r.append(".");
    r.append(compression.extension());
    r
}

/// The archive name of a single-target release. An empty tag is a
/// configuration error.
pub fn plan_single(build: &Build, tag: &Tag) -> (r: Result<String, ReleaseError>)
    ensures
        tag.name@.len() == 0 <==> r is Err,
        r matches Err(e) ==> e is Configuration,
        r matches Ok(n) ==> n@ == single_name(build.binary@, Some(tag.name@), build.compression),
{
    if tag.value().unicode_len() == 0 {
        return Err(ReleaseError::Configuration(String::from_str("no version tag is available")));
    }
    Ok(single_asset_name(build.binary.as_str(), Some(tag), &build.compression))
}

/// One target of the matrix and, once packaged, its asset.
#[derive(Debug)]
pub struct ArchOsMatrixEntry {
    pub arch: Arch,
    pub os: Os,
    pub name: String,
    pub asset: Option<Asset>,
}

impl ArchOsMatrixEntry {
    /// The entry of a target, named after the binary, tag, target and format.
    pub fn new(arch: &Arch, os: &Os, name: String, tag: &str, compression: &Compression) -> (r: ArchOsMatrixEntry)
        ensures
            r.arch == *arch,
            r.os == *os,
            r.name@ == entry_name(name@, tag@, *arch, *os, *compression),
            r.asset is None,
    {
        proof { reveal_strlit("_"); reveal_strlit("."); }
        let mut full = name;
        full.append("_");
        full.append(tag);
        full.append("_");
        let a = arch.to_string();
        full.append(a.as_str());
        full.append("_");
        let o = os.to_string();
        full.append(o.as_str());
        full.append(".");
        full.append(compression.extension());
        ArchOsMatrixEntry { arch: *arch, os: *os, name: full, asset: None }
    }

    /// Attaches the packaged asset.
    pub fn set_asset(&mut self, asset: Asset)
        ensures
            final(self).arch == old(self).arch,
            final(self).os == old(self).os,
            final(self).name == old(self).name,
            final(self).asset == Some(asset),
    {
        self.asset = Some(asset);
    }
}

/// A growing list of matrix entries.
pub trait PushArchOsMatrix {
    spec fn entries(&self) -> Seq<ArchOsMatrixEntry>;

    /// Appends an entry at the end.
    fn push_entry(&mut self, entry: ArchOsMatrixEntry)
        ensures
            final(self).entries() == old(self).entries().push(entry);
}

impl PushArchOsMatrix for Vec<ArchOsMatrixEntry> {
    open spec fn entries(&self) -> Seq<ArchOsMatrixEntry> {
        self@
    }

    fn push_entry(&mut self, entry: ArchOsMatrixEntry) {
        self.push(entry);
    }
}

/// An entry as `plan_multi` makes it: the `k`-th target of the matrix, named,
/// not yet packaged.
pub open spec fn planned_entry(e: ArchOsMatrixEntry, build: Build, tag: Seq<char>, target: (Arch, Os)) -> bool {
    &&& e.arch == target.0
    &&& e.os == target.1
    &&& e.name@ == entry_name(build.binary@, tag, target.0, target.1, build.compression)
    &&& e.asset is None
}

/// The matrix of a multi-target build, one unpackaged entry per target in
/// matrix order. An empty tag or an empty matrix is a configuration error.
pub fn plan_multi(build: &Build, tag: &Tag) -> (r: Result<Vec<ArchOsMatrixEntry>, ReleaseError>)
    ensures
        (tag.name@.len() == 0 || axis_len(build.arch) == 0 || axis_len(build.os) == 0) <==> r is Err,
        r matches Err(e) ==> e is Configuration,
        r matches Ok(v) ==> v@.len() == axis_len(build.arch) * axis_len(build.os),
        r matches Ok(v) ==> v@.len() == matrix_of(axis_values(build.arch), axis_values(build.os)).len() && forall|
            k: int,
        |
            0 <= k < v@.len() ==> planned_entry(
                #[trigger] v@[k],
                *build,
                tag.name@,
                matrix_of(axis_values(build.arch), axis_values(build.os))[k],
            ),
{
    let empty_archs: Vec<Arch> = Vec::new();
    let empty_oses: Vec<Os> = Vec::new();
    let archs = match &build.arch {
        Some(a) => a,
        None => &empty_archs,
    };
    let oses = match &build.os {
        Some(o) => o,
        None => &empty_oses,
    };
    if tag.value().unicode_len() == 0 {
        return Err(ReleaseError::Configuration(String::from_str("no version tag is available")));
    }
    let targets = target_matrix(archs, oses);
    assert(targets@.len() == 0 <==> (archs@.len() == 0 || oses@.len() == 0)) by (nonlinear_arith)
        requires targets@.len() == archs@.len() * oses@.len();
    if targets.len() == 0 {
        return Err(ReleaseError::Configuration(String::from_str("the target matrix is empty")));
    }
    let mut entries: Vec<ArchOsMatrixEntry> = Vec::new();
    let mut k: usize = 0;
    while k < targets.len()
        invariant
            k <= targets@.len(),
            targets@ == matrix_of(axis_values(build.arch), axis_values(build.os)),
            entries@.len() == k,
            forall|q: int| 0 <= q < k ==> planned_entry(#[trigger] entries@[q], *build, tag.name@, targets@[q]),
        decreases targets@.len() - k,
    {
        let (a, o) = targets[k];
        let e = ArchOsMatrixEntry::new(&a, &o, build.binary.clone(), tag.value(), &build.compression);
        entries.push_entry(e);
        k = k + 1;
    }
    Ok(entries)
}

/// Where the build leaves a binary under the project directory `base`:
/// `target/release/{binary}` for the host, `target/{triple}/release/{binary}`
/// for a given target triple.
pub open spec fn binary_path_of(base: Seq<char>, binary: Seq<char>, triple: Option<Seq<char>>) -> Seq<char> {
    joined_path(
        base,
        match triple {
            Some(t) => "target/"@ + t + "/release/"@ + binary,
            None => "target/release/"@ + binary,
        },
    )
}

/// Where the build leaves a binary.
pub fn binary_path(base: &str, binary: &str, triple: Option<&str>) -> (r: String)
    ensures
        r@ == binary_path_of(base@, binary@, match triple { Some(t) => Some(t@), None => None }),
{
    let rel = match triple {
        Some(t) => {
            let mut p = String::from_str("target/");
            p.append(t);
            p.append("/release/");
            p.append(binary);
            p
        },
        None => {
            let mut p = String::from_str("target/release/");
            p.append(binary);
            p
        },
    };
    join_path(base, rel.as_str())
}

/// An asset as packaging leaves it: the archive `name` under `output`, with
/// the checksum of the archive's content.
pub open spec fn packaged_asset(a: Asset, name: Seq<char>, output: Seq<char>, archive: Seq<u8>) -> bool {
    &&& a.name@ == name
    &&& a.path@ == joined_path(output, name)
    &&& a.checksum matches Some(c) && c@ == checksum_of(archive) && c@.len() == 64
}

/// Packs a binary into the archive `name`, to be written under `output`,
/// and makes its checksummed asset. Returns the asset and the archive's
/// content. It succeeds for every single-component binary name that
/// `is_entry_name` admits.
pub fn package_binary(name: &str, binary_name: &str, contents: &[u8], mode: u32, output: &str) -> (r: Result<
    (Asset, Vec<u8>),
    ReleaseError,
>)
    ensures
        is_entry_name(binary_name@) ==> r is Ok,
        r matches Ok((a, archive)) ==> archive@ == archive_of(binary_name@, contents@, mode) && packaged_asset(
            a,
            name@,
            output@,
            archive@,
        ),
        r matches Err(e) ==> e matches ReleaseError::Packaging(n) && n@ == binary_name@,
{
    let archive = zip_file(binary_name, contents, mode)?;
    let path = join_path(output, name);
    let mut asset = Asset::new(String::from_str(name), path);
    let checksum = create(archive.as_slice());
    asset.add_checksum(checksum);
    Ok((asset, archive))
}

/// Packages the binary of a matrix entry and attaches the asset to it.
/// Returns the archive's content; it succeeds for every single-component
/// binary name that `is_entry_name` admits, and on failure the entry is left
/// as it was.
pub fn package_entry(
    entry: &mut ArchOsMatrixEntry,
    binary_name: &str,
    contents: &[u8],
    mode: u32,
    output: &str,
) -> (r: Result<Vec<u8>, ReleaseError>)
    ensures
        is_entry_name(binary_name@) ==> r is Ok,
        final(entry).arch == old(entry).arch,
        final(entry).os == old(entry).os,
        final(entry).name == old(entry).name,
        r matches Ok(archive) ==> archive@ == archive_of(binary_name@, contents@, mode)
            && (final(entry).asset matches Some(a) && packaged_asset(a, old(entry).name@, output@, archive@)),
        r matches Err(e) ==> (e matches ReleaseError::Packaging(n) && n@ == binary_name@)
            && final(entry).asset == old(entry).asset,
{
    let (asset, archive) = package_binary(entry.name.as_str(), binary_name, contents, mode, output)?;
    entry.set_asset(asset);
    Ok(archive)
}

/// The assets attached to matrix entries, in matrix order.
pub open spec fn assets_of(es: Seq<ArchOsMatrixEntry>) -> Seq<Asset>
    decreases es.len(),
{
    if es.len() == 0 {
        Seq::empty()
    } else {
        match es.last().asset {
            Some(a) => assets_of(es.drop_last()).push(a),
            None => assets_of(es.drop_last()),
        }
    }
}

/// The assets attached to matrix entries, in matrix order; entries without
/// asset contribute nothing.
pub fn matrix_assets(entries: &Vec<ArchOsMatrixEntry>) -> (r: Vec<Asset>)
    ensures
        r@ == assets_of(entries@),
{
    let mut r: Vec<Asset> = Vec::new();
    let mut i: usize = 0;
    while i < entries.len()
        invariant
            i <= entries@.len(),
            r@ == assets_of(entries@.subrange(0, i as int)),
        decreases entries@.len() - i,
    {
        assert(entries@.subrange(0, i + 1 as int).drop_last() =~= entries@.subrange(0, i as int));
        match &entries[i].asset {
            Some(a) => r.push(a.copied()),
            None => {},
        }
        i = i + 1;
    }
    assert(entries@.subrange(0, entries@.len() as int) =~= entries@);
    r
}

} // verus!
