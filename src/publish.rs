//! Publishing a release: create the release of the tag or, when creation is
//! refused, reuse the existing one; then upload every asset followed by its
//! checksum file, strictly in order.
//!
//! The remote calls are made by the caller: `next_call` says which call to
//! make, and `on_release` / `on_upload` take its reply.
use vstd::prelude::*;
use vstd::string::*;
use crate::api::{
    ApiCall, CreateReleaseRequest, Release, download_url, download_url_of, is_release_request, media_type,
    media_type_of, release_by_tag_url, release_by_tag_url_of, release_request, releases_url, releases_url_of,
    upload_url, upload_url_of,
};
use crate::asset::{Asset, UploadedAsset, generate_checksum_asset, sidecar_content, sidecar_name};
use crate::config::ReleaseConfig;
use crate::error::ReleaseError;
use crate::matrix::{ArchOsMatrixEntry, assets_of};
use crate::package::{
    Package, assemble_packages, checksum_text, dry_run_packages, first_named, is_assembled, is_dry_run_result,
    is_entry_package, package_of,
};
use crate::tag::Tag;
use crate::text::joined_path;

verus! {

/// Where a publication stands.
#[derive(Debug)]
pub enum Stage {
    /// The release is being created.
    Creating,
    /// Creation was refused; the release is being looked up by tag.
    Fetching { create_error: String },
    /// The asset at `index` is being uploaded.
    Uploading { index: usize },
    /// The checksum file of the asset at `index` is being uploaded.
    UploadingChecksum { index: usize },
    /// Nothing is left to do.
    Done,
    /// The publication stopped.
    Failed(ReleaseError),
}

/// One publication of packaged assets to the release of a tag.
#[derive(Debug)]
pub struct Publication {
    pub owner: String,
    pub repo: String,
    pub tag: Tag,
    pub output_path: String,
    pub request: CreateReleaseRequest,
    pub assets: Vec<Asset>,
    pub entries: Option<Vec<ArchOsMatrixEntry>>,
    pub dry_run: bool,
    pub release: Option<Release>,
    pub uploaded: Vec<UploadedAsset>,
    pub stage: Stage,
}

/// `u` is what uploading asset `a` to the release of `tag` gives.
pub open spec fn uploaded_from(u: UploadedAsset, a: Asset, owner: Seq<char>, repo: Seq<char>, tag: Seq<char>) -> bool {
    &&& u.name == a.name
    &&& u.url@ == download_url_of(owner, repo, tag, a.name@)
    &&& u.checksum@ == checksum_text(a)
}

/// The matrix entries as a sequence, if there is a matrix.
pub open spec fn entries_view(entries: Option<Vec<ArchOsMatrixEntry>>) -> Option<Seq<ArchOsMatrixEntry>> {
    match entries {
        Some(es) => Some(es@),
        None => None,
    }
}

impl Publication {
    /// The id of the release, once there is one.
    pub open spec fn release_id(&self) -> u64 {
        match self.release {
            Some(r) => r.id,
            None => 0,
        }
    }

    /// The uploads so far match the assets, in order, and the stage agrees
    /// with how far the publication went.
    pub open spec fn wf(&self) -> bool {
        &&& match self.stage {
            Stage::Creating => self.release is None && self.uploaded@.len() == 0 && !self.dry_run,
            Stage::Fetching { .. } => self.release is None && self.uploaded@.len() == 0 && !self.dry_run,
            Stage::Uploading { index } => {
                &&& self.release is Some
                &&& !self.dry_run
                &&& index < self.assets@.len()
                &&& self.uploaded@.len() == index
            },
            Stage::UploadingChecksum { index } => {
                &&& self.release is Some
                &&& !self.dry_run
                &&& index < self.assets@.len()
                &&& self.uploaded@.len() == index + 1
                &&& self.assets@[index as int].checksum is Some
            },
            Stage::Done => self.dry_run || (self.release is Some && self.uploaded@.len() == self.assets@.len()),
            Stage::Failed(_) => true,
        }
        &&& self.release matches Some(rel) ==> rel.owner == self.owner && rel.repo == self.repo
        &&& self.uploaded@.len() <= self.assets@.len()
        &&& forall|k: int|
            0 <= k < self.uploaded@.len() ==> uploaded_from(
                #[trigger] self.uploaded@[k],
                self.assets@[k],
                self.owner@,
                self.repo@,
                self.tag.name@,
            )
    }

    /// What stays fixed for the whole publication.
    pub open spec fn same_run(&self, other: &Publication) -> bool {
        &&& self.owner == other.owner
        &&& self.repo == other.repo
        &&& self.tag == other.tag
        &&& self.output_path == other.output_path
        &&& self.request == other.request
        &&& self.assets == other.assets
        &&& self.entries == other.entries
        &&& self.dry_run == other.dry_run
    }

    /// The stage that follows a settled release: the first upload, or done
    /// when there is nothing to upload.
    pub open spec fn first_upload(&self) -> Stage {
        if self.assets@.len() > 0 {
            Stage::Uploading { index: 0 }
        } else {
            Stage::Done
        }
    }

    /// The state after the reply to the release creation or lookup. A
    /// created or found release is the one every upload goes to; a refused
    /// creation is followed by the lookup; a failed lookup ends the
    /// publication with both errors.
    pub open spec fn after_release(self, reply: Result<u64, String>) -> Publication {
        match reply {
            Ok(id) => Publication {
                release: Some(Release { owner: self.owner, repo: self.repo, id }),
                stage: self.first_upload(),
                ..self
            },
            Err(e) => match self.stage {
                Stage::Fetching { create_error } => Publication {
                    stage: Stage::Failed(ReleaseError::ReleaseUnavailable { create_error, fetch_error: e }),
                    ..self
                },
                _ => Publication { stage: Stage::Fetching { create_error: e }, ..self },
            },
        }
    }

    /// Starts the publication of `assets` (and, for a multi-target build, of
    /// the matrix `entries` they belong to) to the release of `tag`. A dry
    /// run is done from the start: it makes no remote call.
    pub fn start(
        config: &ReleaseConfig,
        tag: Tag,
        assets: Vec<Asset>,
        entries: Option<Vec<ArchOsMatrixEntry>>,
        output_path: String,
        dry_run: bool,
    ) -> (r: Publication)
        ensures
            r.wf(),
            r.owner == config.owner,
            r.repo == config.repo,
            r.tag == tag,
            r.output_path == output_path,
            r.assets == assets,
            r.entries == entries,
            r.dry_run == dry_run,
            is_release_request(r.request, *config, tag),
            r.release is None,
            r.uploaded@.len() == 0,
            dry_run ==> r.stage is Done,
            !dry_run ==> r.stage is Creating,
    {
        let request = release_request(config, &tag);
        let stage = if dry_run {
            Stage::Done
        } else {
            Stage::Creating
        };
        Publication {
            owner: config.owner.clone(),
            repo: config.repo.clone(),
            tag,
            output_path,
            request,
            assets,
            entries,
            dry_run,
            release: None,
            uploaded: Vec::new(),
            stage,
        }
    }

    /// Whether no call is left to make.
    pub fn is_finished(&self) -> (r: bool)
        ensures
            r == (self.stage is Done || self.stage is Failed),
    {
        match self.stage {
            Stage::Done => true,
            Stage::Failed(_) => true,
            _ => false,
        }
    }

    /// The call to make next: create the release first, look it up by tag
    /// only after creation was refused, then each asset followed by its
    /// checksum file. None once finished.
    pub fn next_call(&self) -> (r: Option<ApiCall>)
        requires
            self.wf(),
        ensures
            self.stage is Creating ==> (r matches Some(ApiCall::CreateRelease { url, request }) && url@
                == releases_url_of(self.owner@, self.repo@) && request == self.request),
            self.stage is Fetching ==> (r matches Some(ApiCall::GetReleaseByTag { url }) && url@
                == release_by_tag_url_of(self.owner@, self.repo@, self.tag.name@)),
            self.stage matches Stage::Uploading { index } ==> (r matches Some(
                ApiCall::UploadAsset { url, path, content_type, write_first },
            ) && url@ == upload_url_of(self.owner@, self.repo@, self.release_id(), self.assets@[index as int].name@)
                && path == self.assets@[index as int].path && content_type@ == media_type_of(path@)
                && write_first is None),
            self.stage matches Stage::UploadingChecksum { index } ==> (r matches Some(
                ApiCall::UploadAsset { url, path, content_type, write_first },
            ) && url@ == upload_url_of(
                self.owner@,
                self.repo@,
                self.release_id(),
                sidecar_name(self.assets@[index as int].name@),
            ) && path@ == joined_path(self.output_path@, sidecar_name(self.assets@[index as int].name@))
                && content_type@ == media_type_of(path@) && (write_first matches Some(c) && c@
                == sidecar_content(checksum_text(self.assets@[index as int]), self.assets@[index as int].name@))),
            (self.stage is Done || self.stage is Failed) ==> r is None,
    {
        match &self.stage {
            Stage::Creating => Some(
                ApiCall::CreateRelease {
                    url: releases_url(self.owner.as_str(), self.repo.as_str()),
                    request: self.request.copied(),
                },
            ),
            Stage::Fetching { .. } => Some(
                ApiCall::GetReleaseByTag {
                    url: release_by_tag_url(self.owner.as_str(), self.repo.as_str(), &self.tag),
                },
            ),
            Stage::Uploading { index } => {
                let asset = &self.assets[*index];
                let release = match &self.release {
                    Some(rel) => rel,
                    None => { return None; },
                };
                let url = upload_url(release, asset.name.as_str());
                let content_type = media_type(asset.path.as_str());
                Some(ApiCall::UploadAsset { url, path: asset.path.clone(), content_type, write_first: None })
            },
            Stage::UploadingChecksum { index } => {
                let asset = &self.assets[*index];
                let release = match &self.release {
                    Some(rel) => rel,
                    None => { return None; },
                };
                match generate_checksum_asset(asset, self.output_path.as_str()) {
                    Ok((side, content)) => {
                        let url = upload_url(release, side.name.as_str());
                        let content_type = media_type(side.path.as_str());
                        Some(ApiCall::UploadAsset { url, path: side.path, content_type, write_first: Some(content) })
                    },
                    Err(_) => None,
                }
            },
            Stage::Done => None,
            Stage::Failed(_) => None,
        }
    }

    /// Takes the reply to the release creation or lookup: the release's id,
    /// or the platform's error.
    pub fn on_release(&mut self, reply: Result<u64, String>)
        requires
            old(self).wf(),
            old(self).stage is Creating || old(self).stage is Fetching,
        ensures
            *final(self) == old(self).after_release(reply),
            final(self).wf(),
    {
        match reply {
            Ok(id) => {
                self.release = Some(Release::new(id, self.owner.clone(), self.repo.clone()));
                if self.assets.len() > 0 {
                    self.stage = Stage::Uploading { index: 0 };
                } else {
                    self.stage = Stage::Done;
                }
            },
            Err(e) => {
                let next = match &self.stage {
                    Stage::Fetching { create_error } => Stage::Failed(
                        ReleaseError::ReleaseUnavailable { create_error: create_error.clone(), fetch_error: e },
                    ),
                    _ => Stage::Fetching { create_error: e },
                };
                self.stage = next;
            },
        }
    }

    /// How one upload reply moves the publication on.
    pub open spec fn upload_step(&self, next: &Publication, reply: Result<(), String>) -> bool {
        &&& self.same_run(next)
        &&& next.release == self.release
        &&& match self.stage {
            Stage::Uploading { index } => match reply {
                Ok(_) => {
                    &&& next.uploaded@.len() == self.uploaded@.len() + 1
                    &&& next.uploaded@.drop_last() == self.uploaded@
                    &&& uploaded_from(
                        next.uploaded@.last(),
                        self.assets@[index as int],
                        self.owner@,
                        self.repo@,
                        self.tag.name@,
                    )
                    &&& next.stage == match self.assets@[index as int].checksum {
                        Some(_) => Stage::UploadingChecksum { index },
                        None => Stage::Failed(ReleaseError::MissingChecksum(self.assets@[index as int].name)),
                    }
                },
                Err(e) => {
                    &&& next.uploaded == self.uploaded
                    &&& next.stage == Stage::Failed(
                        ReleaseError::Upload { asset: self.assets@[index as int].name, error: e },
                    )
                },
            },
            Stage::UploadingChecksum { index } => {
                &&& next.uploaded == self.uploaded
                &&& next.stage == match reply {
                    Ok(_) => if index + 1 < self.assets@.len() {
                        Stage::Uploading { index: (index + 1) as usize }
                    } else {
                        Stage::Done
                    },
                    Err(e) => Stage::Failed(
                        ReleaseError::Upload { asset: self.assets@[index as int].name, error: e },
                    ),
                }
            },
            _ => false,
        }
    }

    /// Takes the reply to an upload: success, or the platform's error. A
    /// refused checksum file fails the publication as its asset would.
    pub fn on_upload(&mut self, reply: Result<(), String>)
        requires
            old(self).wf(),
            old(self).stage is Uploading || old(self).stage is UploadingChecksum,
        ensures
            old(self).upload_step(final(self), reply),
            final(self).wf(),
    {
        match self.stage {
            Stage::Uploading { index } => {
                let asset = &self.assets[index];
                match reply {
                    Ok(_) => {
                        let url = download_url(self.owner.as_str(), self.repo.as_str(), &self.tag, asset.name.as_str());
                        let checksum = match &asset.checksum {
                            Some(c) => c.clone(),
                            None => String::new(),
                        };
                        let next = match &asset.checksum {
                            Some(_) => Stage::UploadingChecksum { index },
                            None => Stage::Failed(ReleaseError::MissingChecksum(asset.name.clone())),
                        };
                        let u = UploadedAsset::new(asset.name.clone(), url, checksum);
                        self.uploaded.push(u);
                        self.stage = next;
                        assert(self.uploaded@.drop_last() =~= old(self).uploaded@);
                    },
                    Err(e) => {
                        self.stage = Stage::Failed(ReleaseError::Upload { asset: asset.name.clone(), error: e });
                    },
                }
            },
            Stage::UploadingChecksum { index } => {
                match reply {
                    Ok(_) => {
                        if index < self.assets.len() - 1 {
                            self.stage = Stage::Uploading { index: index + 1 };
                        } else {
                            self.stage = Stage::Done;
                        }
                    },
                    Err(e) => {
                        let name = self.assets[index].name.clone();
                        self.stage = Stage::Failed(ReleaseError::Upload { asset: name, error: e });
                    },
                }
            },
            _ => {},
        }
    }

    /// The packages of a finished publication: for a dry run, those of the
    /// packaged assets without download address; otherwise those assembled
    /// from the uploads; or the error that stopped it.
    pub fn finish(self) -> (r: Result<Vec<Package>, ReleaseError>)
        requires
            self.wf(),
            self.stage is Done || self.stage is Failed,
        ensures
            self.stage matches Stage::Failed(e) ==> r == Err::<Vec<Package>, ReleaseError>(e),
            (self.stage is Done && self.dry_run) ==> is_dry_run_result(entries_view(self.entries), self.assets@, r),
            (self.stage is Done && !self.dry_run) ==> is_assembled(entries_view(self.entries), self.uploaded@, r),
    {
        match self.stage {
            Stage::Failed(e) => Err(e),
            _ => {
                if self.dry_run {
                    dry_run_packages(self.entries.as_ref(), &self.assets)
                } else {
                    assemble_packages(self.entries.as_ref(), &self.uploaded)
                }
            },
        }
    }
}

/// Publishing to a tag whose release already exists: creation is refused,
/// the lookup by tag finds the release, and the publication goes on with
/// that release instead of failing.
pub proof fn lemma_existing_release_is_reused(p: Publication, create_error: String, id: u64)
    requires
        p.wf(),
        p.stage is Creating,
    ensures
        p.after_release(Err(create_error)).stage is Fetching,
        p.after_release(Err(create_error)).after_release(Ok(id)).release == Some(
            Release { owner: p.owner, repo: p.repo, id },
        ),
        !(p.after_release(Err(create_error)).after_release(Ok(id)).stage is Failed),
{
}

/// When every entry has an asset, the assets of the entries are those
/// assets, one per entry, in order.
proof fn lemma_assets_of_all(es: Seq<ArchOsMatrixEntry>)
    requires
        forall|i: int| 0 <= i < es.len() ==> (#[trigger] es[i]).asset is Some,
    ensures
        assets_of(es).len() == es.len(),
        forall|i: int| 0 <= i < es.len() ==> Some(#[trigger] assets_of(es)[i]) == es[i].asset,
    decreases es.len(),
{
    if es.len() > 0 {
        let prefix = es.drop_last();
        assert forall|i: int| 0 <= i < prefix.len() implies (#[trigger] prefix[i]).asset is Some by {
            assert(prefix[i] == es[i]);
        }
        lemma_assets_of_all(prefix);
        assert forall|i: int| 0 <= i < es.len() implies Some(#[trigger] assets_of(es)[i]) == es[i].asset by {
            if i < es.len() - 1 {
                assert(prefix[i] == es[i]);
            }
        }
    }
}

/// A dry run reports what the real run reports: when every asset was
/// uploaded, in order, to the release of `tag` (as a finished publication's
/// uploads are), both give as many packages, and the packages at each index
/// agree on name, target and checksum; the dry run's have no address. For a
/// multi-target build the entries carry distinct names and each its own
/// asset, as packaging leaves them. Checksums of 64 characters stay 64
/// characters long.
pub proof fn lemma_dry_run_matches_real_run(
    entries: Option<Seq<ArchOsMatrixEntry>>,
    assets: Seq<Asset>,
    uploaded: Seq<UploadedAsset>,
    owner: Seq<char>,
    repo: Seq<char>,
    tag: Seq<char>,
    d: Result<Vec<Package>, ReleaseError>,
    r: Result<Vec<Package>, ReleaseError>,
)
    requires
        is_dry_run_result(entries, assets, d),
        is_assembled(entries, uploaded, r),
        uploaded.len() == assets.len(),
        forall|k: int| 0 <= k < uploaded.len() ==> uploaded_from(#[trigger] uploaded[k], assets[k], owner, repo, tag),
        forall|k: int| 0 <= k < assets.len() ==> ((#[trigger] assets[k]).checksum matches Some(c) && c@.len() == 64),
        entries matches Some(es) ==> assets == assets_of(es),
        entries matches Some(es) ==> forall|i: int|
            0 <= i < es.len() ==> ((#[trigger] es[i]).asset matches Some(a) && a.name == es[i].name),
        entries matches Some(es) ==> forall|i: int, j: int|
            0 <= i < es.len() && 0 <= j < es.len() && i != j ==> (#[trigger] es[i]).name@ != (#[trigger] es[j]).name@,
    ensures
        d is Ok,
        r is Ok,
        d->Ok_0@.len() == r->Ok_0@.len(),
        forall|i: int|
            0 <= i < d->Ok_0@.len() ==> {
                let p = #[trigger] d->Ok_0@[i];
                let q = r->Ok_0@[i];
                &&& p.name == q.name
                &&& p.os == q.os
                &&& p.arch == q.arch
                &&& p.sha256@ == q.sha256@
                &&& p.sha256@.len() == 64
                &&& p.url is None
            },
{
    match entries {
        None => {},
        Some(es) => {
            assert forall|i: int| 0 <= i < es.len() implies (#[trigger] es[i]).asset is Some by {}
            lemma_assets_of_all(es);
            let dv = d->Ok_0@;
            assert forall|i: int| 0 <= i < es.len() implies crate::package::has_named(uploaded, #[trigger] es[i].name@) by {
                assert(uploaded[i].name == assets[i].name);
                assert(Some(assets[i]) == es[i].asset);
            }
            let rv = r->Ok_0@;
            assert forall|i: int| 0 <= i < rv.len() implies #[trigger] rv[i] == package_of(
                uploaded[i],
                Some(es[i].os),
                Some(es[i].arch),
            ) by {
                assert(is_entry_package(rv[i], es[i], uploaded));
                let j = choose|j: int|
                    first_named(uploaded, es[i].name@, j) && rv[i] == package_of(
                        #[trigger] uploaded[j],
                        Some(es[i].os),
                        Some(es[i].arch),
                    );
                assert(Some(assets[i]) == es[i].asset);
                assert(Some(assets[j]) == es[j].asset);
                if j != i {
                    assert(uploaded[j].name == assets[j].name);
                    assert(es[j].name@ != es[i].name@);
                    assert(false);
                }
            }
            assert forall|i: int| 0 <= i < dv.len() implies (#[trigger] es[i]).asset == Some(assets[i]) by {}
        },
    }
}

/// A well-formed dry run is always finished: it never asks for a remote
/// call.
pub proof fn lemma_dry_run_makes_no_call(p: Publication)
    requires
        p.wf(),
        p.dry_run,
    ensures
        p.stage is Done || p.stage is Failed,
{
}

} // verus!
