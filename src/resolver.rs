use vstd::prelude::*;
use vstd::string::StringExecFns;
use crate::cleanup::{stale_entries, stale_names, views_of};
use crate::error::ExtensionError;
use crate::platform::{
    archive_format_of, host_platform, platform_tokens, ArchiveFormat, Architecture, Os,
};
use crate::release::{
    asset_name_for, binary_path_for, binary_path_in, expected_asset_name, find_asset,
    is_first_match, version_dir_for, version_directory, Release, REPO_NAME,
};

verus! {

/// The extension instance: it remembers the binary path resolved last.
pub struct BuildkiteMCPExtension {
    pub cached_binary_path: Option<String>,
}

/// A request to the release index.
pub struct ReleaseQuery {
    pub repo: String,
    pub require_assets: bool,
    pub pre_release: bool,
}

/// A request to download an asset and unpack it into a directory.
pub struct DownloadRequest {
    pub url: String,
    pub dir: String,
    pub format: ArchiveFormat,
}

/// Where the chosen release goes on disk and where it comes from.
pub struct Plan {
    pub version_dir: String,
    pub binary_path: String,
    pub url: String,
    pub format: ArchiveFormat,
}

/// How far a resolution has come; each phase waits for one kind of event.
pub enum Phase {
    CheckingCached(String),
    FetchingRelease,
    CreatingDir(Plan),
    CheckingBinary(Plan),
    Downloading(Plan),
    MarkingExecutable(Plan),
    Listing(Plan),
    Removing(Plan),
    Done,
}

/// What the caller must do next on the resolution's behalf.
pub enum Step {
    /// Report whether a regular file exists at the path.
    CheckFile(String),
    /// Ask the release index for the latest qualifying release.
    FetchRelease(ReleaseQuery),
    /// Create the directory and its parents; an existing one is success.
    CreateDir(String),
    /// Download and unpack the asset.
    Download(DownloadRequest),
    /// Mark the file at the path executable.
    MakeExecutable(String),
    /// List the entry names of the working directory.
    ListRoot,
    /// Remove each named entry of the working directory, ignoring failures.
    Remove(Vec<String>),
    /// The resolution is over, with the binary path or the reason it failed.
    Finish(Result<String, ExtensionError>),
}

/// The outcome of the last step, handed back by the caller.
pub enum Event {
    FileChecked(bool),
    ReleaseFetched(Result<Release, String>),
    DirCreated(Result<(), String>),
    Downloaded(Result<(), String>),
    MadeExecutable(Result<(), String>),
    RootListed(Result<Vec<String>, String>),
    EntriesRemoved,
}

/// One resolution of the binary path for a given host platform.
pub struct Resolution {
    pub os: Os,
    pub arch: Architecture,
    pub phase: Phase,
}

/// The only query the resolver makes: a release of the upstream repository
/// that has assets and is not a pre-release.
pub open spec fn is_standard_query(q: ReleaseQuery) -> bool {
    &&& q.repo@ == REPO_NAME@
    &&& q.require_assets
    &&& !q.pre_release
}

/// `plan` installs the asset at position `i` of `rel` for a host running `os`.
pub open spec fn plan_fits(plan: Plan, rel: Release, i: int, os: Os) -> bool {
    &&& plan.version_dir@ == version_dir_for(rel.version@)
    &&& plan.binary_path@ == binary_path_for(plan.version_dir@)
    &&& plan.url@ == rel.assets@[i].download_url@
    &&& plan.format == archive_format_of(os)
}

/// The step that ends a resolution on an event its phase does not expect.
pub open spec fn is_unexpected(step: Step) -> bool {
    step matches Step::Finish(Err(ExtensionError::InternalError(_)))
}

/// The transition from `phase` on `event` for a host running `os` on `arch`:
/// the step issued and the phase entered.
pub open spec fn transition(
    phase: Phase,
    os: Os,
    arch: Architecture,
    event: Event,
    step: Step,
    next: Phase,
) -> bool {
    match phase {
        Phase::CheckingCached(p) => match event {
            Event::FileChecked(true) => step matches Step::Finish(Ok(q)) && q@ == p@ && next is Done,
            Event::FileChecked(false) => step matches Step::FetchRelease(q) && is_standard_query(q)
                && next is FetchingRelease,
            _ => is_unexpected(step) && next is Done,
        },
        Phase::FetchingRelease => match event {
            Event::ReleaseFetched(Err(cause)) => step matches Step::Finish(
                Err(ExtensionError::ReleaseNotFound(repo, c)),
            ) && repo@ == REPO_NAME@ && c@ == cause@ && next is Done,
            Event::ReleaseFetched(Ok(rel)) => {
                let name = asset_name_for(os, arch);
                if forall|j: int| 0 <= j < rel.assets@.len() ==> rel.assets@[j].name@ != name {
                    step matches Step::Finish(Err(ExtensionError::AssetNotFound(n))) && n@ == name
                        && next is Done
                } else {
                    forall|i: int|
                        #[trigger] is_first_match(rel.assets@, name, i) ==> (next matches Phase::CreatingDir(
                            plan,
                        ) && plan_fits(plan, rel, i, os) && (step matches Step::CreateDir(d) && d@
                            == plan.version_dir@))
                }
            },
            _ => is_unexpected(step) && next is Done,
        },
        Phase::CreatingDir(plan) => match event {
            Event::DirCreated(Err(cause)) => step matches Step::Finish(
                Err(ExtensionError::IoError(c)),
            ) && c@ == cause@ && next is Done,
            Event::DirCreated(Ok(())) => step matches Step::CheckFile(p) && p@ == plan.binary_path@
                && next == Phase::CheckingBinary(plan),
            _ => is_unexpected(step) && next is Done,
        },
        Phase::CheckingBinary(plan) => match event {
            Event::FileChecked(true) => step is ListRoot && next == Phase::Listing(plan),
            Event::FileChecked(false) => step matches Step::Download(d) && d.url@ == plan.url@
                && d.dir@ == plan.version_dir@ && d.format == plan.format
                && next == Phase::Downloading(plan),
            _ => is_unexpected(step) && next is Done,
        },
        Phase::Downloading(plan) => match event {
            Event::Downloaded(Err(cause)) => step matches Step::Finish(
                Err(ExtensionError::DownloadFailed(u, c)),
            ) && u@ == plan.url@ && c@ == cause@ && next is Done,
            Event::Downloaded(Ok(())) => step matches Step::MakeExecutable(p) && p@
                == plan.binary_path@ && next == Phase::MarkingExecutable(plan),
            _ => is_unexpected(step) && next is Done,
        },
        Phase::MarkingExecutable(plan) => match event {
            Event::MadeExecutable(Err(cause)) => step matches Step::Finish(
                Err(ExtensionError::PlatformApiError(c)),
            ) && c@ == cause@ && next is Done,
            Event::MadeExecutable(Ok(())) => step is ListRoot && next == Phase::Listing(plan),
            _ => is_unexpected(step) && next is Done,
        },
        Phase::Listing(plan) => match event {
            Event::RootListed(Err(cause)) => step matches Step::Finish(
                Err(ExtensionError::IoError(c)),
            ) && c@ == cause@ && next is Done,
            Event::RootListed(Ok(names)) => step matches Step::Remove(r) && views_of(r@)
                == stale_names(views_of(names@), plan.version_dir@) && next == Phase::Removing(plan),
            _ => is_unexpected(step) && next is Done,
        },
        Phase::Removing(plan) => match event {
            Event::EntriesRemoved => step matches Step::Finish(Ok(p)) && p@ == plan.binary_path@
                && next is Done,
            _ => is_unexpected(step) && next is Done,
        },
        Phase::Done => is_unexpected(step) && next is Done,
    }
}

/// The step that ends a resolution whose phase did not expect the event.
fn unexpected_event() -> (step: Step)
    ensures
        is_unexpected(step),
{
    Step::Finish(Err(ExtensionError::InternalError(String::from_str("event does not fit the resolution phase"))))
}

/// The query for the latest release that has assets and is not a pre-release.
fn standard_query() -> (q: ReleaseQuery)
    ensures
        is_standard_query(q),
{
    ReleaseQuery { repo: String::from_str(REPO_NAME), require_assets: true, pre_release: false }
}

impl BuildkiteMCPExtension {
    /// A fresh extension instance, with nothing remembered.
    pub fn new() -> (r: Self)
        ensures
            r.cached_binary_path is None,
    {
        BuildkiteMCPExtension { cached_binary_path: None }
    }

    /// Starts resolving the binary path on the platform the editor reports.
    pub fn begin_resolution(&self) -> (r: (Resolution, Step))
        ensures
            r.0.starts_from(self.cached_binary_path, r.1),
    {
        let (os, arch) = host_platform();
        Resolution::start(&self.cached_binary_path, os, arch)
    }
}

impl Resolution {
    /// The resolution has just begun with `memo` remembered and issued `step`:
    /// a remembered path is only checked for existence, nothing else is asked;
    /// without one, the release index is queried.
    pub open spec fn starts_from(self, memo: Option<String>, step: Step) -> bool {
        match memo {
            Some(p) => self.phase matches Phase::CheckingCached(q) && q@ == p@ && (step matches Step::CheckFile(c) && c@ == p@),
            None => self.phase is FetchingRelease && (step matches Step::FetchRelease(q) && is_standard_query(q)),
        }
    }

    /// Starts resolving the binary path for a host running `os` on `arch`.
    pub fn start(memo: &Option<String>, os: Os, arch: Architecture) -> (r: (Resolution, Step))
        ensures
            r.0.os == os,
            r.0.arch == arch,
            r.0.starts_from(*memo, r.1),
    {
        match memo {
            Some(p) => (
                Resolution { os, arch, phase: Phase::CheckingCached(p.clone()) },
                Step::CheckFile(p.clone()),
            ),
            None => (Resolution { os, arch, phase: Phase::FetchingRelease }, Step::FetchRelease(standard_query())),
        }
    }

    /// Takes the outcome of the last step and decides the next one. The
    /// binary path is remembered in `ext` when, and only when, cleanup is over.
    pub fn advance(&mut self, ext: &mut BuildkiteMCPExtension, event: Event) -> (step: Step)
        ensures
            final(self).os == old(self).os,
            final(self).arch == old(self).arch,
            transition(old(self).phase, old(self).os, old(self).arch, event, step, final(self).phase),
            old(self).phase is Removing && event is EntriesRemoved ==> (final(ext).cached_binary_path matches Some(p)
                && (step matches Step::Finish(Ok(q)) && p@ == q@)),
            !(old(self).phase is Removing && event is EntriesRemoved) ==> final(ext).cached_binary_path
                == old(ext).cached_binary_path,
    {
        let mut phase = Phase::Done;
        std::mem::swap(&mut self.phase, &mut phase);
        match phase {
            Phase::CheckingCached(p) => match event {
                Event::FileChecked(true) => Step::Finish(Ok(p)),
                Event::FileChecked(false) => {
                    self.phase = Phase::FetchingRelease;
                    Step::FetchRelease(standard_query())
                },
                _ => unexpected_event(),
            },
            Phase::FetchingRelease => match event {
                Event::ReleaseFetched(Err(cause)) => Step::Finish(
                    Err(ExtensionError::ReleaseNotFound(String::from_str(REPO_NAME), cause)),
                ),
                Event::ReleaseFetched(Ok(rel)) => {
                    let tokens = platform_tokens(self.os, self.arch);
                    let name = expected_asset_name(&tokens);
                    match find_asset(&rel.assets, &name) {
                        None => Step::Finish(Err(ExtensionError::AssetNotFound(name))),
                        Some(i) => {
                            let version_dir = version_directory(&rel.version);
                            let binary_path = binary_path_in(&version_dir);
                            let url = rel.assets[i].download_url.clone();
                            let dir = version_dir.clone();
                            self.phase = Phase::CreatingDir(
                                Plan { version_dir, binary_path, url, format: tokens.format },
                            );
                            proof {
                                let name = asset_name_for(self.os, self.arch);
                                assert forall|k: int| #[trigger] is_first_match(rel.assets@, name, k) implies k
                                    == i as int by {
                                    if k < i {
                                        assert(rel.assets@[k].name@ != name);
                                    } else if k > i {
                                        assert(rel.assets@[i as int].name@ != name);
                                    }
                                }
                            }
                            Step::CreateDir(dir)
                        },
                    }
                },
                _ => unexpected_event(),
            },
            Phase::CreatingDir(plan) => match event {
                Event::DirCreated(Err(cause)) => Step::Finish(Err(ExtensionError::IoError(cause))),
                Event::DirCreated(Ok(())) => {
                    let path = plan.binary_path.clone();
                    self.phase = Phase::CheckingBinary(plan);
                    Step::CheckFile(path)
                },
                _ => unexpected_event(),
            },
            Phase::CheckingBinary(plan) => match event {
                Event::FileChecked(true) => {
                    self.phase = Phase::Listing(plan);
                    Step::ListRoot
                },
                Event::FileChecked(false) => {
                    let request = DownloadRequest {
                        url: plan.url.clone(),
                        dir: plan.version_dir.clone(),
                        format: plan.format,
                    };
                    self.phase = Phase::Downloading(plan);
                    Step::Download(request)
                },
                _ => unexpected_event(),
            },
            Phase::Downloading(plan) => match event {
                Event::Downloaded(Err(cause)) => Step::Finish(
                    Err(ExtensionError::DownloadFailed(plan.url, cause)),
                ),
                Event::Downloaded(Ok(())) => {
                    let path = plan.binary_path.clone();
                    self.phase = Phase::MarkingExecutable(plan);
                    Step::MakeExecutable(path)
                },
                _ => unexpected_event(),
            },
            Phase::MarkingExecutable(plan) => match event {
                Event::MadeExecutable(Err(cause)) => Step::Finish(Err(ExtensionError::PlatformApiError(cause))),
                Event::MadeExecutable(Ok(())) => {
                    self.phase = Phase::Listing(plan);
                    Step::ListRoot
                },
                _ => unexpected_event(),
            },
            Phase::Listing(plan) => match event {
                Event::RootListed(Err(cause)) => Step::Finish(Err(ExtensionError::IoError(cause))),
                Event::RootListed(Ok(names)) => {
                    let stale = stale_entries(&names, &plan.version_dir);
                    self.phase = Phase::Removing(plan);
                    Step::Remove(stale)
                },
                _ => unexpected_event(),
            },
            Phase::Removing(plan) => match event {
                Event::EntriesRemoved => {
                    ext.cached_binary_path = Some(plan.binary_path.clone());
                    Step::Finish(Ok(plan.binary_path))
                },
                _ => unexpected_event(),
            },
            Phase::Done => unexpected_event(),
        }
    }
}

/// A step that changes the file system.
pub open spec fn mutates_disk(step: Step) -> bool {
    step is CreateDir || step is Download || step is MakeExecutable || step is Remove
}

/// A step that reaches the release index or the downloader.
pub open spec fn reaches_network(step: Step) -> bool {
    step is FetchRelease || step is Download
}

/// With a remembered path that still names a file, a resolution checks that
/// file and returns the same path; neither step reaches the network or
/// changes the disk.
pub proof fn lemma_fast_path(p: String, r: Resolution, first: Step, second: Step, next: Phase)
    requires
        r.starts_from(Some(p), first),
        transition(r.phase, r.os, r.arch, Event::FileChecked(true), second, next),
    ensures
        first matches Step::CheckFile(c) && c@ == p@,
        second matches Step::Finish(Ok(q)) && q@ == p@,
        !reaches_network(first) && !mutates_disk(first),
        !reaches_network(second) && !mutates_disk(second),
        next is Done,
{
}

/// Until a release has been fetched, a resolution only looks: neither its
/// first step nor the one that follows any other event changes the disk.
pub proof fn lemma_no_disk_change_before_release(
    memo: Option<String>,
    r: Resolution,
    first: Step,
    event: Event,
    second: Step,
    next: Phase,
)
    requires
        r.starts_from(memo, first),
        transition(r.phase, r.os, r.arch, event, second, next),
        !(event is ReleaseFetched),
    ensures
        !mutates_disk(first),
        !mutates_disk(second),
{
}

/// When the release index has no qualifying release, the resolution fails
/// with `ReleaseNotFound` for the upstream repository and changes nothing on disk.
pub proof fn lemma_missing_release(os: Os, arch: Architecture, cause: String, step: Step, next: Phase)
    requires
        transition(Phase::FetchingRelease, os, arch, Event::ReleaseFetched(Err(cause)), step, next),
    ensures
        step matches Step::Finish(Err(ExtensionError::ReleaseNotFound(repo, c))) && repo@ == REPO_NAME@
            && c@ == cause@,
        !mutates_disk(step),
        next is Done,
{
}

/// When no asset carries the expected name, the resolution fails with
/// `AssetNotFound` naming it, and downloads nothing.
pub proof fn lemma_missing_asset(os: Os, arch: Architecture, rel: Release, step: Step, next: Phase)
    requires
        forall|j: int| 0 <= j < rel.assets@.len() ==> rel.assets@[j].name@ != asset_name_for(os, arch),
        transition(Phase::FetchingRelease, os, arch, Event::ReleaseFetched(Ok(rel)), step, next),
    ensures
        step matches Step::Finish(Err(ExtensionError::AssetNotFound(n))) && n@ == asset_name_for(os, arch),
        !reaches_network(step),
        !mutates_disk(step),
        next is Done,
{
}

} // verus!
