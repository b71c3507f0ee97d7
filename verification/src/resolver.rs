//! The resolution itself: from the stage a resolution is in and the reply
//! that arrived, to the stage it enters or the path it ends with.

use vstd::prelude::*;
use crate::error::{ResolveError, ResolveErrorView};
use crate::layout::{
    binary_path, binary_path_of, version_dir, version_dir_of, BINARY_NAME, GITHUB_REPO,
};
use crate::platform::{platform_of, resolve_platform};
use crate::protocol::{
    text_of, Entry, EntryView, Reply, ReplyView, Request, RequestView, Status,
};
use crate::release::{locate, locate_in, Located, LocatedView, Release, ReleaseView};

verus! {

/// Where an installation stands once its release asset is chosen.
#[derive(Clone, Copy, Debug, PartialEq, Eq, Structural)]
pub enum InstallPhase {
    /// Asked whether the version's binary is already a regular file.
    BinaryCheck,
    /// Asked to show that a download starts.
    DownloadNotice,
    /// Asked to fetch and extract the archive.
    Download,
    /// Asked to open the storage root.
    StorageListing,
    /// Asked for the next entry of the storage root.
    EntryScan,
    /// Asked to remove the entry read last.
    EntryRemoval,
}

/// A resolution in progress. Each stage waits for the reply to one request.
#[derive(Clone, Debug, PartialEq, Eq)]
pub enum Stage {
    /// Asked whether the binary is on the command path.
    PathLookup,
    /// Asked whether the remembered path is still a regular file.
    CacheCheck { path: String },
    /// Asked to show that an update check starts.
    UpdateNotice,
    /// Asked the registry for the latest release.
    ReleaseLookup,
    /// Asked the host for its platform.
    PlatformQuery { release: Release },
    /// Installing `target`.
    Install { target: Located, phase: InstallPhase },
}

/// What a reply leads to.
#[derive(Debug, PartialEq, Eq)]
pub enum Step {
    /// The resolution goes on in `stage`. `warning` holds a failure that was
    /// passed over and should be logged.
    Next { stage: Stage, warning: Option<ResolveError> },
    /// The resolution is over: the path to run, or why there is none.
    Done(Result<String, ResolveError>),
}

/// A `Stage` with its texts as character sequences.
pub enum StageView {
    PathLookup,
    CacheCheck { path: Seq<char> },
    UpdateNotice,
    ReleaseLookup,
    PlatformQuery { release: ReleaseView },
    Install { target: LocatedView, phase: InstallPhase },
}

/// A `Step` with its texts as character sequences.
pub enum StepView {
    Next { stage: StageView, warning: Option<ResolveErrorView> },
    Done(Result<Seq<char>, ResolveErrorView>),
}

impl View for Stage {
    type V = StageView;

    open spec fn view(&self) -> StageView {
        match self {
            Stage::PathLookup => StageView::PathLookup,
            Stage::CacheCheck { path } => StageView::CacheCheck { path: path@ },
            Stage::UpdateNotice => StageView::UpdateNotice,
            Stage::ReleaseLookup => StageView::ReleaseLookup,
            Stage::PlatformQuery { release } => StageView::PlatformQuery { release: release@ },
            Stage::Install { target, phase } => StageView::Install {
                target: target@,
                phase: *phase,
            },
        }
    }
}

impl View for Step {
    type V = StepView;

    open spec fn view(&self) -> StepView {
        match self {
            Step::Next { stage, warning: Some(w) } => StepView::Next {
                stage: stage@,
                warning: Some(w@),
            },
            Step::Next { stage, warning: None } => StepView::Next { stage: stage@, warning: None },
            Step::Done(Ok(path)) => StepView::Done(Ok(path@)),
            Step::Done(Err(e)) => StepView::Done(Err(e@)),
        }
    }
}

impl StageView {
    /// The request whose reply the stage waits for.
    pub open spec fn request(self) -> RequestView {
        match self {
            StageView::PathLookup => RequestView::Which { name: BINARY_NAME@ },
            StageView::CacheCheck { path } => RequestView::IsFile { path },
            StageView::UpdateNotice => RequestView::Notify { status: Status::CheckingForUpdate },
            StageView::ReleaseLookup => RequestView::LatestRelease {
                repo: GITHUB_REPO@,
                require_assets: true,
                pre_release: false,
            },
            StageView::PlatformQuery { .. } => RequestView::CurrentPlatform,
            StageView::Install { target, phase } => match phase {
                InstallPhase::BinaryCheck => RequestView::IsFile {
                    path: binary_path_of(target.version),
                },
                InstallPhase::DownloadNotice => RequestView::Notify {
                    status: Status::Downloading,
                },
                InstallPhase::Download => RequestView::DownloadGzipTar {
                    url: target.download_url,
                    dir: version_dir_of(target.version),
                },
                InstallPhase::StorageListing => RequestView::ListStorageRoot,
                InstallPhase::EntryScan => RequestView::NextEntry,
                InstallPhase::EntryRemoval => RequestView::RemoveEntry,
            },
        }
    }
}

/// The state after a reply: what the resolver remembers, and the step taken.
pub struct Outcome {
    pub cache: Option<Seq<char>>,
    pub step: StepView,
}

/// The resolution goes on in `stage`.
pub open spec fn go(cache: Option<Seq<char>>, stage: StageView) -> Outcome {
    Outcome { cache, step: StepView::Next { stage, warning: None } }
}

/// The resolution ends with a path that is not remembered.
pub open spec fn found(cache: Option<Seq<char>>, path: Seq<char>) -> Outcome {
    Outcome { cache, step: StepView::Done(Ok(path)) }
}

/// The resolution ends with the installed binary, which is remembered.
pub open spec fn installed(target: LocatedView) -> Outcome {
    Outcome {
        cache: Some(binary_path_of(target.version)),
        step: StepView::Done(Ok(binary_path_of(target.version))),
    }
}

/// The resolution fails; what was remembered stays.
pub open spec fn failed(cache: Option<Seq<char>>, error: ResolveErrorView) -> Outcome {
    Outcome { cache, step: StepView::Done(Err(error)) }
}

/// An installation goes on in `phase`.
pub open spec fn install(cache: Option<Seq<char>>, target: LocatedView, phase: InstallPhase)
    -> Outcome {
    go(cache, StageView::Install { target, phase })
}

/// Whether an entry of the storage root is to be evicted when `version` is
/// installed: every entry but the one named as the version's directory.
pub open spec fn stale(name: Option<Seq<char>>, version: Seq<char>) -> bool {
    name != Some(version_dir_of(version))
}

/// The step an installation takes on a reply.
pub open spec fn next_install(
    cache: Option<Seq<char>>,
    target: LocatedView,
    phase: InstallPhase,
    reply: ReplyView,
) -> Outcome {
    match (phase, reply) {
        (InstallPhase::BinaryCheck, ReplyView::IsFile(true)) => installed(target),
        (InstallPhase::BinaryCheck, ReplyView::IsFile(false)) => install(
            cache,
            target,
            InstallPhase::DownloadNotice,
        ),
        (InstallPhase::DownloadNotice, ReplyView::Notified) => install(
            cache,
            target,
            InstallPhase::Download,
        ),
        (InstallPhase::Download, ReplyView::Downloaded(Ok(_))) => install(
            cache,
            target,
            InstallPhase::StorageListing,
        ),
        (InstallPhase::Download, ReplyView::Downloaded(Err(cause))) => failed(
            cache,
            ResolveErrorView::DownloadError(cause),
        ),
        (InstallPhase::StorageListing, ReplyView::Listing(Ok(_))) => install(
            cache,
            target,
            InstallPhase::EntryScan,
        ),
        (InstallPhase::StorageListing, ReplyView::Listing(Err(cause))) => failed(
            cache,
            ResolveErrorView::DirectoryReadError(cause),
        ),
        (InstallPhase::EntryScan, ReplyView::Entry(EntryView::Found { name })) => install(
            cache,
            target,
            if stale(name, target.version) {
                InstallPhase::EntryRemoval
            } else {
                InstallPhase::EntryScan
            },
        ),
        (InstallPhase::EntryScan, ReplyView::Entry(EntryView::Failed { cause })) => failed(
            cache,
            ResolveErrorView::DirectoryEntryError(cause),
        ),
        (InstallPhase::EntryScan, ReplyView::Entry(EntryView::End)) => installed(target),
        (InstallPhase::EntryRemoval, ReplyView::Removed(Ok(_))) => install(
            cache,
            target,
            InstallPhase::EntryScan,
        ),
        (InstallPhase::EntryRemoval, ReplyView::Removed(Err(cause))) => Outcome {
            cache,
            step: StepView::Next {
                stage: StageView::Install { target, phase: InstallPhase::EntryScan },
                warning: Some(ResolveErrorView::StalePruneError(cause)),
            },
        },
        _ => install(cache, target, phase),
    }
}

/// The step a resolution takes on a reply.
///
/// A reply that does not answer the stage's request changes nothing: the
/// resolution stays in the stage, and the request stands.
pub open spec fn next(cache: Option<Seq<char>>, stage: StageView, reply: ReplyView) -> Outcome {
    match (stage, reply) {
        (StageView::PathLookup, ReplyView::Which(Some(path))) => found(cache, path),
        (StageView::PathLookup, ReplyView::Which(None)) => match cache {
            Some(path) => go(cache, StageView::CacheCheck { path }),
            None => go(cache, StageView::UpdateNotice),
        },
        (StageView::CacheCheck { path }, ReplyView::IsFile(true)) => found(cache, path),
        (StageView::CacheCheck { .. }, ReplyView::IsFile(false)) => go(
            cache,
            StageView::UpdateNotice,
        ),
        (StageView::UpdateNotice, ReplyView::Notified) => go(cache, StageView::ReleaseLookup),
        (StageView::ReleaseLookup, ReplyView::LatestRelease(Ok(release))) => go(
            cache,
            StageView::PlatformQuery { release },
        ),
        (StageView::ReleaseLookup, ReplyView::LatestRelease(Err(cause))) => failed(
            cache,
            ResolveErrorView::RegistryError(cause),
        ),
        (StageView::PlatformQuery { release }, ReplyView::CurrentPlatform(os, arch)) => {
            match platform_of(os, arch) {
                Err(axis) => failed(cache, ResolveErrorView::UnsupportedPlatform(axis)),
                Ok(platform) => match locate_in(release, platform) {
                    Err(error) => failed(cache, error),
                    Ok(target) => install(cache, target, InstallPhase::BinaryCheck),
                },
            }
        },
        (StageView::Install { target, phase }, reply) => next_install(
            cache,
            target,
            phase,
            reply,
        ),
        _ => go(cache, stage),
    }
}

/// Whether an entry of the storage root is to be evicted when `version` is
/// installed.
pub fn is_stale(name: &Option<String>, version: &str) -> (r: bool)
    ensures
        r == stale(text_of(*name), version@),
{
    match name {
        Some(name) => {
            let dir = version_dir(version);
            !(*name == dir)
        },
        None => true,
    }
}

impl Stage {
    /// The request whose reply the stage waits for.
    pub fn request(&self) -> (r: Request)
        ensures
            r@ == self@.request(),
    {
        match self {
            Stage::PathLookup => Request::Which { name: String::from_str(BINARY_NAME) },
            Stage::CacheCheck { path } => Request::IsFile { path: path.clone() },
            Stage::UpdateNotice => Request::Notify { status: Status::CheckingForUpdate },
            Stage::ReleaseLookup => Request::LatestRelease {
                repo: String::from_str(GITHUB_REPO),
                require_assets: true,
                pre_release: false,
            },
            Stage::PlatformQuery { .. } => Request::CurrentPlatform,
            Stage::Install { target, phase } => match phase {
                InstallPhase::BinaryCheck => Request::IsFile {
                    path: binary_path(target.version.as_str()),
                },
                InstallPhase::DownloadNotice => Request::Notify { status: Status::Downloading },
                InstallPhase::Download => Request::DownloadGzipTar {
                    url: target.download_url.clone(),
                    dir: version_dir(target.version.as_str()),
                },
                InstallPhase::StorageListing => Request::ListStorageRoot,
                InstallPhase::EntryScan => Request::NextEntry,
                InstallPhase::EntryRemoval => Request::RemoveEntry,
            },
        }
    }
}

/// The resolver: it remembers, for as long as it lives, the path of the
/// binary that its last installation ended with.
#[derive(Debug)]
pub struct TextLanguageServer {
    cached_binary_path: Option<String>,
}

impl View for TextLanguageServer {
    type V = Option<Seq<char>>;

    closed spec fn view(&self) -> Option<Seq<char>> {
        text_of(self.cached_binary_path)
    }
}

impl TextLanguageServer {
    /// A resolver that remembers nothing.
    pub fn new() -> (r: Self)
        ensures
            r@ is None,
    {
        TextLanguageServer { cached_binary_path: None }
    }

    /// The remembered path.
    pub fn cached_binary_path(&self) -> (r: Option<String>)
        ensures
            text_of(r) == self@,
    {
        match &self.cached_binary_path {
            Some(path) => Some(path.clone()),
            None => None,
        }
    }

    /// Starts a resolution. One that was under way is abandoned by starting
    /// another.
    pub fn begin(&self) -> (stage: Stage)
        ensures
            stage@ == StageView::PathLookup,
    {
        Stage::PathLookup
    }

    fn finish_install(&mut self, target: Located) -> (step: Step)
        ensures
            installed(target@) == (Outcome { cache: final(self)@, step: step@ }),
    {
        let path = binary_path(target.version.as_str());
        self.cached_binary_path = Some(path.clone());
        Step::Done(Ok(path))
    }

    fn advance_install(&mut self, target: Located, phase: InstallPhase, reply: Reply) -> (step:
        Step)
        ensures
            next_install(old(self)@, target@, phase, reply@) == (Outcome {
                cache: final(self)@,
                step: step@,
            }),
    {
        match (phase, reply) {
            (InstallPhase::BinaryCheck, Reply::IsFile(true)) => self.finish_install(target),
            (InstallPhase::BinaryCheck, Reply::IsFile(false)) => Step::Next {
                stage: Stage::Install { target, phase: InstallPhase::DownloadNotice },
                warning: None,
            },
            (InstallPhase::DownloadNotice, Reply::Notified) => Step::Next {
                stage: Stage::Install { target, phase: InstallPhase::Download },
                warning: None,
            },
            (InstallPhase::Download, Reply::Downloaded(Ok(_))) => Step::Next {
                stage: Stage::Install { target, phase: InstallPhase::StorageListing },
                warning: None,
            },
            (InstallPhase::Download, Reply::Downloaded(Err(cause))) => Step::Done(
                Err(ResolveError::DownloadError(cause)),
            ),
            (InstallPhase::StorageListing, Reply::Listing(Ok(_))) => Step::Next {
                stage: Stage::Install { target, phase: InstallPhase::EntryScan },
                warning: None,
            },
            (InstallPhase::StorageListing, Reply::Listing(Err(cause))) => Step::Done(
                Err(ResolveError::DirectoryReadError(cause)),
            ),
            (InstallPhase::EntryScan, Reply::Entry(Entry::Found { name })) => {
                let phase = if is_stale(&name, target.version.as_str()) {
                    InstallPhase::EntryRemoval
                } else {
                    InstallPhase::EntryScan
                };
                Step::Next { stage: Stage::Install { target, phase }, warning: None }
            },
            (InstallPhase::EntryScan, Reply::Entry(Entry::Failed { cause })) => Step::Done(
                Err(ResolveError::DirectoryEntryError(cause)),
            ),
            (InstallPhase::EntryScan, Reply::Entry(Entry::End)) => self.finish_install(target),
            (InstallPhase::EntryRemoval, Reply::Removed(Ok(_))) => Step::Next {
                stage: Stage::Install { target, phase: InstallPhase::EntryScan },
                warning: None,
            },
            (InstallPhase::EntryRemoval, Reply::Removed(Err(cause))) => Step::Next {
                stage: Stage::Install { target, phase: InstallPhase::EntryScan },
                warning: Some(ResolveError::StalePruneError(cause)),
            },
            (phase, _) => Step::Next { stage: Stage::Install { target, phase }, warning: None },
        }
    }

    /// Takes the resolution one step: from the stage it is in and the reply
    /// to that stage's request, to the stage it enters or to its result.
    ///
    /// The remembered path changes only where an installation ends well, and
    /// then to the path returned.
    pub fn advance(&mut self, stage: Stage, reply: Reply) -> (step: Step)
        ensures
            next(old(self)@, stage@, reply@) == (Outcome { cache: final(self)@, step: step@ }),
    {
        match (stage, reply) {
            (Stage::PathLookup, Reply::Which(Some(path))) => Step::Done(Ok(path)),
            (Stage::PathLookup, Reply::Which(None)) => match &self.cached_binary_path {
                Some(path) => Step::Next {
                    stage: Stage::CacheCheck { path: path.clone() },
                    warning: None,
                },
                None => Step::Next { stage: Stage::UpdateNotice, warning: None },
            },
            (Stage::CacheCheck { path }, Reply::IsFile(true)) => Step::Done(Ok(path)),
            (Stage::CacheCheck { .. }, Reply::IsFile(false)) => Step::Next {
                stage: Stage::UpdateNotice,
                warning: None,
            },
            (Stage::UpdateNotice, Reply::Notified) => Step::Next {
                stage: Stage::ReleaseLookup,
                warning: None,
            },
            (Stage::ReleaseLookup, Reply::LatestRelease(Ok(release))) => Step::Next {
                stage: Stage::PlatformQuery { release },
                warning: None,
            },
            (Stage::ReleaseLookup, Reply::LatestRelease(Err(cause))) => Step::Done(
                Err(ResolveError::RegistryError(cause)),
            ),
            (Stage::PlatformQuery { release }, Reply::CurrentPlatform(os, arch)) => {
                match resolve_platform(os, arch) {
                    Err(axis) => Step::Done(Err(ResolveError::UnsupportedPlatform(axis))),
                    Ok(platform) => match locate(&release, platform) {
                        Err(error) => Step::Done(Err(error)),
                        Ok(target) => Step::Next {
                            stage: Stage::Install { target, phase: InstallPhase::BinaryCheck },
                            warning: None,
                        },
                    },
                }
            },
            (Stage::Install { target, phase }, reply) => self.advance_install(
                target,
                phase,
                reply,
            ),
            (stage, _) => Step::Next { stage, warning: None },
        }
    }
}

} // verus!
