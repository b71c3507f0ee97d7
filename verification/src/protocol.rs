//! What the resolver asks of its driver, and what the driver answers.
//!
//! The resolver never touches the host, the registry, the network or the
//! disk. It issues one `Request` at a time; the driver performs it and hands
//! back the `Reply`.

use vstd::prelude::*;
use crate::platform::{Architecture, Os};
use crate::release::{Release, ReleaseView};

verus! {

/// Installation status shown by the host while a resolution runs.
#[derive(Clone, Copy, Debug, PartialEq, Eq, Structural)]
pub enum Status {
    CheckingForUpdate,
    Downloading,
}

/// One piece of outside work.
#[derive(Clone, Debug, PartialEq, Eq)]
pub enum Request {
    /// Search the project's command path for an executable called `name`.
    Which { name: String },
    /// Tell whether `path` is a regular file.
    IsFile { path: String },
    /// Show `status` to the host.
    Notify { status: Status },
    /// Fetch the latest release of `repo`.
    LatestRelease { repo: String, require_assets: bool, pre_release: bool },
    /// Report the host's operating system and architecture.
    CurrentPlatform,
    /// Fetch the gzip-compressed tar archive at `url` and extract it into `dir`.
    DownloadGzipTar { url: String, dir: String },
    /// Open the storage root for listing.
    ListStorageRoot,
    /// Read the next entry of the listing.
    NextEntry,
    /// Remove, recursively, the entry that was read last.
    RemoveEntry,
}

/// An entry of the storage root's listing.
#[derive(Clone, Debug, PartialEq, Eq)]
pub enum Entry {
    /// An entry; `name` is `None` where the name is not valid Unicode.
    Found { name: Option<String> },
    /// The entry could not be read; `cause` renders the failure.
    Failed { cause: String },
    /// The listing is exhausted.
    End,
}

/// The result of one piece of outside work.
#[derive(Debug, PartialEq, Eq)]
pub enum Reply {
    /// Where the executable is on the command path, if it is there.
    Which(Option<String>),
    /// Whether the path is a regular file.
    IsFile(bool),
    /// The status was shown.
    Notified,
    /// The latest release, or the registry's message.
    LatestRelease(Result<Release, String>),
    /// The host's operating system and architecture.
    CurrentPlatform(Os, Architecture),
    /// The archive was extracted, or the downloader's message.
    Downloaded(Result<(), String>),
    /// The storage root was opened, or a rendering of the failure.
    Listing(Result<(), String>),
    /// The next entry of the listing.
    Entry(Entry),
    /// The entry was removed, or a rendering of the failure.
    Removed(Result<(), String>),
}

/// A `Request` with its texts as character sequences.
pub enum RequestView {
    Which { name: Seq<char> },
    IsFile { path: Seq<char> },
    Notify { status: Status },
    LatestRelease { repo: Seq<char>, require_assets: bool, pre_release: bool },
    CurrentPlatform,
    DownloadGzipTar { url: Seq<char>, dir: Seq<char> },
    ListStorageRoot,
    NextEntry,
    RemoveEntry,
}

/// An `Entry` with its texts as character sequences.
pub enum EntryView {
    Found { name: Option<Seq<char>> },
    Failed { cause: Seq<char> },
    End,
}

/// A `Reply` with its texts as character sequences.
pub enum ReplyView {
    Which(Option<Seq<char>>),
    IsFile(bool),
    Notified,
    LatestRelease(Result<ReleaseView, Seq<char>>),
    CurrentPlatform(Os, Architecture),
    Downloaded(Result<(), Seq<char>>),
    Listing(Result<(), Seq<char>>),
    Entry(EntryView),
    Removed(Result<(), Seq<char>>),
}

/// The characters of an optional string.
pub open spec fn text_of(s: Option<String>) -> Option<Seq<char>> {
    match s {
        Some(s) => Some(s@),
        None => None,
    }
}

/// An outcome without a value, with the characters of its message.
pub open spec fn outcome_of(r: Result<(), String>) -> Result<(), Seq<char>> {
    match r {
        Ok(_) => Ok(()),
        Err(e) => Err(e@),
    }
}

impl View for Request {
    type V = RequestView;

    open spec fn view(&self) -> RequestView {
        match self {
            Request::Which { name } => RequestView::Which { name: name@ },
            Request::IsFile { path } => RequestView::IsFile { path: path@ },
            Request::Notify { status } => RequestView::Notify { status: *status },
            Request::LatestRelease { repo, require_assets, pre_release } => {
                RequestView::LatestRelease {
                    repo: repo@,
                    require_assets: *require_assets,
                    pre_release: *pre_release,
                }
            },
            Request::CurrentPlatform => RequestView::CurrentPlatform,
            Request::DownloadGzipTar { url, dir } => RequestView::DownloadGzipTar {
                url: url@,
                dir: dir@,
            },
            Request::ListStorageRoot => RequestView::ListStorageRoot,
            Request::NextEntry => RequestView::NextEntry,
            Request::RemoveEntry => RequestView::RemoveEntry,
        }
    }
}

impl View for Entry {
    type V = EntryView;

    open spec fn view(&self) -> EntryView {
        match self {
            Entry::Found { name } => EntryView::Found { name: text_of(*name) },
            Entry::Failed { cause } => EntryView::Failed { cause: cause@ },
            Entry::End => EntryView::End,
        }
    }
}

impl View for Reply {
    type V = ReplyView;

    open spec fn view(&self) -> ReplyView {
        match self {
            Reply::Which(path) => ReplyView::Which(text_of(*path)),
            Reply::IsFile(is_file) => ReplyView::IsFile(*is_file),
            Reply::Notified => ReplyView::Notified,
            Reply::LatestRelease(Ok(release)) => ReplyView::LatestRelease(Ok(release@)),
            Reply::LatestRelease(Err(cause)) => ReplyView::LatestRelease(Err(cause@)),
            Reply::CurrentPlatform(os, arch) => ReplyView::CurrentPlatform(*os, *arch),
            Reply::Downloaded(outcome) => ReplyView::Downloaded(outcome_of(*outcome)),
            Reply::Listing(outcome) => ReplyView::Listing(outcome_of(*outcome)),
            Reply::Entry(entry) => ReplyView::Entry(entry@),
            Reply::Removed(outcome) => ReplyView::Removed(outcome_of(*outcome)),
        }
    }
}

impl RequestView {
    /// Whether `reply` is an answer to this request.
    pub open spec fn answered_by(self, reply: ReplyView) -> bool {
        match self {
            RequestView::Which { .. } => reply is Which,
            RequestView::IsFile { .. } => reply is IsFile,
            RequestView::Notify { .. } => reply is Notified,
            RequestView::LatestRelease { .. } => reply is LatestRelease,
            RequestView::CurrentPlatform => reply is CurrentPlatform,
            RequestView::DownloadGzipTar { .. } => reply is Downloaded,
            RequestView::ListStorageRoot => reply is Listing,
            RequestView::NextEntry => reply is Entry,
            RequestView::RemoveEntry => reply is Removed,
        }
    }

    /// Whether performing the request reaches the registry or the network.
    pub open spec fn uses_network(self) -> bool {
        self is LatestRelease || self is DownloadGzipTar
    }
}

impl Request {
    /// Whether `reply` is an answer to this request.
    pub fn answered_by(&self, reply: &Reply) -> (r: bool)
        ensures
            r == self@.answered_by(reply@),
    {
        match (self, reply) {
            (Request::Which { .. }, Reply::Which(_)) => true,
            (Request::IsFile { .. }, Reply::IsFile(_)) => true,
            (Request::Notify { .. }, Reply::Notified) => true,
            (Request::LatestRelease { .. }, Reply::LatestRelease(_)) => true,
            (Request::CurrentPlatform, Reply::CurrentPlatform(_, _)) => true,
            (Request::DownloadGzipTar { .. }, Reply::Downloaded(_)) => true,
            (Request::ListStorageRoot, Reply::Listing(_)) => true,
            (Request::NextEntry, Reply::Entry(_)) => true,
            (Request::RemoveEntry, Reply::Removed(_)) => true,
            _ => false,
        }
    }

    /// Whether performing the request reaches the registry or the network.
    pub fn uses_network(&self) -> (r: bool)
        ensures
            r == self@.uses_network(),
    {
        match self {
            Request::LatestRelease { .. } => true,
            Request::DownloadGzipTar { .. } => true,
            _ => false,
        }
    }
}

} // verus!
