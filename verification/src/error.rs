//! Why a resolution failed, and how the failure reads.

use vstd::prelude::*;
use crate::platform::Unsupported;
use crate::text::{debug_quote, debug_quoted, prefixed};

verus! {

/// A failure of the resolver.
///
/// Every kind but `StalePruneError` ends the resolution it occurs in.
#[derive(Clone, Debug, PartialEq, Eq)]
pub enum ResolveError {
    /// The host's CPU or operating system has no artifact mapping.
    UnsupportedPlatform(Unsupported),
    /// The release lookup failed; holds the registry's message.
    RegistryError(String),
    /// The release has no asset for this platform; holds the asset name
    /// that was looked for.
    AssetNotFound(String),
    /// Fetching or extracting the archive failed; holds the cause as the
    /// downloader reported it.
    DownloadError(String),
    /// The storage root could not be listed; holds a rendering of the cause.
    DirectoryReadError(String),
    /// An entry of the storage root could not be read; holds a rendering of
    /// the cause.
    DirectoryEntryError(String),
    /// One stale entry could not be removed; holds a rendering of the cause.
    /// Not fatal: the resolution goes on.
    StalePruneError(String),
}

/// A `ResolveError` with its texts as character sequences.
pub enum ResolveErrorView {
    UnsupportedPlatform(Unsupported),
    RegistryError(Seq<char>),
    AssetNotFound(Seq<char>),
    DownloadError(Seq<char>),
    DirectoryReadError(Seq<char>),
    DirectoryEntryError(Seq<char>),
    StalePruneError(Seq<char>),
}

impl View for ResolveError {
    type V = ResolveErrorView;

    open spec fn view(&self) -> ResolveErrorView {
        match self {
            ResolveError::UnsupportedPlatform(u) => ResolveErrorView::UnsupportedPlatform(*u),
            ResolveError::RegistryError(s) => ResolveErrorView::RegistryError(s@),
            ResolveError::AssetNotFound(s) => ResolveErrorView::AssetNotFound(s@),
            ResolveError::DownloadError(s) => ResolveErrorView::DownloadError(s@),
            ResolveError::DirectoryReadError(s) => ResolveErrorView::DirectoryReadError(s@),
            ResolveError::DirectoryEntryError(s) => ResolveErrorView::DirectoryEntryError(s@),
            ResolveError::StalePruneError(s) => ResolveErrorView::StalePruneError(s@),
        }
    }
}

impl ResolveErrorView {
    /// Whether the failure ends the resolution.
    pub open spec fn is_fatal(self) -> bool {
        !(self is StalePruneError)
    }

    /// The text of the failure, given the quoted form of a download's cause.
    pub open spec fn message_with(self, quoted_cause: Seq<char>) -> Seq<char> {
        match self {
            ResolveErrorView::UnsupportedPlatform(Unsupported::X86Architecture) =>
                "x86 architecture is not supported."@,
            ResolveErrorView::UnsupportedPlatform(Unsupported::WindowsOs) =>
                "Windows platform is not supported."@,
            ResolveErrorView::RegistryError(cause) => cause,
            ResolveErrorView::AssetNotFound(name) => name + " not found"@,
            ResolveErrorView::DownloadError(_) => "Failed to download binary: "@ + quoted_cause,
            ResolveErrorView::DirectoryReadError(cause) => "Failed to read directory: "@ + cause,
            ResolveErrorView::DirectoryEntryError(cause) => "Failed to read entry: "@ + cause,
            ResolveErrorView::StalePruneError(cause) => "Failed to remove directory: "@ + cause,
        }
    }

    /// The cause of a download failure as reported; empty for other kinds.
    pub open spec fn download_cause(self) -> Seq<char> {
        match self {
            ResolveErrorView::DownloadError(cause) => cause,
            _ => Seq::empty(),
        }
    }

    /// The text of the failure. A download's cause appears in its `Debug`
    /// rendering.
    pub open spec fn message(self) -> Seq<char> {
        self.message_with(debug_quoted(self.download_cause()))
    }
}

impl ResolveError {
    /// Whether the failure ends the resolution.
    pub fn is_fatal(&self) -> (r: bool)
        ensures
            r == self@.is_fatal(),
    {
        match self {
            ResolveError::StalePruneError(_) => false,
            _ => true,
        }
    }

    /// The text of the failure, where `quoted_cause` is the form in which the
    /// cause of a download failure is to appear. Other kinds ignore it.
    pub fn message_with(&self, quoted_cause: &str) -> (r: String)
        ensures
            r@ == self@.message_with(quoted_cause@),
    {
        match self {
            ResolveError::UnsupportedPlatform(Unsupported::X86Architecture) => String::from_str(
                "x86 architecture is not supported.",
            ),
            ResolveError::UnsupportedPlatform(Unsupported::WindowsOs) => String::from_str(
                "Windows platform is not supported.",
            ),
            ResolveError::RegistryError(cause) => cause.clone(),
            ResolveError::AssetNotFound(name) => prefixed(name.as_str(), " not found"),
            ResolveError::DownloadError(_) => prefixed("Failed to download binary: ", quoted_cause),
            ResolveError::DirectoryReadError(cause) => prefixed(
                "Failed to read directory: ",
                cause.as_str(),
            ),
            ResolveError::DirectoryEntryError(cause) => prefixed(
                "Failed to read entry: ",
                cause.as_str(),
            ),
            ResolveError::StalePruneError(cause) => prefixed(
                "Failed to remove directory: ",
                cause.as_str(),
            ),
        }
    }

    /// The text of the failure, as it is shown to the host.
    pub fn message(&self) -> (r: String)
        ensures
            r@ == self@.message(),
    {
        match self {
            ResolveError::DownloadError(cause) => {
                let quoted = debug_quote(cause.as_str());
                self.message_with(quoted.as_str())
            },
            _ => self.message_with(""),
        }
    }
}

} // verus!
