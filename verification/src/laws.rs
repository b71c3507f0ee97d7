//! What holds of every resolution, whatever the outside world answers.
//!
//! A resolution is modelled as a run: the resolver starts in a stage, the
//! driver performs the stage's request and hands over a reply, and so on
//! until the resolver is done or the replies end.

use vstd::prelude::*;
use crate::error::ResolveErrorView;
use crate::layout::{binary_path_of, version_dir_of, BINARY_NAME};
use crate::platform::{platform_of, Architecture, Os};
use crate::protocol::{EntryView, ReplyView, RequestView};
use crate::release::{LocatedView, ReleaseView};
use crate::resolver::{
    failed, found, go, installed, next, InstallPhase, Outcome, StageView, StepView,
};

verus! {

/// A run of the resolver.
pub struct Run {
    /// Where the run stands after the last reply it consumed.
    pub end: Outcome,
    /// The requests the driver performed, in order: one for each reply consumed.
    pub requests: Seq<RequestView>,
    /// Whether every reply consumed answered the request it followed.
    pub answered: bool,
}

/// The run that starts in `stage` and is handed `replies` one after another.
/// Replies that come after the resolver is done are not consumed.
pub open spec fn run(cache: Option<Seq<char>>, stage: StageView, replies: Seq<ReplyView>) -> Run
    decreases replies.len(),
{
    if replies.len() == 0 {
        Run { end: go(cache, stage), requests: Seq::empty(), answered: true }
    } else {
        let after = next(cache, stage, replies[0]);
        let answered = stage.request().answered_by(replies[0]);
        match after.step {
            StepView::Done(_) => Run { end: after, requests: seq![stage.request()], answered },
            StepView::Next { stage: entered, .. } => {
                let rest = run(after.cache, entered, replies.drop_first());
                Run {
                    end: rest.end,
                    requests: seq![stage.request()] + rest.requests,
                    answered: answered && rest.answered,
                }
            },
        }
    }
}

/// Whether none of the requests reaches the registry or the network.
pub open spec fn offline(requests: Seq<RequestView>) -> bool {
    forall|i: int| 0 <= i < requests.len() ==> !(#[trigger] requests[i]).uses_network()
}

/// Whether none of the requests is a download.
pub open spec fn no_download(requests: Seq<RequestView>) -> bool {
    forall|i: int| 0 <= i < requests.len() ==> !(#[trigger] requests[i] is DownloadGzipTar)
}

/// Whether at most one of the requests is a download.
pub open spec fn at_most_one_download(requests: Seq<RequestView>) -> bool {
    forall|i: int, j: int|
        0 <= i < j < requests.len() ==> !(#[trigger] requests[i] is DownloadGzipTar
            && #[trigger] requests[j] is DownloadGzipTar)
}

/// A run that is handed `reply` and then `rest` takes one step on `reply`
/// and, unless that ends it, runs on with `rest`.
pub proof fn lemma_run_step(
    cache: Option<Seq<char>>,
    stage: StageView,
    reply: ReplyView,
    rest: Seq<ReplyView>,
)
    ensures
        run(cache, stage, seq![reply] + rest) == (match next(cache, stage, reply).step {
            StepView::Done(_) => Run {
                end: next(cache, stage, reply),
                requests: seq![stage.request()],
                answered: stage.request().answered_by(reply),
            },
            StepView::Next { stage: entered, .. } => {
                let tail = run(next(cache, stage, reply).cache, entered, rest);
                Run {
                    end: tail.end,
                    requests: seq![stage.request()] + tail.requests,
                    answered: stage.request().answered_by(reply) && tail.answered,
                }
            },
        }),
{
    let replies = seq![reply] + rest;
    assert(replies[0] == reply);
    assert(replies.drop_first() =~= rest);
}

/// A binary on the command path wins: the resolution returns its path after
/// the one lookup, whatever the resolver remembers, and remembers nothing new.
pub proof fn law_command_path_wins(
    cache: Option<Seq<char>>,
    path: Seq<char>,
    rest: Seq<ReplyView>,
)
    ensures
        run(cache, StageView::PathLookup, seq![ReplyView::Which(Some(path))] + rest) == (Run {
            end: found(cache, path),
            requests: seq![RequestView::Which { name: BINARY_NAME@ }],
            answered: true,
        }),
        offline(
            run(cache, StageView::PathLookup, seq![ReplyView::Which(Some(path))] + rest).requests,
        ),
{
    lemma_run_step(cache, StageView::PathLookup, ReplyView::Which(Some(path)), rest);
}

/// With nothing on the command path, a remembered path that is still a
/// regular file is returned after the lookup and the one check on the file.
pub proof fn law_cached_file_is_reused(path: Seq<char>, rest: Seq<ReplyView>)
    ensures
        run(
            Some(path),
            StageView::PathLookup,
            seq![ReplyView::Which(None), ReplyView::IsFile(true)] + rest,
        ) == (Run {
            end: found(Some(path), path),
            requests: seq![
                RequestView::Which { name: BINARY_NAME@ },
                RequestView::IsFile { path },
            ],
            answered: true,
        }),
        offline(
            run(
                Some(path),
                StageView::PathLookup,
                seq![ReplyView::Which(None), ReplyView::IsFile(true)] + rest,
            ).requests,
        ),
{
    let all = seq![ReplyView::Which(None), ReplyView::IsFile(true)] + rest;
    let tail = seq![ReplyView::IsFile(true)] + rest;
    assert(all =~= seq![ReplyView::Which(None)] + tail);
    lemma_run_step(Some(path), StageView::PathLookup, ReplyView::Which(None), tail);
    lemma_run_step(Some(path), StageView::CacheCheck { path }, ReplyView::IsFile(true), rest);
    assert(seq![RequestView::Which { name: BINARY_NAME@ }] + seq![RequestView::IsFile { path }]
        =~= seq![RequestView::Which { name: BINARY_NAME@ }, RequestView::IsFile { path }]);
}

/// Whether the stage lies behind the local probe.
pub open spec fn past_probe(stage: StageView) -> bool {
    !(stage is PathLookup) && !(stage is CacheCheck)
}

/// Behind the local probe, what the resolver remembers has no say in how the
/// run goes.
pub proof fn lemma_cache_has_no_say(
    one: Option<Seq<char>>,
    other: Option<Seq<char>>,
    stage: StageView,
    replies: Seq<ReplyView>,
)
    requires
        past_probe(stage),
    ensures
        run(one, stage, replies).end.step == run(other, stage, replies).end.step,
        run(one, stage, replies).requests == run(other, stage, replies).requests,
    decreases replies.len(),
{
    if replies.len() > 0 {
        let a = next(one, stage, replies[0]);
        let b = next(other, stage, replies[0]);
        assert(a.step == b.step);
        match a.step {
            StepView::Done(_) => {},
            StepView::Next { stage: entered, .. } => {
                lemma_cache_has_no_say(a.cache, b.cache, entered, replies.drop_first());
            },
        }
    }
}

/// A remembered path that is no longer a regular file is no failure: the
/// resolution goes on to the update check, and from there as the resolution
/// of a resolver that remembers nothing.
pub proof fn law_lost_cache_resolves_afresh(path: Seq<char>, rest: Seq<ReplyView>)
    ensures
        next(Some(path), StageView::CacheCheck { path }, ReplyView::IsFile(false)) == go(
            Some(path),
            StageView::UpdateNotice,
        ),
        run(
            Some(path),
            StageView::PathLookup,
            seq![ReplyView::Which(None), ReplyView::IsFile(false)] + rest,
        ).end.step == run(
            None,
            StageView::PathLookup,
            seq![ReplyView::Which(None)] + rest,
        ).end.step,
{
    let all = seq![ReplyView::Which(None), ReplyView::IsFile(false)] + rest;
    let tail = seq![ReplyView::IsFile(false)] + rest;
    assert(all =~= seq![ReplyView::Which(None)] + tail);
    lemma_run_step(Some(path), StageView::PathLookup, ReplyView::Which(None), tail);
    lemma_run_step(Some(path), StageView::CacheCheck { path }, ReplyView::IsFile(false), rest);
    lemma_run_step(None, StageView::PathLookup, ReplyView::Which(None), rest);
    lemma_cache_has_no_say(Some(path), None, StageView::UpdateNotice, rest);
}

/// On a host without artifacts the resolution ends at once with the axis
/// that is unsupported, whatever the release holds; nothing is downloaded.
pub proof fn law_unsupported_platform_ends_resolution(
    cache: Option<Seq<char>>,
    release: ReleaseView,
    os: Os,
    arch: Architecture,
)
    requires
        platform_of(os, arch) is Err,
    ensures
        arch == Architecture::X86 || os == Os::Windows,
        next(cache, StageView::PlatformQuery { release }, ReplyView::CurrentPlatform(os, arch))
            == failed(cache, ResolveErrorView::UnsupportedPlatform(platform_of(os, arch)->Err_0)),
{
}

/// Whether what the resolver remembers is what the stage may end with.
pub open spec fn settled(cache: Option<Seq<char>>, stage: StageView) -> bool {
    match stage {
        StageView::PathLookup => false,
        StageView::CacheCheck { path } => cache == Some(path),
        _ => true,
    }
}

/// From a stage behind the command-path lookup, a run that ends with a path
/// ends remembering it; a run that ends otherwise remembers what it did.
pub proof fn lemma_result_is_remembered(
    cache: Option<Seq<char>>,
    stage: StageView,
    replies: Seq<ReplyView>,
)
    requires
        settled(cache, stage),
    ensures
        match run(cache, stage, replies).end.step {
            StepView::Done(Ok(path)) => run(cache, stage, replies).end.cache == Some(path),
            StepView::Done(Err(_)) => run(cache, stage, replies).end.cache == cache,
            StepView::Next { stage: entered, .. } => settled(
                run(cache, stage, replies).end.cache,
                entered,
            ),
        },
    decreases replies.len(),
{
    if replies.len() > 0 {
        let after = next(cache, stage, replies[0]);
        match after.step {
            StepView::Done(_) => {},
            StepView::Next { stage: entered, .. } => {
                lemma_result_is_remembered(after.cache, entered, replies.drop_first());
            },
        }
    }
}

/// A resolution that finds nothing on the command path and ends with a path
/// remembers that path.
pub proof fn law_resolution_is_remembered(cache: Option<Seq<char>>, replies: Seq<ReplyView>)
    requires
        replies.len() > 0,
        replies[0] == ReplyView::Which(None),
        run(cache, StageView::PathLookup, replies).end.step is Done,
        run(cache, StageView::PathLookup, replies).end.step->Done_0 is Ok,
    ensures
        run(cache, StageView::PathLookup, replies).end.cache == Some(
            run(cache, StageView::PathLookup, replies).end.step->Done_0->Ok_0,
        ),
{
    let after = next(cache, StageView::PathLookup, replies[0]);
    lemma_result_is_remembered(after.cache, after.step->stage, replies.drop_first());
}

/// Resolving twice in succession downloads at most once: after a resolution
/// that ended with a path not taken from the command path, the next one,
/// which finds that path still a regular file, returns it after the lookup
/// and the check on the file, without a request to the registry or the
/// network.
pub proof fn law_second_resolution_downloads_nothing(
    cache: Option<Seq<char>>,
    first: Seq<ReplyView>,
    rest: Seq<ReplyView>,
)
    requires
        first.len() > 0,
        first[0] == ReplyView::Which(None),
        run(cache, StageView::PathLookup, first).end.step is Done,
        run(cache, StageView::PathLookup, first).end.step->Done_0 is Ok,
    ensures
        ({
            let before = run(cache, StageView::PathLookup, first);
            let path = before.end.step->Done_0->Ok_0;
            let again = run(
                before.end.cache,
                StageView::PathLookup,
                seq![ReplyView::Which(None), ReplyView::IsFile(true)] + rest,
            );
            &&& again.end == found(Some(path), path)
            &&& again.requests == seq![
                RequestView::Which { name: BINARY_NAME@ },
                RequestView::IsFile { path },
            ]
            &&& offline(again.requests)
        }),
{
    law_resolution_is_remembered(cache, first);
    let path = run(cache, StageView::PathLookup, first).end.step->Done_0->Ok_0;
    law_cached_file_is_reused(path, rest);
}

/// What the resolver remembers changes only where a run ends with a path,
/// and then to no other path than that one. A run that fails, or that is
/// still under way, leaves it as it was.
pub proof fn law_cache_changes_only_on_success(
    cache: Option<Seq<char>>,
    stage: StageView,
    replies: Seq<ReplyView>,
)
    ensures
        match run(cache, stage, replies).end.step {
            StepView::Done(Ok(path)) => {
                ||| run(cache, stage, replies).end.cache == cache
                ||| run(cache, stage, replies).end.cache == Some(path)
            },
            _ => run(cache, stage, replies).end.cache == cache,
        },
    decreases replies.len(),
{
    if replies.len() > 0 {
        let after = next(cache, stage, replies[0]);
        match after.step {
            StepView::Done(_) => {},
            StepView::Next { stage: entered, .. } => {
                law_cache_changes_only_on_success(after.cache, entered, replies.drop_first());
            },
        }
    }
}

/// Only a fatal failure ends a resolution: a removal that fails never does.
pub proof fn law_only_fatal_failures_end_a_resolution(
    cache: Option<Seq<char>>,
    stage: StageView,
    reply: ReplyView,
)
    ensures
        next(cache, stage, reply).step matches StepView::Done(Err(error)) ==> error.is_fatal(),
{
}

/// How far a stage is into the resolution.
pub open spec fn rank(stage: StageView) -> nat {
    match stage {
        StageView::PathLookup => 0,
        StageView::CacheCheck { .. } => 1,
        StageView::UpdateNotice => 2,
        StageView::ReleaseLookup => 3,
        StageView::PlatformQuery { .. } => 4,
        StageView::Install { phase, .. } => match phase {
            InstallPhase::BinaryCheck => 5,
            InstallPhase::DownloadNotice => 6,
            InstallPhase::Download => 7,
            InstallPhase::StorageListing => 8,
            InstallPhase::EntryScan => 9,
            InstallPhase::EntryRemoval => 9,
        },
    }
}

/// Once the archive is extracted, nothing more is downloaded.
pub proof fn lemma_no_download_after_extraction(
    cache: Option<Seq<char>>,
    stage: StageView,
    replies: Seq<ReplyView>,
)
    requires
        rank(stage) >= 8,
    ensures
        no_download(run(cache, stage, replies).requests),
    decreases replies.len(),
{
    if replies.len() > 0 {
        let after = next(cache, stage, replies[0]);
        match after.step {
            StepView::Done(_) => {},
            StepView::Next { stage: entered, .. } => {
                lemma_no_download_after_extraction(after.cache, entered, replies.drop_first());
            },
        }
    }
}

/// From any stage, a run whose replies answer its requests downloads at
/// most once.
pub proof fn lemma_at_most_one_download(
    cache: Option<Seq<char>>,
    stage: StageView,
    replies: Seq<ReplyView>,
)
    requires
        run(cache, stage, replies).answered,
    ensures
        at_most_one_download(run(cache, stage, replies).requests),
    decreases replies.len(),
{
    if replies.len() > 0 {
        let after = next(cache, stage, replies[0]);
        match after.step {
            StepView::Done(_) => {},
            StepView::Next { stage: entered, .. } => {
                let tail = run(after.cache, entered, replies.drop_first());
                let all = run(cache, stage, replies);
                assert(all.requests == seq![stage.request()] + tail.requests);
                if stage.request() is DownloadGzipTar {
                    lemma_no_download_after_extraction(
                        after.cache,
                        entered,
                        replies.drop_first(),
                    );
                    assert forall|i: int, j: int| 0 <= i < j < all.requests.len() implies !(
                    #[trigger] all.requests[i] is DownloadGzipTar
                        && #[trigger] all.requests[j] is DownloadGzipTar) by {
                        assert(all.requests[j] == tail.requests[j - 1]);
                    }
                } else {
                    lemma_at_most_one_download(after.cache, entered, replies.drop_first());
                    assert forall|i: int, j: int| 0 <= i < j < all.requests.len() implies !(
                    #[trigger] all.requests[i] is DownloadGzipTar
                        && #[trigger] all.requests[j] is DownloadGzipTar) by {
                        if i > 0 {
                            assert(all.requests[i] == tail.requests[i - 1]);
                            assert(all.requests[j] == tail.requests[j - 1]);
                        }
                    }
                }
            },
        }
    }
}

/// A resolution whose replies answer its requests downloads at most once.
pub proof fn law_at_most_one_download(cache: Option<Seq<char>>, replies: Seq<ReplyView>)
    requires
        run(cache, StageView::PathLookup, replies).answered,
    ensures
        at_most_one_download(run(cache, StageView::PathLookup, replies).requests),
{
    lemma_at_most_one_download(cache, StageView::PathLookup, replies);
}

/// A version whose binary is already a regular file is not downloaded again:
/// the installation ends at once with the binary's path.
pub proof fn law_present_binary_is_not_downloaded(cache: Option<Seq<char>>, target: LocatedView)
    ensures
        next(
            cache,
            StageView::Install { target, phase: InstallPhase::BinaryCheck },
            ReplyView::IsFile(true),
        ) == installed(target),
        installed(target).step == StepView::Done(Ok(binary_path_of(target.version))),
{
}

/// An entry of the storage root as an eviction scan meets it.
pub struct RootEntry {
    /// The entry's name; `None` where it is not valid Unicode.
    pub name: Option<Seq<char>>,
    /// What an attempt to remove the entry yields.
    pub removal: Result<(), Seq<char>>,
}

/// An eviction scan over a storage root.
pub struct Scan {
    /// Where the resolution stands after the scan.
    pub end: Outcome,
    /// The entries that are still in the storage root.
    pub kept: Seq<RootEntry>,
}

/// `entry` before the entries `scan` kept.
pub open spec fn keeping(entry: RootEntry, scan: Scan) -> Scan {
    Scan { end: scan.end, kept: seq![entry] + scan.kept }
}

/// The scan a driver makes of a storage root whose listing yields `entries`:
/// it hands each entry over and, where the resolver then asks for the
/// entry's removal, attempts it and reports what came of it. An entry stays
/// if its removal was not asked for or did not succeed.
pub open spec fn scan(cache: Option<Seq<char>>, stage: StageView, entries: Seq<RootEntry>) -> Scan
    decreases entries.len(),
{
    if !(stage.request() is NextEntry) {
        Scan { end: go(cache, stage), kept: entries }
    } else if entries.len() == 0 {
        Scan { end: next(cache, stage, ReplyView::Entry(EntryView::End)), kept: entries }
    } else {
        let entry = entries[0];
        let read = next(cache, stage, ReplyView::Entry(EntryView::Found { name: entry.name }));
        match read.step {
            StepView::Done(_) => Scan { end: read, kept: entries },
            StepView::Next { stage: entered, .. } => if entered.request() is RemoveEntry {
                let removed = next(read.cache, entered, ReplyView::Removed(entry.removal));
                match removed.step {
                    StepView::Done(_) => Scan { end: removed, kept: entries },
                    StepView::Next { stage: resumed, .. } => {
                        let rest = scan(removed.cache, resumed, entries.drop_first());
                        if entry.removal is Ok {
                            rest
                        } else {
                            keeping(entry, rest)
                        }
                    },
                }
            } else {
                keeping(entry, scan(read.cache, entered, entries.drop_first()))
            },
        }
    }
}

/// A fresh installation ends well whatever comes of the removals: after the
/// scan of a storage root whose entries can all be read, the resolution is
/// done with the installed binary's path, and remembers it.
pub proof fn law_failed_removal_is_not_fatal(
    cache: Option<Seq<char>>,
    target: LocatedView,
    entries: Seq<RootEntry>,
)
    ensures
        scan(
            cache,
            StageView::Install { target, phase: InstallPhase::EntryScan },
            entries,
        ).end == installed(target),
    decreases entries.len(),
{
    if entries.len() > 0 {
        law_failed_removal_is_not_fatal(cache, target, entries.drop_first());
    }
}

/// After a fresh installation the storage root holds, of what it held, only
/// the installed version's directory, and besides it what could not be
/// removed: an entry stays exactly if it is named as that directory or its
/// removal fails.
pub proof fn law_fresh_install_evicts_other_versions(
    cache: Option<Seq<char>>,
    target: LocatedView,
    entries: Seq<RootEntry>,
)
    ensures
        forall|entry: RootEntry| #[trigger]
            scan(
                cache,
                StageView::Install { target, phase: InstallPhase::EntryScan },
                entries,
            ).kept.contains(entry) <==> entries.contains(entry) && (entry.name == Some(
                version_dir_of(target.version),
            ) || entry.removal is Err),
    decreases entries.len(),
{
    let stage = StageView::Install { target, phase: InstallPhase::EntryScan };
    let kept = scan(cache, stage, entries).kept;
    let dir = version_dir_of(target.version);
    if entries.len() > 0 {
        let head = entries[0];
        let tail = entries.drop_first();
        let rest = scan(cache, stage, tail).kept;
        law_fresh_install_evicts_other_versions(cache, target, tail);
        let stays = head.name == Some(dir) || head.removal is Err;
        assert(kept == if stays {
            seq![head] + rest
        } else {
            rest
        });
        assert forall|entry: RootEntry| #[trigger]
            kept.contains(entry) <==> entries.contains(entry) && (entry.name == Some(dir)
                || entry.removal is Err) by {
            if kept.contains(entry) {
                let i = choose|i: int| 0 <= i < kept.len() && kept[i] == entry;
                if stays && i > 0 {
                    assert(rest[i - 1] == entry);
                    assert(rest.contains(entry));
                }
                if !stays {
                    assert(rest.contains(entry));
                }
                if rest.contains(entry) {
                    let k = choose|k: int| 0 <= k < tail.len() && tail[k] == entry;
                    assert(entries[k + 1] == entry);
                } else {
                    assert(entry == head);
                }
            }
            if entries.contains(entry) && (entry.name == Some(dir) || entry.removal is Err) {
                let k = choose|k: int| 0 <= k < entries.len() && entries[k] == entry;
                if k == 0 {
                    assert(kept[0] == entry);
                } else {
                    assert(tail[k - 1] == entry);
                    assert(tail.contains(entry));
                    assert(rest.contains(entry));
                    let i = choose|i: int| 0 <= i < rest.len() && rest[i] == entry;
                    if stays {
                        assert(kept[i + 1] == entry);
                    } else {
                        assert(kept[i] == entry);
                    }
                }
            }
        }
    }
}

} // verus!
