use text_server_resolver::error::ResolveError;
use text_server_resolver::platform::{Architecture, Os, Unsupported};
use text_server_resolver::protocol::{Entry, Reply, Request, Status};
use text_server_resolver::release::{Asset, Located, Release};
use text_server_resolver::resolver::{is_stale, InstallPhase, Stage, Step, TextLanguageServer};

const MAC_ASSET: &str = "text-language-server-aarch64-apple-darwin.tar.gz";
const LINUX_ASSET: &str = "text-language-server-x86_64-unknown-linux-gnu.tar.gz";

/// An entry of the simulated storage root.
#[derive(Clone, Debug, PartialEq)]
struct Item {
    name: Option<String>,
    readable: bool,
    removable: bool,
}

fn dir(name: &str) -> Item {
    Item { name: Some(name.to_string()), readable: true, removable: true }
}

/// A simulated host, registry, network and disk.
struct World {
    on_path: Option<String>,
    files: Vec<String>,
    release: Result<Release, String>,
    platform: (Os, Architecture),
    download: Result<(), String>,
    listing: Result<(), String>,
    root: Vec<Item>,
    snapshot: Vec<Item>,
    cursor: usize,
    removed: Vec<usize>,
    requests: Vec<Request>,
    warnings: Vec<String>,
}

fn release_of(version: &str) -> Release {
    Release {
        version: version.to_string(),
        assets: vec![
            Asset {
                name: MAC_ASSET.to_string(),
                download_url: format!("https://example.com/{version}/mac"),
            },
            Asset {
                name: LINUX_ASSET.to_string(),
                download_url: format!("https://example.com/{version}/linux"),
            },
        ],
    }
}

fn world(version: &str) -> World {
    World {
        on_path: None,
        files: vec![],
        release: Ok(release_of(version)),
        platform: (Os::Linux, Architecture::X8664),
        download: Ok(()),
        listing: Ok(()),
        root: vec![],
        snapshot: vec![],
        cursor: 0,
        removed: vec![],
        requests: vec![],
        warnings: vec![],
    }
}

fn perform(w: &mut World, request: &Request) -> Reply {
    w.requests.push(request.clone());
    match request {
        Request::Which { .. } => Reply::Which(w.on_path.clone()),
        Request::IsFile { path } => Reply::IsFile(w.files.contains(path)),
        Request::Notify { .. } => Reply::Notified,
        Request::LatestRelease { .. } => Reply::LatestRelease(w.release.clone()),
        Request::CurrentPlatform => Reply::CurrentPlatform(w.platform.0, w.platform.1),
        Request::DownloadGzipTar { dir: into, .. } => {
            if w.download.is_ok() {
                w.files.push(format!("{into}/text-language-server"));
                if !w.root.iter().any(|item| item.name.as_deref() == Some(into.as_str())) {
                    w.root.push(dir(into));
                }
            }
            Reply::Downloaded(w.download.clone())
        }
        Request::ListStorageRoot => {
            w.snapshot = w.root.clone();
            w.cursor = 0;
            w.removed = vec![];
            Reply::Listing(w.listing.clone())
        }
        Request::NextEntry => {
            if w.cursor >= w.snapshot.len() {
                let removed = w.removed.clone();
                let mut kept = vec![];
                for (i, item) in w.snapshot.iter().enumerate() {
                    if !removed.contains(&i) {
                        kept.push(item.clone());
                    }
                }
                w.root = kept;
                return Reply::Entry(Entry::End);
            }
            let item = w.snapshot[w.cursor].clone();
            w.cursor += 1;
            if item.readable {
                Reply::Entry(Entry::Found { name: item.name })
            } else {
                let kept: Vec<Item> = w
                    .snapshot
                    .iter()
                    .enumerate()
                    .filter(|(i, _)| !w.removed.contains(i))
                    .map(|(_, item)| item.clone())
                    .collect();
                w.root = kept;
                Reply::Entry(Entry::Failed { cause: "unreadable".to_string() })
            }
        }
        Request::RemoveEntry => {
            let at = w.cursor - 1;
            if w.snapshot[at].removable {
                w.removed.push(at);
                Reply::Removed(Ok(()))
            } else {
                Reply::Removed(Err("denied".to_string()))
            }
        }
    }
}

fn resolve(server: &mut TextLanguageServer, w: &mut World) -> Result<String, ResolveError> {
    w.requests.clear();
    w.warnings.clear();
    let mut stage = server.begin();
    loop {
        let request = stage.request();
        let reply = perform(w, &request);
        match server.advance(stage, reply) {
            Step::Done(result) => return result,
            Step::Next { stage: entered, warning } => {
                if let Some(warning) = warning {
                    w.warnings.push(warning.message());
                }
                stage = entered;
            }
        }
    }
}

fn downloads(w: &World) -> usize {
    w.requests.iter().filter(|r| matches!(r, Request::DownloadGzipTar { .. })).count()
}

fn network_requests(w: &World) -> usize {
    w.requests.iter().filter(|r| r.uses_network()).count()
}

fn names(w: &World) -> Vec<Option<String>> {
    w.root.iter().map(|item| item.name.clone()).collect()
}

fn which() -> Request {
    Request::Which { name: "text-language-server".to_string() }
}

fn target(version: &str) -> Located {
    Located {
        version: version.to_string(),
        download_url: format!("https://example.com/{version}/linux"),
    }
}

fn installing(version: &str, phase: InstallPhase) -> Stage {
    Stage::Install { target: target(version), phase }
}

#[test]
fn new_resolver_remembers_nothing() {
    let server = TextLanguageServer::new();
    assert_eq!(server.cached_binary_path(), None);
    assert_eq!(server.begin(), Stage::PathLookup);
}

#[test]
fn binary_on_command_path_is_returned_without_network() {
    let mut server = TextLanguageServer::new();
    let mut w = world("v1");
    w.on_path = Some("/usr/local/bin/text-language-server".to_string());
    assert_eq!(resolve(&mut server, &mut w), Ok("/usr/local/bin/text-language-server".to_string()));
    assert_eq!(w.requests, vec![which()]);
    assert_eq!(network_requests(&w), 0);
    assert_eq!(server.cached_binary_path(), None);
}

#[test]
fn binary_on_command_path_wins_over_the_cache() {
    let mut server = TextLanguageServer::new();
    let mut w = world("v1");
    let installed = resolve(&mut server, &mut w).unwrap();
    assert_eq!(installed, "text-language-server-v1/text-language-server");
    w.on_path = Some("/opt/bin/text-language-server".to_string());
    assert_eq!(resolve(&mut server, &mut w), Ok("/opt/bin/text-language-server".to_string()));
    assert_eq!(w.requests, vec![which()]);
    assert_eq!(server.cached_binary_path(), Some(installed));
}

#[test]
fn fresh_install_issues_the_requests_in_order() {
    let mut server = TextLanguageServer::new();
    let mut w = world("v1");
    assert_eq!(
        resolve(&mut server, &mut w),
        Ok("text-language-server-v1/text-language-server".to_string())
    );
    assert_eq!(
        w.requests,
        vec![
            which(),
            Request::Notify { status: Status::CheckingForUpdate },
            Request::LatestRelease {
                repo: "Lev1ty/text-language-server".to_string(),
                require_assets: true,
                pre_release: false,
            },
            Request::CurrentPlatform,
            Request::IsFile { path: "text-language-server-v1/text-language-server".to_string() },
            Request::Notify { status: Status::Downloading },
            Request::DownloadGzipTar {
                url: "https://example.com/v1/linux".to_string(),
                dir: "text-language-server-v1".to_string(),
            },
            Request::ListStorageRoot,
            Request::NextEntry,
            Request::NextEntry,
        ]
    );
    assert_eq!(
        server.cached_binary_path(),
        Some("text-language-server-v1/text-language-server".to_string())
    );
    assert_eq!(names(&w), vec![Some("text-language-server-v1".to_string())]);
}

#[test]
fn mac_host_downloads_the_mac_asset() {
    let mut server = TextLanguageServer::new();
    let mut w = world("v1");
    w.platform = (Os::Mac, Architecture::Aarch64);
    assert!(resolve(&mut server, &mut w).is_ok());
    assert!(w.requests.contains(&Request::DownloadGzipTar {
        url: "https://example.com/v1/mac".to_string(),
        dir: "text-language-server-v1".to_string(),
    }));
}

#[test]
fn cached_file_is_returned_without_network() {
    let mut server = TextLanguageServer::new();
    let mut w = world("v1");
    let first = resolve(&mut server, &mut w).unwrap();
    let second = resolve(&mut server, &mut w).unwrap();
    assert_eq!(first, second);
    assert_eq!(
        w.requests,
        vec![
            which(),
            Request::IsFile { path: "text-language-server-v1/text-language-server".to_string() },
        ]
    );
    assert_eq!(network_requests(&w), 0);
}

#[test]
fn resolving_twice_downloads_once() {
    let mut server = TextLanguageServer::new();
    let mut w = world("v1");
    resolve(&mut server, &mut w).unwrap();
    let first = downloads(&w);
    resolve(&mut server, &mut w).unwrap();
    let second = downloads(&w);
    assert_eq!(first, 1);
    assert_eq!(second, 0);
}

#[test]
fn lost_cache_file_leads_to_full_resolution() {
    let mut server = TextLanguageServer::new();
    let mut w = world("v1");
    let first = resolve(&mut server, &mut w).unwrap();
    w.files.clear();
    w.release = Ok(release_of("v2"));
    assert_eq!(
        resolve(&mut server, &mut w),
        Ok("text-language-server-v2/text-language-server".to_string())
    );
    assert_eq!(w.requests[0], which());
    assert_eq!(w.requests[1], Request::IsFile { path: first });
    assert_eq!(w.requests[2], Request::Notify { status: Status::CheckingForUpdate });
    assert_eq!(downloads(&w), 1);
    assert_eq!(
        server.cached_binary_path(),
        Some("text-language-server-v2/text-language-server".to_string())
    );
}

#[test]
fn present_binary_skips_download_and_pruning() {
    let mut server = TextLanguageServer::new();
    let mut w = world("v2");
    w.files.push("text-language-server-v2/text-language-server".to_string());
    w.root = vec![dir("text-language-server-v1"), dir("text-language-server-v2")];
    assert_eq!(
        resolve(&mut server, &mut w),
        Ok("text-language-server-v2/text-language-server".to_string())
    );
    assert_eq!(downloads(&w), 0);
    assert!(!w.requests.contains(&Request::ListStorageRoot));
    assert!(!w.requests.contains(&Request::Notify { status: Status::Downloading }));
    assert_eq!(
        names(&w),
        vec![
            Some("text-language-server-v1".to_string()),
            Some("text-language-server-v2".to_string())
        ]
    );
    assert_eq!(
        server.cached_binary_path(),
        Some("text-language-server-v2/text-language-server".to_string())
    );
}

#[test]
fn fresh_install_of_v2_leaves_only_v2() {
    let mut server = TextLanguageServer::new();
    let mut w = world("v2");
    w.root = vec![dir("text-language-server-v1")];
    assert_eq!(
        resolve(&mut server, &mut w),
        Ok("text-language-server-v2/text-language-server".to_string())
    );
    assert_eq!(names(&w), vec![Some("text-language-server-v2".to_string())]);
    assert!(w.warnings.is_empty());
}

#[test]
fn every_other_entry_is_evicted() {
    let mut server = TextLanguageServer::new();
    let mut w = world("v2");
    w.root = vec![
        dir("text-language-server-v1"),
        dir("text-language-server"),
        dir("text-language-server-v2 "),
        dir("notes.txt"),
        Item { name: None, readable: true, removable: true },
        dir("text-language-server-v20"),
    ];
    assert!(resolve(&mut server, &mut w).is_ok());
    assert_eq!(names(&w), vec![Some("text-language-server-v2".to_string())]);
    let removals = w.requests.iter().filter(|r| matches!(r, Request::RemoveEntry)).count();
    assert_eq!(removals, 6);
}

#[test]
fn failed_removal_does_not_fail_the_install() {
    let mut server = TextLanguageServer::new();
    let mut w = world("v2");
    w.root = vec![
        dir("text-language-server-v0"),
        Item { name: Some("text-language-server-v1".to_string()), readable: true, removable: false },
        dir("old"),
    ];
    assert_eq!(
        resolve(&mut server, &mut w),
        Ok("text-language-server-v2/text-language-server".to_string())
    );
    assert_eq!(w.warnings, vec!["Failed to remove directory: denied".to_string()]);
    assert_eq!(
        names(&w),
        vec![
            Some("text-language-server-v1".to_string()),
            Some("text-language-server-v2".to_string())
        ]
    );
    assert_eq!(
        server.cached_binary_path(),
        Some("text-language-server-v2/text-language-server".to_string())
    );
}

#[test]
fn registry_failure_is_passed_on() {
    let mut server = TextLanguageServer::new();
    let mut w = world("v1");
    w.release = Err("no releases found".to_string());
    assert_eq!(
        resolve(&mut server, &mut w),
        Err(ResolveError::RegistryError("no releases found".to_string()))
    );
    assert!(matches!(w.requests.last(), Some(Request::LatestRelease { .. })));
    assert_eq!(server.cached_binary_path(), None);
}

#[test]
fn x86_host_is_rejected_before_any_download() {
    let mut server = TextLanguageServer::new();
    let mut w = world("v1");
    w.platform = (Os::Linux, Architecture::X86);
    let result = resolve(&mut server, &mut w);
    assert_eq!(result, Err(ResolveError::UnsupportedPlatform(Unsupported::X86Architecture)));
    assert_eq!(result.unwrap_err().message(), "x86 architecture is not supported.");
    assert_eq!(w.requests.last(), Some(&Request::CurrentPlatform));
    assert_eq!(downloads(&w), 0);
    assert_eq!(server.cached_binary_path(), None);
}

#[test]
fn windows_host_is_rejected_before_any_download() {
    let mut server = TextLanguageServer::new();
    let mut w = world("v1");
    w.platform = (Os::Windows, Architecture::X8664);
    let result = resolve(&mut server, &mut w);
    assert_eq!(result, Err(ResolveError::UnsupportedPlatform(Unsupported::WindowsOs)));
    assert_eq!(result.unwrap_err().message(), "Windows platform is not supported.");
    assert_eq!(downloads(&w), 0);
}

#[test]
fn windows_x86_host_is_rejected_for_its_architecture() {
    let mut server = TextLanguageServer::new();
    let mut w = world("v1");
    w.platform = (Os::Windows, Architecture::X86);
    assert_eq!(
        resolve(&mut server, &mut w),
        Err(ResolveError::UnsupportedPlatform(Unsupported::X86Architecture))
    );
}

#[test]
fn release_without_the_platform_asset_fails() {
    let mut server = TextLanguageServer::new();
    let mut w = world("v1");
    w.platform = (Os::Linux, Architecture::Aarch64);
    let result = resolve(&mut server, &mut w);
    assert_eq!(
        result,
        Err(ResolveError::AssetNotFound(
            "text-language-server-aarch64-unknown-linux-gnu.tar.gz".to_string()
        ))
    );
    assert_eq!(
        result.unwrap_err().message(),
        "text-language-server-aarch64-unknown-linux-gnu.tar.gz not found"
    );
    assert_eq!(downloads(&w), 0);
    assert_eq!(server.cached_binary_path(), None);
}

#[test]
fn download_failure_is_fatal_and_nothing_is_cached() {
    let mut server = TextLanguageServer::new();
    let mut w = world("v1");
    w.download = Err("connection reset".to_string());
    w.root = vec![dir("text-language-server-v0")];
    let result = resolve(&mut server, &mut w);
    assert_eq!(result, Err(ResolveError::DownloadError("connection reset".to_string())));
    assert_eq!(
        result.unwrap_err().message(),
        "Failed to download binary: \"connection reset\""
    );
    assert!(!w.requests.contains(&Request::ListStorageRoot));
    assert_eq!(names(&w), vec![Some("text-language-server-v0".to_string())]);
    assert_eq!(server.cached_binary_path(), None);
}

#[test]
fn unlistable_storage_root_is_fatal() {
    let mut server = TextLanguageServer::new();
    let mut w = world("v1");
    w.listing = Err("Os { code: 13 }".to_string());
    let result = resolve(&mut server, &mut w);
    assert_eq!(result, Err(ResolveError::DirectoryReadError("Os { code: 13 }".to_string())));
    assert_eq!(result.unwrap_err().message(), "Failed to read directory: Os { code: 13 }");
    assert_eq!(w.requests.last(), Some(&Request::ListStorageRoot));
    assert_eq!(server.cached_binary_path(), None);
}

#[test]
fn unreadable_entry_aborts_the_scan() {
    let mut server = TextLanguageServer::new();
    let mut w = world("v2");
    w.root = vec![
        dir("text-language-server-v0"),
        Item { name: Some("broken".to_string()), readable: false, removable: true },
        dir("text-language-server-v1"),
    ];
    let result = resolve(&mut server, &mut w);
    assert_eq!(result, Err(ResolveError::DirectoryEntryError("unreadable".to_string())));
    assert_eq!(result.unwrap_err().message(), "Failed to read entry: unreadable");
    assert_eq!(
        names(&w),
        vec![
            Some("broken".to_string()),
            Some("text-language-server-v1".to_string()),
            Some("text-language-server-v2".to_string())
        ]
    );
    assert_eq!(server.cached_binary_path(), None);
}

#[test]
fn failure_after_an_install_keeps_the_earlier_cache() {
    let mut server = TextLanguageServer::new();
    let mut w = world("v1");
    let first = resolve(&mut server, &mut w).unwrap();
    w.files.clear();
    w.release = Err("offline".to_string());
    assert_eq!(resolve(&mut server, &mut w), Err(ResolveError::RegistryError("offline".to_string())));
    assert_eq!(server.cached_binary_path(), Some(first));
}

#[test]
fn stale_means_any_name_but_the_version_directory() {
    assert!(!is_stale(&Some("text-language-server-v2".to_string()), "v2"));
    assert!(is_stale(&Some("text-language-server-v1".to_string()), "v2"));
    assert!(is_stale(&Some("text-language-server-v2/".to_string()), "v2"));
    assert!(is_stale(&Some("v2".to_string()), "v2"));
    assert!(is_stale(&Some(String::new()), "v2"));
    assert!(is_stale(&None, "v2"));
}

#[test]
fn each_stage_waits_for_its_request() {
    assert_eq!(Stage::PathLookup.request(), which());
    assert_eq!(
        Stage::CacheCheck { path: "a/b".to_string() }.request(),
        Request::IsFile { path: "a/b".to_string() }
    );
    assert_eq!(
        Stage::UpdateNotice.request(),
        Request::Notify { status: Status::CheckingForUpdate }
    );
    assert_eq!(
        Stage::ReleaseLookup.request(),
        Request::LatestRelease {
            repo: "Lev1ty/text-language-server".to_string(),
            require_assets: true,
            pre_release: false,
        }
    );
    assert_eq!(
        Stage::PlatformQuery { release: release_of("v1") }.request(),
        Request::CurrentPlatform
    );
    assert_eq!(
        installing("v1", InstallPhase::BinaryCheck).request(),
        Request::IsFile { path: "text-language-server-v1/text-language-server".to_string() }
    );
    assert_eq!(
        installing("v1", InstallPhase::DownloadNotice).request(),
        Request::Notify { status: Status::Downloading }
    );
    assert_eq!(
        installing("v1", InstallPhase::Download).request(),
        Request::DownloadGzipTar {
            url: "https://example.com/v1/linux".to_string(),
            dir: "text-language-server-v1".to_string(),
        }
    );
    assert_eq!(installing("v1", InstallPhase::StorageListing).request(), Request::ListStorageRoot);
    assert_eq!(installing("v1", InstallPhase::EntryScan).request(), Request::NextEntry);
    assert_eq!(installing("v1", InstallPhase::EntryRemoval).request(), Request::RemoveEntry);
}

#[test]
fn reply_that_does_not_answer_changes_nothing() {
    let mut server = TextLanguageServer::new();
    assert_eq!(
        server.advance(Stage::PathLookup, Reply::IsFile(true)),
        Step::Next { stage: Stage::PathLookup, warning: None }
    );
    assert_eq!(
        server.advance(Stage::CacheCheck { path: "p".to_string() }, Reply::Notified),
        Step::Next { stage: Stage::CacheCheck { path: "p".to_string() }, warning: None }
    );
    assert_eq!(
        server.advance(Stage::UpdateNotice, Reply::Which(Some("p".to_string()))),
        Step::Next { stage: Stage::UpdateNotice, warning: None }
    );
    assert_eq!(
        server.advance(Stage::ReleaseLookup, Reply::Downloaded(Ok(()))),
        Step::Next { stage: Stage::ReleaseLookup, warning: None }
    );
    assert_eq!(
        server.advance(installing("v1", InstallPhase::Download), Reply::Entry(Entry::End)),
        Step::Next { stage: installing("v1", InstallPhase::Download), warning: None }
    );
    assert_eq!(
        server.advance(installing("v1", InstallPhase::EntryScan), Reply::Removed(Ok(()))),
        Step::Next { stage: installing("v1", InstallPhase::EntryScan), warning: None }
    );
    assert_eq!(
        server.advance(installing("v1", InstallPhase::BinaryCheck), Reply::Listing(Ok(()))),
        Step::Next { stage: installing("v1", InstallPhase::BinaryCheck), warning: None }
    );
    assert_eq!(server.cached_binary_path(), None);
}

#[test]
fn single_steps_of_an_install() {
    let mut server = TextLanguageServer::new();
    assert_eq!(
        server.advance(installing("v1", InstallPhase::BinaryCheck), Reply::IsFile(false)),
        Step::Next { stage: installing("v1", InstallPhase::DownloadNotice), warning: None }
    );
    assert_eq!(
        server.advance(installing("v1", InstallPhase::DownloadNotice), Reply::Notified),
        Step::Next { stage: installing("v1", InstallPhase::Download), warning: None }
    );
    assert_eq!(
        server.advance(installing("v1", InstallPhase::Download), Reply::Downloaded(Ok(()))),
        Step::Next { stage: installing("v1", InstallPhase::StorageListing), warning: None }
    );
    assert_eq!(
        server.advance(installing("v1", InstallPhase::StorageListing), Reply::Listing(Ok(()))),
        Step::Next { stage: installing("v1", InstallPhase::EntryScan), warning: None }
    );
    assert_eq!(
        server.advance(
            installing("v1", InstallPhase::EntryScan),
            Reply::Entry(Entry::Found { name: Some("text-language-server-v1".to_string()) })
        ),
        Step::Next { stage: installing("v1", InstallPhase::EntryScan), warning: None }
    );
    assert_eq!(
        server.advance(
            installing("v1", InstallPhase::EntryScan),
            Reply::Entry(Entry::Found { name: Some("text-language-server-v0".to_string()) })
        ),
        Step::Next { stage: installing("v1", InstallPhase::EntryRemoval), warning: None }
    );
    assert_eq!(
        server.advance(installing("v1", InstallPhase::EntryRemoval), Reply::Removed(Ok(()))),
        Step::Next { stage: installing("v1", InstallPhase::EntryScan), warning: None }
    );
    assert_eq!(
        server.advance(
            installing("v1", InstallPhase::EntryRemoval),
            Reply::Removed(Err("busy".to_string()))
        ),
        Step::Next {
            stage: installing("v1", InstallPhase::EntryScan),
            warning: Some(ResolveError::StalePruneError("busy".to_string())),
        }
    );
    assert_eq!(server.cached_binary_path(), None);
    assert_eq!(
        server.advance(installing("v1", InstallPhase::EntryScan), Reply::Entry(Entry::End)),
        Step::Done(Ok("text-language-server-v1/text-language-server".to_string()))
    );
    assert_eq!(
        server.cached_binary_path(),
        Some("text-language-server-v1/text-language-server".to_string())
    );
}

#[test]
fn single_steps_of_the_probe_and_lookup() {
    let mut server = TextLanguageServer::new();
    assert_eq!(
        server.advance(Stage::PathLookup, Reply::Which(None)),
        Step::Next { stage: Stage::UpdateNotice, warning: None }
    );
    assert_eq!(
        server.advance(Stage::CacheCheck { path: "gone".to_string() }, Reply::IsFile(false)),
        Step::Next { stage: Stage::UpdateNotice, warning: None }
    );
    assert_eq!(
        server.advance(Stage::CacheCheck { path: "here".to_string() }, Reply::IsFile(true)),
        Step::Done(Ok("here".to_string()))
    );
    assert_eq!(
        server.advance(Stage::UpdateNotice, Reply::Notified),
        Step::Next { stage: Stage::ReleaseLookup, warning: None }
    );
    assert_eq!(
        server.advance(Stage::ReleaseLookup, Reply::LatestRelease(Ok(release_of("v7")))),
        Step::Next { stage: Stage::PlatformQuery { release: release_of("v7") }, warning: None }
    );
    assert_eq!(
        server.advance(
            Stage::PlatformQuery { release: release_of("v7") },
            Reply::CurrentPlatform(Os::Linux, Architecture::X8664)
        ),
        Step::Next { stage: installing("v7", InstallPhase::BinaryCheck), warning: None }
    );
    assert_eq!(server.cached_binary_path(), None);
}

#[test]
fn requests_know_their_replies() {
    assert!(which().answered_by(&Reply::Which(None)));
    assert!(!which().answered_by(&Reply::IsFile(true)));
    assert!(Request::IsFile { path: "p".to_string() }.answered_by(&Reply::IsFile(false)));
    assert!(Request::Notify { status: Status::Downloading }.answered_by(&Reply::Notified));
    assert!(Request::CurrentPlatform.answered_by(&Reply::CurrentPlatform(Os::Mac, Architecture::X86)));
    assert!(Request::ListStorageRoot.answered_by(&Reply::Listing(Ok(()))));
    assert!(Request::NextEntry.answered_by(&Reply::Entry(Entry::End)));
    assert!(Request::RemoveEntry.answered_by(&Reply::Removed(Ok(()))));
    assert!(!Request::RemoveEntry.answered_by(&Reply::Entry(Entry::End)));
    assert!(Request::DownloadGzipTar { url: "u".to_string(), dir: "d".to_string() }
        .answered_by(&Reply::Downloaded(Err("e".to_string()))));
    assert!(Request::LatestRelease { repo: "r".to_string(), require_assets: true, pre_release: false }
        .answered_by(&Reply::LatestRelease(Err("e".to_string()))));
}

#[test]
fn only_registry_and_download_use_the_network() {
    assert!(Request::LatestRelease { repo: "r".to_string(), require_assets: true, pre_release: false }
        .uses_network());
    assert!(Request::DownloadGzipTar { url: "u".to_string(), dir: "d".to_string() }.uses_network());
    assert!(!which().uses_network());
    assert!(!Request::IsFile { path: "p".to_string() }.uses_network());
    assert!(!Request::Notify { status: Status::CheckingForUpdate }.uses_network());
    assert!(!Request::CurrentPlatform.uses_network());
    assert!(!Request::ListStorageRoot.uses_network());
    assert!(!Request::NextEntry.uses_network());
    assert!(!Request::RemoveEntry.uses_network());
}
