use mcp_server_buildkite::error::ExtensionError;
use mcp_server_buildkite::platform::{ArchiveFormat, Architecture, Os};
use mcp_server_buildkite::release::{Asset, Release};
use mcp_server_buildkite::resolver::{BuildkiteMCPExtension, Event, Resolution, Step};

const DIR: &str = "buildkite-mcp-server-v1.2.3";
const BIN: &str = "buildkite-mcp-server-v1.2.3/buildkite-mcp-server";
const URL: &str = "https://example.com/buildkite-mcp-server_Linux_x86_64.tar.gz";

fn release() -> Release {
    Release {
        version: "v1.2.3".to_string(),
        assets: vec![
            Asset { name: "checksums.txt".to_string(), download_url: "https://example.com/sums".to_string() },
            Asset {
                name: "buildkite-mcp-server_Linux_x86_64.tar.gz".to_string(),
                download_url: URL.to_string(),
            },
        ],
    }
}

fn fetch_release(ext: &BuildkiteMCPExtension) -> Resolution {
    let (r, step) = Resolution::start(&ext.cached_binary_path, Os::Linux, Architecture::X8664);
    match step {
        Step::FetchRelease(q) => {
            assert_eq!(q.repo, "buildkite/buildkite-mcp-server");
            assert!(q.require_assets);
            assert!(!q.pre_release);
        }
        _ => panic!("expected a release query"),
    }
    r
}

fn finished_path(step: Step) -> String {
    match step {
        Step::Finish(Ok(p)) => p,
        Step::Finish(Err(e)) => panic!("resolution failed: {}", e.message()),
        _ => panic!("resolution did not finish"),
    }
}

#[test]
fn new_extension_remembers_nothing() {
    assert!(BuildkiteMCPExtension::new().cached_binary_path.is_none());
}

#[test]
fn first_resolution_downloads_then_second_uses_cache() {
    let mut ext = BuildkiteMCPExtension::new();
    let mut r = fetch_release(&ext);

    match r.advance(&mut ext, Event::ReleaseFetched(Ok(release()))) {
        Step::CreateDir(d) => assert_eq!(d, DIR),
        _ => panic!("expected directory creation"),
    }
    match r.advance(&mut ext, Event::DirCreated(Ok(()))) {
        Step::CheckFile(p) => assert_eq!(p, BIN),
        _ => panic!("expected a file check"),
    }
    match r.advance(&mut ext, Event::FileChecked(false)) {
        Step::Download(d) => {
            assert_eq!(d.url, URL);
            assert_eq!(d.dir, DIR);
            assert_eq!(d.format, ArchiveFormat::GzipTar);
        }
        _ => panic!("expected a download"),
    }
    match r.advance(&mut ext, Event::Downloaded(Ok(()))) {
        Step::MakeExecutable(p) => assert_eq!(p, BIN),
        _ => panic!("expected marking executable"),
    }
    assert!(matches!(r.advance(&mut ext, Event::MadeExecutable(Ok(()))), Step::ListRoot));
    let listing = vec!["buildkite-mcp-server-v1.0.0".to_string(), DIR.to_string()];
    match r.advance(&mut ext, Event::RootListed(Ok(listing))) {
        Step::Remove(names) => assert_eq!(names, vec!["buildkite-mcp-server-v1.0.0".to_string()]),
        _ => panic!("expected removal of stale entries"),
    }
    assert!(ext.cached_binary_path.is_none());
    assert_eq!(finished_path(r.advance(&mut ext, Event::EntriesRemoved)), BIN);
    assert_eq!(ext.cached_binary_path.as_deref(), Some(BIN));

    let (mut again, step) = Resolution::start(&ext.cached_binary_path, Os::Linux, Architecture::X8664);
    match step {
        Step::CheckFile(p) => assert_eq!(p, BIN),
        _ => panic!("expected only an existence check"),
    }
    assert_eq!(finished_path(again.advance(&mut ext, Event::FileChecked(true))), BIN);
}

#[test]
fn cached_path_that_vanished_triggers_full_resolution() {
    let mut ext = BuildkiteMCPExtension { cached_binary_path: Some(BIN.to_string()) };
    let (mut r, step) = Resolution::start(&ext.cached_binary_path, Os::Linux, Architecture::X8664);
    assert!(matches!(step, Step::CheckFile(_)));
    assert!(matches!(r.advance(&mut ext, Event::FileChecked(false)), Step::FetchRelease(_)));
}

#[test]
fn present_binary_skips_download_but_still_cleans() {
    let mut ext = BuildkiteMCPExtension::new();
    let mut r = fetch_release(&ext);
    assert!(matches!(r.advance(&mut ext, Event::ReleaseFetched(Ok(release()))), Step::CreateDir(_)));
    assert!(matches!(r.advance(&mut ext, Event::DirCreated(Ok(()))), Step::CheckFile(_)));
    assert!(matches!(r.advance(&mut ext, Event::FileChecked(true)), Step::ListRoot));
    match r.advance(&mut ext, Event::RootListed(Ok(vec![DIR.to_string()]))) {
        Step::Remove(names) => assert!(names.is_empty()),
        _ => panic!("expected removal step"),
    }
    assert_eq!(finished_path(r.advance(&mut ext, Event::EntriesRemoved)), BIN);
}

#[test]
fn missing_release_fails_without_disk_changes() {
    let mut ext = BuildkiteMCPExtension::new();
    let mut r = fetch_release(&ext);
    match r.advance(&mut ext, Event::ReleaseFetched(Err("no release".to_string()))) {
        Step::Finish(Err(ExtensionError::ReleaseNotFound(repo, cause))) => {
            assert_eq!(repo, "buildkite/buildkite-mcp-server");
            assert_eq!(cause, "no release");
        }
        _ => panic!("expected ReleaseNotFound"),
    }
    assert!(ext.cached_binary_path.is_none());
}

#[test]
fn missing_asset_fails_without_download() {
    let mut ext = BuildkiteMCPExtension::new();
    let (mut r, _) = Resolution::start(&ext.cached_binary_path, Os::Windows, Architecture::Aarch64);
    match r.advance(&mut ext, Event::ReleaseFetched(Ok(release()))) {
        Step::Finish(Err(ExtensionError::AssetNotFound(name))) => {
            assert_eq!(name, "buildkite-mcp-server_Windows_arm64.zip")
        }
        _ => panic!("expected AssetNotFound"),
    }
}

#[test]
fn failures_after_release_map_to_their_kinds() {
    let mut ext = BuildkiteMCPExtension::new();

    let mut r = fetch_release(&ext);
    r.advance(&mut ext, Event::ReleaseFetched(Ok(release())));
    match r.advance(&mut ext, Event::DirCreated(Err("denied".to_string()))) {
        Step::Finish(Err(ExtensionError::IoError(c))) => assert_eq!(c, "denied"),
        _ => panic!("expected IoError"),
    }

    let mut r = fetch_release(&ext);
    r.advance(&mut ext, Event::ReleaseFetched(Ok(release())));
    r.advance(&mut ext, Event::DirCreated(Ok(())));
    r.advance(&mut ext, Event::FileChecked(false));
    match r.advance(&mut ext, Event::Downloaded(Err("reset".to_string()))) {
        Step::Finish(Err(ExtensionError::DownloadFailed(u, c))) => {
            assert_eq!(u, URL);
            assert_eq!(c, "reset");
        }
        _ => panic!("expected DownloadFailed"),
    }

    let mut r = fetch_release(&ext);
    r.advance(&mut ext, Event::ReleaseFetched(Ok(release())));
    r.advance(&mut ext, Event::DirCreated(Ok(())));
    r.advance(&mut ext, Event::FileChecked(false));
    r.advance(&mut ext, Event::Downloaded(Ok(())));
    match r.advance(&mut ext, Event::MadeExecutable(Err("chmod".to_string()))) {
        Step::Finish(Err(ExtensionError::PlatformApiError(c))) => assert_eq!(c, "chmod"),
        _ => panic!("expected PlatformApiError"),
    }

    let mut r = fetch_release(&ext);
    r.advance(&mut ext, Event::ReleaseFetched(Ok(release())));
    r.advance(&mut ext, Event::DirCreated(Ok(())));
    r.advance(&mut ext, Event::FileChecked(true));
    match r.advance(&mut ext, Event::RootListed(Err("unreadable".to_string()))) {
        Step::Finish(Err(ExtensionError::IoError(c))) => assert_eq!(c, "unreadable"),
        _ => panic!("expected IoError"),
    }
    assert!(ext.cached_binary_path.is_none());
}

#[test]
fn unexpected_event_ends_resolution() {
    let mut ext = BuildkiteMCPExtension::new();
    let mut r = fetch_release(&ext);
    assert!(matches!(
        r.advance(&mut ext, Event::EntriesRemoved),
        Step::Finish(Err(ExtensionError::InternalError(_)))
    ));
    assert!(matches!(
        r.advance(&mut ext, Event::FileChecked(true)),
        Step::Finish(Err(ExtensionError::InternalError(_)))
    ));
}
