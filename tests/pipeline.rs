use k8s_context_server::{
    cache_directory, expected_asset_name, file_path, find_asset, join_path, list_names,
    sanitize_working_dir, stale_entries, Action, Arch, ArchiveFormat, Asset, Event, Installer,
    LaunchError, Os, Platform, Release, Stage, ToolConfig,
};

fn config() -> ToolConfig {
    ToolConfig { tool: "mcp-k8s-go".to_string(), repo: "strowk/mcp-k8s-go".to_string() }
}

fn asset(name: &str) -> Asset {
    Asset { name: name.to_string(), download_url: format!("https://example.com/{name}") }
}

fn release(version: &str, names: &[&str]) -> Release {
    Release { version: version.to_string(), assets: names.iter().map(|n| asset(n)).collect() }
}

fn linux() -> Platform {
    Platform { os: Os::Linux, arch: Arch::X8664 }
}

const LINUX_ASSET: &str = "mcp-k8s-go_Linux_x86_64.tar.gz";

/// Runs an installer up to the working-directory step, with the asset present or not.
fn through_check(platform: Platform, names: &[&str], present: bool) -> (Installer, Action) {
    let (mut inst, first) = Installer::new(config(), platform);
    match first {
        Action::FetchRelease { repo, pre_release, require_assets } => {
            assert_eq!(repo, "strowk/mcp-k8s-go");
            assert!(!pre_release);
            assert!(require_assets);
        }
        _ => panic!("expected a release lookup"),
    }
    match inst.step(Event::ReleaseFetched(Ok(release("v1.2.0", names)))) {
        Action::CreateDirectory { path } => assert_eq!(path, "mcp-k8s-go-v1.2.0"),
        _ => panic!("expected directory creation"),
    }
    let asset_name = expected_asset_name("mcp-k8s-go", platform);
    match inst.step(Event::DirectoryCreated(Ok(()))) {
        Action::CheckAsset { path } => assert_eq!(path, format!("mcp-k8s-go-v1.2.0/{asset_name}")),
        _ => panic!("expected an asset check"),
    }
    let a = inst.step(Event::AssetChecked(present));
    assert!(matches!(a, Action::ResolveWorkingDir));
    (inst, a)
}

#[test]
fn asset_names_follow_template_for_every_platform() {
    let cases = [
        (Os::Mac, Arch::Aarch64, "mcp-k8s-go_Darwin_arm64.tar.gz"),
        (Os::Mac, Arch::X86, "mcp-k8s-go_Darwin_i386.tar.gz"),
        (Os::Mac, Arch::X8664, "mcp-k8s-go_Darwin_x86_64.tar.gz"),
        (Os::Linux, Arch::Aarch64, "mcp-k8s-go_Linux_arm64.tar.gz"),
        (Os::Linux, Arch::X86, "mcp-k8s-go_Linux_i386.tar.gz"),
        (Os::Linux, Arch::X8664, "mcp-k8s-go_Linux_x86_64.tar.gz"),
        (Os::Windows, Arch::Aarch64, "mcp-k8s-go_Windows_arm64.zip"),
        (Os::Windows, Arch::X86, "mcp-k8s-go_Windows_i386.zip"),
        (Os::Windows, Arch::X8664, "mcp-k8s-go_Windows_x86_64.zip"),
    ];
    for (os, arch, expected) in cases {
        assert_eq!(expected_asset_name("mcp-k8s-go", Platform { os, arch }), expected);
    }
}

#[test]
fn windows_path_is_sanitized() {
    assert_eq!(sanitize_working_dir(Os::Windows, "C:\\work\\proj"), "C:/work/proj");
    assert_eq!(sanitize_working_dir(Os::Windows, "/C:\\work\\proj"), "C:/work/proj");
    assert_eq!(sanitize_working_dir(Os::Windows, "\\d:\\x"), "d:/x");
    assert_eq!(sanitize_working_dir(Os::Windows, "/tmp/a"), "/tmp/a");
    assert_eq!(sanitize_working_dir(Os::Windows, ""), "");
}

#[test]
fn unix_paths_are_kept() {
    assert_eq!(sanitize_working_dir(Os::Linux, "/home/u\\x"), "/home/u\\x");
    assert_eq!(sanitize_working_dir(Os::Mac, "/C:/x"), "/C:/x");
}

#[test]
fn joining_paths() {
    assert_eq!(join_path("/work", "a"), "/work/a");
    assert_eq!(join_path("/work/", "a"), "/work/a");
    assert_eq!(join_path("", "a"), "a");
    assert_eq!(join_path("/work", "/abs"), "/abs");
    assert_eq!(join_path("C:/work", "a"), "C:/work/a");
}

#[test]
fn cache_layout() {
    assert_eq!(cache_directory("mcp-k8s-go", "v0.3.1"), "mcp-k8s-go-v0.3.1");
    assert_eq!(file_path("mcp-k8s-go-v0.3.1", LINUX_ASSET), format!("mcp-k8s-go-v0.3.1/{LINUX_ASSET}"));
}

#[test]
fn finds_first_exact_match() {
    let assets = vec![asset("a.zip"), asset("A.zip"), asset("a.zip")];
    assert_eq!(find_asset(&assets, &"a.zip".to_string()), Some(0));
    assert_eq!(find_asset(&assets, &"A.zip".to_string()), Some(1));
    assert_eq!(find_asset(&assets, &"b.zip".to_string()), None);
    assert_eq!(find_asset(&vec![], &"a.zip".to_string()), None);
    assert_eq!(list_names(&assets), "a.zip, A.zip, a.zip");
    assert_eq!(list_names(&vec![]), "");
}

#[test]
fn fresh_install_downloads_then_flags_then_evicts() {
    let (mut inst, _) = through_check(linux(), &["other.zip", LINUX_ASSET], false);
    match inst.step(Event::WorkingDirResolved(Ok("/ext/work".to_string()))) {
        Action::Download { url, path, format } => {
            assert_eq!(url, format!("https://example.com/{LINUX_ASSET}"));
            assert_eq!(path, format!("mcp-k8s-go-v1.2.0/{LINUX_ASSET}"));
            assert_eq!(format, ArchiveFormat::GzipTar);
        }
        _ => panic!("expected a download"),
    }
    match inst.step(Event::Downloaded(Ok(()))) {
        Action::MakeExecutable { path } => {
            assert_eq!(path, format!("mcp-k8s-go-v1.2.0/{LINUX_ASSET}/mcp-k8s-go"))
        }
        _ => panic!("expected the executable flag"),
    }
    match inst.step(Event::MadeExecutable(Ok(()))) {
        Action::ListDirectory { path } => assert_eq!(path, "/ext/work"),
        _ => panic!("expected a listing"),
    }
    let entries = vec!["mcp-k8s-go-v1.1.0".to_string(), "mcp-k8s-go-v1.2.0".to_string(), "junk".to_string()];
    match inst.step(Event::DirectoryListed(Ok(entries))) {
        Action::RemoveEntries { names } => assert_eq!(names, vec!["mcp-k8s-go-v1.1.0", "junk"]),
        _ => panic!("expected eviction"),
    }
    match inst.step(Event::EntriesRemoved) {
        Action::Finish(Ok(c)) => {
            assert_eq!(c.command, format!("/ext/work/mcp-k8s-go-v1.2.0/{LINUX_ASSET}/mcp-k8s-go"));
            assert!(c.args.is_empty());
            assert!(c.env.is_empty());
        }
        _ => panic!("expected a command"),
    }
    assert_eq!(inst.stage(), Stage::Finished);
}

#[test]
fn cached_asset_skips_download_and_still_gives_command() {
    let (mut inst, _) = through_check(linux(), &[LINUX_ASSET], true);
    match inst.step(Event::WorkingDirResolved(Ok("/ext/work".to_string()))) {
        Action::ListDirectory { path } => assert_eq!(path, "/ext/work"),
        _ => panic!("a cached asset must not be downloaded"),
    }
    match inst.step(Event::DirectoryListed(Ok(vec!["mcp-k8s-go-v1.2.0".to_string()]))) {
        Action::RemoveEntries { names } => assert!(names.is_empty()),
        _ => panic!("expected eviction"),
    }
    match inst.step(Event::EntriesRemoved) {
        Action::Finish(Ok(c)) => {
            assert_eq!(c.command, format!("/ext/work/mcp-k8s-go-v1.2.0/{LINUX_ASSET}/mcp-k8s-go"))
        }
        _ => panic!("expected a command"),
    }
}

#[test]
fn eviction_keeps_only_current_version() {
    let entries = vec![
        "mcp-k8s-go-v0.9.0".to_string(),
        "mcp-k8s-go-v1.2.0".to_string(),
        "mcp-k8s-go-v1.0.0".to_string(),
    ];
    let stale = stale_entries(&entries, &"mcp-k8s-go-v1.2.0".to_string());
    assert_eq!(stale, vec!["mcp-k8s-go-v0.9.0", "mcp-k8s-go-v1.0.0"]);
    let kept: Vec<&String> = entries.iter().filter(|e| !stale.contains(e)).collect();
    assert_eq!(kept, vec!["mcp-k8s-go-v1.2.0"]);
    assert!(stale_entries(&vec![], &"x".to_string()).is_empty());
}

#[test]
fn windows_install_uses_zip_exe_and_sanitized_path() {
    let win = Platform { os: Os::Windows, arch: Arch::X8664 };
    let name = "mcp-k8s-go_Windows_x86_64.zip";
    let (mut inst, _) = through_check(win, &[name], false);
    match inst.step(Event::WorkingDirResolved(Ok("/C:\\ext\\work".to_string()))) {
        Action::Download { format, .. } => assert_eq!(format, ArchiveFormat::Zip),
        _ => panic!("expected a download"),
    }
    match inst.step(Event::Downloaded(Ok(()))) {
        Action::MakeExecutable { path } => {
            assert_eq!(path, format!("mcp-k8s-go-v1.2.0/{name}/mcp-k8s-go.exe"))
        }
        _ => panic!("expected the executable flag"),
    }
    match inst.step(Event::MadeExecutable(Ok(()))) {
        Action::ListDirectory { path } => assert_eq!(path, "C:/ext/work"),
        _ => panic!("expected a listing"),
    }
    inst.step(Event::DirectoryListed(Ok(vec![])));
    match inst.step(Event::EntriesRemoved) {
        Action::Finish(Ok(c)) => {
            assert_eq!(c.command, format!("C:/ext/work/mcp-k8s-go-v1.2.0/{name}/mcp-k8s-go.exe"))
        }
        _ => panic!("expected a command"),
    }
}

#[test]
fn failed_release_lookup_is_release_fetch_error() {
    let (mut inst, _) = Installer::new(config(), linux());
    match inst.step(Event::ReleaseFetched(Err("no release found".to_string()))) {
        Action::Finish(Err(e)) => {
            assert!(matches!(e, LaunchError::ReleaseFetch { .. }));
            assert_eq!(e.message(), "no release found");
        }
        _ => panic!("expected a release-fetch error and no directory"),
    }
    assert_eq!(inst.stage(), Stage::Finished);
    assert!(!inst.accepts(&Event::DirectoryCreated(Ok(()))));
}

#[test]
fn missing_asset_names_expected_and_offered() {
    let (mut inst, _) = Installer::new(config(), linux());
    let rel = release("v1.2.0", &["mcp-k8s-go_linux_x86_64.tar.gz", "checksums.txt"]);
    match inst.step(Event::ReleaseFetched(Ok(rel))) {
        Action::Finish(Err(e)) => {
            match &e {
                LaunchError::AssetNotFound { expected, assets } => {
                    assert_eq!(expected, LINUX_ASSET);
                    assert_eq!(assets.len(), 2);
                }
                _ => panic!("expected asset-not-found"),
            }
            assert_eq!(
                e.message(),
                format!("could not find asset {LINUX_ASSET} in [mcp-k8s-go_linux_x86_64.tar.gz, checksums.txt]")
            );
        }
        _ => panic!("expected an error"),
    }
}

#[test]
fn directory_create_error() {
    let (mut inst, _) = Installer::new(config(), linux());
    inst.step(Event::ReleaseFetched(Ok(release("v2", &[LINUX_ASSET]))));
    match inst.step(Event::DirectoryCreated(Err("denied".to_string()))) {
        Action::Finish(Err(e)) => {
            assert!(matches!(e, LaunchError::DirectoryCreate { .. }));
            assert_eq!(e.message(), "could not create directory mcp-k8s-go-v2 due to 'denied'");
        }
        _ => panic!("expected an error"),
    }
}

#[test]
fn working_dir_error() {
    let (mut inst, _) = through_check(linux(), &[LINUX_ASSET], false);
    match inst.step(Event::WorkingDirResolved(Err("not text".to_string()))) {
        Action::Finish(Err(e)) => {
            assert!(matches!(e, LaunchError::PathConversion { .. }));
            assert_eq!(e.message(), "could not resolve working directory: not text");
        }
        _ => panic!("expected an error"),
    }
}

#[test]
fn download_error() {
    let (mut inst, _) = through_check(linux(), &[LINUX_ASSET], false);
    inst.step(Event::WorkingDirResolved(Ok("/w".to_string())));
    match inst.step(Event::Downloaded(Err("timeout".to_string()))) {
        Action::RemoveAsset { path } => {
            assert_eq!(path, format!("mcp-k8s-go-v1.2.0/{LINUX_ASSET}"))
        }
        _ => panic!("expected the partial download to be removed"),
    }
    assert!(!inst.accepts(&Event::EntriesRemoved));
    match inst.step(Event::AssetRemoved) {
        Action::Finish(Err(e)) => {
            assert!(matches!(e, LaunchError::Download { .. }));
            assert_eq!(e.message(), "could not download file: timeout")
        }
        _ => panic!("expected an error"),
    }
}

#[test]
fn executable_flag_error() {
    let (mut inst, _) = through_check(linux(), &[LINUX_ASSET], false);
    inst.step(Event::WorkingDirResolved(Ok("/w".to_string())));
    inst.step(Event::Downloaded(Ok(())));
    match inst.step(Event::MadeExecutable(Err("no such file".to_string()))) {
        Action::RemoveAsset { path } => {
            assert_eq!(path, format!("mcp-k8s-go-v1.2.0/{LINUX_ASSET}"))
        }
        _ => panic!("expected the downloaded asset to be removed"),
    }
    match inst.step(Event::AssetRemoved) {
        Action::Finish(Err(e)) => {
            assert!(matches!(e, LaunchError::ExecutableFlag { .. }));
            assert_eq!(e.message(), "could not make file executable: no such file")
        }
        _ => panic!("expected an error"),
    }
}

#[test]
fn directory_list_error() {
    let (mut inst, _) = through_check(linux(), &[LINUX_ASSET], true);
    inst.step(Event::WorkingDirResolved(Ok("/w".to_string())));
    match inst.step(Event::DirectoryListed(Err("gone".to_string()))) {
        Action::Finish(Err(e)) => {
            assert!(matches!(e, LaunchError::DirectoryList { .. }));
            assert_eq!(e.message(), "failed to list working directory: gone")
        }
        _ => panic!("expected an error"),
    }
}

#[test]
fn installer_accepts_only_awaited_event() {
    let (inst, _) = Installer::new(config(), linux());
    assert_eq!(inst.stage(), Stage::AwaitRelease);
    assert!(inst.accepts(&Event::ReleaseFetched(Err(String::new()))));
    assert!(!inst.accepts(&Event::EntriesRemoved));
}

/// Runs one launch against a set of existing paths, with the executable-flag
/// fix-up failing or not; returns whether the launch asked for a download and
/// whether it produced a command.
fn launch(disk: &mut Vec<String>, flag_fails: bool) -> (bool, bool) {
    let (mut inst, mut action) = Installer::new(config(), linux());
    let mut downloaded = false;
    loop {
        let event = match action {
            Action::FetchRelease { .. } => {
                Event::ReleaseFetched(Ok(release("v1.2.0", &[LINUX_ASSET])))
            }
            Action::CreateDirectory { path } => {
                if !disk.contains(&path) {
                    disk.push(path);
                }
                Event::DirectoryCreated(Ok(()))
            }
            Action::CheckAsset { path } => Event::AssetChecked(disk.contains(&path)),
            Action::ResolveWorkingDir => Event::WorkingDirResolved(Ok("/w".to_string())),
            Action::Download { path, .. } => {
                downloaded = true;
                disk.push(path);
                Event::Downloaded(Ok(()))
            }
            Action::MakeExecutable { .. } => {
                if flag_fails {
                    Event::MadeExecutable(Err("denied".to_string()))
                } else {
                    Event::MadeExecutable(Ok(()))
                }
            }
            Action::RemoveAsset { path } => {
                disk.retain(|p| *p != path);
                Event::AssetRemoved
            }
            Action::ListDirectory { .. } => Event::DirectoryListed(Ok(vec![])),
            Action::RemoveEntries { .. } => Event::EntriesRemoved,
            Action::Finish(outcome) => return (downloaded, outcome.is_ok()),
        };
        assert!(inst.accepts(&event));
        action = inst.step(event);
    }
}

#[test]
fn failed_fixup_is_not_cached_and_next_launch_downloads_again() {
    let mut disk = Vec::new();
    assert_eq!(launch(&mut disk, true), (true, false));
    assert!(!disk.contains(&format!("mcp-k8s-go-v1.2.0/{LINUX_ASSET}")));
    assert_eq!(launch(&mut disk, false), (true, true));
    assert!(disk.contains(&format!("mcp-k8s-go-v1.2.0/{LINUX_ASSET}")));
    assert_eq!(launch(&mut disk, false), (false, true));
}
