use crates_lsp_resolver::driver::Host;
use crates_lsp_resolver::error::ResolveError;
use crates_lsp_resolver::platform::{Architecture, ArchiveKind, Os};
use crates_lsp_resolver::protocol::Status;
use crates_lsp_resolver::release::{Asset, Release};
use crates_lsp_resolver::resolver::Resolver;

/// A host in memory: a working directory with entries and files, and one upstream release.
struct FakeHost {
    platform: (Os, Architecture),
    release: Result<Release, String>,
    files: Vec<String>,
    entries: Vec<Option<String>>,
    locked: Vec<String>,
    create_dir_error: Option<String>,
    download_error: Option<String>,
    make_executable_error: Option<String>,
    listing_fails: bool,
    listing: Vec<Option<String>>,
    log: Vec<String>,
}

fn release_of(version: &str) -> Release {
    let names = [
        "crates-lsp-aarch64-apple-darwin.tar.gz",
        "crates-lsp-x86_64-unknown-linux-gnu.tar.gz",
        "crates-lsp-x86_64-pc-windows-msvc.zip",
    ];
    Release {
        version: version.to_string(),
        assets: names
            .iter()
            .map(|n| Asset {
                name: n.to_string(),
                download_url: format!("https://example.test/{version}/{n}"),
            })
            .collect(),
    }
}

fn host(os: Os, arch: Architecture, version: &str) -> FakeHost {
    FakeHost {
        platform: (os, arch),
        release: Ok(release_of(version)),
        files: Vec::new(),
        entries: Vec::new(),
        locked: Vec::new(),
        create_dir_error: None,
        download_error: None,
        make_executable_error: None,
        listing_fails: false,
        listing: Vec::new(),
        log: Vec::new(),
    }
}

impl FakeHost {
    fn writes(&self) -> usize {
        self.log
            .iter()
            .filter(|l| {
                l.starts_with("fetch")
                    || l.starts_with("mkdir")
                    || l.starts_with("download")
                    || l.starts_with("chmod")
                    || l.starts_with("remove")
            })
            .count()
    }
}

impl Host for FakeHost {
    fn is_file(&mut self, path: &str) -> bool {
        self.log.push(format!("probe {path}"));
        self.files.iter().any(|f| f == path)
    }

    fn notify(&mut self, status: Status) {
        self.log.push(format!("notify {status:?}"));
    }

    fn latest_release(
        &mut self,
        repository: &str,
        require_assets: bool,
        pre_release: bool,
    ) -> Result<Release, String> {
        self.log.push(format!("fetch {repository} {require_assets} {pre_release}"));
        self.release.clone()
    }

    fn current_platform(&mut self) -> (Os, Architecture) {
        self.log.push("platform".to_string());
        self.platform
    }

    fn create_dir_all(&mut self, dir: &str) -> Result<(), String> {
        self.log.push(format!("mkdir {dir}"));
        if let Some(e) = &self.create_dir_error {
            return Err(e.clone());
        }
        if !self.entries.iter().any(|e| e.as_deref() == Some(dir)) {
            self.entries.push(Some(dir.to_string()));
        }
        Ok(())
    }

    fn download(&mut self, url: &str, dir: &str, archive: ArchiveKind) -> Result<(), String> {
        self.log.push(format!("download {url} {dir} {archive:?}"));
        if let Some(e) = &self.download_error {
            return Err(e.clone());
        }
        let bin = if self.platform.0 == Os::Windows { "crates-lsp.exe" } else { "crates-lsp" };
        self.files.push(format!("{dir}/{bin}"));
        Ok(())
    }

    fn make_executable(&mut self, path: &str) -> Result<(), String> {
        self.log.push(format!("chmod {path}"));
        match &self.make_executable_error {
            Some(e) => Err(e.clone()),
            None => Ok(()),
        }
    }

    fn list_working_dir(&mut self) -> Option<Vec<Option<String>>> {
        self.log.push("list".to_string());
        if self.listing_fails {
            return None;
        }
        self.listing = self.entries.clone();
        Some(self.entries.clone())
    }

    fn remove_entries(&mut self, positions: &Vec<usize>) -> usize {
        self.log.push(format!("remove {positions:?}"));
        let mut failures = 0;
        for p in positions {
            let name = self.listing[*p].clone();
            if let Some(n) = &name {
                if self.locked.contains(n) {
                    failures += 1;
                    continue;
                }
                let prefix = format!("{n}/");
                self.files.retain(|f| !f.starts_with(&prefix));
            }
            let at = self.entries.iter().position(|e| *e == name).unwrap();
            self.entries.remove(at);
        }
        failures
    }
}

#[test]
fn first_resolution_installs_the_latest_release() {
    let mut h = host(Os::Linux, Architecture::X8664, "0.1.4");
    let mut r = Resolver::new();
    assert_eq!(r.resolve(&mut h), Ok("crates-lsp-0.1.4/crates-lsp".to_string()));
    assert_eq!(
        h.log,
        vec![
            "notify CheckingForUpdate",
            "fetch MathiasPius/crates-lsp true false",
            "platform",
            "mkdir crates-lsp-0.1.4",
            "probe crates-lsp-0.1.4/crates-lsp",
            "notify Downloading",
            "download https://example.test/0.1.4/crates-lsp-x86_64-unknown-linux-gnu.tar.gz crates-lsp-0.1.4 GzipTar",
            "chmod crates-lsp-0.1.4/crates-lsp",
            "list",
            "remove []",
        ]
    );
    assert_eq!(h.entries, vec![Some("crates-lsp-0.1.4".to_string())]);
    assert!(r.is_idle());
    assert_eq!(r.cached_path(), Some("crates-lsp-0.1.4/crates-lsp".to_string()));
}

#[test]
fn second_resolution_only_probes_the_remembered_path() {
    let mut h = host(Os::Linux, Architecture::X8664, "0.1.4");
    let mut r = Resolver::new();
    let first = r.resolve(&mut h);
    h.log.clear();
    h.release = Ok(release_of("0.2.0"));
    let second = r.resolve(&mut h);
    assert_eq!(first, second);
    assert_eq!(second, Ok("crates-lsp-0.1.4/crates-lsp".to_string()));
    assert_eq!(h.log, vec!["probe crates-lsp-0.1.4/crates-lsp"]);
    assert_eq!(h.writes(), 0);
}

#[test]
fn deleted_binary_is_fetched_again() {
    let mut h = host(Os::Linux, Architecture::X8664, "0.1.4");
    let mut r = Resolver::new();
    r.resolve(&mut h).unwrap();
    h.files.clear();
    h.entries.clear();
    h.log.clear();
    assert_eq!(r.resolve(&mut h), Ok("crates-lsp-0.1.4/crates-lsp".to_string()));
    assert_eq!(h.log[0], "probe crates-lsp-0.1.4/crates-lsp");
    assert_eq!(h.log[1], "notify CheckingForUpdate");
    assert_eq!(h.log[2], "fetch MathiasPius/crates-lsp true false");
    assert!(h.log.iter().any(|l| l.starts_with("download ")));
    assert_eq!(h.files, vec!["crates-lsp-0.1.4/crates-lsp".to_string()]);
}

#[test]
fn deleted_binary_is_replaced_by_the_newer_release() {
    let mut h = host(Os::Mac, Architecture::Aarch64, "0.1.4");
    let mut r = Resolver::new();
    r.resolve(&mut h).unwrap();
    h.files.clear();
    h.release = Ok(release_of("0.2.0"));
    assert_eq!(r.resolve(&mut h), Ok("crates-lsp-0.2.0/crates-lsp".to_string()));
    assert_eq!(h.entries, vec![Some("crates-lsp-0.2.0".to_string())]);
    assert_eq!(r.cached_path(), Some("crates-lsp-0.2.0/crates-lsp".to_string()));
}

#[test]
fn missing_asset_is_an_error_and_nothing_is_downloaded() {
    let mut h = host(Os::Linux, Architecture::Aarch64, "0.1.4");
    let mut r = Resolver::new();
    let got = r.resolve(&mut h);
    assert_eq!(
        got,
        Err(ResolveError::AssetNotFound {
            name: "crates-lsp-aarch64-unknown-linux-gnu.tar.gz".to_string(),
        })
    );
    assert_eq!(
        got.unwrap_err().message(),
        "no asset found matching \"crates-lsp-aarch64-unknown-linux-gnu.tar.gz\""
    );
    assert_eq!(
        h.log,
        vec!["notify CheckingForUpdate", "fetch MathiasPius/crates-lsp true false", "platform"]
    );
    assert!(h.files.is_empty());
    assert!(h.entries.is_empty());
    assert_eq!(r.cached_path(), None);
}

#[test]
fn only_the_newest_version_directory_remains() {
    let mut h = host(Os::Linux, Architecture::X8664, "1.0.0");
    let mut first = Resolver::new();
    assert_eq!(first.resolve(&mut h), Ok("crates-lsp-1.0.0/crates-lsp".to_string()));
    h.release = Ok(release_of("2.0.0"));
    let mut second = Resolver::new();
    assert_eq!(second.resolve(&mut h), Ok("crates-lsp-2.0.0/crates-lsp".to_string()));
    assert_eq!(h.entries, vec![Some("crates-lsp-2.0.0".to_string())]);
    assert_eq!(h.files, vec!["crates-lsp-2.0.0/crates-lsp".to_string()]);
}

#[test]
fn entries_of_any_name_are_removed_after_an_install() {
    let mut h = host(Os::Linux, Architecture::X8664, "2.0.0");
    h.entries = vec![Some("crates-lsp-1.0.0".to_string()), None, Some("notes.txt".to_string())];
    let mut r = Resolver::new();
    assert_eq!(r.resolve(&mut h), Ok("crates-lsp-2.0.0/crates-lsp".to_string()));
    assert!(h.log.contains(&"remove [0, 1, 2]".to_string()));
    assert_eq!(h.entries, vec![Some("crates-lsp-2.0.0".to_string())]);
}

#[test]
fn denied_removal_does_not_fail_the_resolution() {
    let mut h = host(Os::Linux, Architecture::X8664, "1.0.0");
    Resolver::new().resolve(&mut h).unwrap();
    h.release = Ok(release_of("2.0.0"));
    h.locked.push("crates-lsp-1.0.0".to_string());
    let mut r = Resolver::new();
    assert_eq!(r.resolve(&mut h), Ok("crates-lsp-2.0.0/crates-lsp".to_string()));
    assert_eq!(
        h.entries,
        vec![Some("crates-lsp-1.0.0".to_string()), Some("crates-lsp-2.0.0".to_string())]
    );
    assert_eq!(r.cached_path(), Some("crates-lsp-2.0.0/crates-lsp".to_string()));
}

#[test]
fn resolve_survives_a_failed_listing() {
    let mut h = host(Os::Linux, Architecture::X8664, "1.0.0");
    h.listing_fails = true;
    let mut r = Resolver::new();
    assert_eq!(r.resolve(&mut h), Ok("crates-lsp-1.0.0/crates-lsp".to_string()));
    assert_eq!(h.log.last().unwrap(), "list");
}

#[test]
fn installed_version_is_reused_by_a_new_resolver() {
    let mut h = host(Os::Windows, Architecture::X8664, "1.0.0");
    Resolver::new().resolve(&mut h).unwrap();
    h.log.clear();
    let mut r = Resolver::new();
    assert_eq!(r.resolve(&mut h), Ok("crates-lsp-1.0.0/crates-lsp.exe".to_string()));
    assert_eq!(
        h.log,
        vec![
            "notify CheckingForUpdate",
            "fetch MathiasPius/crates-lsp true false",
            "platform",
            "mkdir crates-lsp-1.0.0",
            "probe crates-lsp-1.0.0/crates-lsp.exe",
            "list",
            "remove []",
        ]
    );
    assert_eq!(h.entries, vec![Some("crates-lsp-1.0.0".to_string())]);
    assert_eq!(r.cached_path(), Some("crates-lsp-1.0.0/crates-lsp.exe".to_string()));
}

#[test]
fn stale_version_is_removed_though_the_binary_is_installed() {
    let mut h = host(Os::Linux, Architecture::X8664, "2.0.0");
    h.entries = vec![Some("crates-lsp-1.0.0".to_string()), Some("crates-lsp-2.0.0".to_string())];
    h.files = vec![
        "crates-lsp-1.0.0/crates-lsp".to_string(),
        "crates-lsp-2.0.0/crates-lsp".to_string(),
    ];
    let mut r = Resolver::new();
    assert_eq!(r.resolve(&mut h), Ok("crates-lsp-2.0.0/crates-lsp".to_string()));
    assert!(!h.log.iter().any(|l| l.starts_with("download")));
    assert!(!h.log.iter().any(|l| l.starts_with("chmod")));
    assert!(!h.log.contains(&"notify Downloading".to_string()));
    assert!(h.log.contains(&"remove [0]".to_string()));
    assert_eq!(h.entries, vec![Some("crates-lsp-2.0.0".to_string())]);
    assert_eq!(h.files, vec!["crates-lsp-2.0.0/crates-lsp".to_string()]);
}

#[test]
fn denied_removal_beside_an_installed_binary_does_not_fail() {
    let mut h = host(Os::Linux, Architecture::X8664, "2.0.0");
    h.entries = vec![Some("crates-lsp-1.0.0".to_string()), Some("crates-lsp-2.0.0".to_string())];
    h.files = vec!["crates-lsp-2.0.0/crates-lsp".to_string()];
    h.locked.push("crates-lsp-1.0.0".to_string());
    let mut r = Resolver::new();
    assert_eq!(r.resolve(&mut h), Ok("crates-lsp-2.0.0/crates-lsp".to_string()));
    assert_eq!(h.entries.len(), 2);
}

#[test]
fn windows_downloads_a_zip() {
    let mut h = host(Os::Windows, Architecture::X8664, "1.0.0");
    Resolver::new().resolve(&mut h).unwrap();
    assert!(h.log.contains(
        &"download https://example.test/1.0.0/crates-lsp-x86_64-pc-windows-msvc.zip crates-lsp-1.0.0 Zip"
            .to_string()
    ));
}

#[test]
fn release_fetch_failure_is_returned_verbatim() {
    let mut h = host(Os::Linux, Architecture::X8664, "1.0.0");
    h.release = Err("no release found".to_string());
    let mut r = Resolver::new();
    let got = r.resolve(&mut h);
    assert_eq!(got, Err(ResolveError::ReleaseFetch { message: "no release found".to_string() }));
    assert_eq!(got.unwrap_err().message(), "no release found");
    assert_eq!(h.log.len(), 2);
}

#[test]
fn directory_creation_failure_stops_before_download() {
    let mut h = host(Os::Linux, Architecture::X8664, "1.0.0");
    h.create_dir_error = Some("read-only file system".to_string());
    let got = Resolver::new().resolve(&mut h);
    assert_eq!(
        got.unwrap_err().message(),
        "failed to create directory 'crates-lsp-1.0.0': read-only file system"
    );
    assert!(!h.log.iter().any(|l| l.starts_with("download")));
}

#[test]
fn download_failure_stops_before_cleanup() {
    let mut h = host(Os::Linux, Architecture::X8664, "1.0.0");
    h.entries.push(Some("crates-lsp-0.9.0".to_string()));
    h.download_error = Some("connection reset".to_string());
    let mut r = Resolver::new();
    let got = r.resolve(&mut h);
    assert_eq!(got.unwrap_err().message(), "failed to download file: connection reset");
    assert!(!h.log.iter().any(|l| l.starts_with("remove") || l == "list"));
    assert!(h.entries.contains(&Some("crates-lsp-0.9.0".to_string())));
    assert_eq!(r.cached_path(), None);
}

#[test]
fn permission_failure_stops_before_cleanup() {
    let mut h = host(Os::Linux, Architecture::X8664, "1.0.0");
    h.make_executable_error = Some("cannot chmod".to_string());
    let got = Resolver::new().resolve(&mut h);
    assert_eq!(got, Err(ResolveError::MakeExecutable { message: "cannot chmod".to_string() }));
    assert!(!h.log.iter().any(|l| l == "list"));
}

#[test]
fn failure_leaves_the_remembered_path_alone() {
    let mut h = host(Os::Linux, Architecture::X8664, "1.0.0");
    let mut r = Resolver::new();
    r.resolve(&mut h).unwrap();
    h.files.clear();
    h.release = Err("offline".to_string());
    assert!(r.resolve(&mut h).is_err());
    assert_eq!(r.cached_path(), Some("crates-lsp-1.0.0/crates-lsp".to_string()));
    assert!(r.is_idle());
}

#[test]
fn resolve_drops_an_unfinished_resolution() {
    let mut h = host(Os::Linux, Architecture::X8664, "1.0.0");
    let mut r = Resolver::new();
    r.advance(crates_lsp_resolver::protocol::Event::Requested);
    assert!(!r.is_idle());
    assert_eq!(r.resolve(&mut h), Ok("crates-lsp-1.0.0/crates-lsp".to_string()));
    assert_eq!(h.log[0], "notify CheckingForUpdate");
}
