use todo_highlight::{
    Action, Arch, ArchiveKind, Asset, Event, Os, ReleaseInfo, ResolveError, Resolver, Status,
};

fn release_v120() -> ReleaseInfo {
    ReleaseInfo {
        version: "v1.2.0".to_string(),
        assets: vec![
            Asset {
                name: "todo-highlight-lsp-darwin-arm64.tar.gz".to_string(),
                download_url: "https://example.invalid/darwin".to_string(),
            },
            Asset {
                name: "todo-highlight-lsp-linux-amd64.tar.gz".to_string(),
                download_url: "https://example.invalid/linux".to_string(),
            },
        ],
    }
}

#[test]
fn end_to_end_install() {
    // No cache, no environment match, no local directory, release v1.2.0
    // with a matching asset: download, extract, prune, return the path.
    let mut r = Resolver::new();
    let out = r.start(Os::Mac, Arch::Aarch64);
    assert_eq!(out, vec![Action::SearchPath("todo-highlight-lsp".to_string())]);
    let out = r.step(Event::PathFound(None));
    assert_eq!(out, vec![Action::ListSubdirs]);
    let out = r.step(Event::Subdirs(vec![]));
    assert_eq!(out, vec![Action::FetchRelease]);
    let out = r.step(Event::Release(Ok(release_v120())));
    assert_eq!(
        out,
        vec![Action::CheckFile("todo-highlight-lsp-v1.2.0/todo-highlight-lsp".to_string())]
    );
    let out = r.step(Event::FileExists(false));
    assert_eq!(
        out,
        vec![
            Action::Report(Status::Downloading),
            Action::Fetch {
                url: "https://example.invalid/darwin".to_string(),
                dest_dir: "todo-highlight-lsp-v1.2.0".to_string(),
                kind: ArchiveKind::GzipTar,
            },
        ]
    );
    let out = r.step(Event::Fetched(Ok(())));
    assert_eq!(out, vec![Action::ListEntries]);
    let out = r.step(Event::Entries(Ok(vec![Ok("todo-highlight-lsp-v1.2.0".to_string())])));
    assert_eq!(
        out,
        vec![
            Action::Report(Status::Idle),
            Action::Finish(Ok("todo-highlight-lsp-v1.2.0/todo-highlight-lsp".to_string())),
        ]
    );
    assert_eq!(
        r.cached_binary_path,
        Some("todo-highlight-lsp-v1.2.0/todo-highlight-lsp".to_string())
    );
}

#[test]
fn pruning_removes_exactly_the_strangers() {
    // After a successful install of v1.2.0, every other entry of the
    // working directory is removed, the version directory kept.
    let mut r = Resolver::new();
    r.start(Os::Linux, Arch::X8664);
    r.step(Event::PathFound(None));
    r.step(Event::Subdirs(vec![]));
    r.step(Event::Release(Ok(release_v120())));
    r.step(Event::FileExists(false));
    r.step(Event::Fetched(Ok(())));
    let out = r.step(Event::Entries(Ok(vec![
        Ok("todo-highlight-lsp-v1.1.9".to_string()),
        Ok("todo-highlight-lsp-v1.2.0".to_string()),
        Ok("stray-file.txt".to_string()),
    ])));
    assert_eq!(
        out,
        vec![
            Action::Remove("todo-highlight-lsp-v1.1.9".to_string()),
            Action::Remove("stray-file.txt".to_string()),
            Action::Report(Status::Idle),
            Action::Finish(Ok("todo-highlight-lsp-v1.2.0/todo-highlight-lsp".to_string())),
        ]
    );
}

#[test]
fn up_to_date_is_idempotent() {
    // With the version directory already holding the binary, a resolution
    // ends right after the release check: no download, no status change,
    // and the same path each time.
    let expected = "todo-highlight-lsp-v1.2.0/todo-highlight-lsp".to_string();
    let mut r = Resolver::new();
    let mut first_path = None;
    for round in 0..2 {
        let out = if round == 0 {
            r.start(Os::Mac, Arch::Aarch64)
        } else {
            // The path cached by the first round no longer exists on disk
            // in this scenario, so the second round falls through too.
            let out = r.start(Os::Mac, Arch::Aarch64);
            assert_eq!(out, vec![Action::CheckFile(expected.clone())]);
            r.step(Event::FileExists(false))
        };
        assert_eq!(out.len(), 1);
        r.step(Event::PathFound(None));
        r.step(Event::Subdirs(vec![]));
        r.step(Event::Release(Ok(release_v120())));
        let out = r.step(Event::FileExists(true));
        assert_eq!(out, vec![Action::Finish(Ok(expected.clone()))]);
        if round == 0 {
            first_path = Some(expected.clone());
        } else {
            assert_eq!(first_path, Some(expected.clone()));
        }
    }
}

#[test]
fn cached_path_returned_while_it_exists() {
    let mut r = Resolver::new();
    r.start(Os::Linux, Arch::X8664);
    r.step(Event::PathFound(None));
    r.step(Event::Subdirs(vec![]));
    r.step(Event::Release(Ok(release_v120())));
    r.step(Event::FileExists(true));
    let out = r.start(Os::Linux, Arch::X8664);
    assert_eq!(
        out,
        vec![Action::CheckFile("todo-highlight-lsp-v1.2.0/todo-highlight-lsp".to_string())]
    );
    let out = r.step(Event::FileExists(true));
    assert_eq!(
        out,
        vec![
            Action::Report(Status::Idle),
            Action::Finish(Ok("todo-highlight-lsp-v1.2.0/todo-highlight-lsp".to_string())),
        ]
    );
}

#[test]
fn stale_cache_falls_through() {
    // A cached path that no longer exists is never returned: the resolver
    // goes on to the environment lookup instead.
    let mut r = Resolver::new();
    r.start(Os::Linux, Arch::X8664);
    r.step(Event::PathFound(None));
    r.step(Event::Subdirs(vec![]));
    r.step(Event::Release(Ok(release_v120())));
    r.step(Event::FileExists(true));
    assert!(r.cached_binary_path.is_some());
    let out = r.start(Os::Linux, Arch::X8664);
    assert_eq!(out.len(), 1);
    let out = r.step(Event::FileExists(false));
    assert_eq!(out, vec![Action::SearchPath("todo-highlight-lsp".to_string())]);
    let out = r.step(Event::PathFound(Some("/usr/bin/todo-highlight-lsp".to_string())));
    assert_eq!(
        out,
        vec![Action::Finish(Ok("/usr/bin/todo-highlight-lsp".to_string()))]
    );
}

#[test]
fn environment_path_wins_without_caching() {
    let mut r = Resolver::new();
    let out = r.start(Os::Windows, Arch::X8664);
    assert_eq!(out, vec![Action::SearchPath("todo-highlight-lsp.ext".to_string())]);
    let out = r.step(Event::PathFound(Some("C:\\tools\\todo-highlight-lsp.ext".to_string())));
    assert_eq!(
        out,
        vec![Action::Finish(Ok("C:\\tools\\todo-highlight-lsp.ext".to_string()))]
    );
    assert_eq!(r.cached_binary_path, None);
}

#[test]
fn local_directory_scan_finds_binary_and_probes() {
    // A subdirectory already holds the binary: it is returned even though
    // the update probe's release query fails, and the path is cached.
    let mut r = Resolver::new();
    r.start(Os::Linux, Arch::X8664);
    r.step(Event::PathFound(None));
    let out = r.step(Event::Subdirs(vec![
        "unrelated".to_string(),
        "todo-highlight-lsp-v1.1.0".to_string(),
    ]));
    assert_eq!(out, vec![Action::CheckFile("unrelated/todo-highlight-lsp".to_string())]);
    let out = r.step(Event::FileExists(false));
    assert_eq!(
        out,
        vec![Action::CheckFile("todo-highlight-lsp-v1.1.0/todo-highlight-lsp".to_string())]
    );
    let out = r.step(Event::FileExists(true));
    assert_eq!(out, vec![Action::FetchRelease]);
    let out = r.step(Event::Release(Err("rate limited".to_string())));
    assert_eq!(
        out,
        vec![Action::Finish(Ok("todo-highlight-lsp-v1.1.0/todo-highlight-lsp".to_string()))]
    );
    assert_eq!(
        r.cached_binary_path,
        Some("todo-highlight-lsp-v1.1.0/todo-highlight-lsp".to_string())
    );
}

#[test]
fn no_matching_asset_is_a_hard_failure() {
    // Release published without a Windows build: NoMatchingAsset, reported
    // as Failed, after the Downloading report.
    let mut r = Resolver::new();
    r.start(Os::Windows, Arch::X86);
    r.step(Event::PathFound(None));
    r.step(Event::Subdirs(vec![]));
    r.step(Event::Release(Ok(release_v120())));
    let out = r.step(Event::FileExists(false));
    let wanted = "todo-highlight-lsp-windows-amd64.zip".to_string();
    assert_eq!(
        out,
        vec![
            Action::Report(Status::Downloading),
            Action::Report(Status::Failed(format!(
                "no asset found matching \"{}\"",
                wanted
            ))),
            Action::Finish(Err(ResolveError::NoMatchingAsset(wanted))),
        ]
    );
}

#[test]
fn release_query_failure_is_reported() {
    let mut r = Resolver::new();
    r.start(Os::Linux, Arch::X8664);
    r.step(Event::PathFound(None));
    r.step(Event::Subdirs(vec![]));
    let out = r.step(Event::Release(Err("no release found".to_string())));
    assert_eq!(
        out,
        vec![
            Action::Report(Status::Failed("no release found".to_string())),
            Action::Finish(Err(ResolveError::ReleaseQueryFailed("no release found".to_string()))),
        ]
    );
}

#[test]
fn download_failure_is_reported() {
    let mut r = Resolver::new();
    r.start(Os::Mac, Arch::Aarch64);
    r.step(Event::PathFound(None));
    r.step(Event::Subdirs(vec![]));
    r.step(Event::Release(Ok(release_v120())));
    r.step(Event::FileExists(false));
    let out = r.step(Event::Fetched(Err("connection reset".to_string())));
    assert_eq!(
        out,
        vec![
            Action::Report(Status::Failed("failed to download file: connection reset".to_string())),
            Action::Finish(Err(ResolveError::DownloadFailed("connection reset".to_string()))),
        ]
    );
}

#[test]
fn unreadable_entry_stops_pruning() {
    // Entries before the unreadable one are still removed; the resolution
    // fails with the entry's error.
    let mut r = Resolver::new();
    r.start(Os::Linux, Arch::X8664);
    r.step(Event::PathFound(None));
    r.step(Event::Subdirs(vec![]));
    r.step(Event::Release(Ok(release_v120())));
    r.step(Event::FileExists(false));
    r.step(Event::Fetched(Ok(())));
    let out = r.step(Event::Entries(Ok(vec![
        Ok("old-version".to_string()),
        Err("permission denied".to_string()),
        Ok("never-reached".to_string()),
    ])));
    assert_eq!(
        out,
        vec![
            Action::Remove("old-version".to_string()),
            Action::Report(Status::Failed(
                "failed to load directory entry permission denied".to_string()
            )),
            Action::Finish(Err(ResolveError::DirectoryEntryFailed("permission denied".to_string()))),
        ]
    );
}

#[test]
fn directory_list_failure_is_reported() {
    let mut r = Resolver::new();
    r.start(Os::Linux, Arch::X8664);
    r.step(Event::PathFound(None));
    r.step(Event::Subdirs(vec![]));
    r.step(Event::Release(Ok(release_v120())));
    r.step(Event::FileExists(false));
    r.step(Event::Fetched(Ok(())));
    let out = r.step(Event::Entries(Err("disk gone".to_string())));
    assert_eq!(
        out,
        vec![
            Action::Report(Status::Failed("failed to list working directory disk gone".to_string())),
            Action::Finish(Err(ResolveError::DirectoryListFailed("disk gone".to_string()))),
        ]
    );
}
