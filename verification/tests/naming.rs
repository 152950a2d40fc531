use todo_highlight::platform::{asset_name, bin_name, join_path, version_dir_name};
use todo_highlight::release::select_asset;
use todo_highlight::{Arch, Asset, Os, ResolveError, Resolver};

#[test]
fn extension_can_build() {
    let _ = Resolver::new();
}

#[test]
fn binary_name() {
    assert_eq!(bin_name((Os::Windows, Arch::Aarch64)), "todo-highlight-lsp.ext");
    assert_eq!(bin_name((Os::Mac, Arch::X8664)), "todo-highlight-lsp");
}

#[test]
fn binary_name_windows_suffix_iff_windows() {
    for arch in [Arch::Aarch64, Arch::X86, Arch::X8664] {
        assert_eq!(bin_name((Os::Windows, arch)), "todo-highlight-lsp.ext");
        assert_eq!(bin_name((Os::Mac, arch)), "todo-highlight-lsp");
        assert_eq!(bin_name((Os::Linux, arch)), "todo-highlight-lsp");
    }
}

#[test]
fn asset_names_by_platform() {
    assert_eq!(
        asset_name(Os::Mac, Arch::Aarch64),
        "todo-highlight-lsp-darwin-arm64.tar.gz"
    );
    assert_eq!(
        asset_name(Os::Linux, Arch::X86),
        "todo-highlight-lsp-linux-amd64.tar.gz"
    );
    assert_eq!(
        asset_name(Os::Linux, Arch::X8664),
        "todo-highlight-lsp-linux-amd64.tar.gz"
    );
    assert_eq!(
        asset_name(Os::Windows, Arch::X8664),
        "todo-highlight-lsp-windows-amd64.zip"
    );
    assert_eq!(
        asset_name(Os::Windows, Arch::Aarch64),
        "todo-highlight-lsp-windows-arm64.zip"
    );
}

#[test]
fn version_dir_and_binary_path() {
    let dir = version_dir_name(&"v1.2.0".to_string());
    assert_eq!(dir, "todo-highlight-lsp-v1.2.0");
    let path = join_path(&dir, "todo-highlight-lsp");
    assert_eq!(path, "todo-highlight-lsp-v1.2.0/todo-highlight-lsp");
}

#[test]
fn select_asset_picks_first_match() {
    let assets = vec![
        Asset {
            name: "todo-highlight-lsp-darwin-arm64.tar.gz".to_string(),
            download_url: "https://example.invalid/darwin".to_string(),
        },
        Asset {
            name: "todo-highlight-lsp-linux-amd64.tar.gz".to_string(),
            download_url: "https://example.invalid/linux".to_string(),
        },
    ];
    let url = select_asset(&assets, &asset_name(Os::Mac, Arch::Aarch64));
    assert_eq!(url, Some("https://example.invalid/darwin".to_string()));
    let url = select_asset(&assets, &asset_name(Os::Linux, Arch::X8664));
    assert_eq!(url, Some("https://example.invalid/linux".to_string()));
}

#[test]
fn select_asset_misses_absent_platform() {
    let assets = vec![
        Asset {
            name: "todo-highlight-lsp-darwin-arm64.tar.gz".to_string(),
            download_url: "https://example.invalid/darwin".to_string(),
        },
        Asset {
            name: "todo-highlight-lsp-linux-amd64.tar.gz".to_string(),
            download_url: "https://example.invalid/linux".to_string(),
        },
    ];
    assert_eq!(select_asset(&assets, &asset_name(Os::Windows, Arch::X86)), None);
}

#[test]
fn error_messages() {
    assert_eq!(
        ResolveError::ReleaseQueryFailed("boom".to_string()).message(),
        "boom"
    );
    assert_eq!(
        ResolveError::NoMatchingAsset("todo-highlight-lsp-windows-amd64.zip".to_string()).message(),
        "no asset found matching \"todo-highlight-lsp-windows-amd64.zip\""
    );
    assert_eq!(
        ResolveError::DownloadFailed("timed out".to_string()).message(),
        "failed to download file: timed out"
    );
    assert_eq!(
        ResolveError::DirectoryListFailed("denied".to_string()).message(),
        "failed to list working directory denied"
    );
    assert_eq!(
        ResolveError::DirectoryEntryFailed("denied".to_string()).message(),
        "failed to load directory entry denied"
    );
}
