//! Platform descriptors and the naming conventions that follow from them:
//! the binary's file name, the release asset's file name, and the archive
//! format the asset comes in.

use vstd::prelude::*;
use vstd::string::StringExecFns;

verus! {

/// Operating system of the host platform, as reported by the editor.
#[derive(Clone, Copy, Debug, PartialEq, Eq, Structural)]
pub enum Os {
    Mac,
    Linux,
    Windows,
}

/// Processor architecture of the host platform, as reported by the editor.
#[derive(Clone, Copy, Debug, PartialEq, Eq, Structural)]
pub enum Arch {
    Aarch64,
    X86,
    X8664,
}

/// Archive format a release asset is packaged in.
#[derive(Clone, Copy, Debug, PartialEq, Eq, Structural)]
pub enum ArchiveKind {
    Zip,
    GzipTar,
}

/// Name of the language-server binary on Unix-like platforms.
pub open spec fn spec_name_unix() -> Seq<char> {
    "todo-highlight-lsp"@
}

/// Name of the language-server binary on Windows.
pub open spec fn spec_name_windows() -> Seq<char> {
    "todo-highlight-lsp.ext"@
}

/// The binary's file name for a platform: the Windows-suffixed name on
/// Windows, the plain name everywhere else.
pub open spec fn spec_bin_name(os: Os) -> Seq<char> {
    if os is Windows {
        spec_name_windows()
    } else {
        spec_name_unix()
    }
}

/// Operating-system token used in release asset names.
pub open spec fn spec_os_token(os: Os) -> Seq<char> {
    match os {
        Os::Mac => "darwin"@,
        Os::Linux => "linux"@,
        Os::Windows => "windows"@,
    }
}

/// Architecture token used in release asset names.
pub open spec fn spec_arch_token(arch: Arch) -> Seq<char> {
    match arch {
        Arch::Aarch64 => "arm64"@,
        Arch::X86 => "amd64"@,
        Arch::X8664 => "amd64"@,
    }
}

/// Archive extension used in release asset names.
pub open spec fn spec_archive_ext(os: Os) -> Seq<char> {
    if os is Windows {
        "zip"@
    } else {
        "tar.gz"@
    }
}

/// Archive format of the release asset for a platform.
pub open spec fn spec_archive_kind(os: Os) -> ArchiveKind {
    if os is Windows {
        ArchiveKind::Zip
    } else {
        ArchiveKind::GzipTar
    }
}

/// Expected file name of the release asset for a platform:
/// `todo-highlight-lsp-<os>-<arch>.<ext>`.
pub open spec fn spec_asset_name(os: Os, arch: Arch) -> Seq<char> {
    spec_name_unix() + "-"@ + spec_os_token(os) + "-"@ + spec_arch_token(arch) + "."@
        + spec_archive_ext(os)
}

/// Name of the directory a release version is unpacked into:
/// `todo-highlight-lsp-<version>`.
pub open spec fn spec_version_dir(version: Seq<char>) -> Seq<char> {
    spec_name_unix() + "-"@ + version
}

/// Path of a file inside a directory: `<dir>/<name>`.
pub open spec fn spec_join(dir: Seq<char>, name: Seq<char>) -> Seq<char> {
    dir + "/"@ + name
}

/// Path of the binary inside a release's version directory.
pub open spec fn spec_version_binary_path(version: Seq<char>, os: Os) -> Seq<char> {
    spec_join(spec_version_dir(version), spec_bin_name(os))
}

/// The binary's file name for a platform.
pub fn bin_name(platform: (Os, Arch)) -> (r: &'static str)
    ensures
        r@ == spec_bin_name(platform.0),
{
    match platform.0 {
        Os::Windows => "todo-highlight-lsp.ext",
        _ => "todo-highlight-lsp",
    }
}

/// The binary's file name is the Windows-suffixed one exactly on Windows;
/// the two names differ.
pub proof fn lemma_bin_name_windows_iff(os: Os)
    ensures
        spec_bin_name(os) == spec_name_windows() <==> os is Windows,
        spec_bin_name(os) == spec_name_unix() <==> !(os is Windows),
{
    reveal_strlit("todo-highlight-lsp");
    reveal_strlit("todo-highlight-lsp.ext");
    assert(spec_name_unix().len() == 18);
    assert(spec_name_windows().len() == 22);
}

/// Operating-system token used in release asset names.
pub fn os_token(os: Os) -> (r: &'static str)
    ensures
        r@ == spec_os_token(os),
{
    match os {
        Os::Mac => "darwin",
        Os::Linux => "linux",
        Os::Windows => "windows",
    }
}

/// Architecture token used in release asset names.
pub fn arch_token(arch: Arch) -> (r: &'static str)
    ensures
        r@ == spec_arch_token(arch),
{
    match arch {
        Arch::Aarch64 => "arm64",
        Arch::X86 => "amd64",
        Arch::X8664 => "amd64",
    }
}

/// Archive extension used in release asset names.
pub fn archive_ext(os: Os) -> (r: &'static str)
    ensures
        r@ == spec_archive_ext(os),
{
    match os {
        Os::Windows => "zip",
        _ => "tar.gz",
    }
}

/// Archive format of the release asset for a platform.
pub fn archive_kind(os: Os) -> (r: ArchiveKind)
    ensures
        r == spec_archive_kind(os),
{
    match os {
        Os::Windows => ArchiveKind::Zip,
        _ => ArchiveKind::GzipTar,
    }
}

/// Expected file name of the release asset for a platform.
pub fn asset_name(os: Os, arch: Arch) -> (r: String)
    ensures
        r@ == spec_asset_name(os, arch),
{
    let mut s = "todo-highlight-lsp".to_owned();
    s.append("-");
    s.append(os_token(os));
    s.append("-");
    s.append(arch_token(arch));
    s.append(".");
    s.append(archive_ext(os));
    s
}

/// Name of the directory a release version is unpacked into.
pub fn version_dir_name(version: &String) -> (r: String)
    ensures
        r@ == spec_version_dir(version@),
{
    let mut s = "todo-highlight-lsp".to_owned();
    s.append("-");
    s.append(version.as_str());
    s
}

/// Path of a file inside a directory.
pub fn join_path(dir: &String, name: &str) -> (r: String)
    ensures
        r@ == spec_join(dir@, name@),
{
    let mut s = dir.clone();
    s.append("/");
    s.append(name);
    s
}

} // verus!
