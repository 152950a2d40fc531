//! The resolver itself, as an explicit state machine.
//!
//! A resolution runs as a dialogue with the host: `start` and `step` return
//! the actions the host must perform next (check a file, search the ambient
//! path, query the release source, download, remove an entry, report a
//! status), and the host hands the outcome of the last action back as an
//! `Event`. All decisions — in which order candidates are tried, when a
//! download is needed, which directory entries are pruned, which status is
//! reported — are made here; the host only executes them.

use vstd::prelude::*;

use crate::error::{ErrKind, ResolveError, Status, spec_message_of};
use crate::platform::{
    Arch, ArchiveKind, Os, archive_kind, asset_name, bin_name, join_path, spec_asset_name,
    spec_bin_name, spec_join, spec_version_binary_path, spec_version_dir, version_dir_name,
};
use crate::release::{Asset, ReleaseInfo, select_asset, spec_has_asset};

verus! {

/// Where a resolution stands: which action the host was asked to perform,
/// together with everything needed to act on its outcome.
#[derive(Debug, PartialEq, Eq)]
pub enum State {
    /// No resolution is running.
    Idle,
    /// Waiting to hear whether the cached binary path still names a file.
    CacheCheck { path: String },
    /// Waiting for the ambient search-path lookup of the binary's name.
    EnvCheck,
    /// Waiting for the names of the working directory's subdirectories.
    DirScan,
    /// Waiting to hear whether subdirectory `dirs[idx]` holds the binary.
    ScanCheck { dirs: Vec<String>, idx: usize },
    /// Waiting for the latest release. `probe` is the already-found binary
    /// path when this is only a best-effort update check.
    ReleaseWait { probe: Option<String> },
    /// Waiting to hear whether the release's binary is already unpacked at
    /// `binary_path`.
    VersionCheck {
        probe: Option<String>,
        assets: Vec<Asset>,
        version_dir: String,
        binary_path: String,
    },
    /// Waiting for the download and unpack of the selected asset.
    DownloadWait { probe: Option<String>, version_dir: String, binary_path: String },
    /// Waiting for the working directory's entries, to prune stale versions.
    PruneWait { probe: Option<String>, version_dir: String, binary_path: String },
}

/// What the host is asked to do next. Only the last action of a batch calls
/// for an answer; `Report` and `Remove` are fire-and-forget, and failures of
/// `Remove` are ignored.
#[derive(Debug, PartialEq, Eq)]
pub enum Action {
    /// Answer with `Event::FileExists`: is there a regular file at this path?
    CheckFile(String),
    /// Answer with `Event::PathFound`: where, if anywhere, does the ambient
    /// search path resolve a binary of this name?
    SearchPath(String),
    /// Answer with `Event::Subdirs`: the names of the working directory's
    /// subdirectories (empty if the directory cannot be read).
    ListSubdirs,
    /// Answer with `Event::Release`: the latest release with downloadable
    /// assets, pre-releases excluded.
    FetchRelease,
    /// Report this installation status to the host. No answer.
    Report(Status),
    /// Answer with `Event::Fetched`: download the archive at `url` and
    /// unpack it, in the given format, into directory `dest_dir`.
    Fetch { url: String, dest_dir: String, kind: ArchiveKind },
    /// Answer with `Event::Entries`: every entry of the working directory.
    ListEntries,
    /// Remove this working-directory entry, recursively, best effort.
    /// No answer; failures are ignored.
    Remove(String),
    /// The resolution is over with this result. No answer.
    Finish(Result<String, ResolveError>),
}

/// The host's answer to the last action that called for one.
#[derive(Debug, PartialEq, Eq)]
pub enum Event {
    /// Whether a regular file exists at the path asked about.
    FileExists(bool),
    /// The path the ambient search path resolves the binary to, if any.
    PathFound(Option<String>),
    /// The names of the working directory's subdirectories.
    Subdirs(Vec<String>),
    /// The latest release, or the release source's error message.
    Release(Result<ReleaseInfo, String>),
    /// Whether the download and unpack succeeded, with the error message
    /// when it did not.
    Fetched(Result<(), String>),
    /// The working directory's entries: each one its name, or an error
    /// message if that entry could not be read. `Err` on the outside if the
    /// directory itself could not be listed.
    Entries(Result<Vec<Result<String, String>>, String>),
}

/// The binary resolver: the process-lifetime path cache plus the state of
/// the resolution in flight, if one is.
#[derive(Debug)]
pub struct Resolver {
    /// Last successfully installed binary path, if any. Re-validated, never
    /// trusted, at the start of each resolution.
    pub cached_binary_path: Option<String>,
    /// Operating system of the current resolution.
    pub os: Os,
    /// Architecture of the current resolution.
    pub arch: Arch,
    /// Where the current resolution stands.
    pub state: State,
}

// ---------------------------------------------------------------------------
// What a single emitted action is, stated over views.
// ---------------------------------------------------------------------------
/// `a` asks whether a regular file exists at `path`.
pub open spec fn a_check_file(a: Action, path: Seq<char>) -> bool {
    a matches Action::CheckFile(p) && p@ == path
}

/// `a` asks the ambient search path for a binary named `name`.
pub open spec fn a_search(a: Action, name: Seq<char>) -> bool {
    a matches Action::SearchPath(n) && n@ == name
}

/// `a` reports that no installation is in progress.
pub open spec fn a_report_idle(a: Action) -> bool {
    a matches Action::Report(s) && s is Idle
}

/// `a` reports that a download is in progress.
pub open spec fn a_report_downloading(a: Action) -> bool {
    a matches Action::Report(s) && s is Downloading
}

/// `a` reports a failure with message `msg`.
pub open spec fn a_report_failed(a: Action, msg: Seq<char>) -> bool {
    a matches Action::Report(s) && s matches Status::Failed(m) && m@ == msg
}

/// `a` asks for the download of `url`, unpacked as `kind` into `dest`.
pub open spec fn a_fetch(a: Action, url: Seq<char>, dest: Seq<char>, kind: ArchiveKind) -> bool {
    a matches Action::Fetch { url: u, dest_dir: d, kind: k } && u@ == url && d@ == dest && k
        == kind
}

/// `a` asks for the removal of the working-directory entry `name`.
pub open spec fn a_remove(a: Action, name: Seq<char>) -> bool {
    a matches Action::Remove(n) && n@ == name
}

/// `a` ends the resolution successfully with the binary path `path`.
pub open spec fn a_finish_ok(a: Action, path: Seq<char>) -> bool {
    a matches Action::Finish(r) && r matches Ok(p) && p@ == path
}

/// `a` ends the resolution with a failure of kind `k` carrying detail `d`.
pub open spec fn a_finish_err(a: Action, k: ErrKind, d: Seq<char>) -> bool {
    a matches Action::Finish(r) && r matches Err(e) && e.kind() == k && e.spec_detail() == d
}

/// The actions `out` are exactly one removal per name in `names`, in order.
pub open spec fn removes_of(out: Seq<Action>, names: Seq<Seq<char>>) -> bool {
    out.len() == names.len() && (forall|i: int|
        0 <= i < out.len() ==> a_remove(#[trigger] out[i], names[i]))
}

// ---------------------------------------------------------------------------
// The transition relation, one predicate per waiting state.
// ---------------------------------------------------------------------------
/// The path cache is unchanged between `pre` and `post`.
pub open spec fn cache_same(pre: Resolver, post: Resolver) -> bool {
    post.cached_binary_path == pre.cached_binary_path
}

/// The path cache of `post` holds `p`.
pub open spec fn cache_set(post: Resolver, p: Seq<char>) -> bool {
    post.cached_binary_path matches Some(c) && c@ == p
}

/// Two optional paths agree, compared by view.
pub open spec fn opt_view_eq(a: Option<String>, b: Option<String>) -> bool {
    match (a, b) {
        (Some(x), Some(y)) => x@ == y@,
        (None, None) => true,
        _ => false,
    }
}

/// The resolution ends as the original's best-effort update check does when
/// `probe` holds an already-found binary, and as a hard failure of kind `k`
/// with detail `d` otherwise: the probe swallows the error and returns the
/// found binary (caching it), while the hard failure is reported to the host
/// and surfaced to the caller, the cache left alone.
pub open spec fn fail_or_probe(
    pre: Resolver,
    probe: Option<String>,
    k: ErrKind,
    d: Seq<char>,
    post: Resolver,
    out: Seq<Action>,
) -> bool {
    post.state is Idle && match probe {
        Some(f) => cache_set(post, f@) && out.len() == 1 && a_finish_ok(out[0], f@),
        None => cache_same(pre, post) && out.len() == 2 && a_report_failed(
            out[0],
            spec_message_of(k, d),
        ) && a_finish_err(out[1], k, d),
    }
}

/// From `CacheCheck`: a still-existing cached path is returned as-is with an
/// idle status report; a stale one is ignored and the ambient search path is
/// tried next.
pub open spec fn step_cache_check(
    pre: Resolver,
    path: Seq<char>,
    exists_now: bool,
    post: Resolver,
    out: Seq<Action>,
) -> bool {
    cache_same(pre, post) && if exists_now {
        post.state is Idle && out.len() == 2 && a_report_idle(out[0]) && a_finish_ok(out[1], path)
    } else {
        post.state is EnvCheck && out.len() == 1 && a_search(out[0], spec_bin_name(pre.os))
    }
}

/// From `EnvCheck`: a path found on the ambient search path is returned
/// without being cached; otherwise the working directory is scanned.
pub open spec fn step_env_check(
    pre: Resolver,
    found: Option<String>,
    post: Resolver,
    out: Seq<Action>,
) -> bool {
    cache_same(pre, post) && match found {
        Some(p) => post.state is Idle && out.len() == 1 && a_finish_ok(out[0], p@),
        None => post.state is DirScan && out.len() == 1 && out[0] is ListSubdirs,
    }
}

/// From `DirScan`: with no subdirectory to try, a full install begins;
/// otherwise the first subdirectory is checked for the binary.
pub open spec fn step_dir_scan(
    pre: Resolver,
    dirs: Vec<String>,
    post: Resolver,
    out: Seq<Action>,
) -> bool {
    cache_same(pre, post) && if dirs@.len() == 0 {
        (post.state matches State::ReleaseWait { probe } && probe is None) && out.len() == 1
            && out[0] is FetchRelease
    } else {
        (post.state matches State::ScanCheck { dirs: d, idx } && d@ == dirs@ && idx == 0)
            && out.len() == 1 && a_check_file(out[0], spec_join(dirs@[0]@, spec_bin_name(pre.os)))
    }
}

/// From `ScanCheck`: a subdirectory that holds the binary makes the rest of
/// the resolution a best-effort update check for that binary; otherwise the
/// next subdirectory is tried, and when none is left a full install begins.
pub open spec fn step_scan_check(
    pre: Resolver,
    dirs: Vec<String>,
    idx: int,
    exists_now: bool,
    post: Resolver,
    out: Seq<Action>,
) -> bool {
    cache_same(pre, post) && if exists_now {
        (post.state matches State::ReleaseWait { probe } && probe matches Some(f) && f@
            == spec_join(dirs@[idx]@, spec_bin_name(pre.os))) && out.len() == 1
            && out[0] is FetchRelease
    } else if idx + 1 < dirs@.len() {
        (post.state matches State::ScanCheck { dirs: d, idx: i } && d@ == dirs@ && i == idx + 1)
            && out.len() == 1 && a_check_file(
            out[0],
            spec_join(dirs@[idx + 1]@, spec_bin_name(pre.os)),
        )
    } else {
        (post.state matches State::ReleaseWait { probe } && probe is None) && out.len() == 1
            && out[0] is FetchRelease
    }
}

/// From `ReleaseWait`: a release pins the version directory and binary path
/// to its version string, and that binary is checked first; a failed query
/// ends the resolution as `fail_or_probe` says.
pub open spec fn step_release_wait(
    pre: Resolver,
    probe: Option<String>,
    res: Result<ReleaseInfo, String>,
    post: Resolver,
    out: Seq<Action>,
) -> bool {
    match res {
        Ok(rel) => cache_same(pre, post) && (post.state matches State::VersionCheck {
            probe: p2,
            assets,
            version_dir,
            binary_path,
        } && opt_view_eq(p2, probe) && assets@ == rel.assets@ && version_dir@ == spec_version_dir(
            rel.version@,
        ) && binary_path@ == spec_version_binary_path(rel.version@, pre.os)) && out.len() == 1
            && a_check_file(out[0], spec_version_binary_path(rel.version@, pre.os)),
        Err(e) => fail_or_probe(pre, probe, ErrKind::ReleaseQuery, e@, post, out),
    }
}

/// From `VersionCheck`: if the release's binary is already on disk the
/// resolution ends with it at once — nothing is downloaded, no status is
/// reported, and the path is cached. Otherwise a download is announced and
/// the first asset whose name matches the platform's expected asset name is
/// fetched into the version directory; a release without such an asset is a
/// hard `NoAsset` failure.
pub open spec fn step_version_check(
    pre: Resolver,
    probe: Option<String>,
    assets: Vec<Asset>,
    version_dir: Seq<char>,
    binary_path: Seq<char>,
    exists_now: bool,
    post: Resolver,
    out: Seq<Action>,
) -> bool {
    let an = spec_asset_name(pre.os, pre.arch);
    if exists_now {
        post.state is Idle && match probe {
            Some(f) => cache_set(post, f@) && out.len() == 1 && a_finish_ok(out[0], f@),
            None => cache_set(post, binary_path) && out.len() == 1 && a_finish_ok(
                out[0],
                binary_path,
            ),
        }
    } else if spec_has_asset(assets@, an) {
        cache_same(pre, post) && (post.state matches State::DownloadWait {
            probe: p2,
            version_dir: vd,
            binary_path: bp,
        } && opt_view_eq(p2, probe) && vd@ == version_dir && bp@ == binary_path) && out.len() == 2
            && a_report_downloading(out[0]) && (exists|i: int|
            0 <= i < assets@.len() && assets@[i].name@ == an && (forall|j: int|
                0 <= j < i ==> assets@[j].name@ != an) && a_fetch(
                out[1],
                assets@[i].download_url@,
                version_dir,
                crate::platform::spec_archive_kind(pre.os),
            ))
    } else {
        post.state is Idle && a_report_downloading(out[0]) && match probe {
            Some(f) => cache_set(post, f@) && out.len() == 2 && a_finish_ok(out[1], f@),
            None => cache_same(pre, post) && out.len() == 3 && a_report_failed(
                out[1],
                spec_message_of(ErrKind::NoAsset, an),
            ) && a_finish_err(out[2], ErrKind::NoAsset, an),
        }
    }
}

/// From `DownloadWait`: a successful download moves on to pruning; a failed
/// one ends the resolution as `fail_or_probe` says.
pub open spec fn step_download_wait(
    pre: Resolver,
    probe: Option<String>,
    version_dir: Seq<char>,
    binary_path: Seq<char>,
    res: Result<(), String>,
    post: Resolver,
    out: Seq<Action>,
) -> bool {
    match res {
        Ok(_) => cache_same(pre, post) && (post.state matches State::PruneWait {
            probe: p2,
            version_dir: vd,
            binary_path: bp,
        } && opt_view_eq(p2, probe) && vd@ == version_dir && bp@ == binary_path) && out.len() == 1
            && out[0] is ListEntries,
        Err(e) => fail_or_probe(pre, probe, ErrKind::Download, e@, post, out),
    }
}

/// The names to remove while pruning: the names of the readable entries of
/// `entries` other than `keep`, in order.
pub open spec fn spec_prune_names(entries: Seq<Result<String, String>>, keep: Seq<char>) -> Seq<
    Seq<char>,
>
    decreases entries.len(),
{
    if entries.len() == 0 {
        Seq::empty()
    } else {
        let front = spec_prune_names(entries.drop_last(), keep);
        match entries.last() {
            Ok(name) => if name@ != keep {
                front.push(name@)
            } else {
                front
            },
            Err(_) => front,
        }
    }
}

/// Every entry of `entries` was readable.
pub open spec fn spec_all_ok(entries: Seq<Result<String, String>>) -> bool {
    forall|i: int| 0 <= i < entries.len() ==> (#[trigger] entries[i]) is Ok
}

/// From `PruneWait`, with the working directory's entries in hand: every
/// readable entry not named like the version directory is removed, in
/// order. If all entries were readable the resolution ends successfully —
/// with the freshly installed binary path, cached, or with the probe's
/// already-found binary. A directory that could not be listed, or a first
/// unreadable entry (reached after the removals before it), ends the
/// resolution as `fail_or_probe` says.
pub open spec fn step_prune_wait(
    pre: Resolver,
    probe: Option<String>,
    version_dir: Seq<char>,
    binary_path: Seq<char>,
    res: Result<Vec<Result<String, String>>, String>,
    post: Resolver,
    out: Seq<Action>,
) -> bool {
    match res {
        Err(e) => fail_or_probe(pre, probe, ErrKind::DirList, e@, post, out),
        Ok(entries) => if spec_all_ok(entries@) {
            let removes = spec_prune_names(entries@, version_dir);
            post.state is Idle && out.len() == removes.len() + 2 && removes_of(
                out.take(removes.len() as int),
                removes,
            ) && a_report_idle(out[removes.len() as int]) && match probe {
                Some(f) => cache_set(post, f@) && a_finish_ok(out.last(), f@),
                None => cache_set(post, binary_path) && a_finish_ok(out.last(), binary_path),
            }
        } else {
            exists|k: int|
                0 <= k < entries@.len() && (forall|j: int|
                    0 <= j < k ==> (#[trigger] entries@[j]) is Ok) && ((#[trigger] entries@[k])
                    matches Err(m) && {
                    let removes = spec_prune_names(entries@.take(k), version_dir);
                    removes_of(out.take(removes.len() as int), removes) && match probe {
                        Some(f) => post.state is Idle && cache_set(post, f@) && out.len()
                            == removes.len() + 1 && a_finish_ok(out.last(), f@),
                        None => post.state is Idle && cache_same(pre, post) && out.len()
                            == removes.len() + 2 && a_report_failed(
                            out[removes.len() as int],
                            spec_message_of(ErrKind::DirEntry, m@),
                        ) && a_finish_err(out.last(), ErrKind::DirEntry, m@),
                    }
                })
        },
    }
}

/// The whole transition relation: what `step` does from each waiting state,
/// for the event that state expects.
pub open spec fn spec_step(pre: Resolver, ev: Event, post: Resolver, out: Seq<Action>) -> bool {
    match pre.state {
        State::Idle => false,
        State::CacheCheck { path } => ev matches Event::FileExists(b) && step_cache_check(
            pre,
            path@,
            b,
            post,
            out,
        ),
        State::EnvCheck => ev matches Event::PathFound(found) && step_env_check(
            pre,
            found,
            post,
            out,
        ),
        State::DirScan => ev matches Event::Subdirs(dirs) && step_dir_scan(pre, dirs, post, out),
        State::ScanCheck { dirs, idx } => ev matches Event::FileExists(b) && step_scan_check(
            pre,
            dirs,
            idx as int,
            b,
            post,
            out,
        ),
        State::ReleaseWait { probe } => ev matches Event::Release(res) && step_release_wait(
            pre,
            probe,
            res,
            post,
            out,
        ),
        State::VersionCheck { probe, assets, version_dir, binary_path } => ev matches Event::FileExists(
            b,
        ) && step_version_check(
            pre,
            probe,
            assets,
            version_dir@,
            binary_path@,
            b,
            post,
            out,
        ),
        State::DownloadWait { probe, version_dir, binary_path } => ev matches Event::Fetched(res)
            && step_download_wait(pre, probe, version_dir@, binary_path@, res, post, out),
        State::PruneWait { probe, version_dir, binary_path } => ev matches Event::Entries(res)
            && step_prune_wait(pre, probe, version_dir@, binary_path@, res, post, out),
    }
}

// ---------------------------------------------------------------------------
// Laws of the transition relation.
// ---------------------------------------------------------------------------
/// Idempotence of the update check. A resolution that is not a probe and is
/// handed a release asks for exactly one thing — whether the release's
/// binary is already on disk — and when it is, it finishes at once with
/// that very path, cached, with no download, no further query and no status
/// report. The path is a function of the release version and the platform
/// alone, so two successive resolutions handed the same release finish with
/// the same path.
pub proof fn lemma_up_to_date_idempotent(
    pre: Resolver,
    rel: ReleaseInfo,
    mid: Resolver,
    out1: Seq<Action>,
    post: Resolver,
    out2: Seq<Action>,
)
    requires
        pre.state == (State::ReleaseWait { probe: None }),
        spec_step(pre, Event::Release(Ok(rel)), mid, out1),
        spec_step(mid, Event::FileExists(true), post, out2),
    ensures
        out1.len() == 1 && a_check_file(out1[0], spec_version_binary_path(rel.version@, pre.os)),
        post.state is Idle,
        out2.len() == 1 && a_finish_ok(out2[0], spec_version_binary_path(rel.version@, pre.os)),
        cache_set(post, spec_version_binary_path(rel.version@, pre.os)),
        forall|i: int|
            0 <= i < out2.len() ==> !((#[trigger] out2[i]) is Fetch) && !(out2[i] is FetchRelease)
                && !(out2[i] is Report),
{
}

/// Cache invalidation. A cached path that no longer names a file is not
/// returned: the resolution falls through to the ambient search path, with
/// the cache left as it was and nothing finished yet.
pub proof fn lemma_stale_cache_falls_through(
    pre: Resolver,
    path: String,
    post: Resolver,
    out: Seq<Action>,
)
    requires
        pre.state == (State::CacheCheck { path }),
        spec_step(pre, Event::FileExists(false), post, out),
    ensures
        post.state is EnvCheck,
        cache_same(pre, post),
        out.len() == 1 && a_search(out[0], spec_bin_name(pre.os)),
        forall|i: int| 0 <= i < out.len() ==> !((#[trigger] out[i]) is Finish),
{
}

/// Pruning removes exactly the strangers. Among readable entries, the names
/// slated for removal never include the version directory being kept; every
/// removed name is the name of some readable entry; and when every entry was
/// readable, every entry named otherwise than the kept directory is removed.
pub proof fn lemma_prune_names_exact(entries: Seq<Result<String, String>>, keep: Seq<char>)
    ensures
        forall|i: int|
            0 <= i < spec_prune_names(entries, keep).len() ==> #[trigger] spec_prune_names(
                entries,
                keep,
            )[i] != keep,
        forall|i: int|
            #![trigger spec_prune_names(entries, keep)[i]]
            0 <= i < spec_prune_names(entries, keep).len() ==> exists|j: int|
                0 <= j < entries.len() && ((#[trigger] entries[j]) matches Ok(n) && n@
                    == spec_prune_names(entries, keep)[i]),
        spec_all_ok(entries) ==> (forall|j: int|
            0 <= j < entries.len() ==> ((#[trigger] entries[j]) matches Ok(n) ==> (n@ != keep
                ==> spec_prune_names(entries, keep).contains(n@)))),
    decreases entries.len(),
{
    if entries.len() > 0 {
        let dl = entries.drop_last();
        lemma_prune_names_exact(dl, keep);
        let front = spec_prune_names(dl, keep);
        let names = spec_prune_names(entries, keep);
        assert forall|i: int| #![trigger names[i]] 0 <= i < names.len() implies exists|j: int|
            0 <= j < entries.len() && ((#[trigger] entries[j]) matches Ok(n) && n@
                == names[i]) by {
            if i < front.len() {
                let j = choose|j: int|
                    0 <= j < dl.len() && ((#[trigger] dl[j]) matches Ok(n) && n@ == front[i]);
                assert(entries[j] == dl[j]);
            } else {
                assert(entries[entries.len() - 1] == entries.last());
            }
        }
        if spec_all_ok(entries) {
            assert(spec_all_ok(dl));
            assert forall|j: int|
                0 <= j < entries.len() && ((#[trigger] entries[j]) matches Ok(n) && n@
                    != keep) implies names.contains(
                (entries[j]->Ok_0)@,
            ) by {
                let n = entries[j]->Ok_0;
                if j < entries.len() - 1 {
                    assert(dl[j] == entries[j]);
                    assert(front.contains(n@));
                    let i = choose|i: int| 0 <= i < front.len() && front[i] == n@;
                    assert(names[i] == n@);
                } else {
                    assert(entries.last() == entries[j]);
                    assert(names.last() == n@);
                }
            }
        }
    }
}

/// Pruning at the machine level. When a resolution that is pruning is handed
/// a fully readable directory listing, the actions it emits remove an entry
/// for every name other than the version directory being kept — and never
/// the version directory itself — and then finish the resolution, leaving
/// that one directory as the only survivor the resolver is responsible for.
pub proof fn lemma_step_prunes_exactly(
    pre: Resolver,
    probe: Option<String>,
    version_dir: String,
    binary_path: String,
    entries: Vec<Result<String, String>>,
    post: Resolver,
    out: Seq<Action>,
)
    requires
        pre.state == (State::PruneWait { probe, version_dir, binary_path }),
        spec_all_ok(entries@),
        spec_step(pre, Event::Entries(Ok(entries)), post, out),
    ensures
        post.state is Idle,
        forall|i: int|
            0 <= i < out.len() ==> ((#[trigger] out[i]) matches Action::Remove(n) ==> n@
                != version_dir@),
        forall|j: int|
            0 <= j < entries@.len() ==> ((#[trigger] entries@[j]) matches Ok(n) ==> (n@
                != version_dir@ ==> exists|i: int|
                0 <= i < out.len() && a_remove(#[trigger] out[i], n@))),
{
    lemma_prune_names_exact(entries@, version_dir@);
    let names = spec_prune_names(entries@, version_dir@);
    let front = out.take(names.len() as int);
    assert forall|i: int|
        0 <= i < out.len() implies ((#[trigger] out[i]) matches Action::Remove(n) ==> n@
        != version_dir@) by {
        if i < names.len() {
            assert(a_remove(front[i], names[i]));
        }
    }
    assert forall|j: int|
        0 <= j < entries@.len() && ((#[trigger] entries@[j]) matches Ok(n) && n@
            != version_dir@) implies exists|i: int|
        0 <= i < out.len() && a_remove(#[trigger] out[i], (entries@[j]->Ok_0)@) by {
        let n = entries@[j]->Ok_0;
        assert(names.contains(n@));
        let i = choose|i: int| 0 <= i < names.len() && names[i] == n@;
        assert(a_remove(front[i], names[i]));
        assert(front[i] == out[i]);
    }
}

impl Resolver {
    /// The machine's internal consistency: while a subdirectory scan is in
    /// flight, the index points at one of the subdirectories.
    pub open spec fn wf(self) -> bool {
        match self.state {
            State::ScanCheck { dirs, idx } => idx < dirs@.len(),
            _ => true,
        }
    }

    /// The event the current state waits for; `step` may only be fed such
    /// an event. `Idle` waits for nothing: a new resolution is begun with
    /// `start` instead.
    pub open spec fn expects(self, ev: Event) -> bool {
        match self.state {
            State::Idle => false,
            State::CacheCheck { .. } => ev is FileExists,
            State::EnvCheck => ev is PathFound,
            State::DirScan => ev is Subdirs,
            State::ScanCheck { .. } => ev is FileExists,
            State::ReleaseWait { .. } => ev is Release,
            State::VersionCheck { .. } => ev is FileExists,
            State::DownloadWait { .. } => ev is Fetched,
            State::PruneWait { .. } => ev is Entries,
        }
    }

    /// A fresh resolver: nothing cached, no resolution running. The platform
    /// fields are placeholders until `start` sets them.
    pub fn new() -> (r: Resolver)
        ensures
            r.cached_binary_path is None,
            r.state is Idle,
            r.wf(),
    {
        Resolver {
            cached_binary_path: None,
            os: Os::Linux,
            arch: Arch::X8664,
            state: State::Idle,
        }
    }

    /// Begin a resolution for the given platform. With a cached path in
    /// hand, that path is re-validated first; otherwise the ambient search
    /// path is asked for the platform's binary name.
    pub fn start(&mut self, os: Os, arch: Arch) -> (out: Vec<Action>)
        requires
            old(self).state is Idle,
        ensures
            final(self).os == os && final(self).arch == arch,
            final(self).cached_binary_path == old(self).cached_binary_path,
            final(self).wf(),
            match old(self).cached_binary_path {
                Some(p) => (final(self).state matches State::CacheCheck { path } && path@ == p@)
                    && out@.len() == 1 && a_check_file(out@[0], p@),
                None => final(self).state is EnvCheck && out@.len() == 1 && a_search(
                    out@[0],
                    spec_bin_name(os),
                ),
            },
    {
        self.os = os;
        self.arch = arch;
        let mut out: Vec<Action> = Vec::new();
        match &self.cached_binary_path {
            Some(p) => {
                let path = p.clone();
                self.state = State::CacheCheck { path: path.clone() };
                out.push(Action::CheckFile(path));
            },
            None => {
                self.state = State::EnvCheck;
                out.push(Action::SearchPath(bin_name((os, arch)).to_owned()));
            },
        }
        out
    }

    /// Move the state out, leaving `Idle` behind.
    fn take_state(&mut self) -> (st: State)
        ensures
            st == old(self).state,
            final(self).state is Idle,
            final(self).cached_binary_path == old(self).cached_binary_path,
            final(self).os == old(self).os && final(self).arch == old(self).arch,
    {
        let mut st = State::Idle;
        core::mem::swap(&mut st, &mut self.state);
        st
    }

    /// Feed the outcome of the last answered action back in; the returned
    /// actions are what the host must do next, in order. The transition
    /// taken is exactly `spec_step`.
    pub fn step(&mut self, ev: Event) -> (out: Vec<Action>)
        requires
            old(self).wf(),
            old(self).expects(ev),
        ensures
            final(self).os == old(self).os && final(self).arch == old(self).arch,
            final(self).wf(),
            spec_step(*old(self), ev, *final(self), out@),
    {
        let st = self.take_state();
        let mut out: Vec<Action> = Vec::new();
        match (st, ev) {
            (State::CacheCheck { path }, Event::FileExists(b)) => {
                if b {
                    out.push(Action::Report(Status::Idle));
                    out.push(Action::Finish(Ok(path)));
                } else {
                    self.state = State::EnvCheck;
                    out.push(Action::SearchPath(bin_name((self.os, self.arch)).to_owned()));
                }
            },
            (State::EnvCheck, Event::PathFound(found)) => {
                match found {
                    Some(p) => {
                        out.push(Action::Finish(Ok(p)));
                    },
                    None => {
                        self.state = State::DirScan;
                        out.push(Action::ListSubdirs);
                    },
                }
            },
            (State::DirScan, Event::Subdirs(dirs)) => {
                if dirs.len() == 0 {
                    self.state = State::ReleaseWait { probe: None };
                    out.push(Action::FetchRelease);
                } else {
                    let candidate = join_path(&dirs[0], bin_name((self.os, self.arch)));
                    self.state = State::ScanCheck { dirs, idx: 0 };
                    out.push(Action::CheckFile(candidate));
                }
            },
            (State::ScanCheck { dirs, idx }, Event::FileExists(b)) => {
                let len = dirs.len();
                if b {
                    let found = join_path(&dirs[idx], bin_name((self.os, self.arch)));
                    self.state = State::ReleaseWait { probe: Some(found) };
                    out.push(Action::FetchRelease);
                } else if idx + 1 < len {
                    let candidate = join_path(&dirs[idx + 1], bin_name((self.os, self.arch)));
                    self.state = State::ScanCheck { dirs, idx: idx + 1 };
                    out.push(Action::CheckFile(candidate));
                } else {
                    self.state = State::ReleaseWait { probe: None };
                    out.push(Action::FetchRelease);
                }
            },
            (State::ReleaseWait { probe }, Event::Release(res)) => {
                match res {
                    Ok(rel) => {
                        let vd = version_dir_name(&rel.version);
                        let bp = join_path(&vd, bin_name((self.os, self.arch)));
                        out.push(Action::CheckFile(bp.clone()));
                        self.state = State::VersionCheck {
                            probe,
                            assets: rel.assets,
                            version_dir: vd,
                            binary_path: bp,
                        };
                    },
                    Err(e) => {
                        self.finish_failure(probe, ResolveError::ReleaseQueryFailed(e), &mut out);
                    },
                }
            },
            (State::VersionCheck { probe, assets, version_dir, binary_path }, Event::FileExists(
                b,
            )) => {
                if b {
                    match probe {
                        Some(f) => {
                            self.cached_binary_path = Some(f.clone());
                            out.push(Action::Finish(Ok(f)));
                        },
                        None => {
                            self.cached_binary_path = Some(binary_path.clone());
                            out.push(Action::Finish(Ok(binary_path)));
                        },
                    }
                } else {
                    out.push(Action::Report(Status::Downloading));
                    let an = asset_name(self.os, self.arch);
                    match select_asset(&assets, &an) {
                        Some(url) => {
                            out.push(
                                Action::Fetch {
                                    url,
                                    dest_dir: version_dir.clone(),
                                    kind: archive_kind(self.os),
                                },
                            );
                            self.state = State::DownloadWait { probe, version_dir, binary_path };
                        },
                        None => {
                            match probe {
                                Some(f) => {
                                    self.cached_binary_path = Some(f.clone());
                                    out.push(Action::Finish(Ok(f)));
                                },
                                None => {
                                    let err = ResolveError::NoMatchingAsset(an);
                                    out.push(Action::Report(Status::Failed(err.message())));
                                    out.push(Action::Finish(Err(err)));
                                },
                            }
                        },
                    }
                }
            },
            (State::DownloadWait { probe, version_dir, binary_path }, Event::Fetched(res)) => {
                match res {
                    Ok(_) => {
                        out.push(Action::ListEntries);
                        self.state = State::PruneWait { probe, version_dir, binary_path };
                    },
                    Err(e) => {
                        self.finish_failure(probe, ResolveError::DownloadFailed(e), &mut out);
                    },
                }
            },
            (State::PruneWait { probe, version_dir, binary_path }, Event::Entries(res)) => {
                match res {
                    Ok(entries) => {
                        self.prune_and_finish(probe, version_dir, binary_path, entries, &mut out);
                    },
                    Err(e) => {
                        self.finish_failure(probe, ResolveError::DirectoryListFailed(e), &mut out);
                    },
                }
            },
            _ => {
                proof {
                    assert(false);
                }
                vstd::pervasive::unreached()
            },
        }
        out
    }

    /// End the resolution after a hard failure: swallowed, and answered with
    /// the already-found binary, when this is only a best-effort update
    /// check; reported and surfaced otherwise.
    fn finish_failure(&mut self, probe: Option<String>, err: ResolveError, out: &mut Vec<Action>)
        requires
            old(self).state is Idle,
            old(out)@.len() == 0,
        ensures
            final(self).os == old(self).os && final(self).arch == old(self).arch,
            final(self).state == old(self).state,
            fail_or_probe(
                *old(self),
                probe,
                err.kind(),
                err.spec_detail(),
                *final(self),
                final(out)@,
            ),
    {
        match probe {
            Some(f) => {
                self.cached_binary_path = Some(f.clone());
                out.push(Action::Finish(Ok(f)));
            },
            None => {
                out.push(Action::Report(Status::Failed(err.message())));
                out.push(Action::Finish(Err(err)));
            },
        }
    }

    /// Prune the working directory down to the version directory and end the
    /// resolution: one removal per readable entry with another name, stopped
    /// by the first unreadable entry.
    fn prune_and_finish(
        &mut self,
        probe: Option<String>,
        version_dir: String,
        binary_path: String,
        entries: Vec<Result<String, String>>,
        out: &mut Vec<Action>,
    )
        requires
            old(self).state is Idle,
            old(out)@.len() == 0,
        ensures
            final(self).os == old(self).os && final(self).arch == old(self).arch,
            final(self).state == old(self).state,
            step_prune_wait(
                *old(self),
                probe,
                version_dir@,
                binary_path@,
                Ok(entries),
                *final(self),
                final(out)@,
            ),
    {
        let n = entries.len();
        let mut j: usize = 0;
        let mut bad: Option<String> = None;
        while j < n
            invariant_except_break
                n == entries@.len(),
                j <= n,
                bad is None,
                forall|i: int| 0 <= i < j ==> (#[trigger] entries@[i]) is Ok,
                removes_of(out@, spec_prune_names(entries@.take(j as int), version_dir@)),
            ensures
                n == entries@.len(),
                j <= n,
                forall|i: int| 0 <= i < j ==> (#[trigger] entries@[i]) is Ok,
                removes_of(out@, spec_prune_names(entries@.take(j as int), version_dir@)),
                match bad {
                    Some(m) => j < n && (entries@[j as int] matches Err(m0) && m0@ == m@),
                    None => j == n,
                },
            decreases n - j,
        {
            match &entries[j] {
                Ok(name) => {
                    proof {
                        assert(entries@.take(j + 1).drop_last() =~= entries@.take(j as int));
                        assert(entries@.take(j + 1).last() == entries@[j as int]);
                    }
                    if *name != version_dir {
                        out.push(Action::Remove(name.clone()));
                    }
                    j += 1;
                },
                Err(m) => {
                    bad = Some(m.clone());
                    break;
                },
            }
        }
        match bad {
            None => {
                proof {
                    assert(entries@.take(n as int) =~= entries@);
                }
                let ghost removes = spec_prune_names(entries@, version_dir@);
                let ghost before = out@;
                match probe {
                    Some(f) => {
                        self.cached_binary_path = Some(f.clone());
                        out.push(Action::Report(Status::Idle));
                        out.push(Action::Finish(Ok(f)));
                    },
                    None => {
                        self.cached_binary_path = Some(binary_path.clone());
                        out.push(Action::Report(Status::Idle));
                        out.push(Action::Finish(Ok(binary_path)));
                    },
                }
                proof {
                    assert(out@.take(removes.len() as int) =~= before);
                }
            },
            Some(m) => {
                let ghost removes = spec_prune_names(entries@.take(j as int), version_dir@);
                let ghost before = out@;
                match probe {
                    Some(f) => {
                        self.cached_binary_path = Some(f.clone());
                        out.push(Action::Finish(Ok(f)));
                    },
                    None => {
                        let err = ResolveError::DirectoryEntryFailed(m);
                        out.push(Action::Report(Status::Failed(err.message())));
                        out.push(Action::Finish(Err(err)));
                    },
                }
                proof {
                    assert(out@.take(removes.len() as int) =~= before);
                }
            },
        }
    }
}

} // verus!
