//! Backend selector.
//!
//! Resolves the configured backend identifier to an executable: first the
//! executable search path, then the per-user local binary cache, and, only
//! on the one architecture with published static binaries, a download into
//! that cache.  The decision is a pure function of what those probes
//! observed; only the search-path lookup itself is an outside call.

use vstd::prelude::*;
use vstd::string::StringExecFns;

use crate::request::BackendKind;
use crate::request::spec_command_name;
use crate::strutil::concat_path;
use crate::strutil::spec_concat_path;
use crate::strutil::str_eq;

verus! {

/// A backend resolution, ready to act on: the executable to use, a
/// download that would put it in the cache, or nothing available.
#[derive(Clone, Debug)]
pub enum BackendResolution {
    /// An executable was found; spawn this path.
    Resolved { executable_path: String },
    /// Nothing on disk; fetch `url` into `dest_dir` under `file_name` and
    /// mark it executable.
    NeedsDownload { url: String, dest_dir: String, file_name: String },
    /// Nothing on disk and no binary is published for this architecture.
    Unavailable,
}

/// The mathematical value of a resolution.
pub enum ResolutionView {
    Found { path: Seq<char> },
    Download { url: Seq<char>, dest_dir: Seq<char>, file_name: Seq<char> },
    Missing,
}

impl View for BackendResolution {
    type V = ResolutionView;

    open spec fn view(&self) -> ResolutionView {
        match self {
            BackendResolution::Resolved { executable_path } => ResolutionView::Found {
                path: executable_path@,
            },
            BackendResolution::NeedsDownload { url, dest_dir, file_name } => {
                ResolutionView::Download {
                    url: url@,
                    dest_dir: dest_dir@,
                    file_name: file_name@,
                }
            },
            BackendResolution::Unavailable => ResolutionView::Missing,
        }
    }
}

/// The published static-binary location of a backend.
pub open spec fn spec_binary_url(kind: BackendKind) -> Seq<char> {
    match kind {
        BackendKind::Ptrace => {
            "https://github.com/LinuxDicasPro/StaticHub/releases/download/proot/proot"@
        },
        BackendKind::Namespace => {
            "https://github.com/LinuxDicasPro/StaticHub/releases/download/bwrap/bwrap"@
        },
    }
}

/// The per-user local binary cache directory.
pub open spec fn spec_cache_dir(home: Seq<char>) -> Seq<char> {
    spec_concat_path(home, ".local/bin"@)
}

/// Where a backend's binary sits in the local cache.
pub open spec fn spec_cache_path(home: Seq<char>, kind: BackendKind) -> Seq<char> {
    spec_concat_path(spec_cache_dir(home), spec_command_name(kind))
}

/// The resolution that a given set of observations determines: a
/// search-path hit wins, then the cache, then a download on the supported
/// architecture, and otherwise nothing.
pub open spec fn spec_resolve(
    kind: BackendKind,
    path_hit: Option<Seq<char>>,
    cache_hit: bool,
    home: Seq<char>,
    arch: Seq<char>,
) -> ResolutionView {
    match path_hit {
        Some(p) => ResolutionView::Found { path: p },
        None => if cache_hit {
            ResolutionView::Found { path: spec_cache_path(home, kind) }
        } else if arch == "x86_64"@ {
            ResolutionView::Download {
                url: spec_binary_url(kind),
                dest_dir: spec_cache_dir(home),
                file_name: spec_command_name(kind),
            }
        } else {
            ResolutionView::Missing
        },
    }
}

fn kind_binary_url(kind: BackendKind) -> (r: &'static str)
    ensures
        r@ == spec_binary_url(kind),
{
    match kind {
        BackendKind::Ptrace => {
            "https://github.com/LinuxDicasPro/StaticHub/releases/download/proot/proot"
        },
        BackendKind::Namespace => {
            "https://github.com/LinuxDicasPro/StaticHub/releases/download/bwrap/bwrap"
        },
    }
}

/// The download location for a supported rootfs command name; any other
/// name has no published binary.
pub fn binary_url(cmd: &str) -> (r: Option<&'static str>)
    ensures
        cmd@ == "proot"@ ==> r is Some && r->Some_0@ == spec_binary_url(BackendKind::Ptrace),
        cmd@ == "bwrap"@ ==> r is Some && r->Some_0@ == spec_binary_url(BackendKind::Namespace),
        cmd@ != "proot"@ && cmd@ != "bwrap"@ ==> r is None,
{
    proof {
        reveal_strlit("proot");
        reveal_strlit("bwrap");
        assert("proot"@.index(0) == 'p');
        assert("bwrap"@.index(0) == 'b');
        assert("proot"@ != "bwrap"@);
    }
    if str_eq(cmd, "proot") {
        Some("https://github.com/LinuxDicasPro/StaticHub/releases/download/proot/proot")
    } else if str_eq(cmd, "bwrap") {
        Some("https://github.com/LinuxDicasPro/StaticHub/releases/download/bwrap/bwrap")
    } else {
        None
    }
}

/// Resolves a backend from explicit observations of the host: the result
/// of the search-path lookup, whether the cache already holds the binary,
/// the home directory and the machine architecture.
pub fn resolve_backend_with(
    kind: BackendKind,
    path_hit: Option<String>,
    cache_hit: bool,
    home: &str,
    arch: &str,
) -> (r: BackendResolution)
    ensures
        r@ == spec_resolve(kind, path_hit.deep_view(), cache_hit, home@, arch@),
{
    match path_hit {
        Some(p) => BackendResolution::Resolved { executable_path: p },
        None => {
            if cache_hit {
                let dir = concat_path(home, ".local/bin");
                let p = concat_path(dir.as_str(), kind.command_name());
                BackendResolution::Resolved { executable_path: p }
            } else if str_eq(arch, "x86_64") {
                BackendResolution::NeedsDownload {
                    url: String::from_str(kind_binary_url(kind)),
                    dest_dir: concat_path(home, ".local/bin"),
                    file_name: String::from_str(kind.command_name()),
                }
            } else {
                BackendResolution::Unavailable
            }
        },
    }
}

/// Relies on `which::which`: searches the directories of the executable
/// search path for the named binary and returns the first hit; the result
/// depends on the live environment and filesystem, so nothing is promised
/// of it.  A found path that is not valid Unicode is reported as the bare
/// command name, which the launcher then resolves through the search path
/// again.
#[verifier::external_body]
fn which_lookup(cmd: &str) -> (r: Option<String>) {
    match which::which(cmd) {
        Ok(p) => Some(p.to_str().unwrap_or(cmd).to_string()),
        Err(_) => None,
    }
}

/// Resolves a backend against the live search path.  Whatever the lookup
/// returned, the result is the resolution that observation determines.
pub fn resolve_backend(kind: BackendKind, cache_hit: bool, home: &str, arch: &str) -> (r:
    BackendResolution)
    ensures
        exists|hit: Option<Seq<char>>| r@ == spec_resolve(kind, hit, cache_hit, home@, arch@),
{
    let hit = which_lookup(kind.command_name());
    let ghost h = hit.deep_view();
    let r = resolve_backend_with(kind, hit, cache_hit, home, arch);
    proof {
        assert(r@ == spec_resolve(kind, h, cache_hit, home@, arch@));
    }
    r
}

/// The backend selector is deterministic: identical observations of the
/// host produce identical resolutions, so repeated calls under unchanged
/// host state return the same executable path.
pub proof fn lemma_backend_selector_deterministic(
    kind: BackendKind,
    hit1: Option<Seq<char>>,
    cache1: bool,
    home1: Seq<char>,
    arch1: Seq<char>,
    hit2: Option<Seq<char>>,
    cache2: bool,
    home2: Seq<char>,
    arch2: Seq<char>,
)
    requires
        hit1 == hit2,
        cache1 == cache2,
        home1 == home2,
        arch1 == arch2,
    ensures
        spec_resolve(kind, hit1, cache1, home1, arch1) == spec_resolve(
            kind,
            hit2,
            cache2,
            home2,
            arch2,
        ),
{
}

} // verus!
