//! The engine's request and backend model.
//!
//! A `SandboxRequest` is built fresh per invocation by a subcommand and
//! handed to the engine; a `BackendKind` names one of the two isolation
//! mechanisms the engine can drive.

use vstd::prelude::*;

verus! {

/// The two isolation mechanisms: ptrace-based translation (`proot`) and
/// namespace-based isolation (`bwrap`).
#[derive(Clone, Copy, Debug, PartialEq, Eq, Structural)]
pub enum BackendKind {
    Ptrace,
    Namespace,
}

/// The configured command name of a backend.
pub open spec fn spec_command_name(kind: BackendKind) -> Seq<char> {
    match kind {
        BackendKind::Ptrace => "proot"@,
        BackendKind::Namespace => "bwrap"@,
    }
}

impl BackendKind {
    /// The executable name the backend is configured and resolved by.
    pub fn command_name(&self) -> (r: &'static str)
        ensures
            r@ == spec_command_name(*self),
    {
        match self {
            BackendKind::Ptrace => "proot",
            BackendKind::Namespace => "bwrap",
        }
    }

    /// Maps a configured backend identifier to its kind; any other
    /// identifier is unrecognized and must fail as a configuration error.
    pub fn from_command(cmd: &str) -> (r: Option<BackendKind>)
        ensures
            cmd@ == "proot"@ ==> r == Some(BackendKind::Ptrace),
            cmd@ == "bwrap"@ ==> r == Some(BackendKind::Namespace),
            cmd@ != "proot"@ && cmd@ != "bwrap"@ ==> r is None,
    {
        proof {
            reveal_strlit("proot");
            reveal_strlit("bwrap");
            assert("proot"@.index(0) == 'p');
            assert("bwrap"@.index(0) == 'b');
            assert("proot"@ != "bwrap"@);
        }
        if crate::strutil::str_eq(cmd, "proot") {
            Some(BackendKind::Ptrace)
        } else if crate::strutil::str_eq(cmd, "bwrap") {
            Some(BackendKind::Namespace)
        } else {
            None
        }
    }
}

/// A resolved backend: its kind and the executable that will be spawned.
#[derive(Clone, Debug)]
pub struct Backend {
    pub kind: BackendKind,
    pub executable_path: String,
}

/// One invocation's worth of input to the engine, constructed fresh by a
/// subcommand and never persisted.
#[derive(Clone, Debug)]
pub struct SandboxRequest {
    /// The filesystem tree exposed as the sandbox's `/`.
    pub rootfs_path: String,
    /// Raw extra bind arguments in the selected backend's own syntax,
    /// appended verbatim (after whitespace tokenization) to the plan.
    pub extra_bind_spec: String,
    /// A command for the login shell's `-c`; `None` starts an interactive
    /// session.
    pub command_line: Option<String>,
    /// Present the emulated privileged identity instead of the caller's.
    pub use_root: bool,
    /// Skip the optional host font/theme/icon binds.
    pub ignore_extra_binds: bool,
    /// Skip the passwd/group binds of both backend variants.
    pub no_group_mapping: bool,
}

impl SandboxRequest {
    /// A request that runs one command as root with the optional binds
    /// skipped — the shape every package-management subcommand hands to
    /// the engine.
    pub fn rooted_command(rootfs_path: String, command_line: String) -> (r: SandboxRequest)
        ensures
            r.rootfs_path == rootfs_path,
            r.extra_bind_spec@ == Seq::<char>::empty(),
            r.command_line == Some(command_line),
            r.use_root,
            r.ignore_extra_binds,
            !r.no_group_mapping,
    {
        SandboxRequest {
            rootfs_path,
            extra_bind_spec: String::new(),
            command_line: Some(command_line),
            use_root: true,
            ignore_extra_binds: true,
            no_group_mapping: false,
        }
    }
}

} // verus!
