//! Isolation argument builder.
//!
//! Composes the full ordered argument list of one sandbox invocation from
//! the request, the host probes, and the identity token.  The two backend
//! variants stay visibly different: the ptrace variant binds with single
//! `--bind=path` flags and self-referential passwd/group binds, the
//! namespace variant with `flag source dest` triples and read-only binds
//! of the live host files.

use vstd::prelude::*;
use vstd::string::StrSliceExecFns;

use crate::identity::identity_token;
use crate::identity::spec_identity_args;
use crate::identity::spec_identity_env;
use crate::probes::HostProbes;
use crate::probes::fixed_candidates;
use crate::probes::lemma_no_fixed_paths_no_candidates;
use crate::probes::spec_fixed_candidates;
use crate::request::BackendKind;
use crate::request::SandboxRequest;
use crate::split::spec_split_ws;
use crate::split::split_whitespace;
use crate::strutil::append_tokens;
use crate::strutil::push_tok;
use crate::strutil::push_tok_owned;
use crate::strutil::str_concat;
use crate::strutil::str_concat3;

verus! {

/// The engine's planner: turns a request and the observed host state into
/// the argument list the launcher executes.
pub struct Command;

/// The fully resolved, ready-to-execute argument tokens of one
/// invocation, determined by the request and the host state observed at
/// build time.
#[derive(Clone, Debug)]
pub struct IsolationPlan {
    pub args: Vec<String>,
}

/// One single-flag bind per path: `prefix` glued onto each item.
pub open spec fn spec_bind_flags(prefix: Seq<char>, items: Seq<Seq<char>>) -> Seq<Seq<char>>
    decreases items.len(),
{
    if items.len() == 0 {
        Seq::<Seq<char>>::empty()
    } else {
        seq![prefix + items[0]] + spec_bind_flags(prefix, items.skip(1))
    }
}

/// One read-only `source dest` bind pair per path, source and destination
/// identical.
pub open spec fn spec_ro_bind_pairs(items: Seq<Seq<char>>) -> Seq<Seq<char>>
    decreases items.len(),
{
    if items.len() == 0 {
        Seq::<Seq<char>>::empty()
    } else {
        seq!["--ro-bind"@, items[0], items[0]] + spec_ro_bind_pairs(items.skip(1))
    }
}

/// The ptrace variant's self-referential passwd/group binds: the guest's
/// own identity files bound onto themselves, present exactly when group
/// mapping is not disabled.
pub open spec fn spec_proot_group_binds(rootfs: Seq<char>, no_group: bool) -> Seq<Seq<char>> {
    if !no_group {
        seq![
            "--bind="@ + rootfs + "/etc/group:/etc/group"@,
            "--bind="@ + rootfs + "/etc/passwd:/etc/passwd"@,
        ]
    } else {
        Seq::<Seq<char>>::empty()
    }
}

/// The namespace variant's read-only binds of the live host passwd/group
/// files, present exactly when group mapping is not disabled.
pub open spec fn spec_bwrap_group_binds(no_group: bool) -> Seq<Seq<char>> {
    if !no_group {
        seq![
            "--ro-bind-try"@,
            "/etc/passwd"@,
            "/etc/passwd"@,
            "--ro-bind-try"@,
            "/etc/group"@,
            "/etc/group"@,
        ]
    } else {
        Seq::<Seq<char>>::empty()
    }
}

/// The optional host-resource contribution of either variant: nothing
/// when the extra binds are ignored, else the fixed candidates followed
/// by the icon-theme cursor directories, rendered in the variant's bind
/// form.
pub open spec fn spec_proot_optional_binds(ignore_extra_binds: bool, p: HostProbes) -> Seq<
    Seq<char>,
> {
    if !ignore_extra_binds {
        spec_bind_flags("--bind="@, spec_fixed_candidates(p) + p.cursor_dirs.deep_view())
    } else {
        Seq::<Seq<char>>::empty()
    }
}

pub open spec fn spec_bwrap_optional_binds(ignore_extra_binds: bool, p: HostProbes) -> Seq<
    Seq<char>,
> {
    if !ignore_extra_binds {
        spec_ro_bind_pairs(spec_fixed_candidates(p) + p.cursor_dirs.deep_view())
    } else {
        Seq::<Seq<char>>::empty()
    }
}

/// The ptrace variant's options: the rootfs as the new root, the two
/// removable-media mount points, the raw extra binds verbatim, then the
/// gated passwd/group and optional host-resource binds.
pub open spec fn spec_proot_options(
    rootfs: Seq<char>,
    extra: Seq<char>,
    ignore_extra_binds: bool,
    no_group: bool,
    p: HostProbes,
) -> Seq<Seq<char>> {
    seq!["-R"@, rootfs, "--bind=/media"@, "--bind=/mnt"@] + spec_split_ws(extra)
        + spec_proot_group_binds(rootfs, no_group) + spec_proot_optional_binds(
        ignore_extra_binds,
        p,
    )
}

/// The namespace variant's base options: the rootfs bound as `/`, the
/// backend lifecycle policy, the fixed set of read-only host identity and
/// network files, the device, sysfs and best-effort binds, the caller's
/// home and the removable-media mount points.
pub open spec fn spec_bwrap_base(rootfs: Seq<char>, home: Seq<char>) -> Seq<Seq<char>> {
    seq![
        "--unshare-user"@,
        "--share-net"@,
        "--bind"@,
        rootfs,
        "/"@,
        "--die-with-parent"@,
        "--ro-bind-try"@,
        "/etc/host.conf"@,
        "/etc/host.conf"@,
        "--ro-bind-try"@,
        "/etc/hosts"@,
        "/etc/hosts"@,
        "--ro-bind-try"@,
        "/etc/hosts.equiv"@,
        "/etc/hosts.equiv"@,
        "--ro-bind-try"@,
        "/etc/netgroup"@,
        "/etc/netgroup"@,
        "--ro-bind-try"@,
        "/etc/networks"@,
        "/etc/networks"@,
        "--ro-bind-try"@,
        "/etc/nsswitch.conf"@,
        "/etc/nsswitch.conf"@,
        "--ro-bind-try"@,
        "/etc/resolv.conf"@,
        "/etc/resolv.conf"@,
        "--ro-bind-try"@,
        "/etc/localtime"@,
        "/etc/localtime"@,
        "--dev-bind"@,
        "/dev"@,
        "/dev"@,
        "--ro-bind"@,
        "/sys"@,
        "/sys"@,
        "--bind-try"@,
        "/proc"@,
        "/proc"@,
        "--bind-try"@,
        "/tmp"@,
        "/tmp"@,
        "--bind-try"@,
        "/run"@,
        "/run"@,
        "--ro-bind"@,
        "/var/run/dbus/system_bus_socket"@,
        "/var/run/dbus/system_bus_socket"@,
        "--bind"@,
        home,
        home,
        "--bind"@,
        "/media"@,
        "/media"@,
        "--bind"@,
        "/mnt"@,
        "/mnt"@,
    ]
}

/// The fixed search-path override every namespace plan carries.
pub open spec fn spec_path_override() -> Seq<Seq<char>> {
    seq!["--setenv"@, "PATH"@, "/bin:/sbin:/usr/bin:/usr/sbin:/usr/libexec"@]
}

/// The namespace variant's options: base, extra binds verbatim, the PATH
/// override, then the gated passwd/group and optional host-resource
/// binds.
pub open spec fn spec_bwrap_options(
    rootfs: Seq<char>,
    extra: Seq<char>,
    ignore_extra_binds: bool,
    no_group: bool,
    p: HostProbes,
    home: Seq<char>,
) -> Seq<Seq<char>> {
    spec_bwrap_base(rootfs, home) + spec_split_ws(extra) + spec_path_override()
        + spec_bwrap_group_binds(no_group) + spec_bwrap_optional_binds(ignore_extra_binds, p)
}

/// Appends `prefix + item` for each item, in order.
fn append_bind_flags(out: &mut Vec<String>, prefix: &str, items: &Vec<String>)
    ensures
        final(out).deep_view() == old(out).deep_view() + spec_bind_flags(
            prefix@,
            items.deep_view(),
        ),
{
    let ghost pre = out.deep_view();
    let ghost dv = items.deep_view();
    let mut i: usize = 0;
    proof {
        assert(dv.skip(0) =~= dv);
    }
    while i < items.len()
        invariant
            i <= items.len(),
            dv == items.deep_view(),
            out.deep_view() + spec_bind_flags(prefix@, dv.skip(i as int)) == pre + spec_bind_flags(
                prefix@,
                dv,
            ),
        decreases items.len() - i,
    {
        proof {
            assert(dv.skip(i as int)[0] == dv[i as int]);
            assert(dv.skip(i as int).skip(1) =~= dv.skip(i + 1));
        }
        let t = str_concat(prefix, items[i].as_str());
        let ghost ov = out.deep_view();
        push_tok_owned(out, t);
        proof {
            assert(spec_bind_flags(prefix@, dv.skip(i as int)) == seq![prefix@ + dv[i as int]]
                + spec_bind_flags(prefix@, dv.skip(i + 1)));
            assert(ov.push(prefix@ + dv[i as int]) + spec_bind_flags(prefix@, dv.skip(i + 1)) =~= ov
                + (seq![prefix@ + dv[i as int]] + spec_bind_flags(prefix@, dv.skip(i + 1))));
        }
        i = i + 1;
    }
    proof {
        assert(dv.skip(items.len() as int).len() == 0);
        assert(out.deep_view() + spec_bind_flags(prefix@, dv.skip(items.len() as int))
            =~= out.deep_view());
    }
}

/// Appends `--ro-bind item item` for each item, in order.
fn append_ro_bind_pairs(out: &mut Vec<String>, items: &Vec<String>)
    ensures
        final(out).deep_view() == old(out).deep_view() + spec_ro_bind_pairs(items.deep_view()),
{
    let ghost pre = out.deep_view();
    let ghost dv = items.deep_view();
    let mut i: usize = 0;
    proof {
        assert(dv.skip(0) =~= dv);
    }
    while i < items.len()
        invariant
            i <= items.len(),
            dv == items.deep_view(),
            out.deep_view() + spec_ro_bind_pairs(dv.skip(i as int)) == pre + spec_ro_bind_pairs(dv),
        decreases items.len() - i,
    {
        proof {
            assert(dv.skip(i as int)[0] == dv[i as int]);
            assert(dv.skip(i as int).skip(1) =~= dv.skip(i + 1));
        }
        let ghost ov = out.deep_view();
        push_tok(out, "--ro-bind");
        let p = items[i].clone();
        push_tok_owned(out, p);
        let q = items[i].clone();
        push_tok_owned(out, q);
        proof {
            assert(spec_ro_bind_pairs(dv.skip(i as int)) == seq![
                "--ro-bind"@,
                dv[i as int],
                dv[i as int],
            ] + spec_ro_bind_pairs(dv.skip(i + 1)));
            assert(out.deep_view() =~= ov + seq!["--ro-bind"@, dv[i as int], dv[i as int]]);
            assert((ov + seq!["--ro-bind"@, dv[i as int], dv[i as int]]) + spec_ro_bind_pairs(
                dv.skip(i + 1),
            ) =~= ov + (seq!["--ro-bind"@, dv[i as int], dv[i as int]] + spec_ro_bind_pairs(
                dv.skip(i + 1),
            )));
        }
        i = i + 1;
    }
    proof {
        assert(dv.skip(items.len() as int).len() == 0);
        assert(out.deep_view() + spec_ro_bind_pairs(dv.skip(items.len() as int))
            =~= out.deep_view());
    }
}

/// The optional host-resource paths of one plan: the fixed candidates in
/// their stable order, then the cursor directories in enumeration order.
fn optional_bind_paths(probes: &HostProbes) -> (r: Vec<String>)
    ensures
        r.deep_view() == spec_fixed_candidates(*probes) + probes.cursor_dirs.deep_view(),
{
    let mut cand = fixed_candidates(probes);
    append_tokens(&mut cand, &probes.cursor_dirs);
    cand
}

impl Command {
    /// Builds the ptrace variant's option tokens.
    pub fn build_proot_options(
        rootfs: &str,
        rootfs_args: &str,
        ignore_extra_binds: bool,
        no_group: bool,
        probes: &HostProbes,
    ) -> (r: Vec<String>)
        ensures
            r.deep_view() == spec_proot_options(
                rootfs@,
                rootfs_args@,
                ignore_extra_binds,
                no_group,
                *probes,
            ),
    {
        let mut v: Vec<String> = Vec::new();
        proof {
            assert(v.deep_view() =~= Seq::<Seq<char>>::empty());
        }
        push_tok(&mut v, "-R");
        push_tok(&mut v, rootfs);
        push_tok(&mut v, "--bind=/media");
        push_tok(&mut v, "--bind=/mnt");
        proof {
            assert(v.deep_view() =~= seq!["-R"@, rootfs@, "--bind=/media"@, "--bind=/mnt"@]);
        }
        let extra = split_whitespace(rootfs_args);
        append_tokens(&mut v, &extra);
        let ghost after_extra = v.deep_view();
        if !no_group {
            push_tok_owned(&mut v, str_concat3("--bind=", rootfs, "/etc/group:/etc/group"));
            push_tok_owned(&mut v, str_concat3("--bind=", rootfs, "/etc/passwd:/etc/passwd"));
        }
        proof {
            assert(v.deep_view() =~= after_extra + spec_proot_group_binds(rootfs@, no_group));
        }
        let ghost after_group = v.deep_view();
        if !ignore_extra_binds {
            let cand = optional_bind_paths(probes);
            append_bind_flags(&mut v, "--bind=", &cand);
        }
        proof {
            assert(v.deep_view() =~= after_group + spec_proot_optional_binds(
                ignore_extra_binds,
                *probes,
            ));
            assert(v.deep_view() =~= spec_proot_options(
                rootfs@,
                rootfs_args@,
                ignore_extra_binds,
                no_group,
                *probes,
            ));
        }
        v
    }

    /// Builds the namespace variant's option tokens.
    #[verifier::rlimit(60)]
    pub fn build_bwrap_options(
        rootfs: &str,
        rootfs_args: &str,
        ignore_extra_binds: bool,
        no_group: bool,
        probes: &HostProbes,
        home: &str,
    ) -> (r: Vec<String>)
        ensures
            r.deep_view() == spec_bwrap_options(
                rootfs@,
                rootfs_args@,
                ignore_extra_binds,
                no_group,
                *probes,
                home@,
            ),
    {
        let mut v: Vec<String> = Vec::new();
        proof {
            assert(v.deep_view() =~= Seq::<Seq<char>>::empty());
        }
        push_tok(&mut v, "--unshare-user");
        push_tok(&mut v, "--share-net");
        push_tok(&mut v, "--bind");
        push_tok(&mut v, rootfs);
        push_tok(&mut v, "/");
        push_tok(&mut v, "--die-with-parent");
        push_tok(&mut v, "--ro-bind-try");
        push_tok(&mut v, "/etc/host.conf");
        push_tok(&mut v, "/etc/host.conf");
        push_tok(&mut v, "--ro-bind-try");
        push_tok(&mut v, "/etc/hosts");
        push_tok(&mut v, "/etc/hosts");
        push_tok(&mut v, "--ro-bind-try");
        push_tok(&mut v, "/etc/hosts.equiv");
        push_tok(&mut v, "/etc/hosts.equiv");
        push_tok(&mut v, "--ro-bind-try");
        push_tok(&mut v, "/etc/netgroup");
        push_tok(&mut v, "/etc/netgroup");
        push_tok(&mut v, "--ro-bind-try");
        push_tok(&mut v, "/etc/networks");
        push_tok(&mut v, "/etc/networks");
        push_tok(&mut v, "--ro-bind-try");
        push_tok(&mut v, "/etc/nsswitch.conf");
        push_tok(&mut v, "/etc/nsswitch.conf");
        push_tok(&mut v, "--ro-bind-try");
        push_tok(&mut v, "/etc/resolv.conf");
        push_tok(&mut v, "/etc/resolv.conf");
        push_tok(&mut v, "--ro-bind-try");
        push_tok(&mut v, "/etc/localtime");
        push_tok(&mut v, "/etc/localtime");
        push_tok(&mut v, "--dev-bind");
        push_tok(&mut v, "/dev");
        push_tok(&mut v, "/dev");
        push_tok(&mut v, "--ro-bind");
        push_tok(&mut v, "/sys");
        push_tok(&mut v, "/sys");
        push_tok(&mut v, "--bind-try");
        push_tok(&mut v, "/proc");
        push_tok(&mut v, "/proc");
        push_tok(&mut v, "--bind-try");
        push_tok(&mut v, "/tmp");
        push_tok(&mut v, "/tmp");
        push_tok(&mut v, "--bind-try");
        push_tok(&mut v, "/run");
        push_tok(&mut v, "/run");
        push_tok(&mut v, "--ro-bind");
        push_tok(&mut v, "/var/run/dbus/system_bus_socket");
        push_tok(&mut v, "/var/run/dbus/system_bus_socket");
        push_tok(&mut v, "--bind");
        push_tok(&mut v, home);
        push_tok(&mut v, home);
        push_tok(&mut v, "--bind");
        push_tok(&mut v, "/media");
        push_tok(&mut v, "/media");
        push_tok(&mut v, "--bind");
        push_tok(&mut v, "/mnt");
        push_tok(&mut v, "/mnt");
        proof {
            assert(v.deep_view() =~= spec_bwrap_base(rootfs@, home@));
        }
        let extra = split_whitespace(rootfs_args);
        append_tokens(&mut v, &extra);
        push_tok(&mut v, "--setenv");
        push_tok(&mut v, "PATH");
        push_tok(&mut v, "/bin:/sbin:/usr/bin:/usr/sbin:/usr/libexec");
        proof {
            assert(v.deep_view() =~= spec_bwrap_base(rootfs@, home@) + spec_split_ws(rootfs_args@)
                + spec_path_override());
        }
        let ghost after_path = v.deep_view();
        if !no_group {
            push_tok(&mut v, "--ro-bind-try");
            push_tok(&mut v, "/etc/passwd");
            push_tok(&mut v, "/etc/passwd");
            push_tok(&mut v, "--ro-bind-try");
            push_tok(&mut v, "/etc/group");
            push_tok(&mut v, "/etc/group");
        }
        proof {
            assert(v.deep_view() =~= after_path + spec_bwrap_group_binds(no_group));
        }
        let ghost after_group = v.deep_view();
        if !ignore_extra_binds {
            let cand = optional_bind_paths(probes);
            append_ro_bind_pairs(&mut v, &cand);
        }
        proof {
            assert(v.deep_view() =~= after_group + spec_bwrap_optional_binds(
                ignore_extra_binds,
                *probes,
            ));
            assert(v.deep_view() =~= spec_bwrap_options(
                rootfs@,
                rootfs_args@,
                ignore_extra_binds,
                no_group,
                *probes,
                home@,
            ));
        }
        v
    }
}

/// The login-shell tail of a plan: a `-c command` pair when a nonempty
/// command line is present, else nothing (an interactive session).
pub open spec fn spec_shell_tail(cmd: Option<Seq<char>>) -> Seq<Seq<char>> {
    match cmd {
        Some(c) => if c.len() > 0 {
            seq!["-c"@, c]
        } else {
            Seq::<Seq<char>>::empty()
        },
        None => Seq::<Seq<char>>::empty(),
    }
}

/// The complete argument list of one invocation: the variant's options,
/// the identity remap arguments, then `env` with the identity environment
/// and the fixed SHELL and PATH assignments, the login shell, and the
/// shell tail.
pub open spec fn spec_full_args(
    kind: BackendKind,
    options: Seq<Seq<char>>,
    use_root: bool,
    uid: u32,
    cmd: Option<Seq<char>>,
) -> Seq<Seq<char>> {
    options + spec_identity_args(kind, use_root) + seq!["env"@] + spec_identity_env(
        kind,
        use_root,
        uid,
    ) + seq!["SHELL=/bin/sh"@, "PATH=/bin:/sbin:/usr/bin:/usr/sbin:/usr/libexec"@, "/bin/sh"@]
        + spec_shell_tail(cmd)
}

/// The plan determined by one request, one set of probes, and the
/// identity captured at process start.
pub open spec fn spec_plan_args(
    kind: BackendKind,
    req: SandboxRequest,
    p: HostProbes,
    home: Seq<char>,
    uid: u32,
) -> Seq<Seq<char>> {
    spec_full_args(
        kind,
        match kind {
            BackendKind::Ptrace => spec_proot_options(
                req.rootfs_path@,
                req.extra_bind_spec@,
                req.ignore_extra_binds,
                req.no_group_mapping,
                p,
            ),
            BackendKind::Namespace => spec_bwrap_options(
                req.rootfs_path@,
                req.extra_bind_spec@,
                req.ignore_extra_binds,
                req.no_group_mapping,
                p,
                home,
            ),
        },
        req.use_root,
        uid,
        req.command_line.deep_view(),
    )
}

impl Command {
    /// Appends the identity token, the environment invocation and the
    /// login shell to a variant's options, completing the argument list.
    pub fn compose_invocation(
        kind: BackendKind,
        options: Vec<String>,
        use_root: bool,
        uid: u32,
        command_line: Option<&str>,
    ) -> (r: Vec<String>)
        ensures
            r.deep_view() == spec_full_args(
                kind,
                options.deep_view(),
                use_root,
                uid,
                command_line.deep_view(),
            ),
    {
        let ghost odv = options.deep_view();
        let mut v = options;
        let tok = identity_token(kind, use_root, uid);
        append_tokens(&mut v, &tok.remap_args);
        push_tok(&mut v, "env");
        proof {
            assert(v.deep_view() =~= odv + spec_identity_args(kind, use_root) + seq!["env"@]);
        }
        append_tokens(&mut v, &tok.env_assignments);
        push_tok(&mut v, "SHELL=/bin/sh");
        push_tok(&mut v, "PATH=/bin:/sbin:/usr/bin:/usr/sbin:/usr/libexec");
        push_tok(&mut v, "/bin/sh");
        let ghost before_tail = v.deep_view();
        proof {
            assert(before_tail =~= odv + spec_identity_args(kind, use_root) + seq!["env"@]
                + spec_identity_env(kind, use_root, uid) + seq![
                "SHELL=/bin/sh"@,
                "PATH=/bin:/sbin:/usr/bin:/usr/sbin:/usr/libexec"@,
                "/bin/sh"@,
            ]);
        }
        match command_line {
            Some(c) => {
                if c.unicode_len() > 0 {
                    push_tok(&mut v, "-c");
                    push_tok(&mut v, c);
                }
            },
            None => {},
        }
        proof {
            assert(v.deep_view() =~= before_tail + spec_shell_tail(command_line.deep_view()));
            assert(v.deep_view() =~= spec_full_args(
                kind,
                odv,
                use_root,
                uid,
                command_line.deep_view(),
            ));
        }
        v
    }

    /// Builds the IsolationPlan of one request: the selected variant's
    /// options completed into a full argument list.  The plan is fully
    /// determined by the request and the host state the probes observed.
    pub fn build_plan(
        kind: BackendKind,
        req: &SandboxRequest,
        probes: &HostProbes,
        home: &str,
        uid: u32,
    ) -> (plan: IsolationPlan)
        ensures
            plan.args.deep_view() == spec_plan_args(kind, *req, *probes, home@, uid),
    {
        let options = match kind {
            BackendKind::Ptrace => Self::build_proot_options(
                req.rootfs_path.as_str(),
                req.extra_bind_spec.as_str(),
                req.ignore_extra_binds,
                req.no_group_mapping,
                probes,
            ),
            BackendKind::Namespace => Self::build_bwrap_options(
                req.rootfs_path.as_str(),
                req.extra_bind_spec.as_str(),
                req.ignore_extra_binds,
                req.no_group_mapping,
                probes,
                home,
            ),
        };
        let cmd: Option<&str> = match &req.command_line {
            Some(c) => Some(c.as_str()),
            None => None,
        };
        proof {
            assert(cmd.deep_view() == req.command_line.deep_view());
        }
        let args = Self::compose_invocation(kind, options, req.use_root, uid, cmd);
        IsolationPlan { args }
    }
}

/// If none of the six fixed optional host paths exist, the fixed-candidate
/// portion of the optional bind list is empty in both backend variants.
pub proof fn lemma_no_fixed_paths_empty_contribution(p: HostProbes)
    requires
        !p.asound_conf,
        !p.etc_fonts,
        !p.font_config,
        !p.fontconfig,
        !p.share_fonts,
        !p.themes,
    ensures
        spec_bind_flags("--bind="@, spec_fixed_candidates(p)) == Seq::<Seq<char>>::empty(),
        spec_ro_bind_pairs(spec_fixed_candidates(p)) == Seq::<Seq<char>>::empty(),
{
    lemma_no_fixed_paths_no_candidates(p);
}

/// The flag gates both variants identically: each variant's passwd/group
/// bind segment is present exactly when group mapping is not disabled,
/// even though the bind direction differs — the ptrace segment binds the
/// guest's own files onto themselves, the namespace segment read-only
/// binds the live host files.
pub proof fn lemma_group_binds_gated_identically(rootfs: Seq<char>, no_group: bool)
    ensures
        spec_proot_group_binds(rootfs, no_group).len() > 0 <==> !no_group,
        spec_bwrap_group_binds(no_group).len() > 0 <==> !no_group,
        !no_group ==> spec_proot_group_binds(rootfs, no_group) == seq![
            "--bind="@ + rootfs + "/etc/group:/etc/group"@,
            "--bind="@ + rootfs + "/etc/passwd:/etc/passwd"@,
        ],
        !no_group ==> spec_bwrap_group_binds(no_group) == seq![
            "--ro-bind-try"@,
            "/etc/passwd"@,
            "/etc/passwd"@,
            "--ro-bind-try"@,
            "/etc/group"@,
            "/etc/group"@,
        ],
{
}

/// Which tokens a single-flag bind list holds: exactly the prefixed
/// items.
proof fn lemma_bind_flags_contains(prefix: Seq<char>, items: Seq<Seq<char>>, t: Seq<char>)
    ensures
        spec_bind_flags(prefix, items).contains(t) <==> exists|j: int|
            0 <= j < items.len() && t == prefix + items[j],
    decreases items.len(),
{
    if items.len() == 0 {
    } else {
        lemma_bind_flags_contains(prefix, items.skip(1), t);
        let s = spec_bind_flags(prefix, items);
        let rest = spec_bind_flags(prefix, items.skip(1));
        if s.contains(t) {
            let i = choose|i: int| 0 <= i < s.len() && s[i] == t;
            if i == 0 {
                assert(t == prefix + items[0]);
            } else {
                assert(rest[i - 1] == t);
                assert(rest.contains(t));
                let j = choose|j: int| 0 <= j < items.skip(1).len() && t == prefix + items.skip(
                    1,
                )[j];
                assert(items.skip(1)[j] == items[j + 1]);
                assert(t == prefix + items[j + 1]);
            }
        }
        if exists|j: int| 0 <= j < items.len() && t == prefix + items[j] {
            let j = choose|j: int| 0 <= j < items.len() && t == prefix + items[j];
            if j == 0 {
                assert(s[0] == t);
            } else {
                assert(items.skip(1)[j - 1] == items[j]);
                assert(rest.contains(t));
                let i = choose|i: int| 0 <= i < rest.len() && rest[i] == t;
                assert(s[i + 1] == t);
            }
        }
    }
}

/// Which tokens a read-only pair bind list holds: the flag (whenever the
/// list is nonempty) and exactly the items themselves.
proof fn lemma_ro_bind_pairs_contains(items: Seq<Seq<char>>, t: Seq<char>)
    ensures
        spec_ro_bind_pairs(items).contains(t) <==> ((items.len() > 0 && t == "--ro-bind"@)
            || items.contains(t)),
    decreases items.len(),
{
    if items.len() == 0 {
    } else {
        lemma_ro_bind_pairs_contains(items.skip(1), t);
        let s = spec_ro_bind_pairs(items);
        let rest = spec_ro_bind_pairs(items.skip(1));
        if s.contains(t) {
            let i = choose|i: int| 0 <= i < s.len() && s[i] == t;
            if i == 0 {
                assert(t == "--ro-bind"@);
            } else if i <= 2 {
                assert(t == items[0]);
                assert(items.contains(t));
            } else {
                assert(rest[i - 3] == t);
                assert(rest.contains(t));
                if items.skip(1).contains(t) {
                    let j = choose|j: int| 0 <= j < items.skip(1).len() && items.skip(1)[j] == t;
                    assert(items[j + 1] == t);
                    assert(items.contains(t));
                }
            }
        }
        if items.len() > 0 && t == "--ro-bind"@ {
            assert(s[0] == t);
            assert(s.contains(t));
        }
        if items.contains(t) {
            let j = choose|j: int| 0 <= j < items.len() && items[j] == t;
            if j == 0 {
                assert(s[1] == t);
                assert(s.contains(t));
            } else {
                assert(items.skip(1)[j - 1] == t);
                assert(items.skip(1).contains(t));
                let i = choose|i: int| 0 <= i < rest.len() && rest[i] == t;
                assert(s[i + 3] == t);
                assert(s.contains(t));
            }
        }
    }
}

/// The icon-theme contribution is a set contribution: two cursor
/// directory enumerations with the same members yield, in either backend
/// variant's bind form, the same set of tokens — enumeration order never
/// shows in the plan's contents.
pub proof fn lemma_icon_binds_are_a_set_contribution(
    prefix: Seq<char>,
    d1: Seq<Seq<char>>,
    d2: Seq<Seq<char>>,
)
    requires
        d1.to_set() == d2.to_set(),
    ensures
        spec_bind_flags(prefix, d1).to_set() == spec_bind_flags(prefix, d2).to_set(),
        spec_ro_bind_pairs(d1).to_set() == spec_ro_bind_pairs(d2).to_set(),
{
    assert forall|x: Seq<char>| d1.contains(x) <==> d2.contains(x) by {
        assert(d1.to_set().contains(x) == d1.contains(x));
        assert(d2.to_set().contains(x) == d2.contains(x));
    }
    if d1.len() > 0 {
        assert(d1.contains(d1[0]));
        assert(d2.contains(d1[0]));
        assert(d2.len() > 0);
    }
    if d2.len() > 0 {
        assert(d2.contains(d2[0]));
        assert(d1.contains(d2[0]));
        assert(d1.len() > 0);
    }
    assert forall|t: Seq<char>|
        spec_bind_flags(prefix, d1).contains(t) <==> spec_bind_flags(prefix, d2).contains(t) by {
        lemma_bind_flags_contains(prefix, d1, t);
        lemma_bind_flags_contains(prefix, d2, t);
        if exists|j: int| 0 <= j < d1.len() && t == prefix + d1[j] {
            let j = choose|j: int| 0 <= j < d1.len() && t == prefix + d1[j];
            assert(d1.contains(d1[j]));
            assert(d2.contains(d1[j]));
            let k = choose|k: int| 0 <= k < d2.len() && d2[k] == d1[j];
            assert(t == prefix + d2[k]);
        }
        if exists|j: int| 0 <= j < d2.len() && t == prefix + d2[j] {
            let j = choose|j: int| 0 <= j < d2.len() && t == prefix + d2[j];
            assert(d2.contains(d2[j]));
            assert(d1.contains(d2[j]));
            let k = choose|k: int| 0 <= k < d1.len() && d1[k] == d2[j];
            assert(t == prefix + d1[k]);
        }
    }
    assert(spec_bind_flags(prefix, d1).to_set() =~= spec_bind_flags(prefix, d2).to_set());
    assert forall|t: Seq<char>|
        spec_ro_bind_pairs(d1).contains(t) <==> spec_ro_bind_pairs(d2).contains(t) by {
        lemma_ro_bind_pairs_contains(d1, t);
        lemma_ro_bind_pairs_contains(d2, t);
    }
    assert(spec_ro_bind_pairs(d1).to_set() =~= spec_ro_bind_pairs(d2).to_set());
}

} // verus!
