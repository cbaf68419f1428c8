//! Tests of the isolation argument builder and identity emulation.

use alpack::command::Command;
use alpack::identity::get_uid_from_passwd;
use alpack::identity::identity_token;
use alpack::probes::fixed_candidates;
use alpack::probes::HostProbes;
use alpack::request::BackendKind;
use alpack::request::SandboxRequest;

fn no_probes() -> HostProbes {
    HostProbes {
        asound_conf: false,
        etc_fonts: false,
        font_config: false,
        fontconfig: false,
        share_fonts: false,
        themes: false,
        cursor_dirs: Vec::new(),
    }
}

fn bwrap_base(rootfs: &str, home: &str) -> Vec<String> {
    let toks: Vec<&str> = vec![
        "--unshare-user",
        "--share-net",
        "--bind",
        rootfs,
        "/",
        "--die-with-parent",
        "--ro-bind-try",
        "/etc/host.conf",
        "/etc/host.conf",
        "--ro-bind-try",
        "/etc/hosts",
        "/etc/hosts",
        "--ro-bind-try",
        "/etc/hosts.equiv",
        "/etc/hosts.equiv",
        "--ro-bind-try",
        "/etc/netgroup",
        "/etc/netgroup",
        "--ro-bind-try",
        "/etc/networks",
        "/etc/networks",
        "--ro-bind-try",
        "/etc/nsswitch.conf",
        "/etc/nsswitch.conf",
        "--ro-bind-try",
        "/etc/resolv.conf",
        "/etc/resolv.conf",
        "--ro-bind-try",
        "/etc/localtime",
        "/etc/localtime",
        "--dev-bind",
        "/dev",
        "/dev",
        "--ro-bind",
        "/sys",
        "/sys",
        "--bind-try",
        "/proc",
        "/proc",
        "--bind-try",
        "/tmp",
        "/tmp",
        "--bind-try",
        "/run",
        "/run",
        "--ro-bind",
        "/var/run/dbus/system_bus_socket",
        "/var/run/dbus/system_bus_socket",
        "--bind",
        home,
        home,
        "--bind",
        "/media",
        "/media",
        "--bind",
        "/mnt",
        "/mnt",
    ];
    toks.into_iter().map(|s| s.to_string()).collect()
}

/// The namespace scenario: fixed baseline binds, the two read-only
/// passwd/group binds, the PATH override, and zero optional binds.
#[test]
fn namespace_plan_baseline_scenario() {
    let req = SandboxRequest {
        rootfs_path: "/srv/alpine".to_string(),
        extra_bind_spec: String::new(),
        command_line: None,
        use_root: false,
        ignore_extra_binds: true,
        no_group_mapping: false,
    };
    let probes = no_probes();
    let plan = Command::build_plan(BackendKind::Namespace, &req, &probes, "/home/user", 1000);

    let mut expected = bwrap_base("/srv/alpine", "/home/user");
    for t in [
        "--setenv",
        "PATH",
        "/bin:/sbin:/usr/bin:/usr/sbin:/usr/libexec",
        "--ro-bind-try",
        "/etc/passwd",
        "/etc/passwd",
        "--ro-bind-try",
        "/etc/group",
        "/etc/group",
        "env",
        "PS1=$ ",
        "UID=1000",
        "EUID=1000",
        "SHELL=/bin/sh",
        "PATH=/bin:/sbin:/usr/bin:/usr/sbin:/usr/libexec",
        "/bin/sh",
    ] {
        expected.push(t.to_string());
    }
    assert_eq!(plan.args, expected);
}

#[test]
fn ptrace_plan_with_group_binds_and_command() {
    let req = SandboxRequest {
        rootfs_path: "/srv/alpine".to_string(),
        extra_bind_spec: "--cwd=/root".to_string(),
        command_line: Some("apk update".to_string()),
        use_root: true,
        ignore_extra_binds: true,
        no_group_mapping: false,
    };
    let probes = no_probes();
    let plan = Command::build_plan(BackendKind::Ptrace, &req, &probes, "/home/user", 1000);
    let expected: Vec<String> = [
        "-R",
        "/srv/alpine",
        "--bind=/media",
        "--bind=/mnt",
        "--cwd=/root",
        "--bind=/srv/alpine/etc/group:/etc/group",
        "--bind=/srv/alpine/etc/passwd:/etc/passwd",
        "-0",
        "env",
        "PS1=# ",
        "USER=root",
        "LOGNAME=root",
        "UID=0",
        "EUID=0",
        "SHELL=/bin/sh",
        "PATH=/bin:/sbin:/usr/bin:/usr/sbin:/usr/libexec",
        "/bin/sh",
        "-c",
        "apk update",
    ]
    .iter()
    .map(|s| s.to_string())
    .collect();
    assert_eq!(plan.args, expected);
}

/// The flag gates both variants identically even though the bind
/// direction differs.
#[test]
fn group_binds_present_iff_group_mapping_enabled() {
    let probes = no_probes();
    for no_group in [false, true] {
        let p = Command::build_proot_options("/r", "", true, no_group, &probes);
        let has_self_bind = p.iter().any(|t| t == "--bind=/r/etc/passwd:/etc/passwd");
        assert_eq!(has_self_bind, !no_group);
        let b = Command::build_bwrap_options("/r", "", true, no_group, &probes, "/home/u");
        // The base holds no passwd bind, so any passwd token here is the
        // gated host bind.
        let has_host_bind = b.iter().any(|t| t == "/etc/passwd");
        assert_eq!(has_host_bind, !no_group);
    }
}

/// With none of the six fixed optional host paths present, the
/// fixed-candidate portion is empty for both variants.
#[test]
fn no_fixed_paths_no_optional_binds() {
    let probes = no_probes();
    assert!(fixed_candidates(&probes).is_empty());
    let with_extras = Command::build_proot_options("/r", "", false, true, &probes);
    let without = Command::build_proot_options("/r", "", true, true, &probes);
    assert_eq!(with_extras, without);
    let b_with = Command::build_bwrap_options("/r", "", false, true, &probes, "/h");
    let b_without = Command::build_bwrap_options("/r", "", true, true, &probes, "/h");
    assert_eq!(b_with, b_without);
}

#[test]
fn fixed_candidates_stable_order() {
    let probes = HostProbes {
        asound_conf: true,
        etc_fonts: true,
        font_config: false,
        fontconfig: true,
        share_fonts: true,
        themes: true,
        cursor_dirs: Vec::new(),
    };
    assert_eq!(
        fixed_candidates(&probes),
        vec![
            "/etc/asound.conf".to_string(),
            "/etc/fonts".to_string(),
            "/usr/share/fontconfig".to_string(),
            "/usr/share/fonts".to_string(),
            "/usr/share/themes".to_string(),
        ]
    );
}

/// One icon theme with a cursors directory contributes exactly one bind,
/// whatever the enumeration order was (set equality).
#[test]
fn icon_theme_contribution_is_a_set() {
    let mut probes = no_probes();
    probes.cursor_dirs = vec!["/usr/share/icons/Adwaita/cursors".to_string()];
    let p = Command::build_proot_options("/r", "", false, true, &probes);
    let icon_binds: Vec<&String> = p
        .iter()
        .filter(|t| t.starts_with("--bind=/usr/share/icons/"))
        .collect();
    assert_eq!(icon_binds.len(), 1);
    assert_eq!(icon_binds[0], "--bind=/usr/share/icons/Adwaita/cursors");

    let mut p1 = no_probes();
    p1.cursor_dirs = vec!["/usr/share/icons/a/cursors".to_string(), "/usr/share/icons/b/cursors".to_string()];
    let mut p2 = no_probes();
    p2.cursor_dirs = vec!["/usr/share/icons/b/cursors".to_string(), "/usr/share/icons/a/cursors".to_string()];
    let t1 = Command::build_proot_options("/r", "", false, true, &p1);
    let t2 = Command::build_proot_options("/r", "", false, true, &p2);
    let s1: std::collections::BTreeSet<String> = t1.into_iter().collect();
    let s2: std::collections::BTreeSet<String> = t2.into_iter().collect();
    assert_eq!(s1, s2);
}

/// Root emulation always encodes uid/gid 0 in the backend-appropriate
/// form; without it the caller's real uid appears.
#[test]
fn identity_token_encodes_requested_ids() {
    let t = identity_token(BackendKind::Ptrace, true, 1234);
    assert_eq!(t.remap_args, vec!["-0".to_string()]);
    assert_eq!(
        t.env_assignments,
        vec!["PS1=# ", "USER=root", "LOGNAME=root", "UID=0", "EUID=0"]
            .into_iter()
            .map(|s| s.to_string())
            .collect::<Vec<String>>()
    );

    let t = identity_token(BackendKind::Namespace, true, 1234);
    assert_eq!(
        t.remap_args,
        vec!["--uid", "0", "--gid", "0", "--setenv", "USER", "root", "--setenv", "LOGNAME", "root"]
            .into_iter()
            .map(|s| s.to_string())
            .collect::<Vec<String>>()
    );
    assert_eq!(t.env_assignments, vec!["PS1=# ".to_string()]);

    for kind in [BackendKind::Ptrace, BackendKind::Namespace] {
        let t = identity_token(kind, false, 1234);
        assert!(t.remap_args.is_empty());
        assert_eq!(
            t.env_assignments,
            vec!["PS1=$ ".to_string(), "UID=1234".to_string(), "EUID=1234".to_string()]
        );
    }
}

#[test]
fn empty_command_line_means_interactive() {
    let req = SandboxRequest {
        rootfs_path: "/r".to_string(),
        extra_bind_spec: String::new(),
        command_line: Some(String::new()),
        use_root: false,
        ignore_extra_binds: true,
        no_group_mapping: true,
    };
    let plan = Command::build_plan(BackendKind::Ptrace, &req, &no_probes(), "/h", 7);
    assert!(!plan.args.iter().any(|t| t == "-c"));
    assert_eq!(plan.args.last().unwrap(), "/bin/sh");
}

#[test]
fn uid_read_from_passwd_contents() {
    let passwd = "root:x:0:0:root:/root:/bin/sh\nuser:x:1042:1042::/home/user:/bin/sh\n";
    assert_eq!(get_uid_from_passwd("user", passwd), 1042);
    assert_eq!(get_uid_from_passwd("root", passwd), 0);
    assert_eq!(get_uid_from_passwd("nobody", passwd), 1000);
    assert_eq!(get_uid_from_passwd("", passwd), 1000);
    assert_eq!(get_uid_from_passwd("user", ""), 1000);
    // A malformed uid field falls back.
    assert_eq!(get_uid_from_passwd("bad", "bad:x:notanumber:7::/:/bin/sh\n"), 1000);
    // A line with too few fields falls back.
    assert_eq!(get_uid_from_passwd("short", "short:x\n"), 1000);
}
