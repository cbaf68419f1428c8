//! Tests of the subcommand parsers and request construction.

use alpack::apk::Apk;
use alpack::aports::Aports;
use alpack::aports::search_result_message;
use alpack::aptree::Aptree;
use alpack::builder::Builder;
use alpack::builder::run_abuild;
use alpack::config::Config;
use alpack::run::Run;
use alpack::settings::Settings;
use alpack::setup::parse_minirootfs_href;
use alpack::setup::parse_version_key;
use alpack::setup::select_latest;
use alpack::setup::test_valid_directory;
use alpack::setup::version_lt;
use alpack::setup::Setup;

fn strs(v: &[&str]) -> Vec<String> {
    v.iter().map(|s| s.to_string()).collect()
}

#[test]
fn run_parses_flags_and_command() {
    let run = Run::new(strs(&["-0", "-i", "-n", "-R", "/srv/alpine", "-c", "apk update"]));
    let req = run.run("tool", "/default").unwrap();
    assert!(req.use_root && req.ignore_extra_binds && req.no_group_mapping);
    assert_eq!(req.rootfs_path, "/srv/alpine");
    assert_eq!(req.command_line.as_deref(), Some("apk update"));
    assert_eq!(req.extra_bind_spec, "");
}

#[test]
fn run_defaults_to_interactive_session() {
    let run = Run::new(Vec::new());
    let req = run.run("tool", "/default").unwrap();
    assert!(!req.use_root && !req.ignore_extra_binds && !req.no_group_mapping);
    assert_eq!(req.rootfs_path, "/default");
    assert_eq!(req.command_line, None);
}

#[test]
fn run_double_dash_sweeps_command_words() {
    let run = Run::new(strs(&["--", "fdisk", "-l"]));
    let req = run.run("tool", "/d").unwrap();
    assert_eq!(req.command_line.as_deref(), Some("fdisk -l"));
}

#[test]
fn run_plain_word_sweeps_rest() {
    let run = Run::new(strs(&["ls", "-la", "/etc"]));
    let req = run.run("tool", "/d").unwrap();
    assert_eq!(req.command_line.as_deref(), Some("ls -la /etc"));
}

#[test]
fn run_bind_args_inline() {
    let run = Run::new(strs(&["--bind-args=--cwd=/root"]));
    let req = run.run("tool", "/d").unwrap();
    assert_eq!(req.extra_bind_spec, "--cwd=/root");
}

#[test]
fn run_rejects_unknown_flag() {
    let run = Run::new(strs(&["--bogus"]));
    let e = run.run("tool", "/d").unwrap_err();
    assert_eq!(e, "tool: run: invalid argument '--bogus'\nUse 'tool --help' to see available options.");
}

#[test]
fn config_updates_settings() {
    let sett = Settings::with_home("/home/u");
    let cfg = Config::new(strs(&["--use-bwrap", "--use-edge", "--rootfs-dir", "/srv/alp"]));
    let updated = cfg.run("tool", sett).unwrap();
    assert_eq!(updated.cmd_rootfs, "bwrap");
    assert_eq!(updated.release, "edge");
    assert_eq!(updated.rootfs_dir, "/srv/alp");
    assert_eq!(updated.default_mirror, "https://dl-cdn.alpinelinux.org/alpine/");
}

#[test]
fn config_rejects_unknown_flag() {
    let sett = Settings::with_home("/h");
    let cfg = Config::new(strs(&["--wat"]));
    let e = cfg.run("tool", sett).unwrap_err();
    assert_eq!(e, "tool: config: invalid argument '--wat'\nUse 'tool --help' to see available options.");
}

#[test]
fn settings_defaults_and_overrides() {
    let s = Settings::with_home("/home/u");
    assert_eq!(s.cache_dir, "/home/u/.cache/ALPack");
    assert_eq!(s.rootfs_dir, "/home/u/.ALPack");
    assert_eq!(s.cmd_rootfs, "proot");
    assert_eq!(s.release, "latest-stable");
    assert_eq!(s.output_dir, "");
    assert_eq!(s.set_rootfs(Some("/env".to_string())), "/env");
    assert_eq!(s.set_rootfs(None), "/home/u/.ALPack");
    assert_eq!(s.set_cache_dir(None), "/home/u/.cache/ALPack");
}

#[test]
fn apk_aliases_map_to_native_commands() {
    let cases = [
        ("add", "apk add curl"),
        ("install", "apk add curl"),
        ("del", "apk del curl"),
        ("remove", "apk del curl"),
        ("-u", "apk update && apk upgrade curl"),
        ("update", "apk update && apk upgrade curl"),
        ("-s", "apk search curl"),
        ("search", "apk search curl"),
        ("fix", "apk fix curl"),
        ("info", "apk info curl"),
    ];
    for (alias, expected) in cases {
        let apk = Apk::new(
            "tool".to_string(),
            Some(alias.to_string()),
            strs(&["curl"]),
            None,
        );
        let req = apk.run("/d").unwrap();
        assert_eq!(req.command_line.as_deref(), Some(expected));
        assert!(req.use_root && req.ignore_extra_binds && !req.no_group_mapping);
        assert_eq!(req.rootfs_path, "/d");
    }
}

#[test]
fn apk_without_command_is_missing_parameter() {
    let apk = Apk::new("tool".to_string(), None, Vec::new(), None);
    let e = apk.run("/d").unwrap_err();
    assert_eq!(e, "tool: apk: no parameter specified\nUse 'tool --help' to see available options.");
}

#[test]
fn apk_rootfs_override_wins_when_nonempty() {
    let apk = Apk::new(
        "tool".to_string(),
        Some("add".to_string()),
        Vec::new(),
        Some("/over".to_string()),
    );
    assert_eq!(apk.run("/d").unwrap().rootfs_path, "/over");
    let apk = Apk::new(
        "tool".to_string(),
        Some("add".to_string()),
        Vec::new(),
        Some(String::new()),
    );
    assert_eq!(apk.run("/d").unwrap().rootfs_path, "/d");
}

#[test]
fn aports_collects_search_words() {
    let a = Aports::new(
        "tool".to_string(),
        strs(&["-s", "curl", "wget", "-R", "/r"]),
    );
    let o = a.parse_args("/d", "/out").unwrap();
    assert!(o.search && !o.get && !o.update);
    assert_eq!(o.search_pkg, strs(&["curl", "wget"]));
    assert_eq!(o.rootfs_dir, "/r");
    assert_eq!(o.output, "/out");
}

#[test]
fn aports_requires_a_parameter() {
    let a = Aports::new("tool".to_string(), Vec::new());
    let e = a.parse_args("/d", "/o").unwrap_err();
    assert_eq!(e, "tool: aports: no parameter specified\nUse 'tool --help' to see available options.");
    let a = Aports::new("tool".to_string(), strs(&["-R", "/r"]));
    let e = a.parse_args("/d", "/o").unwrap_err();
    assert_eq!(e, "tool: aports: no essential parameter specified\nUse 'tool --help' to see available options.");
}

#[test]
fn aptree_update_and_get() {
    let a = Aptree::new(strs(&["-u", "--get=xterm", "extra"]));
    let o = a.parse_args("tool", "/d", "/o").unwrap();
    assert!(o.update && o.get && !o.search);
    assert_eq!(o.get_pkg, strs(&["xterm", "extra"]));
}

#[test]
fn search_result_message_shapes() {
    let sep = "═".repeat(60);
    let e = search_result_message("").unwrap_err();
    assert_eq!(e, format!("{s}\nResult not found!\n{s}", s = sep));
    let m = search_result_message("main/curl/APKBUILD").unwrap();
    assert!(m.starts_with(&sep));
    assert!(m.contains("SEARCH RESULT:"));
    assert!(m.contains("main/curl/APKBUILD"));
}

#[test]
fn builder_parses_flags_then_sweeps() {
    let b = Builder::new("tool".to_string(), strs(&["-a", "APKBUILD", "-R", "/r", "dir1", "-x"]));
    let o = b.parse_args("/d").unwrap();
    assert_eq!(o.apkbuild_file, "APKBUILD");
    assert_eq!(o.rootfs_dir, "/r");
    assert_eq!(o.cmd_args, strs(&["dir1", "-x"]));
    let b = Builder::new("tool".to_string(), Vec::new());
    let e = b.parse_args("/d").unwrap_err();
    assert_eq!(e, "tool: builder: no parameter specified\nUse 'tool --help' to see available options.");
}

#[test]
fn pkgname_read_from_manifest() {
    let content = "# comment\npkgname=hello\npkgver=1\n";
    assert_eq!(Builder::get_pkgname(content), "hello");
    assert_eq!(Builder::get_pkgname("pkgver=1\n"), "");
    assert_eq!(Builder::get_pkgname("pkgname=  spaced  \n"), "spaced");
}

#[test]
fn abuild_requests_privilege_shape() {
    let (keygen, build) = run_abuild("/r", "hello", "user", "x86_64");
    assert!(!keygen.use_root && !keygen.ignore_extra_binds && !keygen.no_group_mapping);
    assert!(build.use_root && build.ignore_extra_binds && build.no_group_mapping);
    assert_eq!(keygen.rootfs_path, "/r");
    let k = keygen.command_line.unwrap();
    assert!(k.contains("abuild-keygen -a -n"));
    assert!(k.contains("cp -v /build/.abuild/user*.rsa.pub /etc/apk/keys/"));
    let b = build.command_line.unwrap();
    assert!(b.contains("cd /build/hello"));
    assert!(b.contains("abuild -r -F"));
    assert!(b.contains("/build/packages/build/x86_64"));
}

#[test]
fn setup_parses_flags() {
    let s = Setup::new(
        "tool".to_string(),
        strs(&["--minimal", "--edge", "--mirror=https://m/", "-R", "/srv"]),
    );
    let o = s.parse_args("/cache", "/rootfs").unwrap();
    assert!(o.minimal && o.edge && !o.no_cache && !o.reinstall);
    assert_eq!(o.use_mirror.as_deref(), Some("https://m/"));
    assert_eq!(o.cache_dir, "/cache");
    assert_eq!(o.rootfs_dir, "/srv");
}

#[test]
fn setup_no_cache_redirects_cache_dir() {
    let s = Setup::new("tool".to_string(), strs(&["--no-cache"]));
    let o = s.parse_args("/cache", "/rootfs").unwrap();
    assert_eq!(o.cache_dir, "/tmp/ALPack_cache");
}

#[test]
fn setup_rejects_unknown_flag() {
    let s = Setup::new("tool".to_string(), strs(&["wat"]));
    let e = s.parse_args("/c", "/r").unwrap_err();
    assert_eq!(e, "tool: setup: invalid argument 'wat'\nUse 'tool --help' to see available options.");
}

#[test]
fn version_keys_parse_and_order() {
    let v = parse_version_key("3.23.0").unwrap();
    assert_eq!((v.major, v.minor, v.patch, v.suffix.as_str()), (3, 23, 0, ""));
    let v = parse_version_key("3.23.0_alpha20250612").unwrap();
    assert_eq!((v.major, v.minor, v.patch, v.suffix.as_str()), (3, 23, 0, "alpha20250612"));
    assert!(parse_version_key("3.23").is_none());
    assert!(parse_version_key("3.23.x").is_none());
    assert!(parse_version_key("3.23.0_").is_none());
    assert!(parse_version_key("3.23.0__a").is_none());

    let a = parse_version_key("3.22.9").unwrap();
    let b = parse_version_key("3.23.0").unwrap();
    assert!(version_lt(&a, &b));
    assert!(!version_lt(&b, &a));
    let plain = parse_version_key("3.23.0").unwrap();
    let alpha = parse_version_key("3.23.0_alpha1").unwrap();
    assert!(version_lt(&plain, &alpha));
}

#[test]
fn minirootfs_links_recognized() {
    assert_eq!(
        parse_minirootfs_href("alpine-minirootfs-3.23.0-x86_64.tar.gz", "x86_64").as_deref(),
        Some("3.23.0")
    );
    assert_eq!(parse_minirootfs_href("alpine-minirootfs-3.23.0-aarch64.tar.gz", "x86_64"), None);
    assert_eq!(parse_minirootfs_href("alpine-standard-3.23.0-x86_64.iso", "x86_64"), None);
    assert_eq!(parse_minirootfs_href("alpine-minirootfs--x86_64.tar.gz", "x86_64"), None);
}

#[test]
fn newest_tarball_selected() {
    let hrefs = strs(&[
        "alpine-minirootfs-3.22.1-x86_64.tar.gz",
        "alpine-minirootfs-3.23.0-x86_64.tar.gz",
        "alpine-minirootfs-3.21.5-x86_64.tar.gz",
        "unrelated.html",
    ]);
    let (version, href) = select_latest(&hrefs, "x86_64").unwrap();
    assert_eq!(version, "3.23.0");
    assert_eq!(href, "alpine-minirootfs-3.23.0-x86_64.tar.gz");
    assert!(select_latest(&strs(&["nothing"]), "x86_64").is_none());
}

#[test]
fn directory_check_decisions() {
    let already = "Rootfs directory /t is already available.\nUse [-r|--reinstall] to reinstall it.";
    assert_eq!(test_valid_directory("/t", true, true, true, true, false).unwrap_err(), already);
    assert!(test_valid_directory("/t", false, true, true, true, false).is_ok());
    assert_eq!(
        test_valid_directory("/t", false, true, true, false, true).unwrap_err(),
        already
    );
    assert!(test_valid_directory("/t", false, false, false, false, false).is_ok());
}
