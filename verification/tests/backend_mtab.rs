//! Tests of backend resolution, mount-table repair, mirrors, errors and
//! repository planning.

use alpack::backend::binary_url;
use alpack::backend::resolve_backend_with;
use alpack::backend::BackendResolution;
use alpack::error::EngineError;
use alpack::git_utils::collect_matches;
use alpack::git_utils::fetch_package_files;
use alpack::git_utils::setup_repository;
use alpack::mirror::Mirror;
use alpack::mtab::fix_mtab_symlink;
use alpack::mtab::mtab_path;
use alpack::mtab::mtab_target;
use alpack::mtab::MtabState;
use alpack::request::BackendKind;
use alpack::settings::Settings;
use alpack::utils::check_rootfs_exists;
use alpack::utils::finish_msg_setup;

fn strs(v: &[&str]) -> Vec<String> {
    v.iter().map(|s| s.to_string()).collect()
}

#[test]
fn backend_kinds_and_names() {
    assert_eq!(BackendKind::from_command("proot"), Some(BackendKind::Ptrace));
    assert_eq!(BackendKind::from_command("bwrap"), Some(BackendKind::Namespace));
    assert_eq!(BackendKind::from_command("chroot"), None);
    assert_eq!(BackendKind::Ptrace.command_name(), "proot");
    assert_eq!(BackendKind::Namespace.command_name(), "bwrap");
}

#[test]
fn binary_urls_for_supported_commands() {
    assert_eq!(
        binary_url("proot"),
        Some("https://github.com/LinuxDicasPro/StaticHub/releases/download/proot/proot")
    );
    assert_eq!(
        binary_url("bwrap"),
        Some("https://github.com/LinuxDicasPro/StaticHub/releases/download/bwrap/bwrap")
    );
    assert_eq!(binary_url("chroot"), None);
}

#[test]
fn resolution_order_path_cache_download() {
    // A search-path hit wins.
    let r = resolve_backend_with(
        BackendKind::Ptrace,
        Some("/usr/bin/proot".to_string()),
        true,
        "/home/u",
        "x86_64",
    );
    match r {
        BackendResolution::Resolved { executable_path } => {
            assert_eq!(executable_path, "/usr/bin/proot")
        },
        _ => panic!("expected a resolved path"),
    }
    // Then the local cache.
    let r = resolve_backend_with(BackendKind::Ptrace, None, true, "/home/u", "x86_64");
    match r {
        BackendResolution::Resolved { executable_path } => {
            assert_eq!(executable_path, "/home/u/.local/bin/proot")
        },
        _ => panic!("expected the cached path"),
    }
    // Then a download on the one supported architecture.
    let r = resolve_backend_with(BackendKind::Namespace, None, false, "/home/u", "x86_64");
    match r {
        BackendResolution::NeedsDownload { url, dest_dir, file_name } => {
            assert_eq!(url, "https://github.com/LinuxDicasPro/StaticHub/releases/download/bwrap/bwrap");
            assert_eq!(dest_dir, "/home/u/.local/bin");
            assert_eq!(file_name, "bwrap");
        },
        _ => panic!("expected a download"),
    }
    // Any other architecture is unavailable.
    let r = resolve_backend_with(BackendKind::Namespace, None, false, "/home/u", "aarch64");
    assert!(matches!(r, BackendResolution::Unavailable));
}

#[test]
fn backend_selector_deterministic_for_equal_observations() {
    let a = resolve_backend_with(BackendKind::Ptrace, None, true, "/h", "x86_64");
    let b = resolve_backend_with(BackendKind::Ptrace, None, true, "/h", "x86_64");
    match (a, b) {
        (
            BackendResolution::Resolved { executable_path: p1 },
            BackendResolution::Resolved { executable_path: p2 },
        ) => assert_eq!(p1, p2),
        _ => panic!("expected equal resolutions"),
    }
}

/// Repair converges after one application and prescribes nothing on the
/// second call.
#[test]
fn mtab_repair_is_idempotent() {
    for state in [
        MtabState::CorrectSymlink,
        MtabState::WrongSymlink,
        MtabState::UnreadableSymlink,
        MtabState::NotASymlink,
        MtabState::Absent,
    ] {
        let first = fix_mtab_symlink(state);
        assert!(first.ensure_parent_dir);
        // After a successful repair the link is correct; repairing again
        // touches nothing.
        let second = fix_mtab_symlink(MtabState::CorrectSymlink);
        assert!(!second.remove_existing && !second.create_symlink);
    }
    let p = fix_mtab_symlink(MtabState::WrongSymlink);
    assert!(p.remove_existing && p.create_symlink);
    let p = fix_mtab_symlink(MtabState::Absent);
    assert!(!p.remove_existing && p.create_symlink);
    assert_eq!(mtab_path("/srv/alpine"), "/srv/alpine/etc/mtab");
    assert_eq!(mtab_target(), "/proc/self/mounts");
}

#[test]
fn mirror_urls_and_repositories() {
    let sett = Settings::with_home("/h");
    let mut m = Mirror::new(None, Some("edge".to_string()));
    m.run(&sett).unwrap();
    assert_eq!(
        m.get_mirror("x86_64"),
        "https://dl-cdn.alpinelinux.org/alpine/edge/releases/x86_64/"
    );
    assert_eq!(
        m.get_repository(),
        "https://dl-cdn.alpinelinux.org/alpine/edge/main\n\
         https://dl-cdn.alpinelinux.org/alpine/edge/community\n\
         https://dl-cdn.alpinelinux.org/alpine/edge/testing"
    );
    let mut m = Mirror::new(Some(String::new()), None);
    m.run(&sett).unwrap();
    assert_eq!(
        m.get_repository(),
        "https://dl-cdn.alpinelinux.org/alpine/latest-stable/main\n\
         https://dl-cdn.alpinelinux.org/alpine/latest-stable/community"
    );
}

#[test]
fn error_messages() {
    let e = EngineError::Configuration { backend_name: "chroot".to_string() };
    assert_eq!(e.message(), "Unsupported rootfs command: chroot");
    let e = EngineError::BackendUnavailable { command_name: "bwrap".to_string() };
    assert_eq!(
        e.message(),
        "bwrap not found in the system and no binary is available for this architecture"
    );
    let e = EngineError::RootfsMissing { app_name: "tool".to_string(), rootfs: "/r".to_string() };
    let m = e.message();
    assert!(m.contains("Error: rootfs directory not found."));
    assert!(m.contains("-> /r"));
    assert!(m.contains("$ tool setup"));
}

#[test]
fn rootfs_check_gates_on_observation() {
    assert!(check_rootfs_exists("tool", "/r", true).is_ok());
    let e = check_rootfs_exists("tool", "/r", false).unwrap_err();
    assert!(e.contains("Expected location:\n    -> /r"));
}

#[test]
fn finish_message_names_the_tool() {
    let m = finish_msg_setup("tool");
    assert!(m.contains("Installation completed successfully!"));
    assert!(m.contains("$ tool run"));
}

#[test]
fn database_matches_collected_per_package() {
    let content = "main/curl/APKBUILD\nmain/curl/patch.diff\ncommunity/wget/APKBUILD\nmain/vim/APKBUILD\n";
    let out = collect_matches(&strs(&["curl", "wget"]), content);
    assert_eq!(out, "main/curl/APKBUILD\nmain/curl/patch.diff\ncommunity/wget/APKBUILD");
    assert_eq!(collect_matches(&strs(&["nope"]), content), "");
}

#[test]
fn fetch_plan_extracts_directories() {
    let matches = "main/curl/APKBUILD\ncommunity/wget/APKBUILD\nmain/curl/patch.diff\n";
    let plan = fetch_package_files("/r", "aports", matches, "/out").unwrap();
    let cmd = plan.request.command_line.unwrap();
    assert_eq!(
        cmd,
        "cd /build/aports && git sparse-checkout init --cone && git sparse-checkout set \
         main/curl community/wget && git checkout"
    );
    assert!(plan.request.use_root && plan.request.ignore_extra_binds);
    assert_eq!(plan.copies.len(), 2);
    assert_eq!(plan.copies[0].src, "/r/build/aports/main/curl");
    assert_eq!(plan.copies[0].dest, "/out");
    assert_eq!(plan.copies[1].src, "/r/build/aports/community/wget");
}

#[test]
fn fetch_plan_errors() {
    let sep = "═".repeat(60);
    let e = fetch_package_files("/r", "aports", "", "/out").unwrap_err();
    assert_eq!(e, format!("{s}\nResult not found!\n{s}", s = sep));
    let e = fetch_package_files("/r", "aports", "main/curl/README\n", "/out").unwrap_err();
    assert_eq!(e, "No valid APKBUILD paths found in matches.");
}

#[test]
fn repository_sync_script() {
    let plan = setup_repository(
        "/r",
        "https://git.example/pkgs.git",
        "aptree",
        &strs(&["system", "user"]),
    );
    assert_eq!(plan.build_path, "/r/build");
    assert_eq!(plan.request.rootfs_path, "/r");
    let cmd = plan.request.command_line.unwrap();
    assert!(cmd.contains("git clone --depth=1 --filter=tree:0 --no-checkout https://git.example/pkgs.git aptree 2> /dev/null"));
    assert!(cmd.contains("grep -E \"(system|user)\" > ../aptree-database"));
}
