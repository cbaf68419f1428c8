//! Tests of the string, number and argument helpers.

use alpack::args::invalid_arg_message;
use alpack::args::join_space;
use alpack::args::join_with;
use alpack::args::missing_arg_message;
use alpack::args::parse_key_value;
use alpack::numbers::parse_u32;
use alpack::numbers::u32_to_string;
use alpack::split::split_lines;
use alpack::split::split_on_char;
use alpack::split::split_whitespace;
use alpack::strutil::concat_path;
use alpack::strutil::find_char;
use alpack::strutil::repeat_char;
use alpack::strutil::rfind_char;
use alpack::strutil::str_concat;
use alpack::strutil::str_contains;
use alpack::strutil::str_starts_with;
use alpack::strutil::strip_prefix_rep;
use alpack::strutil::trim_ws;
use alpack::utils::get_cmd_box;
use alpack::utils::separator_line;

#[test]
fn concat_path_collapses_seam_slashes() {
    assert_eq!(concat_path("/home/u/", ".local/bin"), "/home/u/.local/bin");
    assert_eq!(concat_path("/home/u", "/.cache/ALPack/"), "/home/u/.cache/ALPack");
    assert_eq!(concat_path("", "x"), "/x");
    assert_eq!(concat_path("///", "///"), "/");
}

#[test]
fn string_concat_and_repeat() {
    assert_eq!(str_concat("UID=", "1000"), "UID=1000");
    assert_eq!(repeat_char('=', 4), "====");
    assert_eq!(repeat_char(' ', 0), "");
}

#[test]
fn prefix_and_contains() {
    assert!(str_starts_with("--rootfs=/x", "--rootfs="));
    assert!(!str_starts_with("-R", "--rootfs="));
    assert!(str_contains("main/pkg/APKBUILD", "/pkg/"));
    assert!(!str_contains("main/pkgx/APKBUILD", "/pkg/"));
    assert!(str_contains("abc", ""));
    assert!(!str_contains("ab", "abc"));
}

#[test]
fn char_searches() {
    assert_eq!(find_char("--key=value=x", '='), Some(5));
    assert_eq!(find_char("plain", '='), None);
    assert_eq!(rfind_char("a/b/c", '/'), Some(3));
    assert_eq!(rfind_char("abc", '/'), None);
}

#[test]
fn whitespace_split_makes_tokens() {
    assert_eq!(
        split_whitespace("  -R  /r --bind=/media\t--bind=/mnt "),
        vec!["-R", "/r", "--bind=/media", "--bind=/mnt"]
    );
    assert_eq!(split_whitespace(""), Vec::<String>::new());
    assert_eq!(split_whitespace("   "), Vec::<String>::new());
}

#[test]
fn separator_split_keeps_empty_fields() {
    assert_eq!(split_on_char("a::b", ':'), vec!["a", "", "b"]);
    assert_eq!(split_on_char("", ':'), vec![""]);
    assert_eq!(split_lines("x\ny\n"), vec!["x", "y", ""]);
}

#[test]
fn trimming_and_prefix_stripping() {
    assert_eq!(trim_ws("  pkg \t"), "pkg");
    assert_eq!(trim_ws(""), "");
    assert_eq!(strip_prefix_rep("pkgname=foo", "pkgname="), "foo");
    assert_eq!(strip_prefix_rep("pkgname=pkgname=x", "pkgname="), "x");
    assert_eq!(strip_prefix_rep("other", "pkgname="), "other");
}

#[test]
fn decimal_round_trip() {
    assert_eq!(u32_to_string(0), "0");
    assert_eq!(u32_to_string(10), "10");
    assert_eq!(u32_to_string(4294967295), "4294967295");
    assert_eq!(parse_u32("0"), Some(0));
    assert_eq!(parse_u32("1042"), Some(1042));
    assert_eq!(parse_u32("4294967295"), Some(4294967295));
    assert_eq!(parse_u32("4294967296"), None);
    assert_eq!(parse_u32("99999999999999999999"), None);
    assert_eq!(parse_u32(""), None);
    assert_eq!(parse_u32("12a"), None);
    assert_eq!(parse_u32("-1"), None);
}

#[test]
fn key_value_both_forms() {
    assert_eq!(
        parse_key_value("tool", "run", "directory", "--rootfs=/x", None),
        Ok("/x".to_string())
    );
    assert_eq!(
        parse_key_value("tool", "run", "directory", "--rootfs", Some("/x")),
        Ok("/x".to_string())
    );
    // The inline value may itself contain an equals sign.
    assert_eq!(
        parse_key_value("tool", "run", "parameters", "--bind-args=--env=A", None),
        Ok("--env=A".to_string())
    );
}

#[test]
fn key_value_missing_value_messages() {
    let e = parse_key_value("tool", "run", "directory", "--rootfs=", None).unwrap_err();
    assert_eq!(
        e,
        "tool: run: --rootfs requires a <directory>.\nUsage: tool run --rootfs=<directory>"
    );
    let e = parse_key_value("tool", "run", "directory", "--rootfs", None).unwrap_err();
    assert_eq!(
        e,
        "tool: run: --rootfs requires a <directory>.\nUsage: tool run --rootfs <directory>"
    );
    // A following flag is not a value.
    let e = parse_key_value("tool", "run", "directory", "-R", Some("-0")).unwrap_err();
    assert_eq!(e, "tool: run: -R requires a <directory>.\nUsage: tool run -R <directory>");
}

#[test]
fn subcommand_messages() {
    assert_eq!(
        invalid_arg_message("tool", "run", "--bogus"),
        "tool: run: invalid argument '--bogus'\nUse 'tool --help' to see available options."
    );
    assert_eq!(
        missing_arg_message("tool", "apk", false),
        "tool: apk: no parameter specified\nUse 'tool --help' to see available options."
    );
    assert_eq!(
        missing_arg_message("tool", "aports", true),
        "tool: aports: no essential parameter specified\nUse 'tool --help' to see available options."
    );
}

#[test]
fn joining_words() {
    assert_eq!(join_space(&vec!["apk".to_string(), "add".to_string(), "curl".to_string()]), "apk add curl");
    assert_eq!(join_space(&Vec::<String>::new()), "");
    assert_eq!(join_with(&vec!["main".to_string(), "user".to_string()], '|'), "main|user");
}

#[test]
fn command_box_shape() {
    let b = get_cmd_box("$ tool run", Some(2), None);
    let lines: Vec<&str> = b.split('\n').collect();
    assert_eq!(lines.len(), 3);
    assert_eq!(lines[0], format!("  ╔{}╗", "═".repeat(48)));
    assert_eq!(lines[1], format!("  ║ $ tool run{}║", " ".repeat(37)));
    assert_eq!(lines[2], format!("  ╚{}╝", "═".repeat(48)));
    // A narrow box grows to fit its text.
    let b = get_cmd_box("SEARCH RESULT:", None, Some(18));
    let lines: Vec<&str> = b.split('\n').collect();
    assert_eq!(lines[1], "║ SEARCH RESULT: ║");
}

#[test]
fn separator_is_sixty_lines_wide() {
    assert_eq!(separator_line().chars().count(), 60);
    assert!(separator_line().chars().all(|c| c == '═'));
}
