//! Stylized terminal message composition.
//!
//! The boxed command hints and separators that the tool prints are
//! composed here as pure functions; printing them is the shell's job.

use vstd::prelude::*;
use vstd::string::StrSliceExecFns;
use vstd::string::StringExecFns;

use crate::strutil::repeat_char;
use crate::strutil::spec_char_repeat;

verus! {

/// The visual separator used around multi-line messages.
pub fn separator_line() -> (r: &'static str)
    ensures
        r@ == spec_separator(),
{
    "════════════════════════════════════════════════════════════"
}

pub open spec fn spec_separator() -> Seq<char> {
    "════════════════════════════════════════════════════════════"@
}

/// The boxed rendering of a command hint: a one-line Unicode box around
/// the text, indented by `indent` spaces, at least `width0` columns wide
/// and always wide enough for the text.
pub open spec fn spec_cmd_box(command: Seq<char>, indent: nat, width0: nat) -> Seq<char> {
    let width = if width0 >= command.len() + 4 {
        width0
    } else {
        command.len() + 4
    };
    let inner = (width - 2) as nat;
    let pad = spec_char_repeat(' ', indent);
    let line = spec_char_repeat('═', inner);
    pad + "╔"@ + line + "╗"@ + "\n"@ + pad + "║ "@ + command + spec_char_repeat(
        ' ',
        (inner - command.len() - 1) as nat,
    ) + "║"@ + "\n"@ + pad + "╚"@ + line + "╝"@
}

/// `spec_cmd_box` with the defaults applied: no indent, 50 columns.
pub open spec fn spec_cmd_box_opt(
    command: Seq<char>,
    indent: Option<usize>,
    size: Option<usize>,
) -> Seq<char> {
    spec_cmd_box(
        command,
        match indent {
            Some(i) => i as nat,
            None => 0,
        },
        match size {
            Some(w) => w as nat,
            None => 50,
        },
    )
}

/// Generates a stylized Unicode box containing a command string.
pub fn get_cmd_box(command: &str, indent: Option<usize>, size: Option<usize>) -> (r: String)
    requires
        command@.len() + 4 <= usize::MAX,
    ensures
        r@ == spec_cmd_box_opt(command@, indent, size),
{
    let ind: usize = match indent {
        Some(i) => i,
        None => 0,
    };
    let w0: usize = match size {
        Some(w) => w,
        None => 50,
    };
    let cl = command.unicode_len();
    let width: usize = if w0 >= cl + 4 {
        w0
    } else {
        cl + 4
    };
    let inner: usize = width - 2;
    let pad = repeat_char(' ', ind);
    let line = repeat_char('═', inner);
    let trailing = repeat_char(' ', inner - cl - 1);
    let mut r = String::new();
    r.append(pad.as_str());
    r.append("╔");
    r.append(line.as_str());
    r.append("╗");
    r.append("\n");
    r.append(pad.as_str());
    r.append("║ ");
    r.append(command);
    r.append(trailing.as_str());
    r.append("║");
    r.append("\n");
    r.append(pad.as_str());
    r.append("╚");
    r.append(line.as_str());
    r.append("╝");
    proof {
        assert(r@ =~= spec_cmd_box_opt(command@, indent, size));
    }
    r
}

/// The fatal message shown when the rootfs directory is missing: it names
/// the expected location and the command that sets it up.
pub open spec fn spec_rootfs_missing_message(app_name: Seq<char>, rootfs: Seq<char>) -> Seq<char> {
    spec_separator() + "\n  Error: rootfs directory not found.\n\n  Expected location:\n    -> "@
        + rootfs + "\n\n  Please run the following command to set it up:\n"@ + spec_cmd_box(
        "$ "@ + app_name + " setup"@,
        2,
        50,
    ) + "\n"@ + spec_separator()
}

/// Verifies that the rootfs directory was observed to exist; the absence
/// message names the expected path and how to set it up.
pub fn check_rootfs_exists(app_name: &str, rootfs: &str, is_dir: bool) -> (r: Result<(), String>)
    requires
        app_name@.len() + 16 <= usize::MAX,
    ensures
        r is Ok <==> is_dir,
        r is Err ==> r->Err_0@ == spec_rootfs_missing_message(app_name@, rootfs@),
{
    if is_dir {
        return Ok(());
    }
    let mut hint = String::from_str("$ ");
    hint.append(app_name);
    hint.append(" setup");
    proof {
        reveal_strlit("$ ");
        reveal_strlit(" setup");
        assert(hint@.len() == app_name@.len() + 8);
    }
    let boxed = get_cmd_box(hint.as_str(), Some(2), None);
    let mut m = String::from_str(separator_line());
    m.append("\n  Error: rootfs directory not found.\n\n  Expected location:\n    -> ");
    m.append(rootfs);
    m.append("\n\n  Please run the following command to set it up:\n");
    m.append(boxed.as_str());
    m.append("\n");
    m.append(separator_line());
    Err(m)
}

/// The success message shown when the environment setup completes.
pub open spec fn spec_finish_msg(app_name: Seq<char>) -> Seq<char> {
    spec_separator()
        + "\n  Installation completed successfully!\n\n  To start the environment, run:\n\n"@
        + spec_cmd_box("$ "@ + app_name + " run"@, 2, 50) + "\n"@ + spec_separator()
}

/// Composes the message displayed after a completed environment setup.
pub fn finish_msg_setup(app_name: &str) -> (r: String)
    requires
        app_name@.len() + 16 <= usize::MAX,
    ensures
        r@ == spec_finish_msg(app_name@),
{
    let mut hint = String::from_str("$ ");
    hint.append(app_name);
    hint.append(" run");
    proof {
        reveal_strlit("$ ");
        reveal_strlit(" run");
        assert(hint@.len() == app_name@.len() + 6);
    }
    let boxed = get_cmd_box(hint.as_str(), Some(2), None);
    let mut m = String::from_str(separator_line());
    m.append("\n  Installation completed successfully!\n\n  To start the environment, run:\n\n");
    m.append(boxed.as_str());
    m.append("\n");
    m.append(separator_line());
    m
}

} // verus!
