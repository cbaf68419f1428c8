//! Identity emulation layer.
//!
//! Computes the environment assignments and backend remap arguments that
//! present either the emulated privileged identity (uid/gid 0) or the
//! caller's real identity inside the sandbox.  Emulation is presentational
//! only: nothing here grants privilege.

use vstd::prelude::*;
use vstd::string::StrSliceExecFns;

use crate::numbers::all_digits;
use crate::numbers::dec_str;
use crate::numbers::digits_val;
use crate::numbers::parse_u32;
use crate::numbers::u32_to_string;
use crate::request::BackendKind;
use crate::split::spec_split_char;
use crate::split::split_lines;
use crate::split::split_on_char;
use crate::strutil::push_tok;
use crate::strutil::push_tok_owned;
use crate::strutil::str_concat;
use crate::strutil::str_starts_with;

verus! {

/// The environment assignments of the identity token: prompt symbol,
/// identity variables, and uid hints, per backend and privilege level.
pub open spec fn spec_identity_env(kind: BackendKind, use_root: bool, uid: u32) -> Seq<Seq<char>> {
    if use_root {
        match kind {
            BackendKind::Ptrace => seq![
                "PS1=# "@,
                "USER=root"@,
                "LOGNAME=root"@,
                "UID=0"@,
                "EUID=0"@,
            ],
            BackendKind::Namespace => seq!["PS1=# "@],
        }
    } else {
        seq!["PS1=$ "@, "UID="@ + dec_str(uid as nat), "EUID="@ + dec_str(uid as nat)]
    }
}

/// The backend arguments of the identity token.  The ptrace backend takes
/// a single root flag; the namespace backend takes explicit uid/gid remap
/// arguments plus identity environment exports.  Without root emulation
/// neither backend needs remap arguments.
pub open spec fn spec_identity_args(kind: BackendKind, use_root: bool) -> Seq<Seq<char>> {
    if use_root {
        match kind {
            BackendKind::Ptrace => seq!["-0"@],
            BackendKind::Namespace => seq![
                "--uid"@,
                "0"@,
                "--gid"@,
                "0"@,
                "--setenv"@,
                "USER"@,
                "root"@,
                "--setenv"@,
                "LOGNAME"@,
                "root"@,
            ],
        }
    } else {
        Seq::<Seq<char>>::empty()
    }
}

/// The identity token of one invocation: backend remap arguments and
/// environment assignments.
#[derive(Clone, Debug)]
pub struct IdentityToken {
    pub remap_args: Vec<String>,
    pub env_assignments: Vec<String>,
}

/// Computes the identity token for the requested privilege level.
pub fn identity_token(kind: BackendKind, use_root: bool, uid: u32) -> (t: IdentityToken)
    ensures
        t.remap_args.deep_view() == spec_identity_args(kind, use_root),
        t.env_assignments.deep_view() == spec_identity_env(kind, use_root, uid),
{
    let mut remap_args: Vec<String> = Vec::new();
    let mut env_assignments: Vec<String> = Vec::new();
    proof {
        assert(remap_args.deep_view() =~= Seq::<Seq<char>>::empty());
        assert(env_assignments.deep_view() =~= Seq::<Seq<char>>::empty());
    }
    if use_root {
        match kind {
            BackendKind::Ptrace => {
                push_tok(&mut remap_args, "-0");
                push_tok(&mut env_assignments, "PS1=# ");
                push_tok(&mut env_assignments, "USER=root");
                push_tok(&mut env_assignments, "LOGNAME=root");
                push_tok(&mut env_assignments, "UID=0");
                push_tok(&mut env_assignments, "EUID=0");
            },
            BackendKind::Namespace => {
                push_tok(&mut remap_args, "--uid");
                push_tok(&mut remap_args, "0");
                push_tok(&mut remap_args, "--gid");
                push_tok(&mut remap_args, "0");
                push_tok(&mut remap_args, "--setenv");
                push_tok(&mut remap_args, "USER");
                push_tok(&mut remap_args, "root");
                push_tok(&mut remap_args, "--setenv");
                push_tok(&mut remap_args, "LOGNAME");
                push_tok(&mut remap_args, "root");
                push_tok(&mut env_assignments, "PS1=# ");
            },
        }
    } else {
        let uid_str = u32_to_string(uid);
        push_tok(&mut env_assignments, "PS1=$ ");
        push_tok_owned(&mut env_assignments, str_concat("UID=", uid_str.as_str()));
        push_tok_owned(&mut env_assignments, str_concat("EUID=", uid_str.as_str()));
    }
    proof {
        assert(remap_args.deep_view() =~= spec_identity_args(kind, use_root));
        assert(env_assignments.deep_view() =~= spec_identity_env(kind, use_root, uid));
    }
    IdentityToken { remap_args, env_assignments }
}

/// The identity token always encodes uid/gid 0 in the backend-appropriate
/// form when root is requested, and the caller's real uid otherwise.
pub proof fn lemma_identity_encodes_requested_ids(kind: BackendKind, use_root: bool, uid: u32)
    ensures
        use_root && kind is Ptrace ==> spec_identity_env(kind, use_root, uid).contains("UID=0"@)
            && spec_identity_env(kind, use_root, uid).contains("EUID=0"@) && spec_identity_args(
            kind,
            use_root,
        ).contains("-0"@),
        use_root && kind is Namespace ==> spec_identity_args(kind, use_root)[0] == "--uid"@
            && spec_identity_args(kind, use_root)[1] == "0"@ && spec_identity_args(kind, use_root)[2]
            == "--gid"@ && spec_identity_args(kind, use_root)[3] == "0"@,
        !use_root ==> spec_identity_env(kind, use_root, uid).contains(
            "UID="@ + dec_str(uid as nat),
        ) && spec_identity_env(kind, use_root, uid).contains("EUID="@ + dec_str(uid as nat))
            && spec_identity_args(kind, use_root) == Seq::<Seq<char>>::empty(),
{
    if use_root {
        match kind {
            BackendKind::Ptrace => {
                assert(spec_identity_env(kind, use_root, uid)[3] == "UID=0"@);
                assert(spec_identity_env(kind, use_root, uid)[4] == "EUID=0"@);
                assert(spec_identity_args(kind, use_root)[0] == "-0"@);
            },
            BackendKind::Namespace => {
            },
        }
    } else {
        assert(spec_identity_env(kind, use_root, uid)[1] == "UID="@ + dec_str(uid as nat));
        assert(spec_identity_env(kind, use_root, uid)[2] == "EUID="@ + dec_str(uid as nat));
    }
}

/// The line of a passwd file that names `user`: the first line that starts
/// with the user name.
pub open spec fn spec_first_match(lines: Seq<Seq<char>>, user: Seq<char>) -> Option<Seq<char>>
    decreases lines.len(),
{
    if lines.len() == 0 {
        None
    } else if user.len() <= lines[0].len() && lines[0].subrange(0, user.len() as int) == user {
        Some(lines[0])
    } else {
        spec_first_match(lines.skip(1), user)
    }
}

/// The uid recorded in one passwd line: its third `:`-separated field,
/// read as a decimal number; 1000 where the line has no such field or the
/// field is not a number.
pub open spec fn spec_uid_of_line(l: Seq<char>) -> int {
    let fs = spec_split_char(l, ':');
    if fs.len() < 3 {
        1000
    } else if fs[2].len() > 0 && all_digits(fs[2]) && digits_val(fs[2]) <= u32::MAX {
        digits_val(fs[2])
    } else {
        1000
    }
}

/// The caller's uid as recorded in the passwd contents: the uid field of
/// the first line starting with the user name, with 1000 as the fallback
/// whenever the name or the contents are empty, no line matches, or the
/// field is unreadable.
pub open spec fn spec_uid_from_passwd(user: Seq<char>, passwd: Seq<char>) -> int {
    if user.len() == 0 || passwd.len() == 0 {
        1000
    } else {
        match spec_first_match(spec_split_char(passwd, '\n'), user) {
            Some(l) => spec_uid_of_line(l),
            None => 1000,
        }
    }
}

/// The index of the first line starting with `username`.
fn find_matching_line(lines: &Vec<String>, username: &str) -> (r: Option<usize>)
    ensures
        match r {
            Some(k) => k < lines.len() && spec_first_match(lines.deep_view(), username@) == Some(
                lines.deep_view()[k as int],
            ),
            None => spec_first_match(lines.deep_view(), username@) is None,
        },
{
    let ghost dv = lines.deep_view();
    let n = lines.len();
    let mut i: usize = 0;
    proof {
        assert(dv.skip(0) =~= dv);
    }
    while i < n
        invariant
            i <= n,
            n == dv.len(),
            dv == lines.deep_view(),
            spec_first_match(dv.skip(i as int), username@) == spec_first_match(dv, username@),
        decreases n - i,
    {
        proof {
            assert(dv.skip(i as int)[0] == dv[i as int]);
            assert(dv.skip(i as int).skip(1) =~= dv.skip(i + 1));
        }
        if str_starts_with(lines[i].as_str(), username) {
            return Some(i);
        }
        i = i + 1;
    }
    proof {
        assert(dv.skip(n as int).len() == 0);
    }
    None
}

/// Reads the caller's uid out of the host passwd contents.
pub fn get_uid_from_passwd(username: &str, passwd: &str) -> (uid: u32)
    ensures
        uid == spec_uid_from_passwd(username@, passwd@),
{
    if username.unicode_len() == 0 || passwd.unicode_len() == 0 {
        return 1000;
    }
    let lines = split_lines(passwd);
    match find_matching_line(&lines, username) {
        None => 1000,
        Some(k) => {
            let fields = split_on_char(lines[k].as_str(), ':');
            if fields.len() < 3 {
                1000
            } else {
                match parse_u32(fields[2].as_str()) {
                    Some(v) => v,
                    None => 1000,
                }
            }
        },
    }
}

} // verus!
