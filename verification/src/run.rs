//! Request construction for the `run` subcommand.
//!
//! Parses the flags captured after the `run` keyword — privilege, extra
//! binds, command words, rootfs override — into the `SandboxRequest` the
//! engine executes.  The parse is specified as a recursive function of
//! the token list, so every accepted and rejected argument sequence is
//! pinned down.

use vstd::prelude::*;
use vstd::string::StrSliceExecFns;
use vstd::string::StringExecFns;

use crate::args::invalid_arg_message;
use crate::args::join_space;
use crate::args::parse_key_value;
use crate::args::spec_invalid_arg;
use crate::args::spec_join_space;
use crate::args::spec_parse_key_value;
use crate::request::SandboxRequest;
use crate::strutil::spec_is_prefix;
use crate::strutil::str_eq;
use crate::strutil::str_starts_with;

verus! {

/// The parser state of the `run` subcommand: what the flags seen so far
/// have established.
pub struct RunParseView {
    pub rootfs_dir: Seq<char>,
    pub cmd_args: Seq<Seq<char>>,
    pub bind_args: Option<Seq<char>>,
    pub use_root: bool,
    pub ignore_extra_bind: bool,
    pub no_groups: bool,
}

/// The initial parser state: the configured rootfs, no command, no extra
/// binds, no privilege.
pub open spec fn spec_run_init(default_rootfs: Seq<char>) -> RunParseView {
    RunParseView {
        rootfs_dir: default_rootfs,
        cmd_args: Seq::<Seq<char>>::empty(),
        bind_args: None,
        use_root: false,
        ignore_extra_bind: false,
        no_groups: false,
    }
}

/// One step at a time over the argument list: boolean flags set their
/// switch, key flags take a value in either form, `--` and the first
/// plain word sweep the remainder into the command words, and any other
/// flag is invalid.
pub open spec fn spec_run_parse(
    app: Seq<char>,
    args: Seq<Seq<char>>,
    st: RunParseView,
) -> Result<RunParseView, Seq<char>>
    decreases args.len(),
{
    if args.len() == 0 {
        Ok(st)
    } else {
        let a = args[0];
        let rest = args.skip(1);
        let nxt: Option<Seq<char>> = if args.len() >= 2 {
            Some(args[1])
        } else {
            None
        };
        let step: int = if args.len() >= 2 {
            2
        } else {
            1
        };
        if a == "-0"@ || a == "--root"@ {
            spec_run_parse(app, rest, RunParseView { use_root: true, ..st })
        } else if a == "-i"@ || a == "--ignore-extra-binds"@ {
            spec_run_parse(app, rest, RunParseView { ignore_extra_bind: true, ..st })
        } else if a == "-n"@ || a == "--no-groups"@ {
            spec_run_parse(app, rest, RunParseView { no_groups: true, ..st })
        } else if spec_is_prefix("--bind-args="@, a) {
            match spec_parse_key_value(app, "run"@, "parameters"@, a, None) {
                Ok(v) => spec_run_parse(app, rest, RunParseView { bind_args: Some(v), ..st }),
                Err(e) => Err(e),
            }
        } else if a == "-b"@ || a == "--bind-args"@ {
            match spec_parse_key_value(app, "run"@, "parameters"@, a, nxt) {
                Ok(v) => spec_run_parse(
                    app,
                    args.skip(step),
                    RunParseView { bind_args: Some(v), ..st },
                ),
                Err(e) => Err(e),
            }
        } else if spec_is_prefix("--command="@, a) {
            match spec_parse_key_value(app, "run"@, "command"@, a, None) {
                Ok(v) => spec_run_parse(
                    app,
                    rest,
                    RunParseView { cmd_args: st.cmd_args.push(v), ..st },
                ),
                Err(e) => Err(e),
            }
        } else if a == "-c"@ || a == "--command"@ {
            match spec_parse_key_value(app, "run"@, "command"@, a, nxt) {
                Ok(v) => spec_run_parse(
                    app,
                    args.skip(step),
                    RunParseView { cmd_args: st.cmd_args.push(v), ..st },
                ),
                Err(e) => Err(e),
            }
        } else if spec_is_prefix("--rootfs="@, a) {
            match spec_parse_key_value(app, "run"@, "directory"@, a, None) {
                Ok(v) => spec_run_parse(app, rest, RunParseView { rootfs_dir: v, ..st }),
                Err(e) => Err(e),
            }
        } else if a == "-R"@ || a == "--rootfs"@ {
            match spec_parse_key_value(app, "run"@, "directory"@, a, nxt) {
                Ok(v) => spec_run_parse(
                    app,
                    args.skip(step),
                    RunParseView { rootfs_dir: v, ..st },
                ),
                Err(e) => Err(e),
            }
        } else if a == "--"@ {
            Ok(RunParseView { cmd_args: st.cmd_args + rest, ..st })
        } else if a.len() > 0 && a[0] == '-' {
            Err(spec_invalid_arg(app, "run"@, a))
        } else {
            Ok(RunParseView { cmd_args: st.cmd_args + args, ..st })
        }
    }
}

/// The request a final parser state determines.
pub open spec fn spec_run_request(st: RunParseView, req: SandboxRequest) -> bool {
    &&& req.rootfs_path@ == st.rootfs_dir
    &&& req.extra_bind_spec@ == (match st.bind_args {
        Some(b) => b,
        None => Seq::<char>::empty(),
    })
    &&& req.command_line.deep_view() == (if st.cmd_args.len() > 0 {
        Some(spec_join_space(st.cmd_args))
    } else {
        Option::<Seq<char>>::None
    })
    &&& req.use_root == st.use_root
    &&& req.ignore_extra_binds == st.ignore_extra_bind
    &&& req.no_group_mapping == st.no_groups
}

/// Manager for the `run` subcommand.
pub struct Run {
    /// Arguments captured after the `run` keyword.
    pub remaining_args: Vec<String>,
}

fn make_request(
    rootfs_dir: String,
    bind_args: Option<String>,
    cmd_args: Vec<String>,
    use_root: bool,
    ignore_extra_bind: bool,
    no_groups: bool,
) -> (req: SandboxRequest)
    ensures
        spec_run_request(
            (RunParseView {
                rootfs_dir: rootfs_dir@,
                cmd_args: cmd_args.deep_view(),
                bind_args: bind_args.deep_view(),
                use_root,
                ignore_extra_bind,
                no_groups,
            }),
            req,
        ),
{
    let command_line: Option<String> = if cmd_args.len() > 0 {
        Some(join_space(&cmd_args))
    } else {
        None
    };
    let extra_bind_spec: String = match bind_args {
        Some(b) => b,
        None => String::new(),
    };
    SandboxRequest {
        rootfs_path: rootfs_dir,
        extra_bind_spec,
        command_line,
        use_root,
        ignore_extra_binds: ignore_extra_bind,
        no_group_mapping: no_groups,
    }
}

impl Run {
    /// Creates a new `Run` instance with the provided arguments.
    pub fn new(remaining_args: Vec<String>) -> (r: Run)
        ensures
            r.remaining_args == remaining_args,
    {
        Run { remaining_args }
    }

    /// Parses the captured arguments into the request the engine will
    /// execute, or the error message of the first invalid argument.
    #[verifier::rlimit(60)]
    #[verifier::loop_isolation(false)]
    pub fn run(&self, app_name: &str, default_rootfs: &str) -> (r: Result<SandboxRequest, String>)
        ensures
            ({
                let s = spec_run_parse(
                    app_name@,
                    self.remaining_args.deep_view(),
                    spec_run_init(default_rootfs@),
                );
                match r {
                    Ok(req) => s is Ok && spec_run_request(s->Ok_0, req),
                    Err(e) => s is Err && e@ == s->Err_0,
                }
            }),
    {
        let ghost app_v = app_name@;
        let ghost dv = self.remaining_args.deep_view();
        let ghost init = spec_run_init(default_rootfs@);
        let n = self.remaining_args.len();
        let mut rootfs_dir = String::from_str(default_rootfs);
        let mut cmd_args: Vec<String> = Vec::new();
        let mut bind_args: Option<String> = None;
        let mut use_root: bool = false;
        let mut ignore_extra_bind: bool = false;
        let mut no_groups: bool = false;
        let mut i: usize = 0;
        proof {
            assert(dv.skip(0) =~= dv);
            assert(cmd_args.deep_view() =~= Seq::<Seq<char>>::empty());
        }
        while i < n
            invariant
                i <= n,
                n == self.remaining_args.len(),
                dv == self.remaining_args.deep_view(),
                spec_run_parse(
                    app_v,
                    dv.skip(i as int),
                    (RunParseView {
                        rootfs_dir: rootfs_dir@,
                        cmd_args: cmd_args.deep_view(),
                        bind_args: bind_args.deep_view(),
                        use_root,
                        ignore_extra_bind,
                        no_groups,
                    }),
                ) == spec_run_parse(app_v, dv, spec_run_init(default_rootfs@)),
            decreases n - i,
        {
            proof {
                assert(dv.skip(i as int)[0] == dv[i as int]);
                assert(dv.skip(i as int).skip(1) =~= dv.skip(i + 1));
                if i + 1 < n {
                    assert(dv.skip(i as int)[1] == dv[i + 1]);
                    assert(dv.skip(i as int).skip(2) =~= dv.skip(i + 2));
                }
            }
            let a = self.remaining_args[i].as_str();
            let has_next = i + 1 < n;
            if str_eq(a, "-0") || str_eq(a, "--root") {
                use_root = true;
                i = i + 1;
            } else if str_eq(a, "-i") || str_eq(a, "--ignore-extra-binds") {
                ignore_extra_bind = true;
                i = i + 1;
            } else if str_eq(a, "-n") || str_eq(a, "--no-groups") {
                no_groups = true;
                i = i + 1;
            } else if str_starts_with(a, "--bind-args=") {
                match parse_key_value(app_name, "run", "parameters", a, None) {
                    Ok(v) => {
                        bind_args = Some(v);
                        i = i + 1;
                    },
                    Err(e) => {
                        return Err(e);
                    },
                }
            } else if str_eq(a, "-b") || str_eq(a, "--bind-args") {
                let nxt: Option<&str> = if has_next {
                    Some(self.remaining_args[i + 1].as_str())
                } else {
                    None
                };
                proof {
                    assert(nxt.deep_view() == (if dv.skip(i as int).len() >= 2 {
                        Some(dv.skip(i as int)[1])
                    } else {
                        Option::<Seq<char>>::None
                    }));
                }
                match parse_key_value(app_name, "run", "parameters", a, nxt) {
                    Ok(v) => {
                        bind_args = Some(v);
                        i = if has_next {
                            i + 2
                        } else {
                            i + 1
                        };
                    },
                    Err(e) => {
                        return Err(e);
                    },
                }
            } else if str_starts_with(a, "--command=") {
                match parse_key_value(app_name, "run", "command", a, None) {
                    Ok(v) => {
                        let ghost pre = cmd_args.deep_view();
                        let ghost vv = v@;
                        cmd_args.push(v);
                        proof {
                            assert(cmd_args.deep_view() =~= pre.push(vv));
                        }
                        i = i + 1;
                    },
                    Err(e) => {
                        return Err(e);
                    },
                }
            } else if str_eq(a, "-c") || str_eq(a, "--command") {
                let nxt: Option<&str> = if has_next {
                    Some(self.remaining_args[i + 1].as_str())
                } else {
                    None
                };
                proof {
                    assert(nxt.deep_view() == (if dv.skip(i as int).len() >= 2 {
                        Some(dv.skip(i as int)[1])
                    } else {
                        Option::<Seq<char>>::None
                    }));
                }
                match parse_key_value(app_name, "run", "command", a, nxt) {
                    Ok(v) => {
                        let ghost pre = cmd_args.deep_view();
                        let ghost vv = v@;
                        cmd_args.push(v);
                        proof {
                            assert(cmd_args.deep_view() =~= pre.push(vv));
                        }
                        i = if has_next {
                            i + 2
                        } else {
                            i + 1
                        };
                    },
                    Err(e) => {
                        return Err(e);
                    },
                }
            } else if str_starts_with(a, "--rootfs=") {
                match parse_key_value(app_name, "run", "directory", a, None) {
                    Ok(v) => {
                        rootfs_dir = v;
                        i = i + 1;
                    },
                    Err(e) => {
                        return Err(e);
                    },
                }
            } else if str_eq(a, "-R") || str_eq(a, "--rootfs") {
                let nxt: Option<&str> = if has_next {
                    Some(self.remaining_args[i + 1].as_str())
                } else {
                    None
                };
                proof {
                    assert(nxt.deep_view() == (if dv.skip(i as int).len() >= 2 {
                        Some(dv.skip(i as int)[1])
                    } else {
                        Option::<Seq<char>>::None
                    }));
                }
                match parse_key_value(app_name, "run", "directory", a, nxt) {
                    Ok(v) => {
                        rootfs_dir = v;
                        i = if has_next {
                            i + 2
                        } else {
                            i + 1
                        };
                    },
                    Err(e) => {
                        return Err(e);
                    },
                }
            } else if str_eq(a, "--") {
                let ghost pre = cmd_args.deep_view();
                let mut j: usize = i + 1;
                while j < n
                    invariant
                        i + 1 <= j <= n,
                        n == self.remaining_args.len(),
                        dv == self.remaining_args.deep_view(),
                        cmd_args.deep_view() == pre + dv.subrange(i + 1, j as int),
                    decreases n - j,
                {
                    let ghost mid = cmd_args.deep_view();
                    cmd_args.push(self.remaining_args[j].clone());
                    j = j + 1;
                    proof {
                        assert(cmd_args.deep_view() =~= mid.push(dv[j - 1]));
                        assert(cmd_args.deep_view() =~= pre + dv.subrange(i + 1, j as int));
                    }
                }
                proof {
                    assert(dv.subrange(i + 1, n as int) =~= dv.skip(i as int).skip(1));
                }
                return Ok(
                    make_request(
                        rootfs_dir,
                        bind_args,
                        cmd_args,
                        use_root,
                        ignore_extra_bind,
                        no_groups,
                    ),
                );
            } else {
                let al = a.unicode_len();
                if al > 0 && a.get_char(0) == '-' {
                    return Err(invalid_arg_message(app_name, "run", a));
                }
                let ghost pre = cmd_args.deep_view();
                let mut j: usize = i;
                while j < n
                    invariant
                        i <= j <= n,
                        n == self.remaining_args.len(),
                        dv == self.remaining_args.deep_view(),
                        cmd_args.deep_view() == pre + dv.subrange(i as int, j as int),
                    decreases n - j,
                {
                    let ghost mid = cmd_args.deep_view();
                    cmd_args.push(self.remaining_args[j].clone());
                    j = j + 1;
                    proof {
                        assert(cmd_args.deep_view() =~= mid.push(dv[j - 1]));
                        assert(cmd_args.deep_view() =~= pre + dv.subrange(i as int, j as int));
                    }
                }
                proof {
                    assert(dv.subrange(i as int, n as int) =~= dv.skip(i as int));
                }
                return Ok(
                    make_request(
                        rootfs_dir,
                        bind_args,
                        cmd_args,
                        use_root,
                        ignore_extra_bind,
                        no_groups,
                    ),
                );
            }
        }
        proof {
            assert(dv.skip(n as int).len() == 0);
        }
        Ok(make_request(rootfs_dir, bind_args, cmd_args, use_root, ignore_extra_bind, no_groups))
    }
}

} // verus!
