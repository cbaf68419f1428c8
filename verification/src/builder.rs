//! Package build planning for the `builder` subcommand.
//!
//! Parses the builder's flags, reads the package name out of a build
//! manifest, and composes the guest scripts that generate signing keys
//! and run the build.  The filesystem walking and the launches happen
//! outside the library.

use vstd::prelude::*;
use vstd::string::StringExecFns;

use crate::args::missing_arg_message;
use crate::args::parse_key_value;
use crate::args::spec_missing_arg;
use crate::args::spec_parse_key_value;
use crate::identity::spec_first_match;
use crate::request::SandboxRequest;
use crate::setup::def_packages;
use crate::split::spec_split_char;
use crate::split::split_lines;
use crate::strutil::spec_is_prefix;
use crate::strutil::spec_strip_prefix_rep;
use crate::strutil::spec_trim_ws;
use crate::strutil::str_eq;
use crate::strutil::str_starts_with;
use crate::strutil::strip_prefix_rep;
use crate::strutil::trim_ws;

verus! {

/// The parser state of the `builder` subcommand.
pub struct BuilderParseView {
    pub rootfs_dir: Seq<char>,
    pub apkbuild_file: Seq<char>,
    pub cmd_args: Seq<Seq<char>>,
}

/// One step at a time: the rootfs and manifest keys take a value in
/// either form, and the first other word sweeps the remainder into the
/// build arguments.
pub open spec fn spec_builder_parse(
    app: Seq<char>,
    args: Seq<Seq<char>>,
    st: BuilderParseView,
) -> Result<BuilderParseView, Seq<char>>
    decreases args.len(),
{
    if args.len() == 0 {
        Ok(st)
    } else {
        let a = args[0];
        let rest = args.skip(1);
        let nxt: Option<Seq<char>> = if args.len() >= 2 {
            Some(args[1])
        } else {
            None
        };
        let step: int = if args.len() >= 2 {
            2
        } else {
            1
        };
        if spec_is_prefix("--rootfs="@, a) {
            match spec_parse_key_value(app, "builder"@, "directory"@, a, None) {
                Ok(v) => spec_builder_parse(app, rest, BuilderParseView { rootfs_dir: v, ..st }),
                Err(e) => Err(e),
            }
        } else if a == "-R"@ || a == "--rootfs"@ {
            match spec_parse_key_value(app, "builder"@, "directory"@, a, nxt) {
                Ok(v) => spec_builder_parse(
                    app,
                    args.skip(step),
                    BuilderParseView { rootfs_dir: v, ..st },
                ),
                Err(e) => Err(e),
            }
        } else if spec_is_prefix("--apkbuild="@, a) {
            match spec_parse_key_value(app, "builder"@, "apkbuild"@, a, None) {
                Ok(v) => spec_builder_parse(app, rest, BuilderParseView { apkbuild_file: v, ..st }),
                Err(e) => Err(e),
            }
        } else if a == "-a"@ || a == "--apkbuild"@ {
            match spec_parse_key_value(app, "builder"@, "apkbuild"@, a, nxt) {
                Ok(v) => spec_builder_parse(
                    app,
                    args.skip(step),
                    BuilderParseView { apkbuild_file: v, ..st },
                ),
                Err(e) => Err(e),
            }
        } else {
            Ok(BuilderParseView { cmd_args: st.cmd_args + args, ..st })
        }
    }
}

/// The overall outcome of the builder's argument list: an empty list is
/// the missing-parameter error.
pub open spec fn spec_builder_args(
    app: Seq<char>,
    args: Seq<Seq<char>>,
    default_rootfs: Seq<char>,
) -> Result<BuilderParseView, Seq<char>> {
    if args.len() == 0 {
        Err(spec_missing_arg(app, "builder"@, false))
    } else {
        spec_builder_parse(
            app,
            args,
            BuilderParseView {
                rootfs_dir: default_rootfs,
                apkbuild_file: Seq::<char>::empty(),
                cmd_args: Seq::<Seq<char>>::empty(),
            },
        )
    }
}

/// What the builder does once its arguments are parsed.
#[derive(Debug)]
pub struct BuilderOptions {
    pub rootfs_dir: String,
    pub apkbuild_file: String,
    pub cmd_args: Vec<String>,
}

pub open spec fn spec_builder_options(st: BuilderParseView, o: BuilderOptions) -> bool {
    &&& o.rootfs_dir@ == st.rootfs_dir
    &&& o.apkbuild_file@ == st.apkbuild_file
    &&& o.cmd_args.deep_view() == st.cmd_args
}

/// Build utility for packages and images.
pub struct Builder {
    /// The name of the current execution context.
    pub name: String,
    /// Arguments passed from the command line.
    pub remaining_args: Vec<String>,
}

impl Builder {
    /// Creates a new `Builder` instance with the given context and
    /// arguments.
    pub fn new(name: String, remaining_args: Vec<String>) -> (r: Builder)
        ensures
            r.name == name,
            r.remaining_args == remaining_args,
    {
        Builder { name, remaining_args }
    }

    /// Parses the subcommand's arguments.
    #[verifier::rlimit(60)]
    #[verifier::loop_isolation(false)]
    pub fn parse_args(&self, default_rootfs: &str) -> (r: Result<BuilderOptions, String>)
        ensures
            ({
                let s = spec_builder_args(
                    self.name@,
                    self.remaining_args.deep_view(),
                    default_rootfs@,
                );
                match r {
                    Ok(o) => s is Ok && spec_builder_options(s->Ok_0, o),
                    Err(e) => s is Err && e@ == s->Err_0,
                }
            }),
    {
        let ghost app_v = self.name@;
        let ghost dv = self.remaining_args.deep_view();
        let n = self.remaining_args.len();
        if n == 0 {
            return Err(missing_arg_message(self.name.as_str(), "builder", false));
        }
        let mut rootfs_dir = String::from_str(default_rootfs);
        let mut apkbuild_file = String::new();
        let mut cmd_args: Vec<String> = Vec::new();
        let mut i: usize = 0;
        proof {
            assert(dv.skip(0) =~= dv);
            assert(cmd_args.deep_view() =~= Seq::<Seq<char>>::empty());
        }
        while i < n
            invariant
                i <= n,
                spec_builder_parse(
                    app_v,
                    dv.skip(i as int),
                    (BuilderParseView {
                        rootfs_dir: rootfs_dir@,
                        apkbuild_file: apkbuild_file@,
                        cmd_args: cmd_args.deep_view(),
                    }),
                ) == spec_builder_parse(
                    app_v,
                    dv,
                    (BuilderParseView {
                        rootfs_dir: default_rootfs@,
                        apkbuild_file: Seq::<char>::empty(),
                        cmd_args: Seq::<Seq<char>>::empty(),
                    }),
                ),
            decreases n - i,
        {
            proof {
                assert(dv.skip(i as int)[0] == dv[i as int]);
                assert(dv.skip(i as int).skip(1) =~= dv.skip(i + 1));
                if i + 1 < n {
                    assert(dv.skip(i as int)[1] == dv[i + 1]);
                    assert(dv.skip(i as int).skip(2) =~= dv.skip(i + 2));
                }
            }
            let a = self.remaining_args[i].as_str();
            let has_next = i + 1 < n;
            let nxt: Option<&str> = if has_next {
                Some(self.remaining_args[i + 1].as_str())
            } else {
                None
            };
            proof {
                assert(nxt.deep_view() == (if dv.skip(i as int).len() >= 2 {
                    Some(dv.skip(i as int)[1])
                } else {
                    Option::<Seq<char>>::None
                }));
            }
            if str_starts_with(a, "--rootfs=") {
                match parse_key_value(self.name.as_str(), "builder", "directory", a, None) {
                    Ok(v) => {
                        rootfs_dir = v;
                        i = i + 1;
                    },
                    Err(e) => {
                        return Err(e);
                    },
                }
            } else if str_eq(a, "-R") || str_eq(a, "--rootfs") {
                match parse_key_value(self.name.as_str(), "builder", "directory", a, nxt) {
                    Ok(v) => {
                        rootfs_dir = v;
                        i = if has_next {
                            i + 2
                        } else {
                            i + 1
                        };
                    },
                    Err(e) => {
                        return Err(e);
                    },
                }
            } else if str_starts_with(a, "--apkbuild=") {
                match parse_key_value(self.name.as_str(), "builder", "apkbuild", a, None) {
                    Ok(v) => {
                        apkbuild_file = v;
                        i = i + 1;
                    },
                    Err(e) => {
                        return Err(e);
                    },
                }
            } else if str_eq(a, "-a") || str_eq(a, "--apkbuild") {
                match parse_key_value(self.name.as_str(), "builder", "apkbuild", a, nxt) {
                    Ok(v) => {
                        apkbuild_file = v;
                        i = if has_next {
                            i + 2
                        } else {
                            i + 1
                        };
                    },
                    Err(e) => {
                        return Err(e);
                    },
                }
            } else {
                let ghost pre = cmd_args.deep_view();
                let mut j: usize = i;
                while j < n
                    invariant
                        i <= j <= n,
                        cmd_args.deep_view() == pre + dv.subrange(i as int, j as int),
                    decreases n - j,
                {
                    let ghost mid = cmd_args.deep_view();
                    cmd_args.push(self.remaining_args[j].clone());
                    j = j + 1;
                    proof {
                        assert(cmd_args.deep_view() =~= mid.push(dv[j - 1]));
                        assert(cmd_args.deep_view() =~= pre + dv.subrange(i as int, j as int));
                    }
                }
                proof {
                    assert(dv.subrange(i as int, n as int) =~= dv.skip(i as int));
                }
                return Ok(BuilderOptions { rootfs_dir, apkbuild_file, cmd_args });
            }
        }
        proof {
            assert(dv.skip(n as int).len() == 0);
        }
        Ok(BuilderOptions { rootfs_dir, apkbuild_file, cmd_args })
    }

    /// The package name recorded in a build manifest: the remainder of
    /// the first `pkgname=` line, trimmed; empty when no line names one.
    #[verifier::loop_isolation(false)]
    pub fn get_pkgname(content: &str) -> (r: String)
        ensures
            r@ == (match spec_first_match(spec_split_char(content@, '\n'), "pkgname="@) {
                Some(l) => spec_trim_ws(spec_strip_prefix_rep(l, "pkgname="@)),
                None => Seq::<char>::empty(),
            }),
    {
        let lines = split_lines(content);
        let ghost ldv = lines.deep_view();
        let n = lines.len();
        let mut i: usize = 0;
        proof {
            assert(ldv.skip(0) =~= ldv);
        }
        while i < n
            invariant
                i <= n,
                n == ldv.len(),
                ldv == lines.deep_view(),
                spec_first_match(ldv.skip(i as int), "pkgname="@) == spec_first_match(
                    ldv,
                    "pkgname="@,
                ),
            decreases n - i,
        {
            proof {
                assert(ldv.skip(i as int)[0] == ldv[i as int]);
                assert(ldv.skip(i as int).skip(1) =~= ldv.skip(i + 1));
            }
            if str_starts_with(lines[i].as_str(), "pkgname=") {
                let stripped = strip_prefix_rep(lines[i].as_str(), "pkgname=");
                return trim_ws(stripped.as_str());
            }
            i = i + 1;
        }
        proof {
            assert(ldv.skip(n as int).len() == 0);
        }
        String::new()
    }
}

/// The guest script that installs the build toolchain and generates the
/// signing keys of `user`, once.
pub open spec fn spec_abuild_keygen_script(user: Seq<char>) -> Seq<char> {
    "\n            type abuild > /dev/null || apk add "@ + crate::setup::spec_def_packages()
        + "\n            HOME=/build\n            test -f /etc/apk/keys/"@ + user
        + "*.rsa.pub && exit\n            rm -rf /build/.abuild\n            mkdir -p /build\n            abuild-keygen -a -n\n            cp -v /build/.abuild/"@
        + user + "*.rsa.pub /etc/apk/keys/\n            "@
}

/// The guest script that builds one package directory and installs the
/// produced packages.
pub open spec fn spec_abuild_build_script(dir_name: Seq<char>, arch: Seq<char>) -> Seq<char> {
    "\n            HOME=/build\n            cd /build/"@ + dir_name
        + "\n            abuild -r -F\n            find \"/build/packages/build/"@ + arch
        + "\" -name \"$apkbuild_name\"*.apk -exec apk add --allow-untrusted {} \\;\n        "@
}

/// The two guest requests that build one package: an unprivileged key
/// generation, then a privileged build with all extras skipped and group
/// mapping disabled.
pub fn run_abuild(rootfs: &str, dir_name: &str, user: &str, arch: &str) -> (r: (
    SandboxRequest,
    SandboxRequest,
))
    ensures
        r.0.rootfs_path@ == rootfs@,
        r.0.extra_bind_spec@ == Seq::<char>::empty(),
        r.0.command_line.deep_view() == Some(spec_abuild_keygen_script(user@)),
        !r.0.use_root && !r.0.ignore_extra_binds && !r.0.no_group_mapping,
        r.1.rootfs_path@ == rootfs@,
        r.1.extra_bind_spec@ == Seq::<char>::empty(),
        r.1.command_line.deep_view() == Some(spec_abuild_build_script(dir_name@, arch@)),
        r.1.use_root && r.1.ignore_extra_binds && r.1.no_group_mapping,
{
    let mut s1 = String::from_str("\n            type abuild > /dev/null || apk add ");
    s1.append(def_packages());
    s1.append("\n            HOME=/build\n            test -f /etc/apk/keys/");
    s1.append(user);
    s1.append(
        "*.rsa.pub && exit\n            rm -rf /build/.abuild\n            mkdir -p /build\n            abuild-keygen -a -n\n            cp -v /build/.abuild/",
    );
    s1.append(user);
    s1.append("*.rsa.pub /etc/apk/keys/\n            ");
    let keygen = SandboxRequest {
        rootfs_path: String::from_str(rootfs),
        extra_bind_spec: String::new(),
        command_line: Some(s1),
        use_root: false,
        ignore_extra_binds: false,
        no_group_mapping: false,
    };
    let mut s2 = String::from_str("\n            HOME=/build\n            cd /build/");
    s2.append(dir_name);
    s2.append("\n            abuild -r -F\n            find \"/build/packages/build/");
    s2.append(arch);
    s2.append("\" -name \"$apkbuild_name\"*.apk -exec apk add --allow-untrusted {} \\;\n        ");
    let build = SandboxRequest {
        rootfs_path: String::from_str(rootfs),
        extra_bind_spec: String::new(),
        command_line: Some(s2),
        use_root: true,
        ignore_extra_binds: true,
        no_group_mapping: true,
    };
    (keygen, build)
}

} // verus!
