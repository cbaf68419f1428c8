//! The shared argument parser of the repository subcommands.
//!
//! Both package-tree subcommands accept the same flags: update, search,
//! get, output and rootfs.  After a search or get flag, the following
//! words up to the next flag are collected into that flag's package
//! list; the parser carries that pending list in its state.

use vstd::prelude::*;
use vstd::string::StrSliceExecFns;
use vstd::string::StringExecFns;

use crate::args::invalid_arg_message;
use crate::args::missing_arg_message;
use crate::args::parse_key_value;
use crate::args::spec_invalid_arg;
use crate::args::spec_missing_arg;
use crate::args::spec_parse_key_value;
use crate::strutil::spec_is_prefix;
use crate::strutil::str_eq;
use crate::strutil::str_starts_with;

verus! {

/// Which package list the parser is currently collecting words into.
pub enum PendingList {
    Neither,
    Search,
    Get,
}

/// The parser state of a repository subcommand.
pub struct RepoQueryView {
    pub rootfs_dir: Seq<char>,
    pub output: Seq<char>,
    pub search_pkg: Seq<Seq<char>>,
    pub get_pkg: Seq<Seq<char>>,
    pub update: bool,
    pub search: bool,
    pub get: bool,
    pub essential: bool,
    pub pending: PendingList,
}

/// The initial parser state: configured rootfs and output, nothing
/// requested.
pub open spec fn spec_repo_query_init(
    default_rootfs: Seq<char>,
    default_output: Seq<char>,
) -> RepoQueryView {
    RepoQueryView {
        rootfs_dir: default_rootfs,
        output: default_output,
        search_pkg: Seq::<Seq<char>>::empty(),
        get_pkg: Seq::<Seq<char>>::empty(),
        update: false,
        search: false,
        get: false,
        essential: false,
        pending: PendingList::Neither,
    }
}

/// One step at a time: while a package list is pending, plain words feed
/// it; otherwise flags are dispatched, and a search or get flag opens
/// its list.
pub open spec fn spec_repo_query_parse(
    app: Seq<char>,
    sub: Seq<char>,
    args: Seq<Seq<char>>,
    st: RepoQueryView,
) -> Result<RepoQueryView, Seq<char>>
    decreases args.len(),
{
    if args.len() == 0 {
        Ok(st)
    } else {
        let a = args[0];
        let rest = args.skip(1);
        let nxt: Option<Seq<char>> = if args.len() >= 2 {
            Some(args[1])
        } else {
            None
        };
        let step: int = if args.len() >= 2 {
            2
        } else {
            1
        };
        let dash = a.len() > 0 && a[0] == '-';
        if st.pending is Search && !dash {
            spec_repo_query_parse(
                app,
                sub,
                rest,
                RepoQueryView { search_pkg: st.search_pkg.push(a), ..st },
            )
        } else if st.pending is Get && !dash {
            spec_repo_query_parse(
                app,
                sub,
                rest,
                RepoQueryView { get_pkg: st.get_pkg.push(a), ..st },
            )
        } else {
            let st0 = RepoQueryView { pending: PendingList::Neither, ..st };
            if a == "-u"@ || a == "--update"@ {
                spec_repo_query_parse(
                    app,
                    sub,
                    rest,
                    RepoQueryView { update: true, essential: true, ..st0 },
                )
            } else if spec_is_prefix("--output="@, a) {
                match spec_parse_key_value(app, sub, "directory"@, a, None) {
                    Ok(v) => spec_repo_query_parse(
                        app,
                        sub,
                        rest,
                        RepoQueryView { output: v, ..st0 },
                    ),
                    Err(e) => Err(e),
                }
            } else if a == "-o"@ || a == "--output"@ {
                match spec_parse_key_value(app, sub, "directory"@, a, nxt) {
                    Ok(v) => spec_repo_query_parse(
                        app,
                        sub,
                        args.skip(step),
                        RepoQueryView { output: v, ..st0 },
                    ),
                    Err(e) => Err(e),
                }
            } else if spec_is_prefix("--search="@, a) {
                match spec_parse_key_value(app, sub, "package"@, a, None) {
                    Ok(v) => spec_repo_query_parse(
                        app,
                        sub,
                        rest,
                        RepoQueryView {
                            search: true,
                            essential: true,
                            search_pkg: st0.search_pkg.push(v),
                            pending: PendingList::Search,
                            ..st0
                        },
                    ),
                    Err(e) => Err(e),
                }
            } else if a == "-s"@ || a == "--search"@ {
                match spec_parse_key_value(app, sub, "package"@, a, nxt) {
                    Ok(v) => spec_repo_query_parse(
                        app,
                        sub,
                        args.skip(step),
                        RepoQueryView {
                            search: true,
                            essential: true,
                            search_pkg: st0.search_pkg.push(v),
                            pending: PendingList::Search,
                            ..st0
                        },
                    ),
                    Err(e) => Err(e),
                }
            } else if spec_is_prefix("--get="@, a) {
                match spec_parse_key_value(app, sub, "package"@, a, None) {
                    Ok(v) => spec_repo_query_parse(
                        app,
                        sub,
                        rest,
                        RepoQueryView {
                            get: true,
                            essential: true,
                            get_pkg: st0.get_pkg.push(v),
                            pending: PendingList::Get,
                            ..st0
                        },
                    ),
                    Err(e) => Err(e),
                }
            } else if a == "-g"@ || a == "--get"@ {
                match spec_parse_key_value(app, sub, "package"@, a, nxt) {
                    Ok(v) => spec_repo_query_parse(
                        app,
                        sub,
                        args.skip(step),
                        RepoQueryView {
                            get: true,
                            essential: true,
                            get_pkg: st0.get_pkg.push(v),
                            pending: PendingList::Get,
                            ..st0
                        },
                    ),
                    Err(e) => Err(e),
                }
            } else if spec_is_prefix("--rootfs="@, a) {
                match spec_parse_key_value(app, sub, "directory"@, a, None) {
                    Ok(v) => spec_repo_query_parse(
                        app,
                        sub,
                        rest,
                        RepoQueryView { rootfs_dir: v, ..st0 },
                    ),
                    Err(e) => Err(e),
                }
            } else if a == "-R"@ || a == "--rootfs"@ {
                match spec_parse_key_value(app, sub, "directory"@, a, nxt) {
                    Ok(v) => spec_repo_query_parse(
                        app,
                        sub,
                        args.skip(step),
                        RepoQueryView { rootfs_dir: v, ..st0 },
                    ),
                    Err(e) => Err(e),
                }
            } else {
                Err(spec_invalid_arg(app, sub, a))
            }
        }
    }
}

/// What a repository subcommand does once its arguments are parsed.
#[derive(Debug)]
pub struct RepoQueryOptions {
    pub rootfs_dir: String,
    pub output: String,
    pub search_pkg: Vec<String>,
    pub get_pkg: Vec<String>,
    pub update: bool,
    pub search: bool,
    pub get: bool,
}

/// The parsed options match a final parser state.
pub open spec fn spec_repo_query_options(st: RepoQueryView, o: RepoQueryOptions) -> bool {
    &&& o.rootfs_dir@ == st.rootfs_dir
    &&& o.output@ == st.output
    &&& o.search_pkg.deep_view() == st.search_pkg
    &&& o.get_pkg.deep_view() == st.get_pkg
    &&& o.update == st.update
    &&& o.search == st.search
    &&& o.get == st.get
}

/// The overall outcome of one repository subcommand's argument list: no
/// arguments and no essential flag are the two missing-parameter errors.
pub open spec fn spec_repo_query(
    app: Seq<char>,
    sub: Seq<char>,
    args: Seq<Seq<char>>,
    default_rootfs: Seq<char>,
    default_output: Seq<char>,
) -> Result<RepoQueryView, Seq<char>> {
    if args.len() == 0 {
        Err(spec_missing_arg(app, sub, false))
    } else {
        match spec_repo_query_parse(
            app,
            sub,
            args,
            spec_repo_query_init(default_rootfs, default_output),
        ) {
            Ok(st) => if !st.essential {
                Err(spec_missing_arg(app, sub, true))
            } else {
                Ok(st)
            },
            Err(e) => Err(e),
        }
    }
}

/// Parses one repository subcommand's argument list.
#[verifier::rlimit(100)]
#[verifier::loop_isolation(false)]
pub fn parse_repo_query(
    app_name: &str,
    sub: &str,
    args: &Vec<String>,
    default_rootfs: &str,
    default_output: &str,
) -> (r: Result<RepoQueryOptions, String>)
    ensures
        ({
            let s = spec_repo_query(
                app_name@,
                sub@,
                args.deep_view(),
                default_rootfs@,
                default_output@,
            );
            match r {
                Ok(o) => s is Ok && spec_repo_query_options(s->Ok_0, o),
                Err(e) => s is Err && e@ == s->Err_0,
            }
        }),
{
    let ghost app_v = app_name@;
    let ghost sub_v = sub@;
    let ghost dv = args.deep_view();
    let n = args.len();
    if n == 0 {
        return Err(missing_arg_message(app_name, sub, false));
    }
    let mut rootfs_dir = String::from_str(default_rootfs);
    let mut output = String::from_str(default_output);
    let mut search_pkg: Vec<String> = Vec::new();
    let mut get_pkg: Vec<String> = Vec::new();
    let mut update: bool = false;
    let mut search: bool = false;
    let mut get: bool = false;
    let mut essential: bool = false;
    let mut pending: u8 = 0;
    let mut i: usize = 0;
    proof {
        assert(dv.skip(0) =~= dv);
        assert(search_pkg.deep_view() =~= Seq::<Seq<char>>::empty());
        assert(get_pkg.deep_view() =~= Seq::<Seq<char>>::empty());
    }
    while i < n
        invariant
            i <= n,
            pending <= 2,
            spec_repo_query_parse(
                app_v,
                sub_v,
                dv.skip(i as int),
                (RepoQueryView {
                    rootfs_dir: rootfs_dir@,
                    output: output@,
                    search_pkg: search_pkg.deep_view(),
                    get_pkg: get_pkg.deep_view(),
                    update,
                    search,
                    get,
                    essential,
                    pending: (if pending == 1 {
                        PendingList::Search
                    } else if pending == 2 {
                        PendingList::Get
                    } else {
                        PendingList::Neither
                    }),
                }),
            ) == spec_repo_query_parse(
                app_v,
                sub_v,
                dv,
                spec_repo_query_init(default_rootfs@, default_output@),
            ),
        decreases n - i,
    {
        proof {
            assert(dv.skip(i as int)[0] == dv[i as int]);
            assert(dv.skip(i as int).skip(1) =~= dv.skip(i + 1));
            if i + 1 < n {
                assert(dv.skip(i as int)[1] == dv[i + 1]);
                assert(dv.skip(i as int).skip(2) =~= dv.skip(i + 2));
            }
        }
        let a = args[i].as_str();
        let al = a.unicode_len();
        let dash = al > 0 && a.get_char(0) == '-';
        let has_next = i + 1 < n;
        let nxt: Option<&str> = if has_next {
            Some(args[i + 1].as_str())
        } else {
            None
        };
        proof {
            assert(nxt.deep_view() == (if dv.skip(i as int).len() >= 2 {
                Some(dv.skip(i as int)[1])
            } else {
                Option::<Seq<char>>::None
            }));
        }
        if pending == 1 && !dash {
            let ghost pre = search_pkg.deep_view();
            search_pkg.push(args[i].clone());
            proof {
                assert(search_pkg.deep_view() =~= pre.push(dv[i as int]));
            }
            i = i + 1;
        } else if pending == 2 && !dash {
            let ghost pre = get_pkg.deep_view();
            get_pkg.push(args[i].clone());
            proof {
                assert(get_pkg.deep_view() =~= pre.push(dv[i as int]));
            }
            i = i + 1;
        } else {
            pending = 0;
            if str_eq(a, "-u") || str_eq(a, "--update") {
                update = true;
                essential = true;
                i = i + 1;
            } else if str_starts_with(a, "--output=") {
                match parse_key_value(app_name, sub, "directory", a, None) {
                    Ok(v) => {
                        output = v;
                        i = i + 1;
                    },
                    Err(e) => {
                        return Err(e);
                    },
                }
            } else if str_eq(a, "-o") || str_eq(a, "--output") {
                match parse_key_value(app_name, sub, "directory", a, nxt) {
                    Ok(v) => {
                        output = v;
                        i = if has_next {
                            i + 2
                        } else {
                            i + 1
                        };
                    },
                    Err(e) => {
                        return Err(e);
                    },
                }
            } else if str_starts_with(a, "--search=") {
                match parse_key_value(app_name, sub, "package", a, None) {
                    Ok(v) => {
                        search = true;
                        essential = true;
                        let ghost pre = search_pkg.deep_view();
                        let ghost vv = v@;
                        search_pkg.push(v);
                        proof {
                            assert(search_pkg.deep_view() =~= pre.push(vv));
                        }
                        pending = 1;
                        i = i + 1;
                    },
                    Err(e) => {
                        return Err(e);
                    },
                }
            } else if str_eq(a, "-s") || str_eq(a, "--search") {
                match parse_key_value(app_name, sub, "package", a, nxt) {
                    Ok(v) => {
                        search = true;
                        essential = true;
                        let ghost pre = search_pkg.deep_view();
                        let ghost vv = v@;
                        search_pkg.push(v);
                        proof {
                            assert(search_pkg.deep_view() =~= pre.push(vv));
                        }
                        pending = 1;
                        i = if has_next {
                            i + 2
                        } else {
                            i + 1
                        };
                    },
                    Err(e) => {
                        return Err(e);
                    },
                }
            } else if str_starts_with(a, "--get=") {
                match parse_key_value(app_name, sub, "package", a, None) {
                    Ok(v) => {
                        get = true;
                        essential = true;
                        let ghost pre = get_pkg.deep_view();
                        let ghost vv = v@;
                        get_pkg.push(v);
                        proof {
                            assert(get_pkg.deep_view() =~= pre.push(vv));
                        }
                        pending = 2;
                        i = i + 1;
                    },
                    Err(e) => {
                        return Err(e);
                    },
                }
            } else if str_eq(a, "-g") || str_eq(a, "--get") {
                match parse_key_value(app_name, sub, "package", a, nxt) {
                    Ok(v) => {
                        get = true;
                        essential = true;
                        let ghost pre = get_pkg.deep_view();
                        let ghost vv = v@;
                        get_pkg.push(v);
                        proof {
                            assert(get_pkg.deep_view() =~= pre.push(vv));
                        }
                        pending = 2;
                        i = if has_next {
                            i + 2
                        } else {
                            i + 1
                        };
                    },
                    Err(e) => {
                        return Err(e);
                    },
                }
            } else if str_starts_with(a, "--rootfs=") {
                match parse_key_value(app_name, sub, "directory", a, None) {
                    Ok(v) => {
                        rootfs_dir = v;
                        i = i + 1;
                    },
                    Err(e) => {
                        return Err(e);
                    },
                }
            } else if str_eq(a, "-R") || str_eq(a, "--rootfs") {
                match parse_key_value(app_name, sub, "directory", a, nxt) {
                    Ok(v) => {
                        rootfs_dir = v;
                        i = if has_next {
                            i + 2
                        } else {
                            i + 1
                        };
                    },
                    Err(e) => {
                        return Err(e);
                    },
                }
            } else {
                return Err(invalid_arg_message(app_name, sub, a));
            }
        }
    }
    proof {
        assert(dv.skip(n as int).len() == 0);
    }
    if !essential {
        return Err(missing_arg_message(app_name, sub, true));
    }
    Ok(RepoQueryOptions { rootfs_dir, output, search_pkg, get_pkg, update, search, get })
}

} // verus!
