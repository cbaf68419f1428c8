//! Environment setup planning for the `setup` subcommand.
//!
//! Parses the setup flags, recognizes rootfs tarball links, orders their
//! versions and selects the newest, and decides whether a target
//! directory may be installed into.  The network transfers and the
//! archive extraction happen outside the library.

use vstd::prelude::*;
use vstd::string::StrSliceExecFns;
use vstd::string::StringExecFns;

use crate::args::invalid_arg_message;
use crate::args::parse_key_value;
use crate::args::spec_invalid_arg;
use crate::args::spec_parse_key_value;
use crate::numbers::all_digits;
use crate::numbers::digits_val;
use crate::numbers::is_digit_char;
use crate::numbers::parse_u32;
use crate::split::spec_split_char;
use crate::split::split_on_char;
use crate::strutil::spec_is_prefix;
use crate::strutil::str_eq;
use crate::strutil::str_starts_with;

verus! {

/// The packages installed into a fresh environment unless a minimal
/// setup was requested.
pub open spec fn spec_def_packages() -> Seq<char> {
    "alpine-sdk autoconf automake cmake glib-dev glib-static libtool go xz"@
}

pub fn def_packages() -> (r: &'static str)
    ensures
        r@ == spec_def_packages(),
{
    "alpine-sdk autoconf automake cmake glib-dev glib-static libtool go xz"
}

/// The parser state of the `setup` subcommand.
pub struct SetupParseView {
    pub no_cache: bool,
    pub reinstall: bool,
    pub edge: bool,
    pub minimal: bool,
    pub use_mirror: Option<Seq<char>>,
    pub cache_dir: Seq<char>,
    pub rootfs_dir: Seq<char>,
}

/// One step at a time over the setup flags.
pub open spec fn spec_setup_parse(
    app: Seq<char>,
    args: Seq<Seq<char>>,
    st: SetupParseView,
) -> Result<SetupParseView, Seq<char>>
    decreases args.len(),
{
    if args.len() == 0 {
        Ok(st)
    } else {
        let a = args[0];
        let rest = args.skip(1);
        let nxt: Option<Seq<char>> = if args.len() >= 2 {
            Some(args[1])
        } else {
            None
        };
        let step: int = if args.len() >= 2 {
            2
        } else {
            1
        };
        if a == "--no-cache"@ {
            spec_setup_parse(app, rest, SetupParseView { no_cache: true, ..st })
        } else if a == "-r"@ || a == "--reinstall"@ {
            spec_setup_parse(app, rest, SetupParseView { reinstall: true, ..st })
        } else if a == "--edge"@ {
            spec_setup_parse(app, rest, SetupParseView { edge: true, ..st })
        } else if a == "--minimal"@ {
            spec_setup_parse(app, rest, SetupParseView { minimal: true, ..st })
        } else if spec_is_prefix("--mirror="@, a) {
            match spec_parse_key_value(app, "setup"@, "url"@, a, None) {
                Ok(v) => spec_setup_parse(app, rest, SetupParseView { use_mirror: Some(v), ..st }),
                Err(e) => Err(e),
            }
        } else if a == "--mirror"@ {
            match spec_parse_key_value(app, "setup"@, "url"@, a, nxt) {
                Ok(v) => spec_setup_parse(
                    app,
                    args.skip(step),
                    SetupParseView { use_mirror: Some(v), ..st },
                ),
                Err(e) => Err(e),
            }
        } else if spec_is_prefix("--cache="@, a) {
            match spec_parse_key_value(app, "setup"@, "directory"@, a, None) {
                Ok(v) => spec_setup_parse(app, rest, SetupParseView { cache_dir: v, ..st }),
                Err(e) => Err(e),
            }
        } else if a == "--cache"@ {
            match spec_parse_key_value(app, "setup"@, "directory"@, a, nxt) {
                Ok(v) => spec_setup_parse(
                    app,
                    args.skip(step),
                    SetupParseView { cache_dir: v, ..st },
                ),
                Err(e) => Err(e),
            }
        } else if spec_is_prefix("--rootfs="@, a) {
            match spec_parse_key_value(app, "setup"@, "directory"@, a, None) {
                Ok(v) => spec_setup_parse(app, rest, SetupParseView { rootfs_dir: v, ..st }),
                Err(e) => Err(e),
            }
        } else if a == "-R"@ || a == "--rootfs"@ {
            match spec_parse_key_value(app, "setup"@, "directory"@, a, nxt) {
                Ok(v) => spec_setup_parse(
                    app,
                    args.skip(step),
                    SetupParseView { rootfs_dir: v, ..st },
                ),
                Err(e) => Err(e),
            }
        } else {
            Err(spec_invalid_arg(app, "setup"@, a))
        }
    }
}

/// The overall outcome of the setup argument list, with the cache
/// redirected to the throwaway directory when caching is disabled.
pub open spec fn spec_setup_args(
    app: Seq<char>,
    args: Seq<Seq<char>>,
    default_cache: Seq<char>,
    default_rootfs: Seq<char>,
) -> Result<SetupParseView, Seq<char>> {
    match spec_setup_parse(
        app,
        args,
        SetupParseView {
            no_cache: false,
            reinstall: false,
            edge: false,
            minimal: false,
            use_mirror: None,
            cache_dir: default_cache,
            rootfs_dir: default_rootfs,
        },
    ) {
        Ok(st) => Ok(
            SetupParseView {
                cache_dir: if st.no_cache {
                    "/tmp/ALPack_cache"@
                } else {
                    st.cache_dir
                },
                ..st
            },
        ),
        Err(e) => Err(e),
    }
}

/// What the setup does once its arguments are parsed.
#[derive(Debug)]
pub struct SetupOptions {
    pub no_cache: bool,
    pub reinstall: bool,
    pub edge: bool,
    pub minimal: bool,
    pub use_mirror: Option<String>,
    pub cache_dir: String,
    pub rootfs_dir: String,
}

pub open spec fn spec_setup_options(st: SetupParseView, o: SetupOptions) -> bool {
    &&& o.no_cache == st.no_cache
    &&& o.reinstall == st.reinstall
    &&& o.edge == st.edge
    &&& o.minimal == st.minimal
    &&& o.use_mirror.deep_view() == st.use_mirror
    &&& o.cache_dir@ == st.cache_dir
    &&& o.rootfs_dir@ == st.rootfs_dir
}

/// Manager of the environment setup.
pub struct Setup {
    /// The name of the current execution context.
    pub name: String,
    /// Arguments passed from the command line.
    pub remaining_args: Vec<String>,
}

impl Setup {
    /// Creates a new `Setup` instance with the given context and
    /// arguments.
    pub fn new(name: String, remaining_args: Vec<String>) -> (r: Setup)
        ensures
            r.name == name,
            r.remaining_args == remaining_args,
    {
        Setup { name, remaining_args }
    }

    /// Parses the subcommand's arguments.
    #[verifier::rlimit(60)]
    #[verifier::loop_isolation(false)]
    pub fn parse_args(&self, default_cache: &str, default_rootfs: &str) -> (r: Result<
        SetupOptions,
        String,
    >)
        ensures
            ({
                let s = spec_setup_args(
                    self.name@,
                    self.remaining_args.deep_view(),
                    default_cache@,
                    default_rootfs@,
                );
                match r {
                    Ok(o) => s is Ok && spec_setup_options(s->Ok_0, o),
                    Err(e) => s is Err && e@ == s->Err_0,
                }
            }),
    {
        let ghost app_v = self.name@;
        let ghost dv = self.remaining_args.deep_view();
        let n = self.remaining_args.len();
        let mut no_cache: bool = false;
        let mut reinstall: bool = false;
        let mut edge: bool = false;
        let mut minimal: bool = false;
        let mut use_mirror: Option<String> = None;
        let mut cache_dir = String::from_str(default_cache);
        let mut rootfs_dir = String::from_str(default_rootfs);
        let mut i: usize = 0;
        proof {
            assert(dv.skip(0) =~= dv);
        }
        while i < n
            invariant
                i <= n,
                spec_setup_parse(
                    app_v,
                    dv.skip(i as int),
                    (SetupParseView {
                        no_cache,
                        reinstall,
                        edge,
                        minimal,
                        use_mirror: use_mirror.deep_view(),
                        cache_dir: cache_dir@,
                        rootfs_dir: rootfs_dir@,
                    }),
                ) == spec_setup_parse(
                    app_v,
                    dv,
                    (SetupParseView {
                        no_cache: false,
                        reinstall: false,
                        edge: false,
                        minimal: false,
                        use_mirror: None,
                        cache_dir: default_cache@,
                        rootfs_dir: default_rootfs@,
                    }),
                ),
            decreases n - i,
        {
            proof {
                assert(dv.skip(i as int)[0] == dv[i as int]);
                assert(dv.skip(i as int).skip(1) =~= dv.skip(i + 1));
                if i + 1 < n {
                    assert(dv.skip(i as int)[1] == dv[i + 1]);
                    assert(dv.skip(i as int).skip(2) =~= dv.skip(i + 2));
                }
            }
            let a = self.remaining_args[i].as_str();
            let has_next = i + 1 < n;
            let nxt: Option<&str> = if has_next {
                Some(self.remaining_args[i + 1].as_str())
            } else {
                None
            };
            proof {
                assert(nxt.deep_view() == (if dv.skip(i as int).len() >= 2 {
                    Some(dv.skip(i as int)[1])
                } else {
                    Option::<Seq<char>>::None
                }));
            }
            if str_eq(a, "--no-cache") {
                no_cache = true;
                i = i + 1;
            } else if str_eq(a, "-r") || str_eq(a, "--reinstall") {
                reinstall = true;
                i = i + 1;
            } else if str_eq(a, "--edge") {
                edge = true;
                i = i + 1;
            } else if str_eq(a, "--minimal") {
                minimal = true;
                i = i + 1;
            } else if str_starts_with(a, "--mirror=") {
                match parse_key_value(self.name.as_str(), "setup", "url", a, None) {
                    Ok(v) => {
                        use_mirror = Some(v);
                        i = i + 1;
                    },
                    Err(e) => {
                        return Err(e);
                    },
                }
            } else if str_eq(a, "--mirror") {
                match parse_key_value(self.name.as_str(), "setup", "url", a, nxt) {
                    Ok(v) => {
                        use_mirror = Some(v);
                        i = if has_next {
                            i + 2
                        } else {
                            i + 1
                        };
                    },
                    Err(e) => {
                        return Err(e);
                    },
                }
            } else if str_starts_with(a, "--cache=") {
                match parse_key_value(self.name.as_str(), "setup", "directory", a, None) {
                    Ok(v) => {
                        cache_dir = v;
                        i = i + 1;
                    },
                    Err(e) => {
                        return Err(e);
                    },
                }
            } else if str_eq(a, "--cache") {
                match parse_key_value(self.name.as_str(), "setup", "directory", a, nxt) {
                    Ok(v) => {
                        cache_dir = v;
                        i = if has_next {
                            i + 2
                        } else {
                            i + 1
                        };
                    },
                    Err(e) => {
                        return Err(e);
                    },
                }
            } else if str_starts_with(a, "--rootfs=") {
                match parse_key_value(self.name.as_str(), "setup", "directory", a, None) {
                    Ok(v) => {
                        rootfs_dir = v;
                        i = i + 1;
                    },
                    Err(e) => {
                        return Err(e);
                    },
                }
            } else if str_eq(a, "-R") || str_eq(a, "--rootfs") {
                match parse_key_value(self.name.as_str(), "setup", "directory", a, nxt) {
                    Ok(v) => {
                        rootfs_dir = v;
                        i = if has_next {
                            i + 2
                        } else {
                            i + 1
                        };
                    },
                    Err(e) => {
                        return Err(e);
                    },
                }
            } else {
                return Err(invalid_arg_message(self.name.as_str(), "setup", a));
            }
        }
        proof {
            assert(dv.skip(n as int).len() == 0);
        }
        if no_cache {
            cache_dir = String::from_str("/tmp/ALPack_cache");
        }
        Ok(SetupOptions { no_cache, reinstall, edge, minimal, use_mirror, cache_dir, rootfs_dir })
    }
}

/// The already-installed message of the directory check.
pub open spec fn spec_already_available_message(target: Seq<char>) -> Seq<char> {
    "Rootfs directory "@ + target
        + " is already available.\nUse [-r|--reinstall] to reinstall it."@
}

/// Decides, from the observed directory states, whether the target may
/// be installed into: an existing target is refused; a writable parent
/// whose write test passed is accepted; otherwise an existing fallback
/// directory is refused and anything else accepted.
pub fn test_valid_directory(
    target: &str,
    target_is_dir: bool,
    parent_exists: bool,
    parent_writable: bool,
    write_test_ok: bool,
    fallback_is_dir: bool,
) -> (r: Result<(), String>)
    ensures
        target_is_dir ==> r is Err && r->Err_0@ == spec_already_available_message(target@),
        !target_is_dir && parent_exists && parent_writable && write_test_ok ==> r is Ok,
        !target_is_dir && !(parent_exists && parent_writable && write_test_ok) ==> (
        if fallback_is_dir {
            r is Err && r->Err_0@ == spec_already_available_message(target@)
        } else {
            r is Ok
        }),
{
    if target_is_dir {
        let mut m = String::from_str("Rootfs directory ");
        m.append(target);
        m.append(" is already available.\nUse [-r|--reinstall] to reinstall it.");
        return Err(m);
    }
    if parent_exists && parent_writable && write_test_ok {
        return Ok(());
    }
    if fallback_is_dir {
        let mut m = String::from_str("Rootfs directory ");
        m.append(target);
        m.append(" is already available.\nUse [-r|--reinstall] to reinstall it.");
        return Err(m);
    }
    Ok(())
}

/// An ordered version key read from a rootfs tarball name.
#[derive(Clone, Debug)]
pub struct VersionKey {
    pub major: u32,
    pub minor: u32,
    pub patch: u32,
    pub suffix: String,
}

/// The key's mathematical value.
pub struct VersionKeyView {
    pub major: u32,
    pub minor: u32,
    pub patch: u32,
    pub suffix: Seq<char>,
}

impl View for VersionKey {
    type V = VersionKeyView;

    open spec fn view(&self) -> VersionKeyView {
        VersionKeyView {
            major: self.major,
            minor: self.minor,
            patch: self.patch,
            suffix: self.suffix@,
        }
    }
}

/// A valid version suffix: nonempty and alphanumeric throughout.
pub open spec fn spec_valid_suffix(rest2: Seq<char>) -> bool {
    rest2.len() > 0 && (forall|i: int| 0 <= i < rest2.len() ==> spec_is_alnum(#[trigger] rest2[i]))
}

pub open spec fn spec_is_alnum(c: char) -> bool {
    (48 <= c as u32 && c as u32 <= 57) || (65 <= c as u32 && c as u32 <= 90) || (97 <= c as u32
        && c as u32 <= 122)
}

fn is_alnum(c: char) -> (b: bool)
    ensures
        b == spec_is_alnum(c),
{
    let u = c as u32;
    (48 <= u && u <= 57) || (65 <= u && u <= 90) || (97 <= u && u <= 122)
}

/// How many leading characters of `s` are decimal digits.
pub open spec fn spec_digit_prefix_len(s: Seq<char>) -> nat
    decreases s.len(),
{
    if s.len() > 0 && is_digit_char(s[0]) {
        1 + spec_digit_prefix_len(s.skip(1))
    } else {
        0
    }
}

proof fn lemma_digit_prefix_at(s: Seq<char>, k: int)
    requires
        0 <= k <= s.len(),
        forall|i: int| 0 <= i < k ==> is_digit_char(s[i]),
        k < s.len() ==> !is_digit_char(s[k]),
    ensures
        spec_digit_prefix_len(s) == k,
    decreases k,
{
    if k > 0 {
        assert(is_digit_char(s[0]));
        assert(forall|i: int| 0 <= i < k - 1 ==> is_digit_char(#[trigger] s.skip(1)[i]));
        if k - 1 < s.skip(1).len() {
            assert(s.skip(1)[k - 1] == s[k]);
        }
        lemma_digit_prefix_at(s.skip(1), k - 1);
    }
}

/// A numeric field: nonempty, all digits, and within range.
pub open spec fn spec_field_u32(f: Seq<char>) -> Option<u32> {
    if f.len() > 0 && all_digits(f) && digits_val(f) <= u32::MAX {
        Some(digits_val(f) as u32)
    } else {
        None
    }
}

/// The version key a version string denotes: three dot-separated numeric
/// fields, the last optionally followed by one `_` or `-` and an
/// alphanumeric suffix.
pub open spec fn spec_parse_version(s: Seq<char>) -> Option<VersionKeyView> {
    let fields = spec_split_char(s, '.');
    if fields.len() != 3 {
        None
    } else {
        match (spec_field_u32(fields[0]), spec_field_u32(fields[1])) {
            (Some(major), Some(minor)) => {
                let p = fields[2];
                let k = spec_digit_prefix_len(p) as int;
                if k == 0 {
                    None
                } else {
                    match spec_field_u32(p.take(k)) {
                        Some(patch) => {
                            let rest = p.skip(k);
                            if rest.len() == 0 {
                                Some(
                                    VersionKeyView {
                                        major,
                                        minor,
                                        patch,
                                        suffix: Seq::<char>::empty(),
                                    },
                                )
                            } else {
                                let rest2 = if rest[0] == '_' || rest[0] == '-' {
                                    rest.skip(1)
                                } else {
                                    rest
                                };
                                if spec_valid_suffix(rest2) {
                                    Some(VersionKeyView { major, minor, patch, suffix: rest2 })
                                } else {
                                    None
                                }
                            }
                        },
                        None => None,
                    }
                }
            },
            _ => None,
        }
    }
}

/// Parses a version string into its ordered key.
#[verifier::loop_isolation(false)]
pub fn parse_version_key(s: &str) -> (r: Option<VersionKey>)
    ensures
        r is Some <==> spec_parse_version(s@) is Some,
        r is Some ==> r->0@ == spec_parse_version(s@)->0,
{
    let fields = split_on_char(s, '.');
    let ghost fdv = fields.deep_view();
    if fields.len() != 3 {
        return None;
    }
    let major = match parse_u32(fields[0].as_str()) {
        Some(v) => v,
        None => {
            return None;
        },
    };
    let minor = match parse_u32(fields[1].as_str()) {
        Some(v) => v,
        None => {
            return None;
        },
    };
    let p = fields[2].as_str();
    let ghost pv = p@;
    let pn = p.unicode_len();
    let mut k: usize = 0;
    while k < pn && crate::numbers::is_digit(p.get_char(k))
        invariant
            k <= pn,
            forall|i: int| 0 <= i < k ==> is_digit_char(pv[i]),
        decreases pn - k,
    {
        k = k + 1;
    }
    proof {
        lemma_digit_prefix_at(pv, k as int);
    }
    if k == 0 {
        return None;
    }
    let patch_str = p.substring_char(0, k);
    proof {
        assert(pv.subrange(0, k as int) =~= pv.take(k as int));
    }
    let patch = match parse_u32(patch_str) {
        Some(v) => v,
        None => {
            return None;
        },
    };
    if k == pn {
        proof {
            assert(pv.skip(k as int).len() == 0);
        }
        return Some(VersionKey { major, minor, patch, suffix: String::new() });
    }
    let c0 = p.get_char(k);
    let start: usize = if c0 == '_' || c0 == '-' {
        k + 1
    } else {
        k
    };
    proof {
        assert(pv.skip(k as int)[0] == pv[k as int]);
        assert(pv.skip(k as int).skip(1) =~= pv.skip(k + 1));
    }
    let ghost rest2 = pv.skip(start as int);
    if start == pn {
        proof {
            assert(rest2.len() == 0);
        }
        return None;
    }
    let mut j: usize = start;
    while j < pn
        invariant
            start <= j <= pn,
            forall|i: int| start <= i < j ==> spec_is_alnum(pv[i]),
        decreases pn - j,
    {
        if !is_alnum(p.get_char(j)) {
            proof {
                assert(rest2[j - start] == pv[j as int]);
                assert(!spec_valid_suffix(rest2));
            }
            return None;
        }
        j = j + 1;
    }
    proof {
        assert(spec_valid_suffix(rest2));
    }
    let suffix = p.substring_char(start, pn);
    proof {
        assert(pv.subrange(start as int, pn as int) =~= rest2);
    }
    Some(VersionKey { major, minor, patch, suffix: String::from_str(suffix) })
}

/// Strict character-sequence ordering, code point by code point.
pub open spec fn spec_str_lt(x: Seq<char>, y: Seq<char>) -> bool
    decreases x.len(),
{
    if y.len() == 0 {
        false
    } else if x.len() == 0 {
        true
    } else if (x[0] as u32) < (y[0] as u32) {
        true
    } else if x[0] != y[0] {
        false
    } else {
        spec_str_lt(x.skip(1), y.skip(1))
    }
}

/// Strict version ordering: major, minor, patch, then the suffix.
pub open spec fn spec_version_lt(a: VersionKeyView, b: VersionKeyView) -> bool {
    if a.major != b.major {
        a.major < b.major
    } else if a.minor != b.minor {
        a.minor < b.minor
    } else if a.patch != b.patch {
        a.patch < b.patch
    } else {
        spec_str_lt(a.suffix, b.suffix)
    }
}

fn str_lt(x: &str, y: &str) -> (r: bool)
    ensures
        r == spec_str_lt(x@, y@),
    decreases x@.len(),
{
    let xn = x.unicode_len();
    let yn = y.unicode_len();
    if yn == 0 {
        return false;
    }
    if xn == 0 {
        return true;
    }
    let cx = x.get_char(0);
    let cy = y.get_char(0);
    if (cx as u32) < (cy as u32) {
        return true;
    }
    if cx != cy {
        return false;
    }
    let xs = x.substring_char(1, xn);
    let ys = y.substring_char(1, yn);
    proof {
        assert(x@.subrange(1, xn as int) =~= x@.skip(1));
        assert(y@.subrange(1, yn as int) =~= y@.skip(1));
    }
    str_lt(xs, ys)
}

/// Whether `a` orders strictly below `b`.
pub fn version_lt(a: &VersionKey, b: &VersionKey) -> (r: bool)
    ensures
        r == spec_version_lt(a@, b@),
{
    if a.major != b.major {
        a.major < b.major
    } else if a.minor != b.minor {
        a.minor < b.minor
    } else if a.patch != b.patch {
        a.patch < b.patch
    } else {
        str_lt(a.suffix.as_str(), b.suffix.as_str())
    }
}

pub open spec fn spec_is_suffix(p: Seq<char>, s: Seq<char>) -> bool {
    p.len() <= s.len() && s.subrange(s.len() - p.len(), s.len() as int) == p
}

fn str_ends_with(s: &str, p: &str) -> (r: bool)
    ensures
        r == spec_is_suffix(p@, s@),
{
    let sn = s.unicode_len();
    let pn = p.unicode_len();
    if pn > sn {
        return false;
    }
    let tail = s.substring_char(sn - pn, sn);
    crate::strutil::str_eq(tail, p)
}

pub open spec fn spec_is_word_char(c: char) -> bool {
    spec_is_alnum(c) || c == '_' || c == '.' || c == '-'
}

/// The version a rootfs tarball link carries for this architecture: the
/// middle of `alpine-minirootfs-<version>-<arch>.tar.gz`, where the
/// version is a nonempty run of word characters, dots and dashes.
pub open spec fn spec_minirootfs_version(href: Seq<char>, arch: Seq<char>) -> Option<Seq<char>> {
    let prefix = "alpine-minirootfs-"@;
    let suffix = "-"@ + arch + ".tar.gz"@;
    if href.len() > prefix.len() + suffix.len() && spec_is_prefix(prefix, href) && spec_is_suffix(
        suffix,
        href,
    ) && (forall|i: int|
        prefix.len() <= i < href.len() - suffix.len() ==> spec_is_word_char(#[trigger] href[i])) {
        Some(href.subrange(prefix.len() as int, href.len() - suffix.len()))
    } else {
        None
    }
}

fn is_word_char(c: char) -> (b: bool)
    ensures
        b == spec_is_word_char(c),
{
    is_alnum(c) || c == '_' || c == '.' || c == '-'
}

/// Extracts the version of a rootfs tarball link, if it is one for this
/// architecture.
#[verifier::loop_isolation(false)]
pub fn parse_minirootfs_href(href: &str, arch: &str) -> (r: Option<String>)
    ensures
        r.deep_view() == spec_minirootfs_version(href@, arch@),
{
    proof {
        reveal_strlit("alpine-minirootfs-");
        reveal_strlit(".tar.gz");
        reveal_strlit("-");
    }
    let suffix = crate::strutil::str_concat3("-", arch, ".tar.gz");
    let hn = href.unicode_len();
    let pl: usize = 18;
    let sl = suffix.as_str().unicode_len();
    if hn <= pl || hn - pl <= sl {
        return None;
    }
    if !str_starts_with(href, "alpine-minirootfs-") {
        return None;
    }
    if !str_ends_with(href, suffix.as_str()) {
        return None;
    }
    let mut i: usize = pl;
    while i < hn - sl
        invariant
            pl <= i <= hn - sl,
            forall|q: int| pl <= q < i ==> spec_is_word_char(href@[q]),
        decreases hn - sl - i,
    {
        if !is_word_char(href.get_char(i)) {
            return None;
        }
        i = i + 1;
    }
    let mid = href.substring_char(pl, hn - sl);
    Some(String::from_str(mid))
}

/// The newest tarball among the links: the maximal version key, with the
/// last of equal keys winning.
pub open spec fn spec_select_latest(
    hrefs: Seq<Seq<char>>,
    arch: Seq<char>,
    acc: Option<(VersionKeyView, Seq<char>, Seq<char>)>,
) -> Option<(VersionKeyView, Seq<char>, Seq<char>)>
    decreases hrefs.len(),
{
    if hrefs.len() == 0 {
        acc
    } else {
        let next = match spec_minirootfs_version(hrefs[0], arch) {
            Some(v) => match spec_parse_version(v) {
                Some(key) => {
                    let better = match acc {
                        None => true,
                        Some(t) => !spec_version_lt(key, t.0),
                    };
                    if better {
                        Some((key, v, hrefs[0]))
                    } else {
                        acc
                    }
                },
                None => acc,
            },
            None => acc,
        };
        spec_select_latest(hrefs.skip(1), arch, next)
    }
}

/// Selects the newest rootfs tarball among the links: its version string
/// and its link.
#[verifier::loop_isolation(false)]
pub fn select_latest(hrefs: &Vec<String>, arch: &str) -> (r: Option<(String, String)>)
    ensures
        ({
            let s = spec_select_latest(hrefs.deep_view(), arch@, None);
            match (r, s) {
                (Some(t), Some(u)) => t.0@ == u.1 && t.1@ == u.2,
                (None, None) => true,
                _ => false,
            }
        }),
{
    let ghost dv = hrefs.deep_view();
    let mut acc: Option<(VersionKey, String, String)> = None;
    let mut i: usize = 0;
    proof {
        assert(dv.skip(0) =~= dv);
    }
    while i < hrefs.len()
        invariant
            i <= hrefs.len(),
            spec_select_latest(
                dv.skip(i as int),
                arch@,
                (match acc {
                    Some(t) => Some((t.0@, t.1@, t.2@)),
                    None => None,
                }),
            ) == spec_select_latest(dv, arch@, None),
        decreases hrefs.len() - i,
    {
        proof {
            assert(dv.skip(i as int)[0] == dv[i as int]);
            assert(dv.skip(i as int).skip(1) =~= dv.skip(i + 1));
        }
        let href = hrefs[i].as_str();
        match parse_minirootfs_href(href, arch) {
            Some(v) => {
                match parse_version_key(v.as_str()) {
                    Some(key) => {
                        let better = match &acc {
                            None => true,
                            Some(t) => !version_lt(&key, &t.0),
                        };
                        if better {
                            acc = Some((key, v, hrefs[i].clone()));
                        }
                    },
                    None => {},
                }
            },
            None => {},
        }
        i = i + 1;
    }
    proof {
        assert(dv.skip(hrefs.len() as int).len() == 0);
    }
    match acc {
        Some(t) => Some((t.1, t.2)),
        None => None,
    }
}

} // verus!
