//! Global configuration updates via the `config` subcommand.
//!
//! Parses the configuration flags into an updated `Settings` value; the
//! shell around the library displays the changes and persists them when
//! any argument was given.

use vstd::prelude::*;
use vstd::string::StringExecFns;

use crate::args::invalid_arg_message;
use crate::args::parse_key_value;
use crate::args::spec_invalid_arg;
use crate::args::spec_parse_key_value;
use crate::settings::Settings;
use crate::settings::SettingsView;
use crate::strutil::spec_is_prefix;
use crate::strutil::str_eq;
use crate::strutil::str_starts_with;

verus! {

/// One step at a time over the configuration flags: backend and release
/// presets set one field, the directory and mirror keys take a value in
/// either form, and anything else is invalid.
pub open spec fn spec_config_parse(
    app: Seq<char>,
    args: Seq<Seq<char>>,
    st: SettingsView,
) -> Result<SettingsView, Seq<char>>
    decreases args.len(),
{
    if args.len() == 0 {
        Ok(st)
    } else {
        let a = args[0];
        let rest = args.skip(1);
        let nxt: Option<Seq<char>> = if args.len() >= 2 {
            Some(args[1])
        } else {
            None
        };
        let step: int = if args.len() >= 2 {
            2
        } else {
            1
        };
        if a == "--use-proot"@ {
            spec_config_parse(app, rest, SettingsView { cmd_rootfs: "proot"@, ..st })
        } else if a == "--use-bwrap"@ {
            spec_config_parse(app, rest, SettingsView { cmd_rootfs: "bwrap"@, ..st })
        } else if a == "--use-latest-stable"@ {
            spec_config_parse(app, rest, SettingsView { release: "latest-stable"@, ..st })
        } else if a == "--use-edge"@ {
            spec_config_parse(app, rest, SettingsView { release: "edge"@, ..st })
        } else if spec_is_prefix("--cache-dir="@, a) {
            match spec_parse_key_value(app, "config"@, "directory"@, a, None) {
                Ok(v) => spec_config_parse(app, rest, SettingsView { cache_dir: v, ..st }),
                Err(e) => Err(e),
            }
        } else if a == "--cache-dir"@ {
            match spec_parse_key_value(app, "config"@, "directory"@, a, nxt) {
                Ok(v) => spec_config_parse(
                    app,
                    args.skip(step),
                    SettingsView { cache_dir: v, ..st },
                ),
                Err(e) => Err(e),
            }
        } else if spec_is_prefix("--rootfs-dir="@, a) {
            match spec_parse_key_value(app, "config"@, "directory"@, a, None) {
                Ok(v) => spec_config_parse(app, rest, SettingsView { rootfs_dir: v, ..st }),
                Err(e) => Err(e),
            }
        } else if a == "--rootfs-dir"@ {
            match spec_parse_key_value(app, "config"@, "directory"@, a, nxt) {
                Ok(v) => spec_config_parse(
                    app,
                    args.skip(step),
                    SettingsView { rootfs_dir: v, ..st },
                ),
                Err(e) => Err(e),
            }
        } else if spec_is_prefix("--output-dir="@, a) {
            match spec_parse_key_value(app, "config"@, "directory"@, a, None) {
                Ok(v) => spec_config_parse(app, rest, SettingsView { output_dir: v, ..st }),
                Err(e) => Err(e),
            }
        } else if a == "--output-dir"@ {
            match spec_parse_key_value(app, "config"@, "directory"@, a, nxt) {
                Ok(v) => spec_config_parse(
                    app,
                    args.skip(step),
                    SettingsView { output_dir: v, ..st },
                ),
                Err(e) => Err(e),
            }
        } else if spec_is_prefix("--default-mirror="@, a) {
            match spec_parse_key_value(app, "config"@, "mirror"@, a, None) {
                Ok(v) => spec_config_parse(app, rest, SettingsView { default_mirror: v, ..st }),
                Err(e) => Err(e),
            }
        } else if a == "--default-mirror"@ {
            match spec_parse_key_value(app, "config"@, "mirror"@, a, nxt) {
                Ok(v) => spec_config_parse(
                    app,
                    args.skip(step),
                    SettingsView { default_mirror: v, ..st },
                ),
                Err(e) => Err(e),
            }
        } else {
            Err(spec_invalid_arg(app, "config"@, a))
        }
    }
}

/// Configuration manager for updating application settings.
pub struct Config {
    /// List of command-line arguments to be parsed.
    pub remaining_args: Vec<String>,
}

impl Config {
    /// Creates a new `Config` instance with the arguments passed to the
    /// subcommand.
    pub fn new(remaining_args: Vec<String>) -> (r: Config)
        ensures
            r.remaining_args == remaining_args,
    {
        Config { remaining_args }
    }

    /// Applies the configuration flags to the given settings, returning
    /// the updated settings or the message of the first invalid
    /// argument.
    #[verifier::rlimit(60)]
    #[verifier::loop_isolation(false)]
    pub fn run(&self, app_name: &str, sett: Settings) -> (r: Result<Settings, String>)
        ensures
            ({
                let s = spec_config_parse(app_name@, self.remaining_args.deep_view(), sett@);
                match r {
                    Ok(updated) => s is Ok && updated@ == s->Ok_0,
                    Err(e) => s is Err && e@ == s->Err_0,
                }
            }),
    {
        let ghost app_v = app_name@;
        let ghost dv = self.remaining_args.deep_view();
        let n = self.remaining_args.len();
        let mut cur = sett;
        let mut i: usize = 0;
        proof {
            assert(dv.skip(0) =~= dv);
        }
        while i < n
            invariant
                i <= n,
                spec_config_parse(app_v, dv.skip(i as int), cur@) == spec_config_parse(
                    app_v,
                    dv,
                    sett@,
                ),
            decreases n - i,
        {
            proof {
                assert(dv.skip(i as int)[0] == dv[i as int]);
                assert(dv.skip(i as int).skip(1) =~= dv.skip(i + 1));
                if i + 1 < n {
                    assert(dv.skip(i as int)[1] == dv[i + 1]);
                    assert(dv.skip(i as int).skip(2) =~= dv.skip(i + 2));
                }
            }
            let a = self.remaining_args[i].as_str();
            let has_next = i + 1 < n;
            let nxt: Option<&str> = if has_next {
                Some(self.remaining_args[i + 1].as_str())
            } else {
                None
            };
            proof {
                assert(nxt.deep_view() == (if dv.skip(i as int).len() >= 2 {
                    Some(dv.skip(i as int)[1])
                } else {
                    Option::<Seq<char>>::None
                }));
            }
            if str_eq(a, "--use-proot") {
                cur.cmd_rootfs = String::from_str("proot");
                i = i + 1;
            } else if str_eq(a, "--use-bwrap") {
                cur.cmd_rootfs = String::from_str("bwrap");
                i = i + 1;
            } else if str_eq(a, "--use-latest-stable") {
                cur.release = String::from_str("latest-stable");
                i = i + 1;
            } else if str_eq(a, "--use-edge") {
                cur.release = String::from_str("edge");
                i = i + 1;
            } else if str_starts_with(a, "--cache-dir=") {
                match parse_key_value(app_name, "config", "directory", a, None) {
                    Ok(v) => {
                        cur.cache_dir = v;
                        i = i + 1;
                    },
                    Err(e) => {
                        return Err(e);
                    },
                }
            } else if str_eq(a, "--cache-dir") {
                match parse_key_value(app_name, "config", "directory", a, nxt) {
                    Ok(v) => {
                        cur.cache_dir = v;
                        i = if has_next {
                            i + 2
                        } else {
                            i + 1
                        };
                    },
                    Err(e) => {
                        return Err(e);
                    },
                }
            } else if str_starts_with(a, "--rootfs-dir=") {
                match parse_key_value(app_name, "config", "directory", a, None) {
                    Ok(v) => {
                        cur.rootfs_dir = v;
                        i = i + 1;
                    },
                    Err(e) => {
                        return Err(e);
                    },
                }
            } else if str_eq(a, "--rootfs-dir") {
                match parse_key_value(app_name, "config", "directory", a, nxt) {
                    Ok(v) => {
                        cur.rootfs_dir = v;
                        i = if has_next {
                            i + 2
                        } else {
                            i + 1
                        };
                    },
                    Err(e) => {
                        return Err(e);
                    },
                }
            } else if str_starts_with(a, "--output-dir=") {
                match parse_key_value(app_name, "config", "directory", a, None) {
                    Ok(v) => {
                        cur.output_dir = v;
                        i = i + 1;
                    },
                    Err(e) => {
                        return Err(e);
                    },
                }
            } else if str_eq(a, "--output-dir") {
                match parse_key_value(app_name, "config", "directory", a, nxt) {
                    Ok(v) => {
                        cur.output_dir = v;
                        i = if has_next {
                            i + 2
                        } else {
                            i + 1
                        };
                    },
                    Err(e) => {
                        return Err(e);
                    },
                }
            } else if str_starts_with(a, "--default-mirror=") {
                match parse_key_value(app_name, "config", "mirror", a, None) {
                    Ok(v) => {
                        cur.default_mirror = v;
                        i = i + 1;
                    },
                    Err(e) => {
                        return Err(e);
                    },
                }
            } else if str_eq(a, "--default-mirror") {
                match parse_key_value(app_name, "config", "mirror", a, nxt) {
                    Ok(v) => {
                        cur.default_mirror = v;
                        i = if has_next {
                            i + 2
                        } else {
                            i + 1
                        };
                    },
                    Err(e) => {
                        return Err(e);
                    },
                }
            } else {
                return Err(invalid_arg_message(app_name, "config", a));
            }
        }
        proof {
            assert(dv.skip(n as int).len() == 0);
        }
        Ok(cur)
    }
}

} // verus!
