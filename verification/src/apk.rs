//! Package-manager command aliasing.
//!
//! Maps the tool's own package subcommands and aliases onto the guest's
//! native package manager invocation and constructs the privileged
//! request that runs it inside the rootfs.

use vstd::prelude::*;
use vstd::string::StrSliceExecFns;
use vstd::string::StringExecFns;

use crate::args::missing_arg_message;
use crate::args::spec_join_space;
use crate::args::spec_missing_arg;
use crate::args::join_space;
use crate::request::SandboxRequest;
use crate::strutil::str_eq;

verus! {

/// The native package-manager command an alias maps to.
pub open spec fn spec_apk_base(cmd: Seq<char>) -> Seq<char> {
    if cmd == "add"@ || cmd == "install"@ {
        "apk add"@
    } else if cmd == "del"@ || cmd == "remove"@ {
        "apk del"@
    } else if cmd == "-u"@ || cmd == "update"@ {
        "apk update && apk upgrade"@
    } else if cmd == "-s"@ || cmd == "search"@ {
        "apk search"@
    } else if cmd == "fix"@ {
        "apk fix"@
    } else {
        "apk "@ + cmd
    }
}

/// The full guest command: the mapped base followed by the remaining
/// words, space-separated.
pub open spec fn spec_apk_command(cmd: Seq<char>, rest: Seq<Seq<char>>) -> Seq<char> {
    if rest.len() == 0 {
        spec_apk_base(cmd)
    } else {
        spec_apk_base(cmd) + " "@ + spec_join_space(rest)
    }
}

/// Controller for interacting with the guest's package manager.
#[derive(Clone, Debug)]
pub struct Apk {
    /// The name of the current execution context.
    pub name: String,
    /// The specific package subcommand to run.
    pub command: Option<String>,
    /// Additional arguments passed to the package command.
    pub remaining_args: Vec<String>,
    /// Optional rootfs directory override.
    pub rootfs: Option<String>,
}

impl Apk {
    /// Creates a new `Apk` instance with provided execution details.
    pub fn new(
        name: String,
        command: Option<String>,
        remaining_args: Vec<String>,
        rootfs: Option<String>,
    ) -> (r: Apk)
        ensures
            r.name == name,
            r.command == command,
            r.remaining_args == remaining_args,
            r.rootfs == rootfs,
    {
        Apk { name, command, remaining_args, rootfs }
    }

    /// Builds the privileged request that runs the mapped package
    /// command inside the rootfs, or the missing-parameter message when
    /// no subcommand was given.  A present nonempty rootfs override wins
    /// over the configured directory.
    pub fn run(&self, default_rootfs: &str) -> (r: Result<SandboxRequest, String>)
        ensures
            match (r, self.command.deep_view()) {
                (Ok(req), Some(c)) => {
                    &&& req.rootfs_path@ == (match self.rootfs.deep_view() {
                        Some(d) => if d.len() > 0 {
                            d
                        } else {
                            default_rootfs@
                        },
                        None => default_rootfs@,
                    })
                    &&& req.extra_bind_spec@ == Seq::<char>::empty()
                    &&& req.command_line.deep_view() == Some(
                        spec_apk_command(c, self.remaining_args.deep_view()),
                    )
                    &&& req.use_root
                    &&& req.ignore_extra_binds
                    &&& !req.no_group_mapping
                },
                (Err(e), None) => e@ == spec_missing_arg(self.name@, "apk"@, false),
                _ => false,
            },
    {
        let cmd: &String = match &self.command {
            Some(c) => c,
            None => {
                return Err(missing_arg_message(self.name.as_str(), "apk", false));
            },
        };
        let c = cmd.as_str();
        let mut full = if str_eq(c, "add") || str_eq(c, "install") {
            String::from_str("apk add")
        } else if str_eq(c, "del") || str_eq(c, "remove") {
            String::from_str("apk del")
        } else if str_eq(c, "-u") || str_eq(c, "update") {
            String::from_str("apk update && apk upgrade")
        } else if str_eq(c, "-s") || str_eq(c, "search") {
            String::from_str("apk search")
        } else if str_eq(c, "fix") {
            String::from_str("apk fix")
        } else {
            let mut s = String::from_str("apk ");
            s.append(c);
            s
        };
        if self.remaining_args.len() > 0 {
            full.append(" ");
            let joined = join_space(&self.remaining_args);
            full.append(joined.as_str());
        }
        let rootfs: String = match &self.rootfs {
            Some(d) => {
                if d.as_str().unicode_len() > 0 {
                    d.clone()
                } else {
                    String::from_str(default_rootfs)
                }
            },
            None => String::from_str(default_rootfs),
        };
        Ok(SandboxRequest::rooted_command(rootfs, full))
    }
}

} // verus!
