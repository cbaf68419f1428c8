//! The Alpine package-tree subcommand.
//!
//! Parses its flags through the shared repository-query parser and
//! composes the messages and guest requests its run needs; the git
//! transfers, file reads and copies happen outside the library.

use vstd::prelude::*;
use vstd::string::StringExecFns;

use crate::repoquery::RepoQueryOptions;
use crate::repoquery::parse_repo_query;
use crate::repoquery::spec_repo_query;
use crate::repoquery::spec_repo_query_options;
use crate::utils::separator_line;
use crate::utils::spec_cmd_box;
use crate::utils::spec_separator;

verus! {

/// Controller for the Alpine package-tree repository.
pub struct Aports {
    /// The name of the current execution context.
    pub name: String,
    /// Arguments passed from the command line.
    pub remaining_args: Vec<String>,
}

impl Aports {
    /// Creates a new `Aports` instance with the given context and
    /// arguments.
    pub fn new(name: String, remaining_args: Vec<String>) -> (r: Aports)
        ensures
            r.name == name,
            r.remaining_args == remaining_args,
    {
        Aports { name, remaining_args }
    }

    /// Parses the subcommand's arguments.
    pub fn parse_args(&self, default_rootfs: &str, default_output: &str) -> (r: Result<
        RepoQueryOptions,
        String,
    >)
        ensures
            ({
                let s = spec_repo_query(
                    self.name@,
                    "aports"@,
                    self.remaining_args.deep_view(),
                    default_rootfs@,
                    default_output@,
                );
                match r {
                    Ok(o) => s is Ok && spec_repo_query_options(s->Ok_0, o),
                    Err(e) => s is Err && e@ == s->Err_0,
                }
            }),
    {
        parse_repo_query(
            self.name.as_str(),
            "aports",
            &self.remaining_args,
            default_rootfs,
            default_output,
        )
    }
}

/// The message shown for a search outcome: the boxed heading over the
/// matching lines, or the not-found error when nothing matched.
pub open spec fn spec_search_result_message(result: Seq<char>) -> Result<Seq<char>, Seq<char>> {
    if result.len() == 0 {
        Err(spec_separator() + "\nResult not found!\n"@ + spec_separator())
    } else {
        Ok(
            spec_separator() + "\n"@ + spec_cmd_box("SEARCH RESULT:"@, 0, 18) + "\n"@ + result
                + "\n"@ + spec_separator(),
        )
    }
}

/// Composes the search-result display, or the not-found error when the
/// collected matches are empty.
pub fn search_result_message(result: &str) -> (r: Result<String, String>)
    ensures
        ({
            let s = spec_search_result_message(result@);
            match r {
                Ok(m) => s is Ok && m@ == s->Ok_0,
                Err(e) => s is Err && e@ == s->Err_0,
            }
        }),
{
    if result.unicode_len() == 0 {
        let mut m = String::from_str(separator_line());
        m.append("\nResult not found!\n");
        m.append(separator_line());
        return Err(m);
    }
    proof {
        reveal_strlit("SEARCH RESULT:");
    }
    let boxed = crate::utils::get_cmd_box("SEARCH RESULT:", None, Some(18));
    let mut m = String::from_str(separator_line());
    m.append("\n");
    m.append(boxed.as_str());
    m.append("\n");
    m.append(result);
    m.append("\n");
    m.append(separator_line());
    Ok(m)
}

} // verus!
