//! The Adélie package-tree subcommand.
//!
//! Shares the repository-query flags with the Alpine package-tree
//! subcommand; only the repository it synchronizes differs.

use vstd::prelude::*;

use crate::repoquery::RepoQueryOptions;
use crate::repoquery::parse_repo_query;
use crate::repoquery::spec_repo_query;
use crate::repoquery::spec_repo_query_options;

verus! {

/// Controller for Adélie Linux repository operations.
pub struct Aptree {
    /// Arguments passed from the CLI for processing.
    pub remaining_args: Vec<String>,
}

impl Aptree {
    /// Creates a new `Aptree` instance with the given arguments.
    pub fn new(remaining_args: Vec<String>) -> (r: Aptree)
        ensures
            r.remaining_args == remaining_args,
    {
        Aptree { remaining_args }
    }

    /// Parses the subcommand's arguments.
    pub fn parse_args(&self, app_name: &str, default_rootfs: &str, default_output: &str) -> (r:
        Result<RepoQueryOptions, String>)
        ensures
            ({
                let s = spec_repo_query(
                    app_name@,
                    "aptree"@,
                    self.remaining_args.deep_view(),
                    default_rootfs@,
                    default_output@,
                );
                match r {
                    Ok(o) => s is Ok && spec_repo_query_options(s->Ok_0, o),
                    Err(e) => s is Err && e@ == s->Err_0,
                }
            }),
    {
        parse_repo_query(app_name, "aptree", &self.remaining_args, default_rootfs, default_output)
    }
}

} // verus!
