//! Repository synchronization and package retrieval planning.
//!
//! The repository database is a flat line-per-file listing produced
//! inside the guest.  Searching it, extracting package directories and
//! composing the sparse-checkout scripts are pure functions here; running
//! the scripts and copying files is the shell's job.

use vstd::prelude::*;
use vstd::string::StrSliceExecFns;
use vstd::string::StringExecFns;

use crate::args::join_space;
use crate::args::join_with;
use crate::args::spec_join_space;
use crate::args::spec_join_with;
use crate::request::SandboxRequest;
use crate::split::spec_split_char;
use crate::split::split_lines;
use crate::strutil::concat_path;
use crate::strutil::lemma_last_index_of_at;
use crate::strutil::lemma_last_index_of_none;
use crate::strutil::rfind_char;
use crate::strutil::spec_concat_path;
use crate::strutil::spec_contains_sub;
use crate::strutil::spec_last_index_of;
use crate::strutil::str_concat3;
use crate::strutil::str_contains;
use crate::utils::separator_line;
use crate::utils::spec_separator;

verus! {

/// The database pattern of one package name: the name framed by path
/// separators.
pub open spec fn spec_pkg_pattern(pkg: Seq<char>) -> Seq<char> {
    "/"@ + pkg + "/"@
}

/// The database lines on which the pattern occurs, in order.
pub open spec fn spec_matching_lines(lines: Seq<Seq<char>>, pat: Seq<char>) -> Seq<Seq<char>>
    decreases lines.len(),
{
    if lines.len() == 0 {
        Seq::<Seq<char>>::empty()
    } else {
        (if spec_contains_sub(lines[0], pat) {
            seq![lines[0]]
        } else {
            Seq::<Seq<char>>::empty()
        }) + spec_matching_lines(lines.skip(1), pat)
    }
}

/// The matches of every package, package by package.
pub open spec fn spec_all_matches(pkgs: Seq<Seq<char>>, lines: Seq<Seq<char>>) -> Seq<Seq<char>>
    decreases pkgs.len(),
{
    if pkgs.len() == 0 {
        Seq::<Seq<char>>::empty()
    } else {
        spec_matching_lines(lines, spec_pkg_pattern(pkgs[0])) + spec_all_matches(
            pkgs.skip(1),
            lines,
        )
    }
}

/// The search result text: every matching database line of every
/// package, newline-separated.
pub open spec fn spec_collect_matches(pkgs: Seq<Seq<char>>, content: Seq<char>) -> Seq<char> {
    spec_join_with(spec_all_matches(pkgs, spec_split_char(content, '\n')), '\n')
}

/// Collects the database lines matching any of the package patterns.
#[verifier::loop_isolation(false)]
pub fn collect_matches(pkgs: &Vec<String>, content: &str) -> (r: String)
    ensures
        r@ == spec_collect_matches(pkgs.deep_view(), content@),
{
    let ghost pdv = pkgs.deep_view();
    let lines = split_lines(content);
    let ghost ldv = lines.deep_view();
    let mut acc: Vec<String> = Vec::new();
    let mut i: usize = 0;
    proof {
        assert(pdv.skip(0) =~= pdv);
        assert(acc.deep_view() =~= Seq::<Seq<char>>::empty());
        assert(acc.deep_view() + spec_all_matches(pdv, ldv) =~= spec_all_matches(pdv, ldv));
    }
    while i < pkgs.len()
        invariant
            i <= pkgs.len(),
            acc.deep_view() + spec_all_matches(pdv.skip(i as int), ldv) == spec_all_matches(
                pdv,
                ldv,
            ),
        decreases pkgs.len() - i,
    {
        proof {
            assert(pdv.skip(i as int)[0] == pdv[i as int]);
            assert(pdv.skip(i as int).skip(1) =~= pdv.skip(i + 1));
        }
        let pat = str_concat3("/", pkgs[i].as_str(), "/");
        let ghost patv = pat@;
        let ghost pre = acc.deep_view();
        let mut j: usize = 0;
        proof {
            assert(ldv.skip(0) =~= ldv);
            assert(pre + spec_matching_lines(ldv, patv) =~= pre + spec_matching_lines(ldv, patv));
        }
        while j < lines.len()
            invariant
                j <= lines.len(),
                acc.deep_view() + spec_matching_lines(ldv.skip(j as int), patv) == pre
                    + spec_matching_lines(ldv, patv),
            decreases lines.len() - j,
        {
            proof {
                assert(ldv.skip(j as int)[0] == ldv[j as int]);
                assert(ldv.skip(j as int).skip(1) =~= ldv.skip(j + 1));
            }
            if str_contains(lines[j].as_str(), pat.as_str()) {
                let ghost mid = acc.deep_view();
                acc.push(lines[j].clone());
                proof {
                    assert(acc.deep_view() =~= mid.push(ldv[j as int]));
                    assert(mid.push(ldv[j as int]) + spec_matching_lines(ldv.skip(j + 1), patv)
                        =~= mid + (seq![ldv[j as int]] + spec_matching_lines(
                        ldv.skip(j + 1),
                        patv,
                    )));
                }
            } else {
                proof {
                    assert(Seq::<Seq<char>>::empty() + spec_matching_lines(ldv.skip(j + 1), patv)
                        =~= spec_matching_lines(ldv.skip(j + 1), patv));
                }
            }
            j = j + 1;
        }
        proof {
            assert(ldv.skip(lines.len() as int).len() == 0);
            assert(acc.deep_view() + spec_matching_lines(ldv.skip(lines.len() as int), patv)
                =~= acc.deep_view());
            assert(patv == spec_pkg_pattern(pdv[i as int]));
        }
        i = i + 1;
    }
    proof {
        assert(pdv.skip(pkgs.len() as int).len() == 0);
        assert(acc.deep_view() + spec_all_matches(pdv.skip(pkgs.len() as int), ldv)
            =~= acc.deep_view());
    }
    join_with(&acc, '\n')
}

/// The package directory a database line names: everything before the
/// last path separator of a line that mentions the build manifest.
pub open spec fn spec_pkg_dirs(lines: Seq<Seq<char>>) -> Seq<Seq<char>>
    decreases lines.len(),
{
    if lines.len() == 0 {
        Seq::<Seq<char>>::empty()
    } else {
        (if spec_contains_sub(lines[0], "APKBUILD"@) && spec_last_index_of(lines[0], '/') >= 0 {
            seq![lines[0].take(spec_last_index_of(lines[0], '/'))]
        } else {
            Seq::<Seq<char>>::empty()
        }) + spec_pkg_dirs(lines.skip(1))
    }
}

/// The guest script that sparse-checks-out the given package
/// directories.
pub open spec fn spec_sparse_checkout_script(repo: Seq<char>, dirs: Seq<Seq<char>>) -> Seq<char> {
    "cd /build/"@ + repo + " && git sparse-checkout init --cone && git sparse-checkout set "@
        + spec_join_space(dirs) + " && git checkout"@
}

/// One copy the retrieval performs after the checkout.
#[derive(Clone, Debug)]
pub struct CopyStep {
    pub src: String,
    pub dest: String,
}

/// The plan of one package retrieval: the guest request that populates
/// the checkout, then the copies into the output directory.
#[derive(Clone, Debug)]
pub struct FetchPlan {
    pub request: SandboxRequest,
    pub copies: Vec<CopyStep>,
}

/// Plans the selective retrieval of package sources: which directories
/// the matches name, the guest sparse-checkout request, and the copies
/// to the output directory.  No matches, or matches naming no build
/// manifest, are the two errors.
#[verifier::loop_isolation(false)]
pub fn fetch_package_files(rootfs: &str, repo_name: &str, matches: &str, output: &str) -> (r:
    Result<FetchPlan, String>)
    ensures
        matches@.len() == 0 ==> r is Err && r->Err_0@ == spec_separator()
            + "\nResult not found!\n"@ + spec_separator(),
        ({
            let dirs = spec_pkg_dirs(spec_split_char(matches@, '\n'));
            &&& (matches@.len() > 0 && dirs.len() == 0) ==> r is Err && r->Err_0@
                == "No valid APKBUILD paths found in matches."@
            &&& (matches@.len() > 0 && dirs.len() > 0) ==> r is Ok
            &&& r is Ok ==> {
                let plan = r->Ok_0;
                &&& plan.request.rootfs_path@ == rootfs@
                &&& plan.request.extra_bind_spec@ == Seq::<char>::empty()
                &&& plan.request.command_line.deep_view() == Some(
                    spec_sparse_checkout_script(repo_name@, dirs),
                )
                &&& plan.request.use_root
                &&& plan.request.ignore_extra_binds
                &&& !plan.request.no_group_mapping
                &&& plan.copies@.len() == dirs.len()
                &&& forall|k: int|
                    0 <= k < dirs.len() ==> (#[trigger] plan.copies@[k]).src@ == spec_concat_path(
                        spec_concat_path(spec_concat_path(rootfs@, "build"@), repo_name@),
                        dirs[k],
                    ) && plan.copies@[k].dest@ == output@
            }
        }),
{
    if matches.unicode_len() == 0 {
        let mut m = String::from_str(separator_line());
        m.append("\nResult not found!\n");
        m.append(separator_line());
        return Err(m);
    }
    let lines = split_lines(matches);
    let ghost ldv = lines.deep_view();
    let mut dirs: Vec<String> = Vec::new();
    let mut j: usize = 0;
    proof {
        assert(ldv.skip(0) =~= ldv);
        assert(dirs.deep_view() =~= Seq::<Seq<char>>::empty());
        assert(dirs.deep_view() + spec_pkg_dirs(ldv) =~= spec_pkg_dirs(ldv));
    }
    while j < lines.len()
        invariant
            j <= lines.len(),
            dirs.deep_view() + spec_pkg_dirs(ldv.skip(j as int)) == spec_pkg_dirs(ldv),
        decreases lines.len() - j,
    {
        proof {
            assert(ldv.skip(j as int)[0] == ldv[j as int]);
            assert(ldv.skip(j as int).skip(1) =~= ldv.skip(j + 1));
        }
        let line = lines[j].as_str();
        if str_contains(line, "APKBUILD") {
            match rfind_char(line, '/') {
                Some(p) => {
                    proof {
                        lemma_last_index_of_at(line@, '/', p as int);
                    }
                    let d = line.substring_char(0, p);
                    proof {
                        assert(line@.subrange(0, p as int) =~= line@.take(p as int));
                    }
                    let ghost mid = dirs.deep_view();
                    dirs.push(String::from_str(d));
                    proof {
                        assert(dirs.deep_view() =~= mid.push(ldv[j as int].take(
                            spec_last_index_of(ldv[j as int], '/'),
                        )));
                        assert(dirs.deep_view() + spec_pkg_dirs(ldv.skip(j + 1)) =~= mid + (seq![
                            ldv[j as int].take(spec_last_index_of(ldv[j as int], '/')),
                        ] + spec_pkg_dirs(ldv.skip(j + 1))));
                    }
                },
                None => {
                    proof {
                        lemma_last_index_of_none(line@, '/');
                        assert(Seq::<Seq<char>>::empty() + spec_pkg_dirs(ldv.skip(j + 1))
                            =~= spec_pkg_dirs(ldv.skip(j + 1)));
                    }
                },
            }
        } else {
            proof {
                assert(Seq::<Seq<char>>::empty() + spec_pkg_dirs(ldv.skip(j + 1)) =~= spec_pkg_dirs(
                    ldv.skip(j + 1),
                ));
            }
        }
        j = j + 1;
    }
    proof {
        assert(ldv.skip(lines.len() as int).len() == 0);
        assert(dirs.deep_view() + spec_pkg_dirs(ldv.skip(lines.len() as int)) =~= dirs.deep_view());
    }
    if dirs.len() == 0 {
        return Err(String::from_str("No valid APKBUILD paths found in matches."));
    }
    let mut cmd = String::from_str("cd /build/");
    cmd.append(repo_name);
    cmd.append(" && git sparse-checkout init --cone && git sparse-checkout set ");
    let joined = join_space(&dirs);
    cmd.append(joined.as_str());
    cmd.append(" && git checkout");
    let base = concat_path(rootfs, "build");
    let base = concat_path(base.as_str(), repo_name);
    let mut copies: Vec<CopyStep> = Vec::new();
    let mut k: usize = 0;
    while k < dirs.len()
        invariant
            k <= dirs.len(),
            copies@.len() == k,
            forall|q: int|
                0 <= q < k ==> (#[trigger] copies@[q]).src@ == spec_concat_path(
                    base@,
                    dirs.deep_view()[q],
                ) && copies@[q].dest@ == output@,
        decreases dirs.len() - k,
    {
        let src = concat_path(base.as_str(), dirs[k].as_str());
        copies.push(CopyStep { src, dest: String::from_str(output) });
        k = k + 1;
    }
    let request = SandboxRequest::rooted_command(String::from_str(rootfs), cmd);
    Ok(FetchPlan { request, copies })
}

/// The guest script that clones a repository blob-lessly and writes the
/// flattened branch database.
pub open spec fn spec_repo_sync_script(
    url: Seq<char>,
    repo: Seq<char>,
    filter: Seq<char>,
) -> Seq<char> {
    "which git > /dev/null || apk add git\n        cd /build\n        git clone --depth=1 --filter=tree:0 --no-checkout "@
        + url + " "@ + repo + " 2> /dev/null\n        cd "@ + repo
        + "\n        git fetch --depth=1 --filter=tree:0\n        git ls-tree -r HEAD --name-only | grep -E \"("@
        + filter + ")\" > ../"@ + repo + "-database"@
}

/// The plan of one repository synchronization: the guest build directory
/// to recreate, and the request that clones and indexes the repository.
#[derive(Clone, Debug)]
pub struct RepoSyncPlan {
    pub build_path: String,
    pub request: SandboxRequest,
}

/// Plans the synchronization of a local repository database within the
/// rootfs.
pub fn setup_repository(rootfs_dir: &str, url: &str, repo: &str, branches: &Vec<String>) -> (r:
    RepoSyncPlan)
    ensures
        r.build_path@ == spec_concat_path(rootfs_dir@, "build"@),
        r.request.rootfs_path@ == rootfs_dir@,
        r.request.extra_bind_spec@ == Seq::<char>::empty(),
        r.request.command_line.deep_view() == Some(
            spec_repo_sync_script(url@, repo@, spec_join_with(branches.deep_view(), '|')),
        ),
        r.request.use_root,
        r.request.ignore_extra_binds,
        !r.request.no_group_mapping,
{
    let build_path = concat_path(rootfs_dir, "build");
    let filter = join_with(branches, '|');
    let mut s = String::from_str(
        "which git > /dev/null || apk add git\n        cd /build\n        git clone --depth=1 --filter=tree:0 --no-checkout ",
    );
    s.append(url);
    s.append(" ");
    s.append(repo);
    s.append(" 2> /dev/null\n        cd ");
    s.append(repo);
    s.append("\n        git fetch --depth=1 --filter=tree:0\n        git ls-tree -r HEAD --name-only | grep -E \"(");
    s.append(filter.as_str());
    s.append(")\" > ../");
    s.append(repo);
    s.append("-database");
    let request = SandboxRequest::rooted_command(String::from_str(rootfs_dir), s);
    RepoSyncPlan { build_path, request }
}

} // verus!
