//! Mount table repair.
//!
//! Mount-aware tools inside the sandbox expect the guest's `/etc/mtab` to
//! be a symbolic link to the live kernel mounts pseudo-file.  The repair
//! decision is a pure function of the observed state of that path; the
//! filesystem actions it prescribes are carried out outside the library.
//! Repair failures are treated as non-fatal everywhere: they are reported
//! and execution proceeds.

use vstd::prelude::*;

use crate::strutil::concat_path;
use crate::strutil::spec_concat_path;

verus! {

/// The observed state of the guest's mount-table path.
#[derive(Clone, Copy, Debug, PartialEq, Eq, Structural)]
pub enum MtabState {
    /// A symlink that already points at the kernel mounts pseudo-file.
    CorrectSymlink,
    /// A symlink with any other target.
    WrongSymlink,
    /// A symlink whose target cannot be read.
    UnreadableSymlink,
    /// An existing entry that is not a symlink.
    NotASymlink,
    /// Nothing exists at the path.
    Absent,
}

/// The filesystem actions that repair one observed state.
#[derive(Clone, Copy, Debug, PartialEq, Eq, Structural)]
pub struct MtabRepairPlan {
    /// Create the parent directory if it is missing (always prescribed;
    /// creating an existing directory is harmless).
    pub ensure_parent_dir: bool,
    /// Remove whatever currently sits at the path.
    pub remove_existing: bool,
    /// Create the symlink to the kernel mounts pseudo-file.
    pub create_symlink: bool,
}

/// The repair plan for one observed state: a correct symlink is left
/// untouched, anything else is replaced, and nothing is removed where
/// nothing exists.
pub open spec fn spec_repair_plan(state: MtabState) -> MtabRepairPlan {
    MtabRepairPlan {
        ensure_parent_dir: true,
        remove_existing: state != MtabState::CorrectSymlink && state != MtabState::Absent,
        create_symlink: state != MtabState::CorrectSymlink,
    }
}

/// The state of the path after the plan's actions succeed.
pub open spec fn spec_apply_repair(state: MtabState, p: MtabRepairPlan) -> MtabState {
    if p.create_symlink {
        MtabState::CorrectSymlink
    } else if p.remove_existing {
        MtabState::Absent
    } else {
        state
    }
}

/// Decides how to make the guest's mount-table path a symlink to the
/// kernel mounts pseudo-file.
pub fn fix_mtab_symlink(state: MtabState) -> (p: MtabRepairPlan)
    ensures
        p == spec_repair_plan(state),
{
    MtabRepairPlan {
        ensure_parent_dir: true,
        remove_existing: state != MtabState::CorrectSymlink && state != MtabState::Absent,
        create_symlink: state != MtabState::CorrectSymlink,
    }
}

/// The guest path the repair operates on.
pub fn mtab_path(rootfs: &str) -> (r: String)
    ensures
        r@ == spec_concat_path(rootfs@, "etc/mtab"@),
{
    concat_path(rootfs, "etc/mtab")
}

/// The symlink target the repair establishes.
pub fn mtab_target() -> (r: &'static str)
    ensures
        r@ == "/proc/self/mounts"@,
{
    "/proc/self/mounts"
}

/// Repair converges in one step: after a successful repair the path is
/// the correct symlink, and a second repair of that state prescribes no
/// action and leaves the state unchanged.
pub proof fn lemma_mtab_repair_idempotent(state: MtabState)
    ensures
        spec_apply_repair(state, spec_repair_plan(state)) == MtabState::CorrectSymlink,
        !spec_repair_plan(MtabState::CorrectSymlink).remove_existing,
        !spec_repair_plan(MtabState::CorrectSymlink).create_symlink,
        spec_apply_repair(
            spec_apply_repair(state, spec_repair_plan(state)),
            spec_repair_plan(spec_apply_repair(state, spec_repair_plan(state))),
        ) == spec_apply_repair(state, spec_repair_plan(state)),
{
}

} // verus!
