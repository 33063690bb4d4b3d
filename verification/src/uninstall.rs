//! Uninstall maintenance: removing a version's install tree, idempotently.

use vstd::prelude::*;
use crate::errors::UninstallError;

verus! {

/// What uninstalling a version requires of the filesystem.
#[derive(Clone, Copy, Debug, PartialEq, Eq, Structural)]
pub enum UninstallStep {
    /// The directory does not exist: nothing to do, the uninstall succeeds.
    NothingToDo,
    /// Remove the version's whole directory tree.
    RemoveTree,
}

pub open spec fn uninstall_plan_m(dir_exists: bool) -> UninstallStep {
    if dir_exists {
        UninstallStep::RemoveTree
    } else {
        UninstallStep::NothingToDo
    }
}

/// Decides what uninstalling requires, given whether the version's install
/// directory exists.
pub fn uninstall_plan(dir_exists: bool) -> (r: UninstallStep)
    ensures
        r == uninstall_plan_m(dir_exists),
{
    if dir_exists {
        UninstallStep::RemoveTree
    } else {
        UninstallStep::NothingToDo
    }
}

pub open spec fn uninstall_outcome_m(step: UninstallStep, removed: bool) -> Result<
    (),
    UninstallError,
> {
    match step {
        UninstallStep::NothingToDo => Ok(()),
        UninstallStep::RemoveTree => if removed {
            Ok(())
        } else {
            Err(UninstallError)
        },
    }
}

/// The uninstall's outcome: success when there was nothing to remove or the
/// removal went through, the error exactly when a removal was attempted and
/// failed.
pub fn uninstall_outcome(step: UninstallStep, removed: bool) -> (r: Result<(), UninstallError>)
    ensures
        r == uninstall_outcome_m(step, removed),
{
    match step {
        UninstallStep::NothingToDo => Ok(()),
        UninstallStep::RemoveTree => if removed {
            Ok(())
        } else {
            Err(UninstallError)
        },
    }
}

/// What the open-folder command does with a version's install directory.
#[derive(Clone, Copy, Debug, PartialEq, Eq, Structural)]
pub enum FolderAction {
    /// Hand the existing directory to the platform's file opener.
    OpenPath,
    /// The directory does not exist: report it missing instead.
    ReportMissing,
}

pub open spec fn open_folder_m(dir_exists: bool) -> FolderAction {
    if dir_exists {
        FolderAction::OpenPath
    } else {
        FolderAction::ReportMissing
    }
}

/// Decides whether the version's folder can be opened or must be reported
/// missing.
pub fn open_folder_decision(dir_exists: bool) -> (r: FolderAction)
    ensures
        r == open_folder_m(dir_exists),
{
    if dir_exists {
        FolderAction::OpenPath
    } else {
        FolderAction::ReportMissing
    }
}

/// Uninstalling a version that is not installed is a successful no-op,
/// whatever the filesystem would have answered to a removal.
pub proof fn lemma_uninstall_missing_ok(removed: bool)
    ensures
        uninstall_outcome_m(uninstall_plan_m(false), removed) == Ok::<(), UninstallError>(()),
{
}

/// Uninstalling an installed version removes its whole tree: the plan for an
/// existing directory is the tree's removal, and the uninstall reports
/// success exactly when that removal succeeded.
pub proof fn lemma_uninstall_existing_removes(removed: bool)
    ensures
        uninstall_plan_m(true) == UninstallStep::RemoveTree,
        uninstall_outcome_m(uninstall_plan_m(true), removed) == Ok::<(), UninstallError>(())
            <==> removed,
{
}

} // verus!
