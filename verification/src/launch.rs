//! The launch supervisor: resolves the installed executable, refuses a
//! duplicate instance, and picks the platform's invocation strategy.

use vstd::prelude::*;
use crate::errors::LaunchError;
use crate::paths::join_path;

verus! {

/// How the host platform invokes an installed bundle.
#[derive(Clone, Copy, Debug, PartialEq, Eq, Structural)]
pub enum InvokeKind {
    /// Execute the resolved path directly (optionally through a runner).
    Direct,
    /// Open the bundle through the platform's generic "open" launcher.
    OpenLauncher,
}

/// The way one launch is to be performed.
#[derive(Clone, Copy, Debug, PartialEq, Eq, Structural)]
pub enum LaunchMethod {
    /// Run the executable itself.
    DirectExec,
    /// Run the executable through the compatibility-layer runner.
    ViaRunner,
    /// Hand the bundle to the platform's generic "open" launcher.
    OpenLauncher,
}

/// A fully resolved invocation: what to start, from where, and how. The
/// working directory is always the install directory.
#[derive(Debug)]
pub struct LaunchPlan {
    pub exe_path: String,
    pub workdir: String,
    pub method: LaunchMethod,
}

/// The mathematical shape of a `LaunchPlan`.
pub struct LaunchPlanM {
    pub exe_path: Seq<char>,
    pub workdir: Seq<char>,
    pub method: LaunchMethod,
}

impl View for LaunchPlan {
    type V = LaunchPlanM;

    open spec fn view(&self) -> LaunchPlanM {
        LaunchPlanM { exe_path: self.exe_path@, workdir: self.workdir@, method: self.method }
    }
}

pub open spec fn plan_view(r: Result<LaunchPlan, LaunchError>) -> Result<LaunchPlanM, LaunchError> {
    match r {
        Ok(p) => Ok(p@),
        Err(e) => Err(e),
    }
}

/// The supervisor's decision. In order: a missing executable is refused, a
/// live duplicate is refused, the generic-open platform hands the bundle to
/// its launcher, a requested but unavailable runner is refused, and what
/// remains runs directly or through the runner — always with the install
/// directory as working directory.
pub open spec fn launch_m(
    install_dir: Seq<char>,
    executable: Seq<char>,
    invoke: InvokeKind,
    use_runner: bool,
    runner_available: bool,
    exe_exists: bool,
    already_running: bool,
) -> Result<LaunchPlanM, LaunchError> {
    let exe_path = install_dir + "/"@ + executable;
    if !exe_exists {
        Err(LaunchError::NotFound)
    } else if already_running {
        Err(LaunchError::AlreadyRunning)
    } else if invoke == InvokeKind::OpenLauncher {
        Ok(LaunchPlanM { exe_path, workdir: install_dir, method: LaunchMethod::OpenLauncher })
    } else if use_runner && !runner_available {
        Err(LaunchError::RunnerMissing)
    } else if use_runner {
        Ok(LaunchPlanM { exe_path, workdir: install_dir, method: LaunchMethod::ViaRunner })
    } else {
        Ok(LaunchPlanM { exe_path, workdir: install_dir, method: LaunchMethod::DirectExec })
    }
}

/// Decides how to launch `install_dir/executable`, given what the driver
/// observed: whether that path exists and whether a live process already
/// runs it.
pub fn plan_launch(
    install_dir: &str,
    executable: &str,
    invoke: InvokeKind,
    use_runner: bool,
    runner_available: bool,
    exe_exists: bool,
    already_running: bool,
) -> (r: Result<LaunchPlan, LaunchError>)
    ensures
        plan_view(r) == launch_m(
            install_dir@,
            executable@,
            invoke,
            use_runner,
            runner_available,
            exe_exists,
            already_running,
        ),
{
    if !exe_exists {
        Err(LaunchError::NotFound)
    } else if already_running {
        Err(LaunchError::AlreadyRunning)
    } else if invoke == InvokeKind::OpenLauncher {
        let exe_path = join_path(install_dir, executable);
        Ok(LaunchPlan {
            exe_path,
            workdir: install_dir.to_owned(),
            method: LaunchMethod::OpenLauncher,
        })
    } else if use_runner && !runner_available {
        Err(LaunchError::RunnerMissing)
    } else if use_runner {
        let exe_path = join_path(install_dir, executable);
        Ok(LaunchPlan { exe_path, workdir: install_dir.to_owned(), method: LaunchMethod::ViaRunner })
    } else {
        let exe_path = join_path(install_dir, executable);
        Ok(LaunchPlan {
            exe_path,
            workdir: install_dir.to_owned(),
            method: LaunchMethod::DirectExec,
        })
    }
}

/// The duplicate-instance scan: whether any live process's executable image
/// path equals the resolved path.
pub fn any_path_equals(paths: &Vec<String>, target: &String) -> (r: bool)
    ensures
        r == exists|i: int| 0 <= i < paths@.len() && paths@[i]@ == target@,
{
    let mut i: usize = 0;
    while i < paths.len()
        invariant
            i <= paths@.len(),
            forall|j: int| 0 <= j < i ==> paths@[j]@ != target@,
        decreases paths@.len() - i,
    {
        if paths[i] == *target {
            return true;
        }
        i += 1;
    }
    false
}

/// Maps the outcome the driver observed of the spawn itself.
pub fn spawn_outcome(spawned: bool) -> (r: Result<(), LaunchError>)
    ensures
        r is Ok <==> spawned,
        !spawned ==> r == Err::<(), LaunchError>(LaunchError::Spawn),
{
    if spawned {
        Ok(())
    } else {
        Err(LaunchError::Spawn)
    }
}

/// The duplicate-instance guard: a launch against an executable already in
/// the live process table is refused outright, whatever the platform
/// dispatch, so no second copy is ever spawned.
pub proof fn lemma_duplicate_instance_refused(
    install_dir: Seq<char>,
    executable: Seq<char>,
    invoke: InvokeKind,
    use_runner: bool,
    runner_available: bool,
)
    ensures
        launch_m(install_dir, executable, invoke, use_runner, runner_available, true, true)
            == Err::<LaunchPlanM, LaunchError>(LaunchError::AlreadyRunning),
{
}

/// Once a version's tree is gone — as after a successful uninstall — its
/// resolved executable path is absent, and every launch of that version is
/// refused as not found.
pub proof fn lemma_missing_version_not_launchable(
    install_dir: Seq<char>,
    executable: Seq<char>,
    invoke: InvokeKind,
    use_runner: bool,
    runner_available: bool,
    already_running: bool,
)
    ensures
        launch_m(
            install_dir,
            executable,
            invoke,
            use_runner,
            runner_available,
            false,
            already_running,
        ) == Err::<LaunchPlanM, LaunchError>(LaunchError::NotFound),
{
}

} // verus!
