use game_launcher::errors::LaunchError;
use game_launcher::launch::{
    any_path_equals, plan_launch, spawn_outcome, InvokeKind, LaunchMethod,
};
use game_launcher::uninstall::{
    open_folder_decision, uninstall_outcome, uninstall_plan, FolderAction, UninstallStep,
};

#[test]
fn missing_executable_is_not_found() {
    let r = plan_launch("game/v1", "app.bin", InvokeKind::Direct, false, false, false, false);
    assert_eq!(r.unwrap_err(), LaunchError::NotFound);
}

#[test]
fn running_executable_is_refused() {
    // the duplicate-instance guard: nothing is spawned for a live path
    let r = plan_launch("game/v1", "app.bin", InvokeKind::Direct, false, false, true, true);
    assert_eq!(r.unwrap_err(), LaunchError::AlreadyRunning);
    let r = plan_launch("game/v1", "app.bin", InvokeKind::OpenLauncher, true, true, true, true);
    assert_eq!(r.unwrap_err(), LaunchError::AlreadyRunning);
}

#[test]
fn direct_platforms_run_the_executable_from_its_directory() {
    let p = plan_launch("game/v1", "app.bin", InvokeKind::Direct, false, false, true, false)
        .unwrap();
    assert_eq!(p.exe_path, "game/v1/app.bin");
    assert_eq!(p.workdir, "game/v1");
    assert_eq!(p.method, LaunchMethod::DirectExec);
}

#[test]
fn open_platforms_hand_the_bundle_to_the_launcher() {
    let p = plan_launch("game/v1", "app.app", InvokeKind::OpenLauncher, false, false, true, false)
        .unwrap();
    assert_eq!(p.exe_path, "game/v1/app.app");
    assert_eq!(p.workdir, "game/v1");
    assert_eq!(p.method, LaunchMethod::OpenLauncher);
}

#[test]
fn requested_runner_must_be_installed() {
    let r = plan_launch("game/v1", "app.exe", InvokeKind::Direct, true, false, true, false);
    assert_eq!(r.unwrap_err(), LaunchError::RunnerMissing);
    let p = plan_launch("game/v1", "app.exe", InvokeKind::Direct, true, true, true, false)
        .unwrap();
    assert_eq!(p.method, LaunchMethod::ViaRunner);
}

#[test]
fn process_table_scan_matches_exact_paths() {
    let procs = vec![
        "/usr/bin/editor".to_string(),
        "game/v1/app.bin".to_string(),
    ];
    assert!(any_path_equals(&procs, &"game/v1/app.bin".to_string()));
    assert!(!any_path_equals(&procs, &"game/v2/app.bin".to_string()));
    assert!(!any_path_equals(&Vec::new(), &"game/v1/app.bin".to_string()));
}

#[test]
fn spawn_failure_surfaces_the_spawn_error() {
    assert!(spawn_outcome(true).is_ok());
    assert_eq!(spawn_outcome(false).unwrap_err(), LaunchError::Spawn);
}

#[test]
fn uninstalling_a_missing_version_is_a_successful_no_op() {
    let plan = uninstall_plan(false);
    assert_eq!(plan, UninstallStep::NothingToDo);
    assert!(uninstall_outcome(plan, false).is_ok());
}

#[test]
fn uninstalling_an_existing_version_removes_the_tree() {
    let plan = uninstall_plan(true);
    assert_eq!(plan, UninstallStep::RemoveTree);
    assert!(uninstall_outcome(plan, true).is_ok());
    assert!(uninstall_outcome(plan, false).is_err());
    // once the tree is gone, launching that version is refused
    let r = plan_launch("game/v1", "app.bin", InvokeKind::Direct, false, false, false, false);
    assert_eq!(r.unwrap_err(), LaunchError::NotFound);
}

#[test]
fn open_folder_needs_an_existing_directory() {
    assert_eq!(open_folder_decision(true), FolderAction::OpenPath);
    assert_eq!(open_folder_decision(false), FolderAction::ReportMissing);
}
