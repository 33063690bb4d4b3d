use std::io::{Cursor, Write};

use game_launcher::archive::FsOp;
use game_launcher::digest::compute_digest_hex;
use game_launcher::errors::PipelineError;
use game_launcher::pipeline::{
    start, step, Action, DiskFacts, Event, ExecFix, InstallDirState, PipelineState, Stage,
};
use zip::write::SimpleFileOptions;
use zip::ZipWriter;

fn dirty_disk() -> DiskFacts {
    DiskFacts {
        part_exists: true,
        zip_exists: true,
        install: InstallDirState::Leftover,
    }
}

fn small_archive() -> Vec<u8> {
    let mut w = ZipWriter::new(Cursor::new(Vec::new()));
    let options = SimpleFileOptions::default();
    w.start_file("game.bin", options).unwrap();
    w.write_all(b"payload").unwrap();
    w.finish().unwrap().into_inner()
}

fn progress_of(acts: &[Action]) -> Vec<u8> {
    acts.iter()
        .filter_map(|a| match a {
            Action::EmitProgress(p) => Some(*p),
            _ => None,
        })
        .collect()
}

#[test]
fn starting_a_run_resets_the_version_directory() {
    // even after a run that failed mid-extraction, a new run begins with the
    // stale partial file deleted and the install directory recreated empty
    let (s, acts) = start(dirty_disk(), "game", "v2", None, ExecFix::NoFix);
    assert_eq!(s.stage, Stage::Fetching);
    assert_eq!(s.install_dir, "game/v2");
    assert_eq!(s.disk.install, InstallDirState::Empty);
    assert!(s.disk.part_exists);
    assert_eq!(
        acts,
        vec![
            Action::EmitStarted,
            Action::DeleteStalePart,
            Action::ResetInstallDir,
            Action::CreatePartFile,
            Action::OpenConnection,
        ]
    );
}

#[test]
fn successful_run_without_digest_activates_and_cleans_up() {
    let archive = small_archive();
    let (s, _) = start(dirty_disk(), "game", "v1", None, ExecFix::NoFix);
    let (s, acts) = step(
        s,
        Event::ConnectOk {
            content_length: archive.len() as u64,
        },
    );
    assert_eq!(acts, vec![Action::AwaitChunk]);
    let (s, acts) = step(
        s,
        Event::ChunkWritten {
            len: archive.len() as u64,
        },
    );
    assert_eq!(progress_of(&acts), vec![100]);
    let (s, acts) = step(s, Event::StreamEnded);
    assert_eq!(
        acts,
        vec![
            Action::RenamePartToZip,
            Action::EmitFinishing,
            Action::ReadArchive,
        ]
    );
    assert_eq!(s.stage, Stage::Extracting);
    let (s, acts) = step(s, Event::ArchiveBytes { bytes: archive });
    assert_eq!(
        acts,
        vec![Action::ApplyOps(vec![FsOp::WriteFile(
            "game/v1/game.bin".to_string(),
            b"payload".to_vec(),
        )])]
    );
    let (s, acts) = step(s, Event::InstallWritten { ok: true });
    assert_eq!(acts, vec![Action::DeleteZip, Action::EmitDone]);
    assert_eq!(s.stage, Stage::Activated);
    // the transient artifacts are gone and the install tree is in place
    assert!(!s.disk.part_exists);
    assert!(!s.disk.zip_exists);
    assert_eq!(s.disk.install, InstallDirState::Populated);
}

#[test]
fn permission_fixing_platforms_pass_through_the_fix_stage() {
    let archive = small_archive();
    let (s, _) = start(dirty_disk(), "game", "v1", None, ExecFix::DirectChmod);
    let (s, _) = step(s, Event::ConnectOk { content_length: 0 });
    let (s, _) = step(s, Event::StreamEnded);
    let (s, _) = step(s, Event::ArchiveBytes { bytes: archive });
    let (s, acts) = step(s, Event::InstallWritten { ok: true });
    assert_eq!(acts, vec![Action::DeleteZip, Action::FixPermissions]);
    assert_eq!(s.stage, Stage::FixingPermissions);
    // the fix-up is best-effort: even a failed fix activates the install
    let (s, acts) = step(s, Event::PermissionsFixed { ok: false });
    assert_eq!(acts, vec![Action::EmitDone]);
    assert_eq!(s.stage, Stage::Activated);
}

#[test]
fn short_stream_fails_with_incomplete_transfer() {
    // the endpoint declares 1000 bytes but the stream closes after 600
    let (s, _) = start(dirty_disk(), "game", "v1", None, ExecFix::NoFix);
    let (s, _) = step(s, Event::ConnectOk { content_length: 1000 });
    let (s, acts) = step(s, Event::ChunkWritten { len: 600 });
    assert_eq!(progress_of(&acts), vec![60]);
    let (s, acts) = step(s, Event::StreamEnded);
    assert_eq!(s.stage, Stage::Failed(PipelineError::IncompleteTransfer));
    assert_eq!(
        acts,
        vec![Action::EmitFailed(PipelineError::IncompleteTransfer)]
    );
    // the partial file is left for the next run's reset to discard
    assert!(s.disk.part_exists);
    assert_eq!(s.disk.install, InstallDirState::Empty);
}

#[test]
fn digest_mismatch_fails_and_deletes_the_artifact() {
    let expected = b"0f".repeat(64); // not the digest of the body below
    let (s, _) = start(dirty_disk(), "game", "v1", Some(expected), ExecFix::NoFix);
    let (s, _) = step(s, Event::ConnectOk { content_length: 0 });
    let (s, acts) = step(s, Event::StreamEnded);
    assert_eq!(
        acts,
        vec![
            Action::RenamePartToZip,
            Action::EmitHashChecking,
            Action::ReadArtifact,
        ]
    );
    assert_eq!(s.stage, Stage::Verifying);
    let (s, acts) = step(
        s,
        Event::ArtifactBytes {
            bytes: b"tampered body".to_vec(),
        },
    );
    assert_eq!(s.stage, Stage::Failed(PipelineError::Integrity));
    assert_eq!(
        acts,
        vec![
            Action::DeleteZip,
            Action::EmitFailed(PipelineError::Integrity),
        ]
    );
    // the tainted archive is gone and nothing was installed
    assert!(!s.disk.zip_exists);
    assert_eq!(s.disk.install, InstallDirState::Empty);
}

#[test]
fn digest_match_proceeds_to_extraction() {
    let archive = small_archive();
    let expected = compute_digest_hex(&archive);
    let (s, _) = start(dirty_disk(), "game", "v1", Some(expected), ExecFix::NoFix);
    let (s, _) = step(s, Event::ConnectOk { content_length: 0 });
    let (s, _) = step(s, Event::StreamEnded);
    assert_eq!(s.stage, Stage::Verifying);
    let (s, acts) = step(s, Event::ArtifactBytes { bytes: archive });
    assert_eq!(acts, vec![Action::EmitFinishing, Action::ReadArchive]);
    assert_eq!(s.stage, Stage::Extracting);
}

#[test]
fn connection_failure_fails_the_run() {
    let (s, _) = start(dirty_disk(), "game", "v1", None, ExecFix::NoFix);
    let (s, acts) = step(s, Event::ConnectFailed);
    assert_eq!(s.stage, Stage::Failed(PipelineError::Network));
    assert_eq!(acts, vec![Action::EmitFailed(PipelineError::Network)]);
}

#[test]
fn stall_fails_the_run_and_leaves_the_partial_file() {
    let (s, _) = start(dirty_disk(), "game", "v1", None, ExecFix::NoFix);
    let (s, _) = step(s, Event::ConnectOk { content_length: 50 });
    let (s, acts) = step(s, Event::Stalled);
    assert_eq!(s.stage, Stage::Failed(PipelineError::Timeout));
    assert_eq!(acts, vec![Action::EmitFailed(PipelineError::Timeout)]);
    assert!(s.disk.part_exists);
}

#[test]
fn write_failure_fails_with_io() {
    let (s, _) = start(dirty_disk(), "game", "v1", None, ExecFix::NoFix);
    let (s, _) = step(s, Event::ConnectOk { content_length: 50 });
    let (s, _) = step(s, Event::ChunkWritten { len: 10 });
    let (s, acts) = step(s, Event::ChunkWriteFailed);
    assert_eq!(s.stage, Stage::Failed(PipelineError::Io));
    assert_eq!(acts, vec![Action::EmitFailed(PipelineError::Io)]);
}

#[test]
fn bad_archive_fails_extraction_and_deletes_the_zip() {
    let (s, _) = start(dirty_disk(), "game", "v1", None, ExecFix::NoFix);
    let (s, _) = step(s, Event::ConnectOk { content_length: 0 });
    let (s, _) = step(s, Event::StreamEnded);
    let (s, acts) = step(
        s,
        Event::ArchiveBytes {
            bytes: b"garbage".to_vec(),
        },
    );
    assert_eq!(s.stage, Stage::Failed(PipelineError::Extract));
    assert_eq!(
        acts,
        vec![Action::DeleteZip, Action::EmitFailed(PipelineError::Extract)]
    );
    assert!(!s.disk.zip_exists);
}

#[test]
fn failed_write_leaves_a_leftover_tree_and_the_next_run_clears_it() {
    let archive = small_archive();
    let (s, _) = start(dirty_disk(), "game", "v1", None, ExecFix::NoFix);
    let (s, _) = step(s, Event::ConnectOk { content_length: 0 });
    let (s, _) = step(s, Event::StreamEnded);
    let (s, _) = step(s, Event::ArchiveBytes { bytes: archive });
    let (s, acts) = step(s, Event::InstallWritten { ok: false });
    assert_eq!(s.stage, Stage::Failed(PipelineError::Extract));
    assert_eq!(
        acts,
        vec![Action::DeleteZip, Action::EmitFailed(PipelineError::Extract)]
    );
    assert_eq!(s.disk.install, InstallDirState::Leftover);
    // re-invoking starts from a clean, empty directory again
    let (s2, acts2) = start(s.disk, "game", "v1", None, ExecFix::NoFix);
    assert!(acts2.contains(&Action::ResetInstallDir));
    assert_eq!(s2.disk.install, InstallDirState::Empty);
    assert!(!s2.plan_issued);
}

#[test]
fn progress_is_monotone_and_bounded_over_a_whole_run() {
    let (mut s, _) = start(dirty_disk(), "game", "v1", None, ExecFix::NoFix);
    let mut emitted: Vec<u8> = Vec::new();
    let (ns, _) = step(s, Event::ConnectOk { content_length: 1000 });
    s = ns;
    for len in [100u64, 0, 250, 1, 649, 500] {
        let (ns, acts) = step(s, Event::ChunkWritten { len });
        emitted.extend(progress_of(&acts));
        s = ns;
    }
    assert_eq!(emitted, vec![10, 10, 35, 35, 100, 100]);
    for w in emitted.windows(2) {
        assert!(w[0] <= w[1]);
    }
    assert!(emitted.iter().all(|p| *p <= 100));
}

#[test]
fn cancellation_is_honored_between_chunks() {
    let (s, _) = start(dirty_disk(), "game", "v1", None, ExecFix::NoFix);
    let (s, _) = step(s, Event::ConnectOk { content_length: 1000 });
    let (s, _) = step(s, Event::ChunkWritten { len: 100 });
    let (s, acts) = step(s, Event::CancelRequested);
    assert_eq!(s.stage, Stage::Cancelled);
    assert_eq!(acts, vec![Action::EmitCancelled]);
    // cancellation is terminal: later events change nothing
    let (s, acts) = step(s, Event::ChunkWritten { len: 100 });
    assert!(acts.is_empty());
    assert_eq!(s.stage, Stage::Cancelled);
}

#[test]
fn cancellation_is_honored_before_extraction_but_not_after_activation() {
    let archive = small_archive();
    let (s, _) = start(dirty_disk(), "game", "v1", None, ExecFix::NoFix);
    let (s, _) = step(s, Event::ConnectOk { content_length: 0 });
    let (s, _) = step(s, Event::StreamEnded);
    assert_eq!(s.stage, Stage::Extracting);
    let (s, acts) = step(s, Event::CancelRequested);
    assert_eq!(s.stage, Stage::Cancelled);
    assert_eq!(acts, vec![Action::EmitCancelled]);
    drop(archive);

    let archive = small_archive();
    let (s, _) = start(dirty_disk(), "game", "v1", None, ExecFix::NoFix);
    let (s, _) = step(s, Event::ConnectOk { content_length: 0 });
    let (s, _) = step(s, Event::StreamEnded);
    let (s, _) = step(s, Event::ArchiveBytes { bytes: archive });
    let (s, _) = step(s, Event::InstallWritten { ok: true });
    assert_eq!(s.stage, Stage::Activated);
    let (s, acts) = step(s, Event::CancelRequested);
    assert!(acts.is_empty());
    assert_eq!(s.stage, Stage::Activated);
}

#[test]
fn events_out_of_turn_change_nothing() {
    let (s, _) = start(dirty_disk(), "game", "v1", None, ExecFix::NoFix);
    // no chunk can arrive before the connection is open
    let (s, acts) = step(s, Event::ChunkWritten { len: 5 });
    assert!(acts.is_empty());
    assert_eq!(s.stage, Stage::Fetching);
    assert_eq!(s.downloaded, 0);
    // an install report is meaningless while fetching
    let (s, acts) = step(s, Event::InstallWritten { ok: true });
    assert!(acts.is_empty());
    assert_eq!(s.stage, Stage::Fetching);
    let _: PipelineState = s;
}
