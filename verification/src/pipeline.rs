//! The install pipeline: one run of fetch, integrity check, extraction,
//! permission fix-up and activation for a single named version, as an
//! explicit state machine. The machine takes the events the surrounding
//! driver observes (a connection opened, a chunk written, the artifact's
//! bytes read back) and answers with the next state and the actions the
//! driver must perform (create, rename or delete artifacts, apply the
//! extraction's operations, emit lifecycle events).

use vstd::prelude::*;
use crate::archive::{extraction_plan, ops_view, zip_entries, FsOp, FsOpM};
use crate::archive::{plan_extraction, read_zip_entries};
use crate::digest::{digest_hex, verify_digest};
use crate::errors::PipelineError;
use crate::paths::install_path;
use crate::progress::{lemma_pct_bounds, lemma_pct_monotone, pct, progress_pct};

verus! {

/// How long the driver may wait for the next chunk before it reports
/// `Stalled`, in seconds.
pub const STALL_WINDOW_SECS: u64 = 5;

/// What is known of the version's on-disk install directory.
#[derive(Clone, Copy, Debug, PartialEq, Eq, Structural)]
pub enum InstallDirState {
    /// The directory does not exist.
    Absent,
    /// The directory exists and holds nothing.
    Empty,
    /// The directory exists and holds the extracted tree.
    Populated,
    /// A failed extraction may have left part of a tree behind.
    Leftover,
}

/// The transient and durable artifacts of one version, as the pipeline
/// tracks them: the `.part` download, the completed `.zip` archive, and the
/// install directory.
#[derive(Clone, Copy, Debug, PartialEq, Eq, Structural)]
pub struct DiskFacts {
    pub part_exists: bool,
    pub zip_exists: bool,
    pub install: InstallDirState,
}

/// How the host platform makes the installed entry point executable.
#[derive(Clone, Copy, Debug, PartialEq, Eq, Structural)]
pub enum ExecFix {
    /// No permission fix-up is needed.
    NoFix,
    /// Set the execute bit directly.
    DirectChmod,
    /// Run the fix-up through an out-of-process privilege helper.
    PrivilegedHelper,
}

/// The stages of one pipeline run. `Failed` is absorbing and carries why;
/// `Cancelled` is the terminal outcome of a cooperative cancellation,
/// distinct from failure.
#[derive(Clone, Copy, Debug, PartialEq, Eq, Structural)]
pub enum Stage {
    Idle,
    Fetching,
    Verifying,
    Extracting,
    FixingPermissions,
    Activated,
    Failed(PipelineError),
    Cancelled,
}

/// The whole state of one run.
pub struct PipelineState {
    pub stage: Stage,
    /// Within `Fetching`: whether the connection has been established.
    pub connected: bool,
    /// Within `Extracting`: whether the extraction's operations have been
    /// handed to the driver.
    pub plan_issued: bool,
    /// Whether the issued extraction plan had at least one operation.
    pub plan_nonempty: bool,
    /// Declared content length; 0 when unknown.
    pub total: u64,
    pub downloaded: u64,
    /// The last progress percentage emitted during this run.
    pub last_progress: u8,
    /// The expected digest in lower-case ASCII hex, when one was supplied.
    pub expected: Option<Vec<u8>>,
    pub exec_fix: ExecFix,
    /// `GameDir/VersionName`, where the version's tree is installed.
    pub install_dir: String,
    pub disk: DiskFacts,
}

/// What the driver observed and reports back to the machine.
#[derive(Debug, PartialEq)]
pub enum Event {
    /// The HTTP connection is open and declared this content length (0 when
    /// unknown).
    ConnectOk { content_length: u64 },
    /// The connection could not be established.
    ConnectFailed,
    /// One chunk of this many bytes arrived and was written to the partial
    /// file.
    ChunkWritten { len: u64 },
    /// The stream broke while awaiting a chunk.
    ChunkReadFailed,
    /// A chunk arrived but could not be written.
    ChunkWriteFailed,
    /// No chunk arrived within the stall window.
    Stalled,
    /// The stream ended cleanly.
    StreamEnded,
    /// The completed archive's bytes, read back for the integrity check.
    ArtifactBytes { bytes: Vec<u8> },
    /// The completed archive's bytes, read back for extraction.
    ArchiveBytes { bytes: Vec<u8> },
    /// Whether applying the extraction's operations succeeded.
    InstallWritten { ok: bool },
    /// Whether the permission fix-up succeeded (best-effort either way).
    PermissionsFixed { ok: bool },
    /// The caller asked to cancel; honored between chunks and before the
    /// extraction's operations are issued.
    CancelRequested,
}

/// What the machine asks the driver to perform next.
#[derive(Debug, PartialEq)]
pub enum Action {
    /// Announce that the run has started.
    EmitStarted,
    /// Delete a stale `.part` file if one exists.
    DeleteStalePart,
    /// Delete the version's install directory if it exists, then recreate it
    /// empty.
    ResetInstallDir,
    /// Create the `.part` file empty, truncating any leftover.
    CreatePartFile,
    /// Open the streaming HTTP connection.
    OpenConnection,
    /// Await the next chunk, bounded by the stall window.
    AwaitChunk,
    /// Announce this progress percentage.
    EmitProgress(u8),
    /// Announce that the integrity check has begun.
    EmitHashChecking,
    /// Announce that extraction and activation have begun.
    EmitFinishing,
    /// Rename the completed `.part` to its `.zip` name.
    RenamePartToZip,
    /// Read the `.zip` bytes back and answer with `ArtifactBytes`.
    ReadArtifact,
    /// Read the `.zip` bytes back and answer with `ArchiveBytes`.
    ReadArchive,
    /// Apply these operations under the install directory and answer with
    /// `InstallWritten`.
    ApplyOps(Vec<FsOp>),
    /// Delete the `.zip` artifact.
    DeleteZip,
    /// Make the installed entry point executable and answer with
    /// `PermissionsFixed`.
    FixPermissions,
    /// Announce that the run completed.
    EmitDone,
    /// Announce that the run failed, and why.
    EmitFailed(PipelineError),
    /// Announce that the run was cancelled.
    EmitCancelled,
}

/// The mathematical shape of an `Action`.
pub enum ActionM {
    EmitStarted,
    DeleteStalePart,
    ResetInstallDir,
    CreatePartFile,
    OpenConnection,
    AwaitChunk,
    EmitProgress(u8),
    EmitHashChecking,
    EmitFinishing,
    RenamePartToZip,
    ReadArtifact,
    ReadArchive,
    ApplyOps(Seq<FsOpM>),
    DeleteZip,
    FixPermissions,
    EmitDone,
    EmitFailed(PipelineError),
    EmitCancelled,
}

impl View for Action {
    type V = ActionM;

    open spec fn view(&self) -> ActionM {
        match self {
            Action::EmitStarted => ActionM::EmitStarted,
            Action::DeleteStalePart => ActionM::DeleteStalePart,
            Action::ResetInstallDir => ActionM::ResetInstallDir,
            Action::CreatePartFile => ActionM::CreatePartFile,
            Action::OpenConnection => ActionM::OpenConnection,
            Action::AwaitChunk => ActionM::AwaitChunk,
            Action::EmitProgress(p) => ActionM::EmitProgress(*p),
            Action::EmitHashChecking => ActionM::EmitHashChecking,
            Action::EmitFinishing => ActionM::EmitFinishing,
            Action::RenamePartToZip => ActionM::RenamePartToZip,
            Action::ReadArtifact => ActionM::ReadArtifact,
            Action::ReadArchive => ActionM::ReadArchive,
            Action::ApplyOps(v) => ActionM::ApplyOps(ops_view(v@)),
            Action::DeleteZip => ActionM::DeleteZip,
            Action::FixPermissions => ActionM::FixPermissions,
            Action::EmitDone => ActionM::EmitDone,
            Action::EmitFailed(e) => ActionM::EmitFailed(*e),
            Action::EmitCancelled => ActionM::EmitCancelled,
        }
    }
}

pub open spec fn acts_view(v: Seq<Action>) -> Seq<ActionM> {
    v.map_values(|a: Action| a@)
}

/// `a + b`, pinned to the largest representable value on overflow.
pub open spec fn sat_add(a: u64, b: u64) -> u64 {
    if a + b > u64::MAX {
        u64::MAX
    } else {
        (a + b) as u64
    }
}

/// The percentage the machine reports after a chunk, as stored in
/// `last_progress`.
pub open spec fn chunk_progress(s: PipelineState, len: u64) -> u8 {
    pct(sat_add(s.downloaded, len), s.total) as u8
}

/// The progress percentage one step emits, if any.
pub open spec fn emit_of(s: PipelineState, e: Event) -> Option<u8> {
    match e {
        Event::ChunkWritten { len } => if s.stage == Stage::Fetching && s.connected {
            Some(chunk_progress(s, len))
        } else {
            None
        },
        _ => None,
    }
}

pub open spec fn fail_st(s: PipelineState, err: PipelineError) -> PipelineState {
    PipelineState { stage: Stage::Failed(err), ..s }
}

/// The machine's transition function: from a state and an observed event to
/// the next state and the actions the driver must perform, in order. An
/// event that is not expected in the current stage changes nothing.
pub open spec fn step_m(s: PipelineState, e: Event) -> (PipelineState, Seq<ActionM>) {
    match e {
        Event::ConnectOk { content_length } => if s.stage == Stage::Fetching && !s.connected {
            (
                PipelineState { connected: true, total: content_length, ..s },
                seq![ActionM::AwaitChunk],
            )
        } else {
            (s, Seq::empty())
        },
        Event::ConnectFailed => if s.stage == Stage::Fetching && !s.connected {
            (
                fail_st(s, PipelineError::Network),
                seq![ActionM::EmitFailed(PipelineError::Network)],
            )
        } else {
            (s, Seq::empty())
        },
        Event::ChunkWritten { len } => if s.stage == Stage::Fetching && s.connected {
            let d = sat_add(s.downloaded, len);
            let p = chunk_progress(s, len);
            (
                PipelineState { downloaded: d, last_progress: p, ..s },
                seq![ActionM::EmitProgress(p), ActionM::AwaitChunk],
            )
        } else {
            (s, Seq::empty())
        },
        Event::ChunkReadFailed => if s.stage == Stage::Fetching && s.connected {
            (
                fail_st(s, PipelineError::Network),
                seq![ActionM::EmitFailed(PipelineError::Network)],
            )
        } else {
            (s, Seq::empty())
        },
        Event::ChunkWriteFailed => if s.stage == Stage::Fetching && s.connected {
            (fail_st(s, PipelineError::Io), seq![ActionM::EmitFailed(PipelineError::Io)])
        } else {
            (s, Seq::empty())
        },
        Event::Stalled => if s.stage == Stage::Fetching && s.connected {
            (
                fail_st(s, PipelineError::Timeout),
                seq![ActionM::EmitFailed(PipelineError::Timeout)],
            )
        } else {
            (s, Seq::empty())
        },
        Event::StreamEnded => if s.stage == Stage::Fetching && s.connected {
            if s.total > 0 && s.downloaded < s.total {
                (
                    fail_st(s, PipelineError::IncompleteTransfer),
                    seq![ActionM::EmitFailed(PipelineError::IncompleteTransfer)],
                )
            } else {
                let disk = DiskFacts { part_exists: false, zip_exists: true, ..s.disk };
                if s.expected is Some {
                    (
                        PipelineState { stage: Stage::Verifying, disk, ..s },
                        seq![
                            ActionM::RenamePartToZip,
                            ActionM::EmitHashChecking,
                            ActionM::ReadArtifact,
                        ],
                    )
                } else {
                    (
                        PipelineState { stage: Stage::Extracting, disk, ..s },
                        seq![
                            ActionM::RenamePartToZip,
                            ActionM::EmitFinishing,
                            ActionM::ReadArchive,
                        ],
                    )
                }
            }
        } else {
            (s, Seq::empty())
        },
        Event::ArtifactBytes { bytes } => if s.stage == Stage::Verifying {
            match s.expected {
                Some(exp) => if digest_hex(bytes@) == exp@ {
                    (
                        PipelineState { stage: Stage::Extracting, ..s },
                        seq![ActionM::EmitFinishing, ActionM::ReadArchive],
                    )
                } else {
                    (
                        PipelineState {
                            stage: Stage::Failed(PipelineError::Integrity),
                            disk: DiskFacts { zip_exists: false, ..s.disk },
                            ..s
                        },
                        seq![ActionM::DeleteZip, ActionM::EmitFailed(PipelineError::Integrity)],
                    )
                },
                None => (s, Seq::empty()),
            }
        } else {
            (s, Seq::empty())
        },
        Event::ArchiveBytes { bytes } => if s.stage == Stage::Extracting && !s.plan_issued {
            match zip_entries(bytes@) {
                Some(entries) => (
                    PipelineState {
                        plan_issued: true,
                        plan_nonempty: entries.len() > 0,
                        ..s
                    },
                    seq![ActionM::ApplyOps(extraction_plan(entries, s.install_dir@))],
                ),
                None => (
                    PipelineState {
                        stage: Stage::Failed(PipelineError::Extract),
                        disk: DiskFacts { zip_exists: false, ..s.disk },
                        ..s
                    },
                    seq![ActionM::DeleteZip, ActionM::EmitFailed(PipelineError::Extract)],
                ),
            }
        } else {
            (s, Seq::empty())
        },
        Event::InstallWritten { ok } => if s.stage == Stage::Extracting && s.plan_issued {
            if ok {
                let disk = DiskFacts {
                    zip_exists: false,
                    install: if s.plan_nonempty {
                        InstallDirState::Populated
                    } else {
                        InstallDirState::Empty
                    },
                    ..s.disk
                };
                if s.exec_fix == ExecFix::NoFix {
                    (
                        PipelineState { stage: Stage::Activated, disk, ..s },
                        seq![ActionM::DeleteZip, ActionM::EmitDone],
                    )
                } else {
                    (
                        PipelineState { stage: Stage::FixingPermissions, disk, ..s },
                        seq![ActionM::DeleteZip, ActionM::FixPermissions],
                    )
                }
            } else {
                (
                    PipelineState {
                        stage: Stage::Failed(PipelineError::Extract),
                        disk: DiskFacts {
                            zip_exists: false,
                            install: InstallDirState::Leftover,
                            ..s.disk
                        },
                        ..s
                    },
                    seq![ActionM::DeleteZip, ActionM::EmitFailed(PipelineError::Extract)],
                )
            }
        } else {
            (s, Seq::empty())
        },
        Event::PermissionsFixed { ok: _ } => if s.stage == Stage::FixingPermissions {
            (PipelineState { stage: Stage::Activated, ..s }, seq![ActionM::EmitDone])
        } else {
            (s, Seq::empty())
        },
        Event::CancelRequested => if (s.stage == Stage::Fetching && s.connected) || (s.stage
            == Stage::Extracting && !s.plan_issued) {
            (PipelineState { stage: Stage::Cancelled, ..s }, seq![ActionM::EmitCancelled])
        } else {
            (s, Seq::empty())
        },
    }
}

/// What every reachable state of a run satisfies: the stored progress is
/// honest, and each stage's artifacts are where that stage expects them.
pub open spec fn wf(s: PipelineState) -> bool {
    &&& s.last_progress as int <= pct(s.downloaded, s.total)
    &&& match s.stage {
        Stage::Idle => true,
        Stage::Fetching => s.disk.part_exists && s.disk.install == InstallDirState::Empty && (
        !s.connected ==> s.total == 0 && s.downloaded == 0 && s.last_progress == 0),
        Stage::Verifying => !s.disk.part_exists && s.disk.zip_exists && s.disk.install
            == InstallDirState::Empty && s.expected is Some,
        Stage::Extracting => !s.disk.part_exists && s.disk.zip_exists && (!s.plan_issued
            ==> s.disk.install == InstallDirState::Empty),
        Stage::FixingPermissions | Stage::Activated => !s.disk.part_exists && !s.disk.zip_exists
            && s.disk.install == (if s.plan_nonempty {
            InstallDirState::Populated
        } else {
            InstallDirState::Empty
        }),
        Stage::Failed(_) => true,
        Stage::Cancelled => true,
    }
}

/// Begins one run: the `Idle -> Fetching` transition. Whatever a prior run
/// left behind — a stale partial file, a half-extracted tree — the actions
/// delete the stale `.part` and delete and recreate the install directory
/// empty before the fetch begins, so re-invoking after any failure starts
/// from a clean directory.
pub fn start(
    prior: DiskFacts,
    game_dir: &str,
    name: &str,
    expected: Option<Vec<u8>>,
    exec_fix: ExecFix,
) -> (r: (PipelineState, Vec<Action>))
    ensures
        r.0.stage == Stage::Fetching,
        !r.0.connected,
        !r.0.plan_issued,
        !r.0.plan_nonempty,
        r.0.total == 0,
        r.0.downloaded == 0,
        r.0.last_progress == 0,
        r.0.expected == expected,
        r.0.exec_fix == exec_fix,
        r.0.install_dir@ == game_dir@ + "/"@ + name@,
        r.0.disk == (DiskFacts {
            part_exists: true,
            zip_exists: prior.zip_exists,
            install: InstallDirState::Empty,
        }),
        wf(r.0),
        acts_view(r.1@) == seq![
            ActionM::EmitStarted,
            ActionM::DeleteStalePart,
            ActionM::ResetInstallDir,
            ActionM::CreatePartFile,
            ActionM::OpenConnection,
        ],
{
    let install_dir = install_path(game_dir, name);
    let state = PipelineState {
        stage: Stage::Fetching,
        connected: false,
        plan_issued: false,
        plan_nonempty: false,
        total: 0,
        downloaded: 0,
        last_progress: 0,
        expected,
        exec_fix,
        install_dir,
        disk: DiskFacts {
            part_exists: true,
            zip_exists: prior.zip_exists,
            install: InstallDirState::Empty,
        },
    };
    let mut acts: Vec<Action> = Vec::new();
    acts.push(Action::EmitStarted);
    acts.push(Action::DeleteStalePart);
    acts.push(Action::ResetInstallDir);
    acts.push(Action::CreatePartFile);
    acts.push(Action::OpenConnection);
    proof {
        assert(acts_view(acts@) =~= seq![
            ActionM::EmitStarted,
            ActionM::DeleteStalePart,
            ActionM::ResetInstallDir,
            ActionM::CreatePartFile,
            ActionM::OpenConnection,
        ]);
    }
    (state, acts)
}

/// Performs one transition of the machine. The result is exactly
/// `step_m(s, e)`: the caller performs the returned actions in order, then
/// reports the next event.
pub fn step(s: PipelineState, e: Event) -> (r: (PipelineState, Vec<Action>))
    ensures
        r.0 == step_m(s, e).0,
        acts_view(r.1@) == step_m(s, e).1,
{
    let ghost s0 = s;
    let ghost e0 = e;
    match e {
        Event::ConnectOk { content_length } => {
            if s.stage == Stage::Fetching && !s.connected {
                let ns = PipelineState { connected: true, total: content_length, ..s };
                let mut acts: Vec<Action> = Vec::new();
                acts.push(Action::AwaitChunk);
                proof {
                    assert(acts_view(acts@) =~= step_m(s0, e0).1);
                }
                (ns, acts)
            } else {
                proof {
                    assert(acts_view(Seq::<Action>::empty()) =~= Seq::<ActionM>::empty());
                }
                (s, Vec::new())
            }
        },
        Event::ConnectFailed => {
            if s.stage == Stage::Fetching && !s.connected {
                let ns = PipelineState { stage: Stage::Failed(PipelineError::Network), ..s };
                let mut acts: Vec<Action> = Vec::new();
                acts.push(Action::EmitFailed(PipelineError::Network));
                proof {
                    assert(acts_view(acts@) =~= step_m(s0, e0).1);
                }
                (ns, acts)
            } else {
                proof {
                    assert(acts_view(Seq::<Action>::empty()) =~= Seq::<ActionM>::empty());
                }
                (s, Vec::new())
            }
        },
        Event::ChunkWritten { len } => {
            if s.stage == Stage::Fetching && s.connected {
                let d = if len > u64::MAX - s.downloaded {
                    u64::MAX
                } else {
                    s.downloaded + len
                };
                let p = progress_pct(d, s.total);
                let ns = PipelineState { downloaded: d, last_progress: p, ..s };
                let mut acts: Vec<Action> = Vec::new();
                acts.push(Action::EmitProgress(p));
                acts.push(Action::AwaitChunk);
                proof {
                    lemma_pct_bounds(d, s0.total);
                    assert(acts_view(acts@) =~= step_m(s0, e0).1);
                }
                (ns, acts)
            } else {
                proof {
                    assert(acts_view(Seq::<Action>::empty()) =~= Seq::<ActionM>::empty());
                }
                (s, Vec::new())
            }
        },
        Event::ChunkReadFailed => {
            if s.stage == Stage::Fetching && s.connected {
                let ns = PipelineState { stage: Stage::Failed(PipelineError::Network), ..s };
                let mut acts: Vec<Action> = Vec::new();
                acts.push(Action::EmitFailed(PipelineError::Network));
                proof {
                    assert(acts_view(acts@) =~= step_m(s0, e0).1);
                }
                (ns, acts)
            } else {
                proof {
                    assert(acts_view(Seq::<Action>::empty()) =~= Seq::<ActionM>::empty());
                }
                (s, Vec::new())
            }
        },
        Event::ChunkWriteFailed => {
            if s.stage == Stage::Fetching && s.connected {
                let ns = PipelineState { stage: Stage::Failed(PipelineError::Io), ..s };
                let mut acts: Vec<Action> = Vec::new();
                acts.push(Action::EmitFailed(PipelineError::Io));
                proof {
                    assert(acts_view(acts@) =~= step_m(s0, e0).1);
                }
                (ns, acts)
            } else {
                proof {
                    assert(acts_view(Seq::<Action>::empty()) =~= Seq::<ActionM>::empty());
                }
                (s, Vec::new())
            }
        },
        Event::Stalled => {
            if s.stage == Stage::Fetching && s.connected {
                let ns = PipelineState { stage: Stage::Failed(PipelineError::Timeout), ..s };
                let mut acts: Vec<Action> = Vec::new();
                acts.push(Action::EmitFailed(PipelineError::Timeout));
                proof {
                    assert(acts_view(acts@) =~= step_m(s0, e0).1);
                }
                (ns, acts)
            } else {
                proof {
                    assert(acts_view(Seq::<Action>::empty()) =~= Seq::<ActionM>::empty());
                }
                (s, Vec::new())
            }
        },
        Event::StreamEnded => {
            if s.stage == Stage::Fetching && s.connected {
                if s.total > 0 && s.downloaded < s.total {
                    let ns = PipelineState {
                        stage: Stage::Failed(PipelineError::IncompleteTransfer),
                        ..s
                    };
                    let mut acts: Vec<Action> = Vec::new();
                    acts.push(Action::EmitFailed(PipelineError::IncompleteTransfer));
                    proof {
                        assert(acts_view(acts@) =~= step_m(s0, e0).1);
                    }
                    (ns, acts)
                } else {
                    let has_digest = s.expected.is_some();
                    let disk = DiskFacts { part_exists: false, zip_exists: true, ..s.disk };
                    if has_digest {
                        let ns = PipelineState { stage: Stage::Verifying, disk, ..s };
                        let mut acts: Vec<Action> = Vec::new();
                        acts.push(Action::RenamePartToZip);
                        acts.push(Action::EmitHashChecking);
                        acts.push(Action::ReadArtifact);
                        proof {
                            assert(acts_view(acts@) =~= step_m(s0, e0).1);
                        }
                        (ns, acts)
                    } else {
                        let ns = PipelineState { stage: Stage::Extracting, disk, ..s };
                        let mut acts: Vec<Action> = Vec::new();
                        acts.push(Action::RenamePartToZip);
                        acts.push(Action::EmitFinishing);
                        acts.push(Action::ReadArchive);
                        proof {
                            assert(acts_view(acts@) =~= step_m(s0, e0).1);
                        }
                        (ns, acts)
                    }
                }
            } else {
                proof {
                    assert(acts_view(Seq::<Action>::empty()) =~= Seq::<ActionM>::empty());
                }
                (s, Vec::new())
            }
        },
        Event::ArtifactBytes { bytes } => {
            if s.stage == Stage::Verifying && s.expected.is_some() {
                let matched = {
                    let exp = s.expected.as_ref().unwrap();
                    verify_digest(&bytes, exp).is_ok()
                };
                if matched {
                    let ns = PipelineState { stage: Stage::Extracting, ..s };
                    let mut acts: Vec<Action> = Vec::new();
                    acts.push(Action::EmitFinishing);
                    acts.push(Action::ReadArchive);
                    proof {
                        assert(acts_view(acts@) =~= step_m(s0, e0).1);
                    }
                    (ns, acts)
                } else {
                    let ns = PipelineState {
                        stage: Stage::Failed(PipelineError::Integrity),
                        disk: DiskFacts { zip_exists: false, ..s.disk },
                        ..s
                    };
                    let mut acts: Vec<Action> = Vec::new();
                    acts.push(Action::DeleteZip);
                    acts.push(Action::EmitFailed(PipelineError::Integrity));
                    proof {
                        assert(acts_view(acts@) =~= step_m(s0, e0).1);
                    }
                    (ns, acts)
                }
            } else {
                proof {
                    assert(acts_view(Seq::<Action>::empty()) =~= Seq::<ActionM>::empty());
                }
                (s, Vec::new())
            }
        },
        Event::ArchiveBytes { bytes } => {
            if s.stage == Stage::Extracting && !s.plan_issued {
                match read_zip_entries(&bytes) {
                    Some(entries) => {
                        let nonempty = entries.len() > 0;
                        let plan = plan_extraction(&entries, s.install_dir.as_str());
                        let ns = PipelineState {
                            plan_issued: true,
                            plan_nonempty: nonempty,
                            ..s
                        };
                        let mut acts: Vec<Action> = Vec::new();
                        acts.push(Action::ApplyOps(plan));
                        proof {
                            assert(acts_view(acts@) =~= step_m(s0, e0).1);
                        }
                        (ns, acts)
                    },
                    None => {
                        let ns = PipelineState {
                            stage: Stage::Failed(PipelineError::Extract),
                            disk: DiskFacts { zip_exists: false, ..s.disk },
                            ..s
                        };
                        let mut acts: Vec<Action> = Vec::new();
                        acts.push(Action::DeleteZip);
                        acts.push(Action::EmitFailed(PipelineError::Extract));
                        proof {
                            assert(acts_view(acts@) =~= step_m(s0, e0).1);
                        }
                        (ns, acts)
                    },
                }
            } else {
                proof {
                    assert(acts_view(Seq::<Action>::empty()) =~= Seq::<ActionM>::empty());
                }
                (s, Vec::new())
            }
        },
        Event::InstallWritten { ok } => {
            if s.stage == Stage::Extracting && s.plan_issued {
                if ok {
                    let disk = DiskFacts {
                        zip_exists: false,
                        install: if s.plan_nonempty {
                            InstallDirState::Populated
                        } else {
                            InstallDirState::Empty
                        },
                        ..s.disk
                    };
                    if s.exec_fix == ExecFix::NoFix {
                        let ns = PipelineState { stage: Stage::Activated, disk, ..s };
                        let mut acts: Vec<Action> = Vec::new();
                        acts.push(Action::DeleteZip);
                        acts.push(Action::EmitDone);
                        proof {
                            assert(acts_view(acts@) =~= step_m(s0, e0).1);
                        }
                        (ns, acts)
                    } else {
                        let ns = PipelineState { stage: Stage::FixingPermissions, disk, ..s };
                        let mut acts: Vec<Action> = Vec::new();
                        acts.push(Action::DeleteZip);
                        acts.push(Action::FixPermissions);
                        proof {
                            assert(acts_view(acts@) =~= step_m(s0, e0).1);
                        }
                        (ns, acts)
                    }
                } else {
                    let ns = PipelineState {
                        stage: Stage::Failed(PipelineError::Extract),
                        disk: DiskFacts {
                            zip_exists: false,
                            install: InstallDirState::Leftover,
                            ..s.disk
                        },
                        ..s
                    };
                    let mut acts: Vec<Action> = Vec::new();
                    acts.push(Action::DeleteZip);
                    acts.push(Action::EmitFailed(PipelineError::Extract));
                    proof {
                        assert(acts_view(acts@) =~= step_m(s0, e0).1);
                    }
                    (ns, acts)
                }
            } else {
                proof {
                    assert(acts_view(Seq::<Action>::empty()) =~= Seq::<ActionM>::empty());
                }
                (s, Vec::new())
            }
        },
        Event::PermissionsFixed { ok: _ } => {
            if s.stage == Stage::FixingPermissions {
                let ns = PipelineState { stage: Stage::Activated, ..s };
                let mut acts: Vec<Action> = Vec::new();
                acts.push(Action::EmitDone);
                proof {
                    assert(acts_view(acts@) =~= step_m(s0, e0).1);
                }
                (ns, acts)
            } else {
                proof {
                    assert(acts_view(Seq::<Action>::empty()) =~= Seq::<ActionM>::empty());
                }
                (s, Vec::new())
            }
        },
        Event::CancelRequested => {
            if (s.stage == Stage::Fetching && s.connected) || (s.stage == Stage::Extracting
                && !s.plan_issued) {
                let ns = PipelineState { stage: Stage::Cancelled, ..s };
                let mut acts: Vec<Action> = Vec::new();
                acts.push(Action::EmitCancelled);
                proof {
                    assert(acts_view(acts@) =~= step_m(s0, e0).1);
                }
                (ns, acts)
            } else {
                proof {
                    assert(acts_view(Seq::<Action>::empty()) =~= Seq::<ActionM>::empty());
                }
                (s, Vec::new())
            }
        },
    }
}

/// Every transition keeps a reachable state reachable.
pub proof fn lemma_step_preserves_wf(s: PipelineState, e: Event)
    requires
        wf(s),
    ensures
        wf(step_m(s, e).0),
{
    match e {
        Event::ConnectOk { content_length } => {
            lemma_pct_bounds(s.downloaded, content_length);
        },
        Event::ChunkWritten { len } => {
            if s.stage == Stage::Fetching && s.connected {
                lemma_pct_bounds(sat_add(s.downloaded, len), s.total);
            }
        },
        _ => {},
    }
}

/// One step never lowers the stored progress, and anything it emits lies
/// between the previous percentage and 100 and becomes the new stored one.
pub proof fn lemma_step_progress(s: PipelineState, e: Event)
    requires
        wf(s),
    ensures
        s.last_progress <= step_m(s, e).0.last_progress,
        emit_of(s, e) matches Some(p) ==> s.last_progress <= p <= 100 && step_m(s, e).0.last_progress == p,
        emit_of(s, e) is None ==> step_m(s, e).0.last_progress == s.last_progress,
{
    match e {
        Event::ChunkWritten { len } => {
            if s.stage == Stage::Fetching && s.connected {
                let d = sat_add(s.downloaded, len);
                lemma_pct_bounds(d, s.total);
                lemma_pct_monotone(s.downloaded, d, s.total);
            }
        },
        _ => {},
    }
}

/// The state after the machine has consumed a whole sequence of events.
pub open spec fn run_m(s: PipelineState, es: Seq<Event>) -> PipelineState
    decreases es.len(),
{
    if es.len() == 0 {
        s
    } else {
        run_m(step_m(s, es[0]).0, es.drop_first())
    }
}

/// The progress percentages the machine emits over a sequence of events, in
/// order.
pub open spec fn emitted_m(s: PipelineState, es: Seq<Event>) -> Seq<u8>
    decreases es.len(),
{
    if es.len() == 0 {
        Seq::empty()
    } else {
        (match emit_of(s, es[0]) {
            Some(p) => seq![p],
            None => Seq::empty(),
        }) + emitted_m(step_m(s, es[0]).0, es.drop_first())
    }
}

pub open spec fn non_decreasing(q: Seq<u8>) -> bool {
    forall|i: int, j: int| 0 <= i <= j < q.len() ==> q[i] <= q[j]
}

/// Every state a run reaches from a reachable state is reachable.
pub proof fn lemma_run_preserves_wf(s: PipelineState, es: Seq<Event>)
    requires
        wf(s),
    ensures
        wf(run_m(s, es)),
    decreases es.len(),
{
    if es.len() > 0 {
        lemma_step_preserves_wf(s, es[0]);
        lemma_run_preserves_wf(step_m(s, es[0]).0, es.drop_first());
    }
}

/// The progress percentages emitted during one run form a non-decreasing
/// sequence bounded in [0, 100], wherever in its run the machine stands.
pub proof fn lemma_progress_monotone(s: PipelineState, es: Seq<Event>)
    requires
        wf(s),
    ensures
        non_decreasing(emitted_m(s, es)),
        forall|i: int|
            0 <= i < emitted_m(s, es).len() ==> s.last_progress <= #[trigger] emitted_m(s, es)[i]
                <= 100,
        wf(run_m(s, es)),
        s.last_progress <= run_m(s, es).last_progress,
    decreases es.len(),
{
    if es.len() > 0 {
        let e = es[0];
        let s1 = step_m(s, e).0;
        lemma_step_preserves_wf(s, e);
        lemma_step_progress(s, e);
        lemma_progress_monotone(s1, es.drop_first());
        let head: Seq<u8> = match emit_of(s, e) {
            Some(p) => seq![p],
            None => Seq::empty(),
        };
        let tail = emitted_m(s1, es.drop_first());
        assert(emitted_m(s, es) == head + tail);
        assert forall|i: int|
            0 <= i < emitted_m(s, es).len() implies s.last_progress <= #[trigger] emitted_m(
            s,
            es,
        )[i] <= 100 by {
            if i < head.len() {
                assert(emitted_m(s, es)[i] == head[0]);
            } else {
                assert(emitted_m(s, es)[i] == tail[i - head.len()]);
            }
        }
        assert forall|i: int, j: int|
            0 <= i <= j < emitted_m(s, es).len() implies emitted_m(s, es)[i] <= emitted_m(
            s,
            es,
        )[j] by {
            if j < head.len() {
                assert(i == j);
            } else if i < head.len() {
                assert(emitted_m(s, es)[i] == head[0]);
                assert(head[0] == s1.last_progress);
                assert(emitted_m(s, es)[j] == tail[j - head.len()]);
            } else {
                assert(emitted_m(s, es)[i] == tail[i - head.len()]);
                assert(emitted_m(s, es)[j] == tail[j - head.len()]);
            }
        }
    }
}

/// `Activated`, `Failed` and `Cancelled` are terminal: no event changes the
/// state any further and no progress is emitted after them.
pub proof fn lemma_terminal_stage(s: PipelineState, es: Seq<Event>)
    requires
        s.stage matches Stage::Failed(_) || s.stage == Stage::Activated || s.stage
            == Stage::Cancelled,
    ensures
        run_m(s, es) == s,
        emitted_m(s, es) == Seq::<u8>::empty(),
    decreases es.len(),
{
    if es.len() > 0 {
        assert(step_m(s, es[0]).0 == s);
        lemma_terminal_stage(s, es.drop_first());
        assert(emitted_m(s, es) =~= Seq::<u8>::empty());
    }
}

/// After a successful run the install directory is populated and the
/// transient `.part` and `.zip` artifacts are gone. Requires that the run's
/// archive held at least one entry: extracting an empty archive activates an
/// empty directory.
pub proof fn lemma_activated_clean(s: PipelineState)
    requires
        wf(s),
        s.stage == Stage::Activated,
        s.plan_nonempty,
    ensures
        s.disk.install == InstallDirState::Populated,
        !s.disk.part_exists,
        !s.disk.zip_exists,
{
}

/// The same, over a whole run: whatever events arrive after a reachable
/// state, if the machine ends activated with a non-trivial extraction, the
/// version directory is populated and no transient artifact remains.
pub proof fn lemma_run_activated_clean(s: PipelineState, es: Seq<Event>)
    requires
        wf(s),
        run_m(s, es).stage == Stage::Activated,
        run_m(s, es).plan_nonempty,
    ensures
        run_m(s, es).disk.install == InstallDirState::Populated,
        !run_m(s, es).disk.part_exists,
        !run_m(s, es).disk.zip_exists,
{
    lemma_run_preserves_wf(s, es);
    lemma_activated_clean(run_m(s, es));
}

/// When an expected digest was supplied and the artifact's bytes do not hash
/// to it, the run fails with the integrity error, the tainted archive is
/// deleted, and the install directory — cleared when the run began — is
/// still empty: nothing was activated.
pub proof fn lemma_integrity_mismatch_fails(s: PipelineState, e: Event)
    requires
        wf(s),
        s.stage == Stage::Verifying,
        e matches Event::ArtifactBytes { bytes } && s.expected matches Some(exp) && digest_hex(
            bytes@,
        ) != exp@,
    ensures
        step_m(s, e).0.stage == Stage::Failed(PipelineError::Integrity),
        step_m(s, e).0.disk.install == InstallDirState::Empty,
        !step_m(s, e).0.disk.zip_exists,
        step_m(s, e).1 == seq![ActionM::DeleteZip, ActionM::EmitFailed(PipelineError::Integrity)],
{
    assert(step_m(s, e).1 =~= seq![
        ActionM::DeleteZip,
        ActionM::EmitFailed(PipelineError::Integrity),
    ]);
}

} // verus!
