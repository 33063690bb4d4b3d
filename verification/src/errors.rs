//! The error taxonomy of the install pipeline, launch supervisor and
//! uninstaller.

use vstd::prelude::*;

verus! {

/// Why one pipeline run ended in the `Failed` stage.
#[derive(Clone, Copy, Debug, PartialEq, Eq, Structural)]
pub enum PipelineError {
    /// The HTTP connection could not be established, or the stream broke.
    Network,
    /// The next chunk did not arrive within the stall window.
    Timeout,
    /// The stream ended before the declared content length was reached.
    IncompleteTransfer,
    /// A chunk could not be written to the partial file.
    Io,
    /// The downloaded bytes do not hash to the expected digest.
    Integrity,
    /// The archive could not be decoded, or its entries could not be written.
    Extract,
}

/// Why the launch supervisor refused to start an installed version.
#[derive(Clone, Copy, Debug, PartialEq, Eq, Structural)]
pub enum LaunchError {
    /// The resolved executable path does not exist.
    NotFound,
    /// A live process already runs this executable.
    AlreadyRunning,
    /// A compatibility-layer runner was requested but is not installed.
    RunnerMissing,
    /// The operating system refused to spawn the process.
    Spawn,
}

/// The downloaded artifact's digest differs from the expected one.
#[derive(Clone, Copy, Debug, PartialEq, Eq, Structural)]
pub struct IntegrityError;

/// The version's directory tree could not be removed.
#[derive(Clone, Copy, Debug, PartialEq, Eq, Structural)]
pub struct UninstallError;

} // verus!
