//! Verified core of a desktop launcher's artifact install pipeline: the
//! fetch / integrity-check / extract / activate state machine, the launch
//! supervisor's duplicate-instance guard, and uninstall maintenance.

pub mod archive;
pub mod digest;
pub mod errors;
pub mod hex;
pub mod launch;
pub mod paths;
pub mod pipeline;
pub mod progress;
pub mod uninstall;
