//! Failures of the supervision lifecycle.
//!
//! Every failure is absorbed at the supervisor boundary by the host: it is
//! logged, and the application keeps running without a backend. None of
//! these values ever aborts the host application.

use vstd::prelude::*;

verus! {

/// Why supervision could not bring a backend up.
#[derive(Debug)]
pub enum SupervisionError {
    /// No candidate location existed on disk, so there is nothing to launch
    /// and supervision aborts before any process is started.
    BackendNotFound,
    /// Spawning the backend failed, and so did the single fallback attempt
    /// with the alternate interpreter invocation.
    LaunchFailed { cause: String },
}

} // verus!
