//! Locating the backend executable across deployment layouts.
//!
//! The host hands in an ordered list of candidate locations - the packaged
//! resource directory, the sibling source directory, the developer-machine
//! fallback - each marked with whether it was found on disk. Resolution
//! commits to the first candidate present, and fails with
//! [`SupervisionError::BackendNotFound`] when none is.

use vstd::prelude::*;

use crate::errors::SupervisionError;
use crate::scan::first_true_index;
use crate::scan::lemma_first_true_index_all_false;
use crate::scan::lemma_first_true_index_from_witness;
use crate::scan::lemma_first_true_index_none_all_false;
use crate::scan::lemma_first_true_index_unique_witness;

verus! {

/// One place the backend executable might live, together with whether the
/// host found it on disk.
pub struct Candidate {
    /// Path of the executable (or interpreter) to launch from this location.
    pub executable: String,
    /// Directory the backend must run in when launched from this location.
    pub working_directory: String,
    /// Whether the host found this location on disk.
    pub present: bool,
}

/// A resolved backend location: the executable to launch and the directory
/// it must run in. Only [`resolve`] constructs one, and only from a
/// candidate that was found on disk - never from a guess.
pub struct BackendLocation {
    executable: String,
    working_directory: String,
}

impl BackendLocation {
    /// Path of the executable to launch.
    pub closed spec fn executable(self) -> Seq<char> {
        self.executable@
    }

    /// Directory the backend runs in.
    pub closed spec fn working_dir(self) -> Seq<char> {
        self.working_directory@
    }

    /// Path of the executable to launch.
    pub fn executable_path(&self) -> (r: &String)
        ensures
            r@ == self.executable(),
    {
        &self.executable
    }

    /// Directory the backend runs in.
    pub fn directory(&self) -> (r: &String)
        ensures
            r@ == self.working_dir(),
    {
        &self.working_directory
    }
}

/// The presence marks of a candidate list, in order.
pub open spec fn presence_flags(candidates: Seq<Candidate>) -> Seq<bool> {
    candidates.map_values(|c: Candidate| c.present)
}

/// Position of the first candidate present on disk, if any.
pub open spec fn first_present_index(candidates: Seq<Candidate>) -> Option<int> {
    first_true_index(presence_flags(candidates))
}

/// Try the ordered candidate list: return a location built from the first
/// candidate present on disk, or report that the backend was not found.
pub fn resolve(candidates: &Vec<Candidate>) -> (r: Result<BackendLocation, SupervisionError>)
    ensures
        first_present_index(candidates@) matches Some(i) ==> (r matches Ok(loc)
            && loc.executable() == candidates@[i].executable@
            && loc.working_dir() == candidates@[i].working_directory@),
        first_present_index(candidates@) is None ==> (r matches Err(e) && e is BackendNotFound),
{
    let ghost flags = presence_flags(candidates@);
    let count = candidates.len();
    let mut idx: usize = 0;
    while idx < count
        invariant
            count == candidates@.len(),
            idx <= count,
            flags == presence_flags(candidates@),
            forall|j: int| 0 <= j < idx ==> !candidates@[j].present,
        decreases count - idx,
    {
        if candidates[idx].present {
            proof {
                assert(flags[idx as int]);
                assert forall|j: int| 0 <= j < idx implies !flags[j] by {
                    assert(!candidates@[j].present);
                }
                lemma_first_true_index_from_witness(flags, idx as int);
            }
            return Ok(BackendLocation {
                executable: candidates[idx].executable.clone(),
                working_directory: candidates[idx].working_directory.clone(),
            });
        }
        idx += 1;
    }
    proof {
        assert forall|j: int| 0 <= j < flags.len() implies !flags[j] by {
            assert(!candidates@[j].present);
        }
        lemma_first_true_index_all_false(flags);
    }
    Err(SupervisionError::BackendNotFound)
}

/// The system-wide interpreter used when no virtual environment is found
/// beside the backend sources.
pub fn system_interpreter() -> (r: &'static str)
    ensures
        r@ == "python3"@,
{
    "python3"
}

/// The alternate interpreter invocation used for the single fallback
/// launch attempt after a failed spawn.
pub fn fallback_interpreter() -> (r: &'static str)
    ensures
        r@ == "python"@,
{
    "python"
}

/// Prefer the virtual-environment interpreter found beside the backend
/// sources over the system-wide interpreter.
pub fn select_interpreter<'a>(
    venv_interpreter: &'a str,
    venv_present: bool,
    system_interpreter: &'a str,
) -> (r: &'a str)
    ensures
        venv_present ==> r@ == venv_interpreter@,
        !venv_present ==> r@ == system_interpreter@,
{
    if venv_present {
        venv_interpreter
    } else {
        system_interpreter
    }
}

/// Law: when exactly one candidate is present on disk, resolution selects
/// precisely that candidate.
pub proof fn lemma_single_present_candidate_is_resolved(candidates: Seq<Candidate>, k: int)
    requires
        0 <= k < candidates.len(),
        candidates[k].present,
        forall|j: int| 0 <= j < candidates.len() && j != k ==> !candidates[j].present,
    ensures
        first_present_index(candidates) == Some(k),
{
    let flags = presence_flags(candidates);
    assert(flags[k]);
    assert forall|j: int| 0 <= j < flags.len() && j != k implies !flags[j] by {
        assert(!candidates[j].present);
    }
    lemma_first_true_index_unique_witness(flags, k);
}

/// Law: when no candidate is present on disk, resolution finds nothing, so
/// [`resolve`] reports `BackendNotFound` and yields no [`BackendLocation`]
/// from which a launch could proceed.
pub proof fn lemma_no_present_candidate_fails(candidates: Seq<Candidate>)
    requires
        forall|j: int| 0 <= j < candidates.len() ==> !candidates[j].present,
    ensures
        first_present_index(candidates) is None,
{
    let flags = presence_flags(candidates);
    assert forall|j: int| 0 <= j < flags.len() implies !flags[j] by {
        assert(!candidates[j].present);
    }
    lemma_first_true_index_all_false(flags);
}

/// Law: a failed resolution means every candidate was checked and missing.
pub proof fn lemma_failed_resolution_checked_all(candidates: Seq<Candidate>)
    requires
        first_present_index(candidates) is None,
    ensures
        forall|j: int| 0 <= j < candidates.len() ==> !candidates[j].present,
{
    let flags = presence_flags(candidates);
    lemma_first_true_index_none_all_false(flags);
    assert forall|j: int| 0 <= j < candidates.len() implies !candidates[j].present by {
        assert(!flags[j]);
    }
}

} // verus!
