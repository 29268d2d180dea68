//! Judging the backend's network readiness after launch.
//!
//! Once a launch succeeds, an independent background task of the host waits
//! a settle interval and then attempts one bare connection against each
//! port of a small contiguous range, in ascending order, stopping at the
//! first that accepts. This module turns those attempt outcomes into the
//! readiness verdict. The verdict is a diagnostic only: it is logged and
//! never changes the lifecycle state.

use vstd::prelude::*;

use crate::scan::first_true_index;
use crate::scan::lemma_first_true_index_all_false;
use crate::scan::lemma_first_true_index_found;
use crate::scan::lemma_first_true_index_from_witness;

verus! {

/// Outcome of probing the candidate port range once after a launch.
#[derive(Clone, Copy, PartialEq, Eq, Structural, Debug)]
pub enum ReadinessResult {
    /// The backend accepted a connection on this port.
    Ready(u16),
    /// No port of the attempted range accepted a connection.
    NotReady,
}

/// First port of the contiguous range the backend is expected to bind.
pub const PROBE_FIRST_PORT: u16 = 8000;

/// How many consecutive ports are probed, starting at [`PROBE_FIRST_PORT`].
pub const PROBE_PORT_COUNT: u16 = 10;

/// Settle delay before the probe begins, in milliseconds.
pub const PROBE_SETTLE_MILLIS: u64 = 5000;

/// The verdict the probe outcomes call for: the port of the first
/// successful connection, or not-ready when every attempt failed.
pub open spec fn spec_probe_result(outcomes: Seq<bool>, first_port: u16) -> ReadinessResult {
    match first_true_index(outcomes) {
        Some(i) => ReadinessResult::Ready((first_port + i) as u16),
        None => ReadinessResult::NotReady,
    }
}

/// Report the first reachable port, in ascending order, or not-ready when
/// none of the attempted ports accepted a connection.
///
/// `outcomes[k]` is whether a connection to `first_port + k` succeeded.
pub fn probe_result(outcomes: &Vec<bool>, first_port: u16) -> (r: ReadinessResult)
    requires
        first_port as int + outcomes@.len() <= u16::MAX as int + 1,
    ensures
        r == spec_probe_result(outcomes@, first_port),
{
    let count = outcomes.len();
    let mut idx: usize = 0;
    while idx < count
        invariant
            count == outcomes@.len(),
            idx <= count,
            first_port as int + count <= u16::MAX as int + 1,
            forall|j: int| 0 <= j < idx ==> !outcomes@[j],
        decreases count - idx,
    {
        if outcomes[idx] {
            proof {
                lemma_first_true_index_from_witness(outcomes@, idx as int);
            }
            return ReadinessResult::Ready(first_port + idx as u16);
        }
        idx += 1;
    }
    proof {
        lemma_first_true_index_all_false(outcomes@);
    }
    ReadinessResult::NotReady
}

/// Law: a `Ready(port)` verdict names a port of the probed range whose
/// connection attempt succeeded, while the attempt against every lower
/// port of the range failed - the first reachable port, nothing else.
pub proof fn lemma_ready_port_is_first_reachable(outcomes: Seq<bool>, first_port: u16, port: u16)
    requires
        first_port as int + outcomes.len() <= u16::MAX as int + 1,
        spec_probe_result(outcomes, first_port) == ReadinessResult::Ready(port),
    ensures
        first_port <= port,
        port - first_port < outcomes.len(),
        outcomes[port - first_port],
        forall|j: int| 0 <= j < port - first_port ==> !outcomes[j],
{
    match first_true_index(outcomes) {
        Some(i) => {
            lemma_first_true_index_found(outcomes, i);
            assert((first_port + i) as u16 == first_port + i);
            assert(i == port - first_port);
        },
        None => {
            assert(false);
        },
    }
}

} // verus!
