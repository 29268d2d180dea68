//! Clearing stale backend instances before a fresh start.
//!
//! A crashed prior run can leave a backend process behind, still bound to
//! the ports a fresh instance needs. Stale instances are recognised by a
//! fixed substring of their command line - the backend's process-name
//! signature - and terminated best-effort before starting: a failure here
//! is logged and ignored, and a short settle delay follows so the OS can
//! release the ports. The host enumerates running processes and performs
//! the kills; this module decides which processes are stale.

use vstd::prelude::*;

verus! {

/// Settle delay after reclaiming, in milliseconds, so the OS releases the
/// stale instance's ports before a fresh instance binds them.
pub const RECLAIM_SETTLE_MILLIS: u64 = 500;

/// The fixed substring by which a backend process is recognised. Renaming
/// the backend artifact must update this signature.
pub open spec fn spec_backend_signature() -> Seq<char> {
    "neptune-backend"@
}

/// The fixed substring by which a backend process is recognised.
pub fn backend_signature() -> (s: &'static str)
    ensures
        s@ == spec_backend_signature(),
{
    "neptune-backend"
}

/// `pattern` occurs in `text` starting at position `i`.
pub open spec fn fragment_at(text: Seq<char>, pattern: Seq<char>, i: int) -> bool {
    0 <= i && i + pattern.len() <= text.len() && text.subrange(i, i + pattern.len()) == pattern
}

/// `pattern` occurs somewhere in `text`.
pub open spec fn has_fragment(text: Seq<char>, pattern: Seq<char>) -> bool {
    exists|i: int| fragment_at(text, pattern, i)
}

/// A command line is a stale-backend match when it carries the signature.
pub open spec fn matches_signature(command_line: Seq<char>) -> bool {
    has_fragment(command_line, spec_backend_signature())
}

/// Whether `pattern` occurs in `text` starting at position `i`.
fn match_at(
    text: &str,
    pattern: &str,
    i: usize,
    text_chars: usize,
    pattern_chars: usize,
) -> (r: bool)
    requires
        text_chars == text@.len(),
        pattern_chars == pattern@.len(),
        i + pattern_chars <= text_chars,
    ensures
        r == fragment_at(text@, pattern@, i as int),
{
    let mut k: usize = 0;
    while k < pattern_chars
        invariant
            text_chars == text@.len(),
            pattern_chars == pattern@.len(),
            i + pattern_chars <= text_chars,
            k <= pattern_chars,
            forall|t: int| 0 <= t < k ==> text@[i + t] == pattern@[t],
        decreases pattern_chars - k,
    {
        if text.get_char(i + k) != pattern.get_char(k) {
            proof {
                assert(!fragment_at(text@, pattern@, i as int)) by {
                    let occurrence = text@.subrange(i as int, i + pattern@.len());
                    if occurrence == pattern@ {
                        assert(occurrence[k as int] == text@[i + k]);
                    }
                }
            }
            return false;
        }
        k += 1;
    }
    proof {
        assert(text@.subrange(i as int, i + pattern@.len()) =~= pattern@);
    }
    true
}

/// Whether `pattern` occurs anywhere in `text`.
pub fn text_carries_fragment(text: &str, pattern: &str) -> (r: bool)
    ensures
        r == has_fragment(text@, pattern@),
{
    let text_chars = text.unicode_len();
    let pattern_chars = pattern.unicode_len();
    if pattern_chars > text_chars {
        proof {
            assert(!has_fragment(text@, pattern@)) by {
                assert forall|i: int| !fragment_at(text@, pattern@, i) by {}
            }
        }
        return false;
    }
    if pattern_chars == 0 {
        proof {
            assert(text@.subrange(0, 0) =~= pattern@);
            assert(fragment_at(text@, pattern@, 0));
        }
        return true;
    }
    let last_start = text_chars - pattern_chars;
    let mut idx: usize = 0;
    while idx <= last_start
        invariant
            text_chars == text@.len(),
            pattern_chars == pattern@.len(),
            1 <= pattern_chars <= text_chars,
            last_start == text_chars - pattern_chars,
            idx <= last_start + 1,
            forall|j: int| 0 <= j < idx ==> !fragment_at(text@, pattern@, j),
        decreases last_start + 1 - idx,
    {
        if match_at(text, pattern, idx, text_chars, pattern_chars) {
            return true;
        }
        idx += 1;
    }
    proof {
        assert(!has_fragment(text@, pattern@)) by {
            assert forall|j: int| !fragment_at(text@, pattern@, j) by {
                if 0 <= j < idx {
                    assert(!fragment_at(text@, pattern@, j));
                } else if j >= idx {
                    assert(j + pattern@.len() > text@.len());
                }
            }
        }
    }
    false
}

/// Whether this command line belongs to a backend instance.
pub fn command_matches_signature(command_line: &str) -> (r: bool)
    ensures
        r == matches_signature(command_line@),
{
    text_carries_fragment(command_line, backend_signature())
}

/// One running process of the host system, as the host enumerated it.
pub struct ProcessRecord {
    /// OS process identifier.
    pub pid: u64,
    /// The process's command line.
    pub command_line: String,
}

/// The pids that reclaiming must terminate: every process whose command
/// line carries the backend signature, in table order.
pub open spec fn spec_reclaim_targets(processes: Seq<ProcessRecord>) -> Seq<u64>
    decreases processes.len(),
{
    if processes.len() == 0 {
        Seq::empty()
    } else {
        let rest = spec_reclaim_targets(processes.drop_last());
        if matches_signature(processes.last().command_line@) {
            rest.push(processes.last().pid)
        } else {
            rest
        }
    }
}

/// The processes that survive reclaiming: those that do not carry the
/// backend signature.
pub open spec fn surviving_after_reclaim(processes: Seq<ProcessRecord>) -> Seq<ProcessRecord>
    decreases processes.len(),
{
    if processes.len() == 0 {
        processes
    } else {
        let rest = surviving_after_reclaim(processes.drop_last());
        if matches_signature(processes.last().command_line@) {
            rest
        } else {
            rest.push(processes.last())
        }
    }
}

/// How many of these processes are backend instances.
pub open spec fn backend_instance_count(processes: Seq<ProcessRecord>) -> nat
    decreases processes.len(),
{
    if processes.len() == 0 {
        0
    } else {
        backend_instance_count(processes.drop_last()) + (if matches_signature(
            processes.last().command_line@,
        ) {
            1nat
        } else {
            0nat
        })
    }
}

/// Decide which running processes are stale backend instances: their pids,
/// in table order.
pub fn reclaim_targets(processes: &Vec<ProcessRecord>) -> (pids: Vec<u64>)
    ensures
        pids@ == spec_reclaim_targets(processes@),
{
    let count = processes.len();
    let mut pids: Vec<u64> = Vec::new();
    let mut idx: usize = 0;
    while idx < count
        invariant
            count == processes@.len(),
            idx <= count,
            pids@ == spec_reclaim_targets(processes@.take(idx as int)),
        decreases count - idx,
    {
        let record = &processes[idx];
        if command_matches_signature(record.command_line.as_str()) {
            pids.push(record.pid);
        }
        proof {
            let prefix = processes@.take(idx + 1);
            assert(prefix.drop_last() =~= processes@.take(idx as int));
            assert(prefix.last() == processes@[idx as int]);
        }
        idx += 1;
    }
    proof {
        assert(processes@.take(count as int) =~= processes@);
    }
    pids
}

/// Count the backend instances among these processes.
pub fn count_backend_instances(processes: &Vec<ProcessRecord>) -> (n: usize)
    ensures
        n == backend_instance_count(processes@),
{
    let count = processes.len();
    let mut n: usize = 0;
    let mut idx: usize = 0;
    while idx < count
        invariant
            count == processes@.len(),
            idx <= count,
            n <= idx,
            n == backend_instance_count(processes@.take(idx as int)),
        decreases count - idx,
    {
        let record = &processes[idx];
        if command_matches_signature(record.command_line.as_str()) {
            n += 1;
        }
        proof {
            let prefix = processes@.take(idx + 1);
            assert(prefix.drop_last() =~= processes@.take(idx as int));
            assert(prefix.last() == processes@[idx as int]);
        }
        idx += 1;
    }
    proof {
        assert(processes@.take(count as int) =~= processes@);
    }
    n
}

/// This pid belongs to some process of the table whose command line
/// carries the backend signature.
pub open spec fn is_stale_pid(processes: Seq<ProcessRecord>, pid: u64) -> bool {
    exists|j: int|
        0 <= j < processes.len() && matches_signature(#[trigger] processes[j].command_line@)
            && processes[j].pid == pid
}

/// Law: the reclaim targets are exactly the stale instances - every
/// targeted pid belongs to a process whose command line carries the
/// signature, and every process carrying it is targeted.
pub proof fn lemma_reclaim_targets_are_exactly_the_stale(processes: Seq<ProcessRecord>)
    ensures
        forall|k: int| 0 <= k < spec_reclaim_targets(processes).len() ==> is_stale_pid(
            processes,
            #[trigger] spec_reclaim_targets(processes)[k],
        ),
        forall|j: int|
            0 <= j < processes.len() && matches_signature(#[trigger] processes[j].command_line@)
                ==> spec_reclaim_targets(processes).contains(processes[j].pid),
    decreases processes.len(),
{
    if processes.len() != 0 {
        let shorter = processes.drop_last();
        let rest = spec_reclaim_targets(shorter);
        let whole = spec_reclaim_targets(processes);
        lemma_reclaim_targets_are_exactly_the_stale(shorter);
        assert forall|k: int| 0 <= k < spec_reclaim_targets(processes).len() implies is_stale_pid(
            processes,
            #[trigger] spec_reclaim_targets(processes)[k],
        ) by {
            assert(whole == spec_reclaim_targets(processes));
            if k < rest.len() {
                assert(whole[k] == rest[k]);
                assert(is_stale_pid(shorter, rest[k]));
                let j = choose|j: int|
                    0 <= j < shorter.len() && matches_signature(
                        #[trigger] shorter[j].command_line@,
                    ) && shorter[j].pid == rest[k];
                assert(shorter[j] == processes[j]);
                assert(0 <= j < processes.len() && matches_signature(processes[j].command_line@)
                    && processes[j].pid == spec_reclaim_targets(processes)[k]);
            } else {
                let j = processes.len() - 1;
                assert(matches_signature(processes[j].command_line@));
                assert(whole == rest.push(processes[j].pid));
                assert(0 <= j < processes.len() && matches_signature(processes[j].command_line@)
                    && processes[j].pid == spec_reclaim_targets(processes)[k]);
            }
        }
        assert forall|j: int|
            0 <= j < processes.len() && matches_signature(
                #[trigger] processes[j].command_line@,
            ) implies spec_reclaim_targets(processes).contains(processes[j].pid) by {
            assert(whole == spec_reclaim_targets(processes));
            if j < processes.len() - 1 {
                assert(shorter[j] == processes[j]);
                assert(matches_signature(shorter[j].command_line@));
                assert(rest.contains(processes[j].pid));
                let k = choose|k: int| 0 <= k < rest.len() && rest[k] == processes[j].pid;
                if matches_signature(processes.last().command_line@) {
                    assert(whole == rest.push(processes.last().pid));
                }
                assert(0 <= k < whole.len());
                assert(spec_reclaim_targets(processes)[k] == processes[j].pid);
            } else {
                assert(whole == rest.push(processes[j].pid));
                assert(spec_reclaim_targets(processes)[whole.len() - 1] == processes[j].pid);
            }
        }
    }
}

/// Law: reclaiming leaves no backend instance behind.
pub proof fn lemma_reclaim_leaves_no_backend(processes: Seq<ProcessRecord>)
    ensures
        backend_instance_count(surviving_after_reclaim(processes)) == 0,
    decreases processes.len(),
{
    if processes.len() != 0 {
        lemma_reclaim_leaves_no_backend(processes.drop_last());
        if !matches_signature(processes.last().command_line@) {
            let rest = surviving_after_reclaim(processes.drop_last());
            assert(rest.push(processes.last()).drop_last() =~= rest);
            assert(rest.push(processes.last()).last() == processes.last());
        }
    }
}

/// Law: reclaiming and then starting one fresh backend leaves exactly one
/// backend instance alive, so the fresh instance never contends with a
/// stale one for its port.
pub proof fn lemma_reclaim_then_start_single_instance(
    processes: Seq<ProcessRecord>,
    fresh: ProcessRecord,
)
    requires
        matches_signature(fresh.command_line@),
    ensures
        backend_instance_count(surviving_after_reclaim(processes).push(fresh)) == 1,
{
    lemma_reclaim_leaves_no_backend(processes);
    let survivors = surviving_after_reclaim(processes);
    assert(survivors.push(fresh).drop_last() =~= survivors);
    assert(survivors.push(fresh).last() == fresh);
}

} // verus!
