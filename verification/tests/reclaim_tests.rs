use neptune_desktop::reclaim::ProcessRecord;
use neptune_desktop::reclaim::RECLAIM_SETTLE_MILLIS;
use neptune_desktop::reclaim::backend_signature;
use neptune_desktop::reclaim::command_matches_signature;
use neptune_desktop::reclaim::count_backend_instances;
use neptune_desktop::reclaim::reclaim_targets;
use neptune_desktop::reclaim::text_carries_fragment;

fn record(pid: u64, command_line: &str) -> ProcessRecord {
    ProcessRecord { pid, command_line: String::from(command_line) }
}

#[test]
fn signature_names_the_backend_artifact() {
    assert_eq!(backend_signature(), "neptune-backend");
}

#[test]
fn command_line_carrying_the_signature_matches() {
    assert!(command_matches_signature("/app/resources/binaries/neptune-backend"));
    assert!(command_matches_signature("neptune-backend"));
    assert!(command_matches_signature("python -m uvicorn run neptune-backend app"));
}

#[test]
fn unrelated_command_lines_do_not_match() {
    assert!(!command_matches_signature("/usr/lib/systemd/systemd"));
    assert!(!command_matches_signature(""));
    assert!(!command_matches_signature("neptune-back"));
    assert!(!command_matches_signature("neptune backend"));
}

#[test]
fn fragment_search_finds_fragments_at_every_position() {
    assert!(text_carries_fragment("abcd", "ab"));
    assert!(text_carries_fragment("abcd", "bc"));
    assert!(text_carries_fragment("abcd", "cd"));
    assert!(text_carries_fragment("abcd", "abcd"));
    assert!(text_carries_fragment("abcd", ""));
    assert!(!text_carries_fragment("abcd", "ac"));
    assert!(!text_carries_fragment("abc", "abcd"));
    assert!(!text_carries_fragment("aab", "aaa"));
}

#[test]
fn reclaim_targets_lists_stale_backend_pids_in_order() {
    let table = vec![
        record(1, "/usr/lib/systemd/systemd"),
        record(120, "/app/resources/binaries/neptune-backend"),
        record(130, "postgres: checkpointer"),
        record(140, "/home/dev/neptune/neptune-backend --port 8000"),
    ];
    let pids = reclaim_targets(&table);
    assert_eq!(pids, vec![120, 140]);
}

#[test]
fn reclaim_targets_is_empty_without_stale_instances() {
    let table = vec![record(1, "/usr/lib/systemd/systemd"), record(2, "sshd")];
    let pids = reclaim_targets(&table);
    assert!(pids.is_empty());
}

#[test]
fn reclaim_then_start_leaves_one_backend_instance() {
    let table = vec![
        record(1, "/usr/lib/systemd/systemd"),
        record(120, "/app/resources/binaries/neptune-backend"),
    ];
    assert_eq!(count_backend_instances(&table), 1);

    let doomed = reclaim_targets(&table);
    assert_eq!(doomed, vec![120]);
    let mut survivors: Vec<ProcessRecord> = Vec::new();
    for process in table {
        if !doomed.contains(&process.pid) {
            survivors.push(process);
        }
    }
    assert_eq!(count_backend_instances(&survivors), 0);

    survivors.push(record(200, "/app/resources/binaries/neptune-backend"));
    assert_eq!(count_backend_instances(&survivors), 1);
}

#[test]
fn reclaim_settle_delay_is_half_a_second() {
    assert_eq!(RECLAIM_SETTLE_MILLIS, 500);
}
