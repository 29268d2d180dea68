use neptune_desktop::errors::SupervisionError;
use neptune_desktop::resolver::Candidate;
use neptune_desktop::resolver::resolve;
use neptune_desktop::resolver::fallback_interpreter;
use neptune_desktop::resolver::select_interpreter;
use neptune_desktop::resolver::system_interpreter;
use neptune_desktop::supervisor::Supervisor;
use neptune_desktop::supervisor::SupervisorState;

fn candidate(executable: &str, working_directory: &str, present: bool) -> Candidate {
    Candidate {
        executable: String::from(executable),
        working_directory: String::from(working_directory),
        present,
    }
}

#[test]
fn missing_then_present_resolves_to_present_path() {
    let candidates = vec![candidate("/a", "/", false), candidate("/b", "/", true)];
    let location = resolve(&candidates).unwrap();
    assert_eq!(location.executable_path().as_str(), "/b");
    assert_eq!(location.directory().as_str(), "/");
}

#[test]
fn single_present_candidate_is_returned() {
    let candidates = vec![
        candidate("/app/resources/binaries/neptune-backend", "/app/resources", false),
        candidate("/src/neptune-backend/neptune-env/bin/python", "/src/neptune-backend", true),
        candidate("/home/dev/neptune/neptune-backend", "/home/dev/neptune", false),
    ];
    let location = resolve(&candidates).unwrap();
    assert_eq!(
        location.executable_path().as_str(),
        "/src/neptune-backend/neptune-env/bin/python"
    );
    assert_eq!(location.directory().as_str(), "/src/neptune-backend");
}

#[test]
fn earlier_present_candidate_wins() {
    let candidates = vec![
        candidate("/first", "/d1", true),
        candidate("/second", "/d2", true),
        candidate("/third", "/d3", true),
    ];
    let location = resolve(&candidates).unwrap();
    assert_eq!(location.executable_path().as_str(), "/first");
    assert_eq!(location.directory().as_str(), "/d1");
}

#[test]
fn no_present_candidate_reports_backend_not_found() {
    let candidates = vec![candidate("/a", "/", false), candidate("/b", "/", false)];
    let result = resolve(&candidates);
    assert!(matches!(result, Err(SupervisionError::BackendNotFound)));
}

#[test]
fn empty_candidate_list_reports_backend_not_found() {
    let candidates: Vec<Candidate> = Vec::new();
    let result = resolve(&candidates);
    assert!(matches!(result, Err(SupervisionError::BackendNotFound)));
}

#[test]
fn failed_resolution_never_starts_a_process() {
    let candidates = vec![candidate("/a", "/", false), candidate("/b", "/", false)];
    let supervisor = Supervisor::new();
    match resolve(&candidates) {
        Err(SupervisionError::BackendNotFound) => {
            // Supervision aborts here: without a BackendLocation there is
            // nothing to launch, so no start is ever requested.
        }
        _ => panic!("resolution must fail when no candidate is present"),
    }
    assert_eq!(supervisor.current_state(), SupervisorState::Unstarted);
    assert_eq!(supervisor.held_process(), None);
}

#[test]
fn present_venv_interpreter_is_preferred() {
    let chosen = select_interpreter("/backend/neptune-env/bin/python", true, "python3");
    assert_eq!(chosen, "/backend/neptune-env/bin/python");
}

#[test]
fn missing_venv_falls_back_to_system_interpreter() {
    let chosen = select_interpreter("/backend/neptune-env/bin/python", false, system_interpreter());
    assert_eq!(chosen, "python3");
}

#[test]
fn fallback_invocation_uses_the_alternate_interpreter() {
    assert_eq!(system_interpreter(), "python3");
    assert_eq!(fallback_interpreter(), "python");
    assert_ne!(system_interpreter(), fallback_interpreter());
}
