use rx_supervisor::builtin::services::{Initializer, ServiceRole};
use rx_supervisor::initialization::{
    attempt_termination, change, check_commands, check_initializers, check_signal_status, decode, initial_steps,
    inspect, outcome, pending, require_complete, Phase, State,
};
use rx_supervisor::registration::StoreError;
use rx_supervisor::Error;

const SCHEMA: &str = "rx.solutions-service-initialization.v1";

fn command(id: &str, role: ServiceRole) -> Initializer {
    Initializer {
        id: id.to_string(),
        role,
        executable: "/opt/rx/bin/init".to_string(),
        executable_sha256: "ab".repeat(32),
        files: vec![],
        arguments: vec![],
        data_directory: format!("/var/lib/{id}"),
        runtime_directory: None,
        installation: "install".to_string(),
        principal: id.to_string(),
        cells: vec![],
    }
}

fn commands() -> Vec<Initializer> {
    vec![command("rx/service/host", ServiceRole::Host), command("rx/service/executor", ServiceRole::Executor)]
}

fn stored(state: &State) -> Option<(String, State)> {
    Some((SCHEMA.to_string(), state.clone()))
}

#[test]
fn a_new_initialization_starts_every_step_pending() {
    let state = initial_steps("plan-digest".to_string(), &commands());
    assert_eq!(state.steps.len(), 2);
    assert_eq!(state.steps[1].program, "rx/service/executor");
    assert!(state.steps.iter().all(|s| s.phase == Phase::Pending && s.instance.len() == 36));
    assert_ne!(state.steps[0].instance, state.steps[1].instance);
    assert!(decode(&SCHEMA.to_string(), state.clone()).is_ok());
    assert!(check_commands(&state, &commands()).is_ok());
}

#[test]
fn stored_states_are_checked_before_use() {
    let state = initial_steps("plan-digest".to_string(), &commands());
    assert!(matches!(decode(&"other".to_string(), state.clone()),
        Err(StoreError::Integrity(m)) if m == "initialization schema differs"));
    let mut twice = state.clone();
    twice.steps[1].program = twice.steps[0].program.clone();
    assert!(matches!(decode(&SCHEMA.to_string(), twice),
        Err(StoreError::Integrity(m)) if m == "initializer identity/phase differs"));
    let mut early = state.clone();
    early.steps[0].exit_code = Some(0);
    assert!(decode(&SCHEMA.to_string(), early).is_err());
    let mut reordered = commands();
    reordered.reverse();
    assert!(matches!(check_commands(&state, &reordered),
        Err(StoreError::Integrity(m)) if m == "initializer list or order differs"));
    assert!(matches!(inspect(None, &"plan-digest".to_string(), &commands()),
        Err(StoreError::Integrity(m)) if m == "required initialization state absent"));
    assert!(matches!(inspect(stored(&state), &"other-digest".to_string(), &commands()), Err(StoreError::KeyConflict)));
    assert!(inspect(stored(&state), &"plan-digest".to_string(), &commands()).is_ok());
}

#[test]
fn steps_move_forward_only() {
    let digest = "plan-digest".to_string();
    let state = initial_steps(digest.clone(), &commands());
    assert!(matches!(change(stored(&state), &digest, &commands(), 0, Phase::Completed, Some(0), None),
        Err(StoreError::Invalid(m)) if m == "initialization transition differs"));
    let entered = change(stored(&state), &digest, &commands(), 0, Phase::Entered, None, None).unwrap();
    assert_eq!(entered.steps[0].phase, Phase::Entered);
    assert_eq!(entered.steps[1].phase, Phase::Pending);
    let done = change(stored(&entered), &digest, &commands(), 0, Phase::Completed, Some(0), None).unwrap();
    assert_eq!(done.steps[0].exit_code, Some(0));
    assert!(matches!(change(stored(&done), &digest, &commands(), 0, Phase::Entered, None, None), Err(StoreError::Invalid(_))));
    assert!(matches!(change(stored(&done), &digest, &commands(), 2, Phase::Entered, None, None), Err(StoreError::KeyConflict)));
    assert!(matches!(change(None, &digest, &commands(), 0, Phase::Entered, None, None),
        Err(StoreError::Integrity(m)) if m == "initialization state missing"));
}

#[test]
fn only_a_completed_initialization_is_accepted() {
    let digest = "plan-digest".to_string();
    let mut state = initial_steps(digest.clone(), &commands());
    assert!(matches!(require_complete(stored(&state), &digest, &commands()),
        Err(Error::Reconciliation(m)) if m == "fixed service initialization is incomplete; no automatic init replay"));
    for step in state.steps.iter_mut() {
        step.phase = Phase::Completed;
        step.exit_code = Some(0);
    }
    assert!(require_complete(stored(&state), &digest, &commands()).is_ok());
    assert!(matches!(require_complete(None, &digest, &commands()), Err(Error::Storage(StoreError::Integrity(_)))));
}

#[test]
fn initializers_are_bounded_release_services() {
    assert!(check_initializers(&commands()).is_ok());
    assert!(check_initializers(&vec![]).is_err());
    assert!(check_initializers(&vec![command("site/custom", ServiceRole::Host)]).is_err());
    assert!(matches!(check_initializers(&vec![command("rx/service/a", ServiceRole::Host), command("rx/service/a", ServiceRole::Executor)]),
        Err(Error::Invalid(m)) if m == "bounded release-generated service initializers required"));
}

#[test]
fn entered_or_failed_steps_are_never_replayed() {
    let mut state = initial_steps("d".to_string(), &commands());
    let cs = commands();
    assert_eq!(pending(&state, 0, &cs[0]).unwrap(), true);
    assert!(matches!(pending(&state, 0, &cs[1]), Err(Error::Reconciliation(m)) if m == "initializer identity changed"));
    state.steps[0].phase = Phase::Completed;
    assert_eq!(pending(&state, 0, &cs[0]).unwrap(), false);
    state.steps[1].phase = Phase::Entered;
    assert!(matches!(pending(&state, 1, &cs[1]),
        Err(Error::Reconciliation(m)) if m == "initializer entered or failed; existing metadata requires inspection, never replay"));
    assert_eq!(outcome(true, false), (Phase::Completed, None));
    assert_eq!(outcome(true, true).0, Phase::Failed);
    assert_eq!(outcome(false, false).1.as_deref(), Some("initializer failed or interrupted; partial installation retained"));
}

#[test]
fn failed_term_keeps_the_same_owned_child_retryable_until_delivery_is_confirmed() {
    let pid = 4321;
    let mut sent = false;
    let mut attempts = Vec::new();
    assert!(attempt_termination(pid, &mut sent, || Ok(false), |actual| {
        attempts.push(actual);
        check_signal_status(false, "exit status: 1")
    })
    .is_err());
    assert!(!sent);
    attempt_termination(pid, &mut sent, || Ok(false), |actual| {
        attempts.push(actual);
        check_signal_status(true, "exit status: 0")
    })
    .unwrap();
    assert!(sent);
    assert_eq!(attempts, vec![pid, pid]);
    attempt_termination(pid, &mut sent, || Ok(false), |_| -> Result<(), Error> {
        panic!("confirmed TERM must not be repeated")
    })
    .unwrap();
}

#[test]
fn failed_signal_command_status_is_not_a_successful_delivery() {
    assert!(matches!(check_signal_status(false, "exit status: 1"),
        Err(Error::Reconciliation(m)) if m == "owned initializer TERM was not confirmed: exit status: 1"));
    assert!(check_signal_status(true, "exit status: 0").is_ok());
}

#[test]
fn an_exited_child_needs_no_termination() {
    let mut sent = false;
    attempt_termination(1, &mut sent, || Ok(true), |_| -> Result<(), Error> { panic!("already exited") }).unwrap();
    assert!(sent);
}
