use rx_supervisor::execution::{Application, Decision, Evidence, Receipt, Request, Requirement, Requirements, Unmet};
use rx_supervisor::process::SpawnFailure;
use rx_supervisor::model::{Effect, Environment, GuardedExit, Phase, Plan, Process, Program, ReadyProbe, Record, State};
use rx_supervisor::registration::{StoreError, TimePoint};
use rx_supervisor::supervisor::{
    admission_result, blocked, check_rejection, check_state, dependents_remaining, deps_ready, unobserved_status, initial_state, interpret_exit, rearm, rearm_check,
    ownership_hold, rearm_software, route, start_identity, StepAction, start_step, StartEvent, record_exit, rejection_message, reopen, sight, Sighting, start_gate, stop_step, summary, GuardedObservation, GuardedState,
    StartDecision, StopDecision,
};
use rx_supervisor::Error;

fn process(id: &str, program: &str, depends_on: &[&str]) -> Process {
    Process {
        id: id.to_string(),
        program: program.to_string(),
        parameters: vec![],
        depends_on: depends_on.iter().map(|d| d.to_string()).collect(),
        startup_timeout_ms: 1_000,
        shutdown_timeout_ms: 1_000,
        restart_limit: 2,
        restart_backoff_ms: 500,
    }
}

fn program(id: &str, effect: Effect) -> Program {
    Program {
        id: id.to_string(),
        effect,
        executable: "/bin/x".to_string(),
        executable_sha256: String::new(),
        files: vec![],
        fixed_arguments: vec![],
        arguments: vec![],
        ready: ReadyProbe::AliveOnly,
        execution_requirements: None,
        functional_readiness: None,
        decision_policy: None,
    }
}

fn plan() -> Plan {
    Plan {
        schema: "rx.solutions-process-plan.v1".to_string(),
        id: "plan".to_string(),
        environment: Environment::Simulation,
        profiles: vec![],
        processes: vec![process("a", "calm", &[]), process("b", "guard", &["a"])],
    }
}

fn programs() -> Vec<(String, Program)> {
    vec![
        ("calm".to_string(), program("calm", Effect::NonActuating)),
        ("guard".to_string(), program("guard", Effect::ProtocolGuardedService)),
    ]
}

fn at() -> TimePoint {
    TimePoint { clock_id: "boot".to_string(), ticks_ns: 9 }
}

fn confirmed() -> GuardedExit {
    GuardedExit::Confirmed { reconciliation_required: false, sequence: 3, observed_at: at(), payload_digest: "p".to_string() }
}

fn set_phase(state: &mut State, i: usize, phase: Phase) {
    state.records[i].1.phase = phase;
    state.records[i].1.instance = Some(format!("inst-{i}"));
    state.records[i].1.pid = Some(100 + i as u32);
}

#[test]
fn a_new_state_holds_every_process_pending_in_plan_order() {
    let state = initial_state(&plan(), "digest".to_string());
    assert_eq!(state.schema, "rx.supervisor-state.v1");
    assert_eq!(state.plan, "plan");
    assert!(!state.stop_requested);
    assert_eq!(state.records.len(), 2);
    assert_eq!(state.records[1].0, "b");
    assert_eq!(state.records[1].1.phase, Phase::Pending);
    assert_eq!(state.records[1].1.attempts, 0);
    assert!(check_state(&state).is_ok());
}

#[test]
fn a_guarded_exit_needs_an_owned_exited_process() {
    let mut state = initial_state(&plan(), "digest".to_string());
    state.records[1].1.guarded_exit = Some(confirmed());
    match check_state(&state) {
        Err(StoreError::Integrity(m)) => assert_eq!(m, "guarded exit without owned process identity"),
        other => panic!("unexpected {other:?}"),
    }
    set_phase(&mut state, 1, Phase::Exited);
    state.records[1].1.exit_code = Some(1);
    match check_state(&state) {
        Err(StoreError::Integrity(m)) => assert_eq!(m, "guarded exit proof shape differs"),
        other => panic!("unexpected {other:?}"),
    }
    state.records[1].1.exit_code = Some(0);
    assert!(check_state(&state).is_ok());
}

#[test]
fn reopening_loses_ownership_of_processes_in_flight() {
    let mut state = initial_state(&plan(), "digest".to_string());
    set_phase(&mut state, 0, Phase::ProcessReady);
    set_phase(&mut state, 1, Phase::Exited);
    let before = state.clone();
    assert!(matches!(reopen(&mut state, &"plan".to_string(), &"other".to_string()), Err(StoreError::KeyConflict)));
    assert_eq!(state.records[0].1.phase, Phase::ProcessReady);
    reopen(&mut state, &"plan".to_string(), &"digest".to_string()).unwrap();
    assert_eq!(state.records[0].1.phase, Phase::Unknown);
    assert_eq!(state.records[0].1.error.as_deref(), Some("supervisor ownership lost; no PID adoption or replay"));
    assert_eq!(state.records[0].1.pid, before.records[0].1.pid);
    assert_eq!(state.records[1].1.phase, Phase::Exited);
}

#[test]
fn rearming_needs_a_completed_stop_and_no_actuating_process() {
    let only_calm = Plan { processes: vec![process("a", "calm", &[])], ..plan() };
    let mut state = initial_state(&only_calm, "digest".to_string());
    let refused = rearm_check(&state, &only_calm, &programs());
    assert!(matches!(refused, Err(Error::Reconciliation(m)) if m == "software reactivation prerequisites not satisfied"));
    state.stop_requested = true;
    set_phase(&mut state, 0, Phase::Exited);
    assert!(rearm_check(&state, &only_calm, &programs()).is_ok());
    let mut full = initial_state(&plan(), "digest".to_string());
    full.stop_requested = true;
    set_phase(&mut full, 0, Phase::Exited);
    set_phase(&mut full, 1, Phase::Exited);
    assert!(rearm_check(&full, &plan(), &programs()).is_err());
    rearm(&mut state);
    assert!(!state.stop_requested);
    assert_eq!(state.records[0].1.phase, Phase::Pending);
    assert_eq!(state.records[0].1.attempts, 0);
}

#[test]
fn summary_reports_exits_and_guarded_confirmation() {
    let mut state = initial_state(&plan(), "digest".to_string());
    set_phase(&mut state, 0, Phase::Exited);
    set_phase(&mut state, 1, Phase::Exited);
    let (all_exited, _, _) = summary(&state, &plan(), &programs());
    assert!(!all_exited);
    state.stop_requested = true;
    let (all_exited, guarded_confirmed, _) = summary(&state, &plan(), &programs());
    assert!(all_exited);
    assert!(!guarded_confirmed);
    state.records[1].1.guarded_exit = Some(confirmed());
    let (_, guarded_confirmed, reconcile) = summary(&state, &plan(), &programs());
    assert!(guarded_confirmed);
    assert!(!reconcile);
}

#[test]
fn only_a_zero_exit_with_a_stop_report_confirms() {
    let stopped = GuardedObservation {
        state: GuardedState::Stopped { reconciliation_required: true },
        sequence: 4,
        observed_at: at(),
        payload_digest: "d".to_string(),
    };
    match interpret_exit(Some(0), Ok(Some(stopped.clone()))) {
        GuardedExit::Confirmed { reconciliation_required, sequence, .. } => {
            assert!(reconciliation_required);
            assert_eq!(sequence, 4);
        }
        other => panic!("unexpected {other:?}"),
    }
    assert!(matches!(interpret_exit(Some(1), Ok(Some(stopped))),
        GuardedExit::Unconfirmed { reason } if reason == "zero exit and current guarded stop report required"));
    let ready = GuardedObservation { state: GuardedState::Ready, sequence: 5, observed_at: at(), payload_digest: "d".to_string() };
    assert!(matches!(interpret_exit(Some(0), Ok(Some(ready))),
        GuardedExit::Unconfirmed { reason } if reason == "exited without terminal guarded status"));
    assert!(matches!(interpret_exit(Some(0), Err("unreadable".to_string())),
        GuardedExit::Unconfirmed { reason } if reason == "unreadable"));
}

#[test]
fn an_unexpected_guarded_exit_requests_the_stop() {
    let mut state = initial_state(&plan(), "digest".to_string());
    set_phase(&mut state, 1, Phase::ProcessReady);
    record_exit(&mut state, 1, Some(3), None, true);
    assert!(state.stop_requested);
    assert_eq!(state.records[1].1.phase, Phase::Exited);
    assert_eq!(state.records[1].1.exit_code, Some(3));
    assert_eq!(state.records[1].1.error.as_deref(), Some("unexpected service exit"));
    assert_eq!(state.records[0].1.phase, Phase::Pending);
}

#[test]
fn a_process_starts_after_its_dependencies_are_ready() {
    let mut state = initial_state(&plan(), "digest".to_string());
    let b = process("b", "guard", &["a"]);
    assert!(!deps_ready(&state, &b));
    set_phase(&mut state, 0, Phase::ProcessReady);
    assert!(deps_ready(&state, &b));
    let fresh = state.records[1].1.clone();
    assert!(matches!(start_gate(&b, &fresh, Effect::ProtocolGuardedService, false, true), StartDecision::Start));
    assert!(matches!(start_gate(&b, &fresh, Effect::ProtocolGuardedService, true, true), StartDecision::Wait));
    let mut ran = fresh.clone();
    ran.attempts = 1;
    assert!(matches!(start_gate(&b, &ran, Effect::ProtocolGuardedService, false, true),
        StartDecision::Blocked(m) if m == "b: restart budget exhausted or explicit control restart required"));
    let a = process("a", "calm", &[]);
    assert!(matches!(start_gate(&a, &ran, Effect::NonActuating, false, true), StartDecision::Start));
    ran.attempts = 3;
    assert!(matches!(start_gate(&a, &ran, Effect::NonActuating, false, true), StartDecision::Blocked(_)));
}

fn record(phase: Phase, instance: bool) -> Record {
    Record {
        id: "a".to_string(),
        instance: if instance { Some("i".to_string()) } else { None },
        phase,
        attempts: 1,
        pid: Some(7),
        exit_code: None,
        error: None,
        guarded_exit: None,
        resources: None,
    }
}

#[test]
fn stopping_follows_the_process_phase_and_authority() {
    let a = process("a", "calm", &[]);
    assert!(matches!(stop_step(&a, &record(Phase::Pending, false), false, true, None, Effect::NonActuating), StopDecision::Skip));
    assert!(matches!(stop_step(&a, &record(Phase::Exited, true), false, true, None, Effect::NonActuating), StopDecision::Done));
    assert!(matches!(stop_step(&a, &record(Phase::ProcessReady, false), false, true, None, Effect::NonActuating),
        StopDecision::Blocked(m) if m == "a: no process identity"));
    assert!(matches!(stop_step(&a, &record(Phase::ProcessReady, true), true, true, None, Effect::NonActuating),
        StopDecision::Blocked(m) if m == "a: dependent process still present"));
    assert!(matches!(stop_step(&a, &record(Phase::ProcessReady, true), false, false, None, Effect::NonActuating),
        StopDecision::Blocked(m) if m == "a: release/stop authority required"));
    assert!(matches!(stop_step(&a, &record(Phase::ProcessReady, true), false, true, None, Effect::NonActuating), StopDecision::RequestStop));
    assert!(matches!(stop_step(&a, &record(Phase::StopRequested, true), false, true, None, Effect::NonActuating), StopDecision::Terminate));
    assert!(matches!(stop_step(&a, &record(Phase::StopRequested, true), false, true, Some(false), Effect::NonActuating), StopDecision::Wait));
    assert!(matches!(stop_step(&a, &record(Phase::StopRequested, true), false, true, Some(true), Effect::NonActuating), StopDecision::Force));
    assert!(matches!(stop_step(&a, &record(Phase::StopRequested, true), false, true, Some(true), Effect::ProtocolGuardedService),
        StopDecision::Blocked(m) if m == "a: control process is retained; forced termination not allowed"));
}

#[test]
fn a_rejection_names_declared_enforced_requirements_once() {
    let requirements = Requirements(vec![
        ("cpu".to_string(), Requirement::ExclusiveAccess { resource: "cpu0".to_string() }),
        ("gpu".to_string(), Requirement::NotRequired),
    ]);
    let cpu = Unmet { requirement: "cpu".to_string(), reason: "busy".to_string() };
    assert!(check_rejection(&vec![cpu.clone()], &requirements));
    assert!(!check_rejection(&vec![], &requirements));
    assert!(!check_rejection(&vec![cpu.clone(), cpu.clone()], &requirements));
    assert!(!check_rejection(&vec![Unmet { requirement: "gpu".to_string(), reason: "x".to_string() }], &requirements));
    assert!(!check_rejection(&vec![Unmet { requirement: "cpu".to_string(), reason: " ".to_string() }], &requirements));
    let other = Unmet { requirement: "net".to_string(), reason: "down".to_string() };
    assert_eq!(rejection_message(&vec![cpu, other]), "execution admission rejected: cpu: busy; net: down");
    assert_eq!(blocked(&"p".to_string(), "why"), "p: why");
}

#[test]
fn a_started_dependent_keeps_its_dependency_from_stopping() {
    let plan = plan();
    let mut state = initial_state(&plan, "digest".to_string());
    assert!(!dependents_remaining(&plan, &state, &"a".to_string()));
    set_phase(&mut state, 1, Phase::Starting);
    assert!(dependents_remaining(&plan, &state, &"a".to_string()));
    assert!(!dependents_remaining(&plan, &state, &"b".to_string()));
    set_phase(&mut state, 1, Phase::Exited);
    assert!(!dependents_remaining(&plan, &state, &"a".to_string()));
    set_phase(&mut state, 1, Phase::Unknown);
    assert!(dependents_remaining(&plan, &state, &"a".to_string()));
}

fn limited() -> Request {
    Request::new(
        "arm".to_string(),
        "arm-1".to_string(),
        "inst-1".to_string(),
        "plan".to_string(),
        Requirements(vec![
            ("net".to_string(), Requirement::NotRequired),
            ("memory".to_string(), Requirement::UpperBound { resource: rx_supervisor::execution::Capacity::AddressSpaceBytes, amount: 64 }),
        ]),
    )
}

#[test]
fn only_a_matching_receipt_admits_a_start() {
    let request = limited();
    let evidence = Evidence::HostReport { provider: "host".to_string(), reference: "ref-1".to_string() };
    let receipt = Receipt::reported(&request, evidence).unwrap();
    let (started, status) = admission_result(&request, Ok(Decision::Admitted { pid: 42, receipt }));
    assert_eq!(started.unwrap(), 42);
    assert!(matches!(status.application, Application::ReportedAtStart { .. }));
    assert_eq!(status.requested.unwrap().0.len(), 2);

    let evidence = Evidence::HostReport { provider: "host".to_string(), reference: "ref-1".to_string() };
    let receipt = Receipt::reported(&request, evidence).unwrap();
    let (started, status) = admission_result(&request, Ok(Decision::Admitted { pid: 0, receipt }));
    assert!(matches!(started, Err(SpawnFailure::Uncertain(Error::Reconciliation(m)))
        if m == "execution admission receipt does not match the complete current launch"));
    assert!(matches!(status.application, Application::Unconfirmed { reason }
        if reason == "reconciliation required: execution admission receipt does not match the complete current launch"));
}

#[test]
fn a_rejection_must_name_what_it_refused() {
    let request = limited();
    let unmet = vec![Unmet { requirement: "memory".to_string(), reason: "too big".to_string() }];
    let (started, status) = admission_result(&request, Ok(Decision::Rejected { unmet }));
    assert!(matches!(started, Err(SpawnFailure::NotStarted(Error::Invalid(m)))
        if m == "execution admission rejected: memory: too big"));
    assert!(matches!(status.application, Application::NotApplied));
    assert_eq!(status.not_applied_reasons.len(), 1);
    let unnamed = vec![Unmet { requirement: "net".to_string(), reason: "no".to_string() }];
    let (started, status) = admission_result(&request, Ok(Decision::Rejected { unmet: unnamed }));
    assert!(matches!(started, Err(SpawnFailure::Uncertain(Error::Reconciliation(m)))
        if m == "backend rejection has no valid named requirement reason"));
    assert!(status.not_applied_reasons.is_empty());
}

#[test]
fn a_failed_start_records_why_nothing_applied() {
    let request = limited();
    let (started, status) = admission_result(&request, Err(SpawnFailure::NotStarted(Error::Io("no exec".to_string()))));
    assert!(matches!(started, Err(SpawnFailure::NotStarted(_))));
    assert_eq!(status.not_applied_reasons.len(), 1);
    assert_eq!(status.not_applied_reasons[0].requirement, "memory");
    assert_eq!(status.not_applied_reasons[0].reason, "process: no exec");
    let plain = Request::new("a".to_string(), "b".to_string(), "c".to_string(), "d".to_string(), Requirements(vec![]));
    let (_, status) = admission_result(&plain, Err(SpawnFailure::NotStarted(Error::Io("no exec".to_string()))));
    assert_eq!(status.not_applied_reasons[0].requirement, "execution/start");
    let (_, status) = admission_result(&request, Err(SpawnFailure::Uncertain(Error::Reconciliation("lost".to_string()))));
    assert!(matches!(status.application, Application::Unconfirmed { reason } if reason == "reconciliation required: lost"));
}

#[test]
fn an_unobserved_admission_is_never_a_receipt() {
    assert!(matches!(unobserved_status(None, 3, Phase::Exited).application, Application::LegacyNotDeclared));
    let declared = || Some(Requirements(vec![]));
    assert!(matches!(unobserved_status(declared(), 0, Phase::Pending).application, Application::NotApplied));
    assert!(matches!(unobserved_status(declared(), 1, Phase::Pending).application, Application::Unconfirmed { .. }));
    assert!(matches!(unobserved_status(declared(), 0, Phase::Unknown).application, Application::Unconfirmed { .. }));
}

#[test]
fn unknown_ownership_absorbs_every_sighting() {
    let mut state = initial_state(&plan(), "digest".to_string());
    set_phase(&mut state, 0, Phase::Unknown);
    let before = format!("{:?}", state.records[0]);
    for seen in [
        Sighting::Handle { owned: true },
        Sighting::SpawnBoundary { pid: Some(42) },
        Sighting::Startup { up: true, overdue: false },
        Sighting::Guarded { ready: false },
    ] {
        sight(&mut state, 0, seen);
        assert_eq!(format!("{:?}", state.records[0]), before);
    }
    assert!(!state.stop_requested);
    assert_eq!(ownership_hold(&plan().processes[0], &state.records[0].1).unwrap(), format!("{}: process ownership unknown", plan().processes[0].id));
    assert!(ownership_hold(&plan().processes[1], &state.records[1].1).is_none());
}

#[test]
fn sightings_move_a_started_process() {
    let mut state = initial_state(&plan(), "digest".to_string());
    set_phase(&mut state, 0, Phase::SpawnEntered);
    sight(&mut state, 0, Sighting::SpawnBoundary { pid: Some(42) });
    assert_eq!(state.records[0].1.phase, Phase::Starting);
    assert_eq!(state.records[0].1.pid, Some(42));
    sight(&mut state, 0, Sighting::Startup { up: false, overdue: false });
    assert_eq!(state.records[0].1.phase, Phase::Starting);
    sight(&mut state, 0, Sighting::Startup { up: true, overdue: false });
    assert_eq!(state.records[0].1.phase, Phase::ProcessReady);
    sight(&mut state, 0, Sighting::Guarded { ready: false });
    assert!(state.stop_requested);
    assert_eq!(state.records[0].1.error.as_deref(), Some("protocol readiness lost; cooperative stop required"));

    set_phase(&mut state, 1, Phase::SpawnEntered);
    sight(&mut state, 1, Sighting::SpawnBoundary { pid: None });
    assert_eq!(state.records[1].1.phase, Phase::Unknown);
    assert_eq!(state.records[1].1.error.as_deref(), Some("spawn boundary is unconfirmed; retry forbidden"));

    let mut state = initial_state(&plan(), "digest".to_string());
    set_phase(&mut state, 0, Phase::Starting);
    sight(&mut state, 0, Sighting::Startup { up: false, overdue: true });
    assert_eq!(state.records[0].1.phase, Phase::Unready);
    state.records[0].1.instance = Some("inst".to_string());
    sight(&mut state, 0, Sighting::Handle { owned: false });
    assert_eq!(state.records[0].1.phase, Phase::Unknown);
    assert_eq!(state.records[0].1.error.as_deref(), Some("live process handle unavailable"));
}

#[test]
fn a_start_is_recorded_before_the_os_is_asked_and_an_uncertain_one_is_held() {
    let mut state = initial_state(&plan(), "digest".to_string());
    assert_eq!(start_identity(&state.records[0].1).unwrap(), None);
    start_step(&mut state, 0, StartEvent::Prepared { instance: "inst-a".to_string() });
    assert_eq!(state.records[0].1.phase, Phase::Prepared);
    assert_eq!(start_identity(&state.records[0].1).unwrap().as_deref(), Some("inst-a"));
    let attempts = state.records[0].1.attempts;
    start_step(&mut state, 0, StartEvent::Entered);
    assert_eq!(state.records[0].1.phase, Phase::SpawnEntered);
    assert_eq!(state.records[0].1.attempts, attempts + 1);
    start_step(&mut state, 0, StartEvent::Uncertain { error: Error::Io("lost".to_string()) });
    assert_eq!(state.records[0].1.phase, Phase::Unknown);
    assert_eq!(state.records[0].1.error.as_deref(), Some("process: lost"));
    assert!(ownership_hold(&plan().processes[0], &state.records[0].1).is_some());

    start_step(&mut state, 1, StartEvent::Withdrawn);
    assert_eq!(state.records[1].1.error.as_deref(), Some("startup authority changed before OS invocation"));
    start_step(&mut state, 1, StartEvent::Spawned { pid: 9 });
    assert_eq!(state.records[1].1.phase, Phase::Starting);
    assert_eq!(state.records[1].1.pid, Some(9));
    let mut broken = state.records[1].1.clone();
    broken.phase = Phase::Prepared;
    broken.instance = None;
    assert!(matches!(start_identity(&broken), Err(Error::Invalid(m)) if m == "prepared identity missing"));
}

#[test]
fn a_step_routes_each_process_by_its_record() {
    let p = process("a", "calm", &[]);
    let unknown = route(&p, &record(Phase::Unknown, true), false, false, Effect::NonActuating, false, true, None);
    assert!(matches!(unknown.action, StepAction::Hold(m) if m == "a: process ownership unknown"));
    let lost = route(&p, &record(Phase::Starting, true), false, false, Effect::NonActuating, false, true, Some((false, false)));
    assert!(matches!(lost.action, StepAction::Lost));
    let exited = route(&p, &record(Phase::ProcessReady, true), false, false, Effect::ProtocolGuardedService, false, true,
        Some((true, true)));
    assert!(matches!(exited.action, StepAction::Exit { latch_stop: true }));
    let asked = route(&p, &record(Phase::ProcessReady, true), false, true, Effect::ProtocolGuardedService, false, true,
        Some((true, true)));
    assert!(matches!(asked.action, StepAction::Exit { latch_stop: false }));
    let lonely = route(&p, &record(Phase::Starting, true), false, false, Effect::NonActuating, false, false, Some((true, false)));
    assert_eq!(lonely.note.as_deref(), Some("a: dependency lost; readiness is not control authority"));
    assert!(matches!(lonely.action, StepAction::Startup));
    let stopping = route(&p, &record(Phase::Starting, true), true, true, Effect::NonActuating, false, true, Some((true, false)));
    assert!(matches!(stopping.action, StepAction::Stop));
    let spent = route(&p, &record(Phase::Exited, true), false, false, Effect::ProtocolGuardedService, false, true, None);
    assert!(matches!(spent.action, StepAction::Start(StartDecision::Blocked(m))
        if m == "a: restart budget exhausted or explicit control restart required"));
    let again = route(&p, &record(Phase::Exited, true), false, false, Effect::NonActuating, false, true, None);
    assert!(matches!(again.action, StepAction::Start(StartDecision::Start)));
    let unready = route(&p, &record(Phase::Unready, true), false, false, Effect::NonActuating, false, true, Some((true, false)));
    assert!(matches!(unready.action, StepAction::Hold(m) if m == "a: startup not confirmed; process retained"));
    assert!(matches!(route(&p, &record(Phase::SpawnEntered, true), false, false, Effect::NonActuating, false, true, None).action,
        StepAction::SpawnBoundary));
    assert!(matches!(route(&p, &record(Phase::ProcessReady, true), false, false, Effect::ProtocolGuardedService, false, true,
        Some((true, false))).action, StepAction::Guarded));
}

#[test]
fn software_rearm_resets_only_a_completed_non_actuating_stop() {
    let only_calm = Plan { processes: vec![process("a", "calm", &[])], ..plan() };
    let mut state = initial_state(&only_calm, "digest".to_string());
    set_phase(&mut state, 0, Phase::Exited);
    let before = format!("{state:?}");
    assert!(matches!(rearm_software(&mut state, &only_calm, &programs()), Err(Error::Reconciliation(m))
        if m == "software reactivation prerequisites not satisfied"));
    assert_eq!(format!("{state:?}"), before);
    state.stop_requested = true;
    state.records[0].1.error = Some("unexpected service exit".to_string());
    rearm_software(&mut state, &only_calm, &programs()).unwrap();
    assert!(!state.stop_requested);
    let r = &state.records[0].1;
    assert_eq!((r.phase, r.attempts, r.instance.is_none(), r.pid, r.exit_code, r.error.is_none()),
        (Phase::Pending, 0, true, None, None, true));
    let mut full = initial_state(&plan(), "digest".to_string());
    full.stop_requested = true;
    set_phase(&mut full, 0, Phase::Exited);
    set_phase(&mut full, 1, Phase::Exited);
    assert!(rearm_software(&mut full, &plan(), &programs()).is_err());
    assert!(full.stop_requested);
}
