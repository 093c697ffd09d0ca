use rx_supervisor::model::{Effect, Environment, Launch, Phase, Plan, Process, Program, ReadyProbe, Record, State};
use rx_supervisor::process::SpawnFailure;
use rx_supervisor::process_identity::InvestigationOutcome;
use rx_supervisor::registered::{
    catalog_reference, check_plain_start, check_resume, check_resume_request, check_resume_store, execution_report,
    investigation_target, launch_binding, observed_readiness, provider_reply, resident_binding, resume_program,
    single_binding, single_program, start_result, unavailable_reply, unprofiled_readiness, use_profile, use_subject,
};
use rx_supervisor::registration::diagnostic::{
    probe_for, Dependency, Generation, ProbePurpose, Purpose, RegistrationRef, SourceReply, TrackedBinding, Window,
};
use rx_supervisor::registration::{
    assignment, new_registration, Binding, CatalogReference, Declaration, Execution, ExecutionState, RegistrationState,
    VersionedRegistration,
};
use rx_supervisor::use_assessment::{
    ConditionState, ReadinessAssessment, ReadinessCondition, ReadinessContract, ReadinessProfile, StatusEndpoint,
    StatusObservationRequest, StatusObservationResult, UseScope, UseSubject,
};
use rx_supervisor::Error;

fn catalog() -> CatalogReference {
    CatalogReference { program: "arm".to_string(), digest: "cat".to_string() }
}

fn current() -> VersionedRegistration {
    VersionedRegistration {
        revision: 2,
        registration: new_registration("reg-1".to_string(), Declaration { label: "arm".to_string(), catalog: catalog() }),
    }
}

fn binding(instance: &str, run: &str) -> Binding {
    Binding {
        registration: "reg-1".to_string(),
        registration_revision: 2,
        catalog: catalog(),
        run: run.to_string(),
        selection: "arm".to_string(),
        instance: instance.to_string(),
    }
}

fn program(effect: Effect) -> Program {
    Program {
        id: "arm".to_string(),
        effect,
        executable: "/bin/x".to_string(),
        executable_sha256: String::new(),
        files: vec![],
        fixed_arguments: vec![],
        arguments: vec![],
        ready: ReadyProbe::AliveOnly,
        execution_requirements: None,
        functional_readiness: None,
        decision_policy: None,
    }
}

fn process(id: &str, restart_limit: u64) -> Process {
    Process {
        id: id.to_string(),
        program: "arm".to_string(),
        parameters: vec![],
        depends_on: vec![],
        startup_timeout_ms: 1_000,
        shutdown_timeout_ms: 1_000,
        restart_limit,
        restart_backoff_ms: 500,
    }
}

fn plan(processes: Vec<Process>) -> Plan {
    Plan {
        schema: "rx.solutions-process-plan.v1".to_string(),
        id: "run-1".to_string(),
        environment: Environment::Simulation,
        profiles: vec![],
        processes,
    }
}

fn record(phase: Phase, instance: Option<&str>) -> Record {
    Record {
        id: "arm".to_string(),
        instance: instance.map(str::to_string),
        phase,
        attempts: 1,
        pid: Some(7),
        exit_code: None,
        error: None,
        guarded_exit: None,
        resources: None,
    }
}

fn launch(selection: &str) -> Launch {
    Launch {
        selection: selection.to_string(),
        instance: "inst-9".to_string(),
        effect: Effect::NonActuating,
        executable: "/bin/x".to_string(),
        executable_sha256: String::new(),
        files: vec![],
        arguments: vec![],
        ready: ReadyProbe::AliveOnly,
        port: None,
    }
}

fn scope() -> UseScope {
    UseScope { operating_area: "cell".to_string(), role: "diagnostics/support-summary".to_string() }
}

fn subject() -> UseSubject {
    use_subject(&binding("inst-1", "run-1"), 2, &"run-1".to_string(), &"arm".to_string(), &record(Phase::Starting, Some("inst-1")))
}

#[test]
fn a_program_without_authored_content_is_referenced_under_its_digest() {
    let reference = catalog_reference(&program(Effect::NonActuating), "d-1".to_string()).unwrap();
    assert_eq!(reference.program, "arm");
    assert_eq!(reference.digest, "d-1");
}

#[test]
fn a_launch_is_bound_to_its_own_instance() {
    let bindings = vec![("arm".to_string(), binding("inst-1", "run-1"))];
    let b = launch_binding(&bindings, &launch("arm")).unwrap();
    assert_eq!(b.instance, "inst-9");
    assert_eq!(b.run, "run-1");
    assert!(matches!(launch_binding(&bindings, &launch("other")),
        Err(SpawnFailure::NotStarted(Error::Reconciliation(m))) if m == "launch selection has no registration binding"));
}

#[test]
fn plain_starts_and_start_outcomes() {
    assert!(check_plain_start(true).is_ok());
    assert!(matches!(check_plain_start(false), Err(SpawnFailure::NotStarted(Error::Invalid(m)))
        if m == "registered execution requires explicit catalog execution requirements"));
    let refused: Result<u32, SpawnFailure> = Err(SpawnFailure::NotStarted(Error::Invalid("x".to_string())));
    assert!(matches!(start_result(refused, Some(Error::Reconciliation("denied".to_string()))),
        Err(SpawnFailure::NotStarted(Error::Reconciliation(m))) if m == "denied"));
    assert_eq!(start_result::<u32>(Ok(5), Some(Error::Invalid("x".to_string()))).ok(), Some(5));
    let uncertain: Result<u32, SpawnFailure> = Err(SpawnFailure::Uncertain(Error::Invalid("u".to_string())));
    assert!(matches!(start_result(uncertain, Some(Error::Invalid("d".to_string()))), Err(SpawnFailure::Uncertain(_))));
}

#[test]
fn a_single_component_needs_one_non_actuating_program_with_requirements() {
    let programs = vec![("arm".to_string(), program(Effect::NonActuating))];
    assert!(matches!(single_program(&plan(vec![]), &programs), Err(Error::Invalid(m))
        if m == "registered execution supports one component per supervisor store"));
    assert!(matches!(single_program(&plan(vec![process("arm", 0)]), &programs), Err(Error::Invalid(m))
        if m == "registered execution requires non-actuating effect and explicit catalog requirements"));
    assert!(matches!(single_program(&plan(vec![process("arm", 0)]), &vec![]), Err(Error::Invalid(m))
        if m == "registered program missing from catalog"));
    assert_eq!(resume_program(&plan(vec![process("arm", 0)]), &programs).unwrap(), 0);
    assert!(matches!(resume_program(&plan(vec![]), &programs), Err(Error::Invalid(m))
        if m == "resident resume supports one non-actuating selection"));
}

#[test]
fn bindings_follow_the_accepted_registration() {
    let b = single_binding(&"run-1".to_string(), &"arm".to_string(), &"reg-1".to_string(), &current(), &catalog()).unwrap();
    assert_eq!(b.registration_revision, 2);
    assert_eq!(b.instance, "reg-1");
    let other = CatalogReference { program: "arm".to_string(), digest: "other".to_string() };
    assert!(single_binding(&"run-1".to_string(), &"arm".to_string(), &"reg-1".to_string(), &current(), &other).is_err());
    let r = resident_binding(&"run-1".to_string(), &"arm".to_string(), &current());
    assert_eq!(r.registration, "reg-1");
    assert_eq!(r.catalog.digest, "cat");
}

#[test]
fn recovery_needs_a_fresh_store_and_no_automatic_restart() {
    assert!(check_resume_store(false, &plan(vec![process("arm", 0)])).is_err());
    assert!(matches!(check_resume_store(true, &plan(vec![process("arm", 1)])), Err(Error::Invalid(m))
        if m == "recovery starts are explicit; automatic restart budget must be zero"));
    assert!(check_resume_store(true, &plan(vec![process("arm", 0)])).is_ok());
}

#[test]
fn a_resume_needs_a_new_run_and_an_original_not_running() {
    let run = "run-1".to_string();
    let gone = InvestigationOutcome::OriginalNotRunning { reason: "absent".to_string() };
    assert!(check_resume(1, &"run-2".to_string(), &run, &gone).is_ok());
    assert!(matches!(check_resume(1, &run, &run, &gone), Err(Error::Invalid(m)) if m == "resume requires one selection and a new run"));
    let present = InvestigationOutcome::MatchingProcessPresent;
    assert!(matches!(check_resume(1, &"run-2".to_string(), &run, &present), Err(Error::Reconciliation(m))
        if m == "investigation-blocks-resume: MatchingProcessPresent"));
    let unsure = InvestigationOutcome::unknown("race");
    assert!(matches!(check_resume(1, &"run-2".to_string(), &run, &unsure), Err(Error::Reconciliation(m))
        if m == "investigation-blocks-resume: Unverifiable { reason: \"race\" }"));
    assert!(check_resume_request(&"run-2".to_string(), &"op".to_string(), &"run-2".to_string(), &"op".to_string()).is_ok());
    assert!(check_resume_request(&"run-3".to_string(), &"op".to_string(), &"run-2".to_string(), &"op".to_string()).is_err());
}

#[test]
fn a_cold_investigation_targets_an_unknown_original_instance() {
    let bindings = vec![("arm".to_string(), binding("inst-1", "run-1"))];
    let mut state = State {
        schema: "rx.supervisor-state.v1".to_string(),
        plan: "run-1".to_string(),
        plan_digest: "d".to_string(),
        stop_requested: false,
        records: vec![("arm".to_string(), record(Phase::Unknown, Some("inst-1")))],
    };
    assert_eq!(investigation_target(&bindings, &state, &"arm".to_string()).unwrap(), ("reg-1".to_string(), "inst-1".to_string()));
    state.records[0].1.phase = Phase::Exited;
    assert!(matches!(investigation_target(&bindings, &state, &"arm".to_string()), Err(Error::Reconciliation(m))
        if m == "cold investigation requires an UNKNOWN original record"));
    assert!(matches!(investigation_target(&bindings, &state, &"other".to_string()), Err(Error::Invalid(m))
        if m == "investigation selection absent"));
}

#[test]
fn a_use_without_an_authored_profile_is_unsupported() {
    assert_eq!(subject().instance.as_deref(), Some("inst-1"));
    assert_eq!(subject().registration_revision, 2);
    assert_eq!(use_profile(&None, &scope().role), None);
    let profile = ReadinessProfile {
        endpoint: StatusEndpoint::Health,
        conditions: vec![("instance".to_string(), ReadinessCondition::InstanceMatches)],
    };
    let contract = Some(ReadinessContract(vec![("diagnostics/support-summary".to_string(), profile.clone())]));
    assert_eq!(use_profile(&contract, &scope().role), Some(0));
    assert_eq!(use_profile(&contract, &"other".to_string()), None);
    let a = unprofiled_readiness(&scope(), &subject());
    assert_eq!(a.state(), ConditionState::Unsupported);
    assert_eq!(a.conditions()[0].name, "catalog/readiness-profile");

    let request = StatusObservationRequest::new(subject(), scope(), StatusEndpoint::Health);
    let failed = observed_readiness(&request, &profile, Err(Error::Io("refused".to_string())));
    assert_eq!(failed.state(), ConditionState::NotEvaluated);
    assert_eq!(failed.conditions()[0].name, "readiness/observation-error");
    assert_eq!(failed.conditions()[0].reason,
        "observation unavailable: process: refused; no condition is inferred satisfied");
    let unsupported = StatusObservationResult::Unsupported { condition: "c".to_string(), reason: "r".to_string() };
    assert_eq!(observed_readiness(&request, &profile, Ok(unsupported)).state(), ConditionState::Unsupported);
}

fn provider_binding() -> TrackedBinding {
    TrackedBinding {
        id: "b-1".to_string(),
        consumer: RegistrationRef { registration: "consumer".to_string(), revision: 1, catalog: catalog() },
        profile: "p".to_string(),
        operating_area: "cell".to_string(),
        provider: Some(RegistrationRef { registration: "reg-1".to_string(), revision: 2, catalog: catalog() }),
        generation: None,
        purpose: Purpose::DiagnosticOnly,
    }
}

#[test]
fn the_supervisor_replies_only_for_its_own_live_provider() {
    let declaration = Dependency::Required {
        window: Window::Continuous,
        provider_role: "diagnostics/support-summary".to_string(),
        interpretation: "i".to_string(),
    };
    let probe = probe_for(&provider_binding(), None, &declaration, ProbePurpose::Inspect).unwrap();
    let live = record(Phase::ProcessReady, Some("inst-1"));
    let reply = provider_reply(&probe, &current(), &live, &"run-1".to_string(), &"cfg".to_string(), ReadinessAssessment::not_evaluated());
    match reply {
        SourceReply::Observed(o) => {
            let expected = Generation { run: "run-1".to_string(), instance: "inst-1".to_string(), pid: 7, configuration: "cfg".to_string() };
            assert!(format!("{o:?}").contains(&format!("generation: {:?}", Some(expected))));
        }
        other => panic!("expected an observation: {other:?}"),
    }
    let ended = record(Phase::Exited, Some("inst-1"));
    assert!(matches!(provider_reply(&probe, &current(), &ended, &"run-1".to_string(), &"cfg".to_string(), ReadinessAssessment::not_evaluated()),
        SourceReply::Missing { known_lost: true, reason } if reason == "owned provider execution has terminated or did not start"));
    let mut moved = current();
    moved.revision = 3;
    assert!(matches!(provider_reply(&probe, &moved, &live, &"run-1".to_string(), &"cfg".to_string(), ReadinessAssessment::not_evaluated()),
        SourceReply::Missing { known_lost: true, reason } if reason.starts_with("provider registration/revision/catalog differs")));
    let mut retired = current();
    retired.registration.state = RegistrationState::Retired;
    assert!(matches!(provider_reply(&probe, &retired, &live, &"run-1".to_string(), &"cfg".to_string(), ReadinessAssessment::not_evaluated()),
        SourceReply::Missing { known_lost: true, reason } if reason == "provider registration is retired"));
    assert!(matches!(unavailable_reply(&Error::Io("down".to_string())),
        SourceReply::Missing { known_lost: false, reason } if reason == "provider observation unavailable: process: down"));
}

#[test]
fn a_record_reports_only_to_its_own_assignment() {
    let executions: Vec<Execution> = vec![assignment(&binding("inst-1", "run-1")).unwrap()];
    let own = binding("inst-1", "run-1");
    let selection = "arm".to_string();
    let run = "run-1".to_string();
    assert!(execution_report(&selection, &record(Phase::Starting, None), &executions, &own, &run).unwrap().is_none());
    let (b, o) = execution_report(&selection, &record(Phase::Starting, Some("inst-1")), &executions, &own, &run).unwrap().unwrap();
    assert_eq!(b.instance, "inst-1");
    assert_eq!(o.state, ExecutionState::Running);
    assert_eq!(o.detail,
        "supervisor phase Starting; no additional lifecycle error; functional readiness and work-use permission are not assessed");
    assert!(execution_report(&selection, &record(Phase::Prepared, Some("inst-2")), &executions, &own, &run).unwrap().is_none());
    assert!(matches!(execution_report(&selection, &record(Phase::Unknown, Some("inst-2")), &executions, &own, &run),
        Err(Error::Reconciliation(m)) if m == "arm: saved execution has no registration assignment; no adoption or inferred association"));
    assert!(matches!(execution_report(&selection, &record(Phase::Exited, Some("inst-1")), &executions, &own, &"run-2".to_string()),
        Err(Error::Reconciliation(m)) if m == "arm: saved execution belongs to another run/selection/catalog/registration"));
}
