use rx_supervisor::registration::diagnostic::{
    advance, assignment, catalog, check_run, diagnostic_result, eligible_consumer, entity_key, local_input, met,
    needs_source, not_met, ongoing, result_use, step, transition_refusal, NoSource, Probe, Source, SourceReply, unassessed, Catalog, Dependency, Generation,
    Observed, ProbePurpose, Purpose, RegistrationRef, Run, RunPhase, Sample, TrackedBinding, Window, MAX_SAMPLES,
};
use rx_supervisor::registration::recovery::WorkUsePermission;
use rx_supervisor::registration::{
    new_registration, CatalogReference, Declaration, StoreError, TimePoint, VersionedRegistration,
};
use rx_supervisor::use_assessment::{ConditionState, ReadinessAssessment};

fn consumer() -> RegistrationRef {
    RegistrationRef {
        registration: "consumer".to_string(),
        revision: 1,
        catalog: CatalogReference { program: "rx/diagnostic-consumer".to_string(), digest: "c".to_string() },
    }
}

fn sample(digest: &str) -> Sample {
    Sample {
        reference: "s".to_string(),
        provider: consumer(),
        generation: Generation { run: "r".to_string(), instance: "i".to_string(), pid: 7, configuration: "k".to_string() },
        request: "q".to_string(),
        report_digest: digest.to_string(),
        observed_at: TimePoint { clock_id: "boot".to_string(), ticks_ns: 1 },
        report: ReadinessAssessment::not_evaluated().into_record(),
    }
}

fn run(phase: RunPhase, samples: usize) -> Run {
    Run {
        id: "run-1".to_string(),
        binding: "binding-1".to_string(),
        phase,
        purpose: Purpose::DiagnosticOnly,
        samples: (0..samples).map(|k| sample(&format!("d{k}"))).collect(),
        result: None,
    }
}

fn continuous() -> Dependency {
    Dependency::Required {
        window: Window::Continuous,
        provider_role: "diagnostics/support-summary".to_string(),
        interpretation: "reported-support-summary.v1".to_string(),
    }
}

fn window(w: Window) -> Dependency {
    Dependency::Required { window: w, provider_role: "p".to_string(), interpretation: "i".to_string() }
}

fn observed(state_met: bool, digest: Option<&str>) -> Observed {
    Observed {
        assessment: if state_met { met("source", "ok") } else { not_met("source", "provider gone") },
        sample: digest.map(sample),
    }
}

fn binding_of_run() -> TrackedBinding {
    TrackedBinding {
        id: "binding-1".to_string(),
        consumer: consumer(),
        profile: "current-report-collection".to_string(),
        operating_area: "cell".to_string(),
        provider: None,
        generation: None,
        purpose: Purpose::DiagnosticOnly,
    }
}

#[test]
fn the_reference_catalog_has_one_profile_per_window() {
    let c = catalog();
    assert_eq!(c.program, "rx/diagnostic-consumer");
    let names: Vec<&str> = c.profiles.iter().map(|p| p.0.as_str()).collect();
    assert_eq!(
        names,
        vec!["catalog-summary", "current-report-collection", "snapshot-after-preparation", "snapshot-at-generation"]
    );
    assert_eq!(c.profile(&"snapshot-at-generation".to_string()), Some(3));
    assert_eq!(c.profile(&"other".to_string()), None);
    let reference = c.reference("digest".to_string()).unwrap();
    assert_eq!(reference.digest, "digest");
}

#[test]
fn catalogs_need_a_version_profiles_and_explained_unknowns() {
    let empty = Catalog { program: "p".to_string(), version: 1, decision_policy: None, profiles: vec![] };
    assert!(matches!(empty.reference("d".to_string()),
        Err(StoreError::Invalid(m)) if m == "diagnostic catalog requires version and 1..16 profiles"));
    let unexplained = Catalog {
        program: "p".to_string(),
        version: 1,
        decision_policy: None,
        profiles: vec![("x".to_string(), Dependency::Unknown { reason: "  ".to_string() })],
    };
    assert!(matches!(unexplained.reference("d".to_string()),
        Err(StoreError::Invalid(m)) if m == "unknown dependency requires a bounded reason"));
}

#[test]
fn stored_runs_keep_their_bound_and_lifecycle() {
    assert_eq!(entity_key("run", &"c".to_string(), &"r".to_string()), "components/diagnostic/run/c/r");
    assert!(check_run(&"binding-1".to_string(), &"run-1".to_string(), &run(RunPhase::Running, 2)).is_ok());
    let mut completed = run(RunPhase::Completed, 0);
    assert!(check_run(&"binding-1".to_string(), &"run-1".to_string(), &completed).is_err());
    completed.result = Some("result".to_string());
    assert!(check_run(&"binding-1".to_string(), &"run-1".to_string(), &completed).is_ok());
    assert!(check_run(&"binding-1".to_string(), &"run-1".to_string(), &run(RunPhase::Running, MAX_SAMPLES + 1)).is_err());
}

#[test]
fn a_changed_consumer_is_not_eligible() {
    let declaration = Declaration { label: "c".to_string(), catalog: consumer().catalog };
    let current = VersionedRegistration { revision: 1, registration: new_registration("consumer".to_string(), declaration) };
    assert_eq!(eligible_consumer(&current, &consumer()).unwrap().state, ConditionState::Satisfied);
    let moved = VersionedRegistration { revision: 2, ..current.clone() };
    let a = eligible_consumer(&moved, &consumer()).unwrap();
    assert_eq!(a.state, ConditionState::NotMet);
    assert_eq!(a.conditions[0].name, "consumer/catalog-revision");
    let mut other = consumer();
    other.registration = "someone".to_string();
    assert!(matches!(eligible_consumer(&current, &other), Err(StoreError::Integrity(_))));
}

#[test]
fn generation_window_dependencies_wait_for_the_finish() {
    let a = assignment(&window(Window::ResultGeneration), &observed(false, None));
    assert_eq!(a.state, ConditionState::Satisfied);
    assert_eq!(a.conditions[0].name, "dependency/generation-window");
    assert_eq!(assignment(&continuous(), &observed(false, None)).state, ConditionState::NotMet);
    assert!(needs_source(&continuous(), ProbePurpose::Poll));
    assert!(!needs_source(&window(Window::ResultGeneration), ProbePurpose::Poll));
    assert!(needs_source(&window(Window::ResultGeneration), ProbePurpose::Finish));
    assert!(!needs_source(&Dependency::Independent, ProbePurpose::Finish));
}

#[test]
fn a_captured_preparation_survives_provider_loss() {
    let prep = window(Window::PreparationOnly);
    let a = ongoing(&prep, &observed(false, None), Some(&run(RunPhase::Running, 1)));
    assert_eq!(a.state, ConditionState::Satisfied);
    assert_eq!(ongoing(&prep, &observed(false, None), Some(&run(RunPhase::Running, 0))).state, ConditionState::NotMet);
    assert_eq!(ongoing(&prep, &observed(true, None), None).state, ConditionState::NotEvaluated);
    assert_eq!(local_input(&prep, &run(RunPhase::Running, 1)).state, ConditionState::Satisfied);
    assert_eq!(local_input(&prep, &run(RunPhase::Running, 0)).state, ConditionState::Unsupported);
    assert_eq!(local_input(&Dependency::Undeclared, &run(RunPhase::Running, 0)).state, ConditionState::Unsupported);
}

#[test]
fn transitions_follow_the_durable_phase() {
    let ok = met("consumer/registration", "ok");
    assert!(transition_refusal(&ok, ProbePurpose::Begin, &run(RunPhase::Assigned, 0)).is_none());
    let refused = transition_refusal(&ok, ProbePurpose::Poll, &run(RunPhase::Assigned, 0)).unwrap();
    assert_eq!(refused.conditions[0].name, "run/phase");
    let stale = unassessed("x", "y");
    assert_eq!(transition_refusal(&stale, ProbePurpose::Begin, &run(RunPhase::Assigned, 0)).unwrap().state,
        ConditionState::NotEvaluated);
}

#[test]
fn a_run_keeps_room_for_its_finish_sample() {
    let step = advance(ProbePurpose::Poll, run(RunPhase::Running, MAX_SAMPLES - 1), observed(true, Some("late")));
    assert!(!step.commit);
    assert_eq!(step.assessment.conditions[0].name, "run/sample-capacity");
    assert_eq!(step.run.samples.len(), MAX_SAMPLES - 1);
    let finish = advance(ProbePurpose::Finish, run(RunPhase::Running, MAX_SAMPLES - 1), observed(true, Some("last")));
    assert!(finish.commit);
    assert_eq!(finish.run.phase, RunPhase::Completed);
    assert_eq!(finish.run.samples.len(), MAX_SAMPLES);
    assert_eq!(finish.run.result.as_ref().unwrap().len(), 36);
    let lost = advance(ProbePurpose::Poll, run(RunPhase::Running, 1), observed(false, Some("x")));
    assert!(!lost.commit);
    assert_eq!(lost.run.samples.len(), 1);
    let begun = advance(ProbePurpose::Begin, run(RunPhase::Assigned, 0), observed(true, None));
    assert!(begun.commit);
    assert_eq!(begun.run.phase, RunPhase::Running);
}

#[test]
fn a_continuous_result_is_current_only_while_reports_match() {
    let mut finished = run(RunPhase::Completed, 2);
    finished.result = Some("result-1".to_string());
    let value = diagnostic_result(&finished, &consumer(), &"current-report-collection".to_string(), "{}".to_string(), "d".to_string())
        .unwrap();
    assert_eq!(value.last_report_digest.as_deref(), Some("d1"));
    assert_eq!(value.work_use, WorkUsePermission::Unsupported);
    assert!(diagnostic_result(&run(RunPhase::Running, 0), &consumer(), &"p".to_string(), "{}".to_string(), "d".to_string()).is_none());
    let b = binding_of_run();
    assert_eq!(result_use(&continuous(), &observed(true, Some("d1")), &b, Some(&value)).state, ConditionState::Satisfied);
    let changed = result_use(&continuous(), &observed(true, Some("d2")), &b, Some(&value));
    assert_eq!(changed.state, ConditionState::NotMet);
    assert_eq!(changed.conditions[0].name, "result/current-report");
    assert_eq!(result_use(&continuous(), &observed(false, Some("d1")), &b, Some(&value)).state, ConditionState::NotMet);
    assert_eq!(result_use(&continuous(), &observed(true, None), &b, Some(&value)).state, ConditionState::NotEvaluated);
    assert_eq!(result_use(&window(Window::PreparationOnly), &observed(false, None), &b, Some(&value)).state,
        ConditionState::Satisfied);
    assert_eq!(result_use(&continuous(), &observed(true, None), &b, None).state, ConditionState::NotEvaluated);
    let mut other = binding_of_run();
    other.id = "binding-2".to_string();
    assert_eq!(result_use(&continuous(), &observed(true, Some("d1")), &other, Some(&value)).state, ConditionState::NotMet);
}

/// A source that counts how often it was asked.
struct Counting(usize);

impl Source for Counting {
    fn observe(&mut self, _probe: &Probe) -> SourceReply {
        self.0 += 1;
        SourceReply::Unsupported { reason: "counting source".to_string() }
    }
}

#[test]
fn a_step_checks_the_transition_before_it_asks_the_source() {
    let mut source = Counting(0);
    let ineligible = not_met("consumer/eligible", "retired");
    let refused = step(&ineligible, ProbePurpose::Poll, run(RunPhase::Running, 0), &binding_of_run(), &continuous(), &mut source);
    assert!(!refused.commit);
    assert_eq!(refused.assessment.conditions[0].reason, "retired");
    let wrong = step(&met("e", "ok"), ProbePurpose::Begin, run(RunPhase::Running, 0), &binding_of_run(), &continuous(), &mut source);
    assert!(!wrong.commit);
    assert_eq!(wrong.assessment.conditions[0].name, "run/phase");
    assert_eq!(source.0, 0);

    let local = step(&met("e", "ok"), ProbePurpose::Begin, run(RunPhase::Assigned, 0), &binding_of_run(),
        &Dependency::Independent, &mut source);
    assert!(local.commit);
    assert_eq!(local.run.phase, RunPhase::Running);
    assert_eq!(source.0, 0);

    let asked = step(&met("e", "ok"), ProbePurpose::Poll, run(RunPhase::Running, 0), &binding_of_run(), &continuous(), &mut source);
    assert!(!asked.commit);
    let mut none = NoSource;
    let _ = step(&met("e", "ok"), ProbePurpose::Poll, run(RunPhase::Running, 0), &binding_of_run(), &continuous(), &mut none);
    assert_eq!(source.0, if binding_of_run().provider.is_some() { 1 } else { 0 });
}
