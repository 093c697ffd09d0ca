use rx_supervisor::decision::{
    Authority, Kind, Policy, Receiver, SignatureCheck, SignatureEnvelope, SignedDecision, VerifiedDecision,
};
use rx_supervisor::registration::diagnostic::replacement::{
    applied_replacement, apply_replacement, prepare_replacement, prepared_replacement, recorded_replacement, replacement_request, replacement_target,
    ReplacementIntent, Route, Snapshot,
};
use rx_supervisor::registration::diagnostic::{
    acceptance, assess_binding, assigned_run, catalog, check_acceptance_kind, check_binding, check_result_binding,
    commit_checks, pin_generation, track, wants_decision, AcceptanceKind, AcceptanceReply, AcceptanceRequest,
    AcceptanceState, Assessment, BindingJudgment, Generation, NoBindingJudgment, Probe, ProviderObservation, Purpose,
    RegistrationRef, RunPhase, Source, SourceReply, TrackedBinding,
};
use rx_supervisor::use_assessment::{ConditionAssessment, ReportOrigin};
use rx_supervisor::registration::{CatalogReference, StoreError, TimePoint};
use rx_supervisor::use_assessment::{
    ConditionState, ReadinessAssessment, ReadinessCondition, ReadinessProfile, Reported, Scalar, StatusEndpoint,
    StatusObservation, StatusObservationRequest, StatusObservationResult, UseScope, UseSubject,
};
use rx_supervisor::registration::diagnostic::{observe, Dependency, Observed, ProbePurpose};
use std::cell::RefCell;

fn reg(id: &str) -> RegistrationRef {
    RegistrationRef {
        registration: id.to_string(),
        revision: 1,
        catalog: CatalogReference { program: "p".to_string(), digest: "d".to_string() },
    }
}

fn generation(run: &str) -> Generation {
    Generation { run: run.to_string(), instance: "i".to_string(), pid: 3, configuration: "k".to_string() }
}

fn active() -> TrackedBinding {
    TrackedBinding {
        id: "b1".to_string(),
        consumer: reg("consumer"),
        profile: "current-report-collection".to_string(),
        operating_area: "cell".to_string(),
        provider: Some(reg("provider-a")),
        generation: Some(generation("g1")),
        purpose: Purpose::DiagnosticOnly,
    }
}

fn snapshot() -> Snapshot {
    Snapshot {
        route: Route { root: "root".to_string(), active: "b1".to_string(), generation: 0 },
        route_revision: Some(4),
        binding_revision: 1,
        active: active(),
    }
}

fn intent() -> ReplacementIntent {
    ReplacementIntent {
        application: "app-1".to_string(),
        binding: "root".to_string(),
        proposed_provider: reg("provider-b"),
        proposed_generation: generation("g2"),
    }
}

fn policy() -> Policy {
    Policy {
        authorities: vec![(
            "key-1".to_string(),
            Authority {
                issuer: "operator".to_string(),
                public_key: [7u8; 32],
                operating_area: "cell".to_string(),
                roles: vec!["current-report-collection".to_string()],
                kinds: vec![Kind::ReplacementBinding],
                max_ttl_ms: 5_000,
            },
        )],
    }
}

fn satisfied() -> Assessment {
    Assessment { state: ConditionState::Satisfied, conditions: vec![] }
}

/// Approves with the one decision it was given.
struct Approver(RefCell<Option<VerifiedDecision>>);

impl BindingJudgment for Approver {
    fn assess(&self, _request: &AcceptanceRequest) -> AcceptanceReply {
        match self.0.borrow_mut().take() {
            Some(decision) => AcceptanceReply::Verified(decision),
            None => AcceptanceReply::Unsupported { condition: "c".to_string(), reason: "spent".to_string() },
        }
    }
}

/// A provider whose current report satisfies its readiness profile.
struct Reporting {
    provider: RegistrationRef,
    generation: Generation,
}

impl Source for Reporting {
    fn observe(&mut self, probe: &Probe) -> SourceReply {
        let subject = UseSubject {
            registration: self.provider.registration.clone(),
            registration_revision: 1,
            program: "p".to_string(),
            catalog_digest: "d".to_string(),
            run: "g2".to_string(),
            selection: "status".to_string(),
            instance: Some("i".to_string()),
            pid: Some(3),
        };
        let scope = UseScope { operating_area: "cell".to_string(), role: "diagnostics/support-summary".to_string() };
        let request = StatusObservationRequest::new(subject, scope, StatusEndpoint::SupportSummary);
        let reported = Reported {
            fields: vec![("supervisor_instance".to_string(), Scalar::Text("i".to_string()))],
        };
        let at = TimePoint { clock_id: "boot".to_string(), ticks_ns: 9 };
        let observation = StatusObservation::captured(&request, reported, at, "report-digest".to_string());
        let profile = ReadinessProfile {
            endpoint: StatusEndpoint::SupportSummary,
            conditions: vec![("instance".to_string(), ReadinessCondition::InstanceMatches)],
        };
        let assessment =
            ReadinessAssessment::evaluate(&request, &profile, StatusObservationResult::Observed(observation));
        SourceReply::Observed(ProviderObservation::captured(
            probe,
            self.provider.clone(),
            Some(self.generation.clone()),
            assessment,
        ))
    }
}

fn approved(receiver: &mut Receiver, request: &AcceptanceRequest) -> VerifiedDecision {
    let decision = request.decision.as_ref().unwrap();
    let challenge = decision.challenge(receiver, &"key-1".to_string(), 100).unwrap();
    let signed = SignedDecision {
        claim: challenge.claim("decision-1".to_string(), 1_000),
        signature: SignatureEnvelope { key: "key-1".to_string(), signature: "ab".repeat(64) },
    };
    challenge.verify(receiver, &signed, 200, SignatureCheck::Verified, 210, "signed".to_string()).unwrap()
}

#[test]
fn an_approved_replacement_switches_the_route_for_future_assignments() {
    let consumer = reg("consumer");
    let catalog = catalog();
    let mut receiver = Receiver::open();
    let next = replacement_target(&consumer, &catalog, &satisfied(), false, &snapshot(), &intent()).unwrap();
    assert_eq!(next.provider.as_ref().unwrap().registration, "provider-b");
    assert_eq!(next.id.len(), 36);
    let request = replacement_request(
        &consumer,
        Some(policy()),
        &receiver,
        &snapshot(),
        &intent(),
        "{}".to_string(),
        "policy-digest".to_string(),
        "context-digest".to_string(),
    )
    .unwrap();
    let decision = approved(&mut receiver, &request);
    let approver = Approver(RefCell::new(Some(decision)));
    let prepared =
        prepare_replacement(intent(), snapshot(), next.clone(), &request, &approver, &receiver, 300, 310).unwrap();
    assert_eq!(prepared.application(), "app-1");

    let mut source = Reporting { provider: reg("provider-b"), generation: generation("g2") };
    let applied = apply_replacement(
        &consumer,
        &catalog,
        &prepared,
        &snapshot(),
        &request,
        &mut source,
        &receiver,
        320,
        330,
        &satisfied(),
        &snapshot(),
        1,
        "active-digest".to_string(),
        "next-digest".to_string(),
        &None,
        &None,
    )
    .unwrap();
    assert_eq!(applied.route.root, "root");
    assert_eq!(applied.route.active, next.id);
    assert_eq!(applied.route.generation, 1);
    assert_eq!(applied.route_revision, Some(4));
    assert_eq!(applied.receipt.generation, 1);
    assert_eq!(applied.receipt.previous.id, "b1");
    assert_eq!(applied.receipt.decision.decision, "decision-1");
    assert_eq!(applied.receipt.candidate_observation.report_digest, "report-digest");
    assert_eq!(applied.receipt.process_ownership, "UNCHANGED; NO_PID_ADOPTION");
    assert_eq!(applied.binding_key, format!("components/diagnostic/binding/consumer/{}", next.id));
    assert_eq!(applied.route_key, "components/diagnostic/route/consumer/root");
    assert_eq!(applied.application_key, "components/diagnostic/application/consumer/app-1");
    assert_eq!(applied.consumption_key, "components/diagnostic/replacement-consumed/consumer/decision-1");
    assert_eq!(applied.active_version.as_ref().unwrap().digest, "active-digest");
    assert_eq!(applied.next_version.as_ref().unwrap().binding, next.id);

    let receipt = recorded_replacement(
        &"consumer".to_string(),
        &"app-1".to_string(),
        Some(applied.receipt),
        &active(),
        &next,
    )
    .unwrap();
    assert_eq!(receipt.application, "app-1");
}

#[test]
fn a_replacement_needs_an_unchanged_route_and_a_current_candidate() {
    let consumer = reg("consumer");
    let catalog = catalog();
    let mut receiver = Receiver::open();
    let next = replacement_target(&consumer, &catalog, &satisfied(), false, &snapshot(), &intent()).unwrap();
    let request = replacement_request(
        &consumer,
        Some(policy()),
        &receiver,
        &snapshot(),
        &intent(),
        "{}".to_string(),
        "p".to_string(),
        "c".to_string(),
    )
    .unwrap();
    let decision = approved(&mut receiver, &request);
    let approver = Approver(RefCell::new(Some(decision)));
    let prepared =
        prepare_replacement(intent(), snapshot(), next.clone(), &request, &approver, &receiver, 300, 310).unwrap();

    let mut moved = snapshot();
    moved.route.generation = 1;
    let mut source = Reporting { provider: reg("provider-b"), generation: generation("g2") };
    let result = apply_replacement(
        &consumer, &catalog, &prepared, &moved, &request, &mut source, &receiver, 320, 330, &satisfied(),
        &snapshot(), 1, "a".to_string(), "n".to_string(), &None, &None,
    );
    assert!(matches!(result, Err(StoreError::RevisionConflict(m)) if m == "replacement/route-changed-since-approval"));

    let mut stale = Reporting { provider: reg("provider-b"), generation: generation("g3") };
    let result = apply_replacement(
        &consumer, &catalog, &prepared, &snapshot(), &request, &mut stale, &receiver, 320, 330, &satisfied(),
        &snapshot(), 1, "a".to_string(), "n".to_string(), &None, &None,
    );
    assert!(matches!(result, Err(StoreError::Invalid(m)) if m.starts_with("replacement/candidate-unavailable: ")));

    let full = apply_replacement(
        &consumer, &catalog, &prepared, &snapshot(), &request, &mut source, &receiver, 320, 330, &satisfied(),
        &snapshot(), 64, "a".to_string(), "n".to_string(), &None, &None,
    );
    assert!(matches!(full, Err(StoreError::Invalid(m))
        if m == "diagnostic binding capacity reached; explicit archival policy required"));

    let late = apply_replacement(
        &consumer, &catalog, &prepared, &snapshot(), &request, &mut source, &receiver, 320, 5_000, &satisfied(),
        &snapshot(), 1, "a".to_string(), "n".to_string(), &None, &None,
    );
    assert!(late.is_err());
}

#[test]
fn no_approval_prepares_nothing() {
    let consumer = reg("consumer");
    let catalog = catalog();
    let receiver = Receiver::open();
    let next = replacement_target(&consumer, &catalog, &satisfied(), false, &snapshot(), &intent()).unwrap();
    let request = replacement_request(
        &consumer,
        Some(policy()),
        &receiver,
        &snapshot(),
        &intent(),
        "{}".to_string(),
        "p".to_string(),
        "c".to_string(),
    )
    .unwrap();
    let nobody = Approver(RefCell::new(None));
    let refused = prepare_replacement(intent(), snapshot(), next, &request, &nobody, &receiver, 300, 310);
    assert!(matches!(refused, Err(StoreError::Invalid(m))
        if m == "replacement/no-live-external-approval; assessment alone never applies"));
    let absent = replacement_request(
        &consumer, None, &receiver, &snapshot(), &intent(), "{}".to_string(), "p".to_string(), "c".to_string(),
    );
    assert!(matches!(absent, Err(StoreError::Invalid(m)) if m == "replacement/author-policy-absent"));
    let recorded = replacement_target(&consumer, &catalog, &satisfied(), true, &snapshot(), &intent());
    assert!(matches!(recorded, Err(StoreError::Invalid(m)) if m == "replacement/application-already-recorded; query history"));
}

fn refused(reason: &str) -> Assessment {
    Assessment {
        state: ConditionState::NotMet,
        conditions: vec![ConditionAssessment {
            name: "consumer/eligible".to_string(),
            state: ConditionState::NotMet,
            reason: reason.to_string(),
            origin: ReportOrigin::NotObserved,
            observed: None,
        }],
    }
}

#[test]
fn tracking_follows_the_authored_dependency() {
    let consumer = reg("consumer");
    let catalog = catalog();
    let b = track(&consumer, &catalog, "current-report-collection".to_string(), "cell".to_string(), Some(reg("provider-a")), &satisfied(), 0)
        .unwrap();
    assert_eq!(b.id.len(), 36);
    assert!(b.generation.is_none());
    assert!(check_binding(&"consumer".to_string(), &b.id, &b).is_ok());
    assert!(check_binding(&"other".to_string(), &b.id, &b).is_err());
    let unknown = track(&consumer, &catalog, "nothing".to_string(), "cell".to_string(), None, &satisfied(), 0);
    assert!(matches!(unknown, Err(StoreError::Invalid(m)) if m == "catalog/profile: unknown diagnostic operation"));
    let missing = track(&consumer, &catalog, "current-report-collection".to_string(), "cell".to_string(), None, &satisfied(), 0);
    assert!(matches!(missing, Err(StoreError::Invalid(m)) if m == "binding/provider: selection disagrees with authored dependency"));
    let own = track(&consumer, &catalog, "current-report-collection".to_string(), "cell".to_string(), Some(reg("consumer")), &satisfied(), 0);
    assert!(matches!(own, Err(StoreError::Invalid(m)) if m == "binding/provider: diagnostic self-dependency is unsupported"));
    let closed = track(&consumer, &catalog, "catalog-summary".to_string(), "cell".to_string(), None, &refused("retired"), 0);
    assert!(matches!(closed, Err(StoreError::Invalid(m)) if m == "retired"));
    let full = track(&consumer, &catalog, "catalog-summary".to_string(), "cell".to_string(), None, &satisfied(), 64);
    assert!(full.is_err());
}

#[test]
fn a_run_pins_the_generation_it_first_observed() {
    let run = assigned_run(&"b1".to_string(), None);
    assert_eq!(run.phase, RunPhase::Assigned);
    assert!(run.samples.is_empty() && run.result.is_none());
    let mut unpinned = active();
    unpinned.generation = None;
    pin_generation(&mut unpinned, &run).unwrap();
    assert!(unpinned.generation.is_none());
    let mut pinned = active();
    pin_generation(&mut pinned, &run).unwrap();
    assert_eq!(pinned.generation.unwrap().run, "g1");
    assert!(check_result_binding(&"b1".to_string(), &None).is_ok());
}

#[test]
fn commits_recheck_eligibility_revision_route_and_capacity() {
    assert!(matches!(commit_checks(&refused("gone"), 1, 1, true, true, 0), Err(StoreError::Invalid(m)) if m == "gone"));
    assert!(matches!(commit_checks(&satisfied(), 1, 2, false, true, 0),
        Err(StoreError::RevisionConflict(m)) if m == "diagnostic binding changed during observation"));
    assert!(matches!(commit_checks(&satisfied(), 1, 1, true, false, 0),
        Err(StoreError::RevisionConflict(m)) if m == "replacement/superseded-binding; use assign_current(root) for a new run"));
    assert!(commit_checks(&satisfied(), 1, 1, true, true, 512).is_err());
    assert!(commit_checks(&satisfied(), 1, 1, true, true, 511).is_ok());
    assert!(commit_checks(&satisfied(), 1, 1, false, false, 9_000).is_ok());
}

#[test]
fn binding_judgments_need_a_verified_matching_decision() {
    assert!(check_acceptance_kind(AcceptanceKind::Initial, &None, &None).is_ok());
    assert!(check_acceptance_kind(AcceptanceKind::Initial, &Some(reg("x")), &None).is_err());
    assert!(check_acceptance_kind(AcceptanceKind::Replacement, &None, &Some(generation("g"))).is_err());
    let mut with_policy = catalog();
    assert!(!wants_decision(&satisfied(), &active(), AcceptanceKind::Initial, &None, &with_policy));
    with_policy.decision_policy = Some(policy());
    assert!(wants_decision(&satisfied(), &active(), AcceptanceKind::Initial, &None, &with_policy));
    assert!(!wants_decision(&satisfied(), &active(), AcceptanceKind::Replacement, &None, &with_policy));

    let consumer = reg("consumer");
    let mut receiver = Receiver::open();
    let request = || {
        replacement_request(&consumer, Some(policy()), &Receiver::open(), &snapshot(), &intent(), "{}".to_string(),
            "p".to_string(), "c".to_string())
    };
    let unconnected = assess_binding(request().unwrap(), &NoBindingJudgment, &receiver, 0, 0);
    assert_eq!(unconnected.state(), AcceptanceState::Unsupported);
    assert_eq!(unconnected.condition(), "binding/consumer-judgment-provider");

    let live = replacement_request(&consumer, Some(policy()), &receiver, &snapshot(), &intent(), "{}".to_string(),
        "p".to_string(), "c".to_string()).unwrap();
    let decision = approved(&mut receiver, &live);
    let approver = Approver(RefCell::new(Some(decision)));
    let verified = assess_binding(live, &approver, &receiver, 300, 310);
    assert_eq!(verified.state(), AcceptanceState::Verified);
    assert_eq!(verified.decision_reference().unwrap(), "decision/decision-1");

    let vague = acceptance(request().unwrap(), AcceptanceReply::Denied { condition: "c".to_string(), reason: " ".to_string(),
        decision_reference: "r".to_string() }, &receiver, 0, 0);
    assert_eq!(vague.state(), AcceptanceState::Unsupported);
    assert_eq!(vague.reason(), "binding judgment lacks a bounded named explanation");
}

fn fresh_request(consumer: &RegistrationRef) -> (Receiver, AcceptanceRequest) {
    let receiver = Receiver::open();
    let request = replacement_request(
        consumer, Some(policy()), &receiver, &snapshot(), &intent(), "{}".to_string(), "p".to_string(), "c".to_string(),
    )
    .unwrap();
    (receiver, request)
}

#[test]
fn only_a_verified_reply_that_passes_the_check_prepares() {
    let consumer = reg("consumer");
    let catalog = catalog();
    let next = replacement_target(&consumer, &catalog, &satisfied(), false, &snapshot(), &intent()).unwrap();

    let (receiver, request) = fresh_request(&consumer);
    let pending = AcceptanceReply::NotEvaluated { condition: "c".to_string(), reason: "r".to_string() };
    let refused = prepared_replacement(intent(), snapshot(), next.clone(), &request, pending, &receiver, 300, 310);
    assert!(matches!(refused, Err(StoreError::Invalid(m))
        if m == "replacement/no-live-external-approval; assessment alone never applies"));

    let (mut receiver, request) = fresh_request(&consumer);
    let late = approved(&mut receiver, &request);
    let expired = prepared_replacement(
        intent(), snapshot(), next.clone(), &request, AcceptanceReply::Verified(late), &receiver, 300, 5_000,
    );
    assert!(matches!(expired, Err(StoreError::Invalid(m)) if m.starts_with("decision/")));

    let (mut receiver, request) = fresh_request(&consumer);
    let undecided = AcceptanceRequest {
        kind: request.kind,
        binding: request.binding.clone(),
        proposed_provider: request.proposed_provider.clone(),
        proposed_generation: request.proposed_generation.clone(),
        decision: None,
    };
    let proof = approved(&mut receiver, &request);
    let unconfigured = prepared_replacement(
        intent(), snapshot(), next.clone(), &undecided, AcceptanceReply::Verified(proof), &receiver, 300, 310,
    );
    assert!(matches!(unconfigured, Err(StoreError::Invalid(m)) if m.starts_with("decision/unconfigured")));

    let (mut receiver, request) = fresh_request(&consumer);
    let proof = approved(&mut receiver, &request);
    let prepared = prepared_replacement(
        intent(), snapshot(), next.clone(), &request, AcceptanceReply::Verified(proof), &receiver, 300, 310,
    )
    .unwrap();
    assert_eq!(prepared.application(), "app-1");
    assert_eq!(prepared.next().id, next.id);
}

/// A source that must never be asked.
struct Untouched;

impl Source for Untouched {
    fn observe(&mut self, _probe: &Probe) -> SourceReply {
        panic!("the source was asked")
    }
}

#[test]
fn a_standing_declaration_never_asks_the_source() {
    let mut source = Untouched;
    let unknown = Dependency::Unknown { reason: "author has not reviewed the provider".to_string() };
    let o = observe(&active(), None, &unknown, ProbePurpose::Inspect, &mut source);
    assert!(o.sample.is_none());
    assert_eq!(o.assessment.state, ConditionState::NotEvaluated);
    assert_eq!(o.assessment.conditions[0].name, "dependency/unknown");
    assert_eq!(o.assessment.conditions[0].reason, "author has not reviewed the provider");
    let o = observe(&active(), None, &Dependency::Independent, ProbePurpose::Inspect, &mut source);
    assert_eq!(o.assessment.state, ConditionState::Satisfied);
    assert!(o.sample.is_none());
    let o = observe(&active(), None, &Dependency::Undeclared, ProbePurpose::Inspect, &mut source);
    assert_eq!(o.assessment.state, ConditionState::Unsupported);
    assert!(o.sample.is_none());
}

#[test]
fn a_changed_route_refuses_before_the_candidate_is_observed() {
    let consumer = reg("consumer");
    let catalog = catalog();
    let next = replacement_target(&consumer, &catalog, &satisfied(), false, &snapshot(), &intent()).unwrap();
    let (mut receiver, request) = fresh_request(&consumer);
    let proof = approved(&mut receiver, &request);
    let prepared = prepared_replacement(
        intent(), snapshot(), next.clone(), &request, AcceptanceReply::Verified(proof), &receiver, 300, 310,
    )
    .unwrap();
    let mut moved = snapshot();
    moved.route.generation = 1;
    let mut source = Untouched;
    let result = apply_replacement(
        &consumer, &catalog, &prepared, &moved, &request, &mut source, &receiver, 320, 330, &satisfied(),
        &snapshot(), 1, "a".to_string(), "n".to_string(), &None, &None,
    );
    assert!(matches!(result, Err(StoreError::RevisionConflict(m)) if m == "replacement/route-changed-since-approval"));

    let gone = Observed { assessment: refused("provider gone"), sample: None };
    let result = applied_replacement(
        &consumer, &prepared, gone, &request, &receiver, 320, 330, &satisfied(), &snapshot(), 1, "a".to_string(),
        "n".to_string(), &None, &None,
    );
    assert!(matches!(result, Err(StoreError::Invalid(m)) if m == "replacement/candidate-unavailable: provider gone"));

    let blank = Observed { assessment: satisfied(), sample: None };
    let result = applied_replacement(
        &consumer, &prepared, blank, &request, &receiver, 320, 330, &satisfied(), &snapshot(), 1, "a".to_string(),
        "n".to_string(), &None, &None,
    );
    assert!(matches!(result, Err(StoreError::Invalid(m)) if m == "replacement/candidate-observation-missing"));
}
