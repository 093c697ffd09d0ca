use rx_supervisor::registration::TimePoint;
use rx_supervisor::use_assessment::{
    ConditionAssessment, ConditionState, ExpectedValue, NoWorkUseProvider, ReadinessAssessment,
    ReadinessCondition, ReadinessContract, ReadinessProfile, ReportOrigin, Reported, Scalar,
    StatusEndpoint, StatusObservation, StatusObservationRequest, StatusObservationResult, UseScope,
    UseSubject, WorkUseAssessment, WorkUsePort, WorkUseReply, WorkUseRequest, WorkUseState,
};

fn scope() -> UseScope {
    UseScope { operating_area: "cell-a".to_string(), role: "operator".to_string() }
}

fn subject(instance: &str) -> UseSubject {
    UseSubject {
        registration: "reg-1".to_string(),
        registration_revision: 2,
        program: "arm".to_string(),
        catalog_digest: "catalog".to_string(),
        run: "run-1".to_string(),
        selection: "selection".to_string(),
        instance: Some(instance.to_string()),
        pid: Some(4242),
    }
}

fn profile() -> ReadinessProfile {
    ReadinessProfile {
        endpoint: StatusEndpoint::Health,
        conditions: vec![
            ("instance".to_string(), ReadinessCondition::InstanceMatches),
            (
                "joints".to_string(),
                ReadinessCondition::Unsigned {
                    field: "joints".to_string(),
                    origin: ReportOrigin::StartupAuditDerived,
                },
            ),
            (
                "release".to_string(),
                ReadinessCondition::Equals {
                    field: "release".to_string(),
                    expected: ExpectedValue::Text("1.2.0".to_string()),
                    origin: ReportOrigin::ReleaseDeclaration,
                },
            ),
        ],
    }
}

fn reported(instance: &str, release: &str) -> Reported {
    Reported {
        fields: vec![
            ("joints".to_string(), Scalar::Unsigned(6)),
            ("release".to_string(), Scalar::Text(release.to_string())),
            ("supervisor_instance".to_string(), Scalar::Text(instance.to_string())),
        ],
    }
}

fn at() -> TimePoint {
    TimePoint { clock_id: "boot".to_string(), ticks_ns: 5 }
}

fn states(conditions: &[ConditionAssessment]) -> Vec<ConditionState> {
    conditions.iter().map(|c| c.state).collect()
}

#[test]
fn endpoints_have_fixed_paths() {
    assert_eq!(StatusEndpoint::Health.path(), "/health");
    assert_eq!(StatusEndpoint::SupportSummary.path(), "/api/v1/solution/support");
}

#[test]
fn contract_validation_names_the_first_problem() {
    assert_eq!(
        ReadinessContract(vec![]).validate().unwrap_err(),
        "readiness contract requires 1..8 named use profiles"
    );
    assert!(ReadinessContract(vec![("use".to_string(), profile())]).validate().is_ok());
    let mut twice = profile();
    twice.conditions.push(("second".to_string(), ReadinessCondition::InstanceMatches));
    assert_eq!(
        ReadinessContract(vec![("use".to_string(), twice)]).validate().unwrap_err(),
        "readiness profile requires 1..32 named conditions and exactly one instance correlation"
    );
    let mut borrowed = profile();
    borrowed.conditions[1].1 = ReadinessCondition::Unsigned {
        field: "x".to_string(),
        origin: ReportOrigin::OperatingAreaReport,
    };
    assert_eq!(
        ReadinessContract(vec![("use".to_string(), borrowed)]).validate().unwrap_err(),
        "component field provenance cannot be operating-area authority or missing evidence"
    );
    let mut empty = profile();
    empty.conditions[1].1 = ReadinessCondition::Equals {
        field: "release".to_string(),
        expected: ExpectedValue::Text(String::new()),
        origin: ReportOrigin::ReleaseDeclaration,
    };
    assert_eq!(
        ReadinessContract(vec![("use".to_string(), empty)]).validate().unwrap_err(),
        "bounded nonempty readiness value required"
    );
    let mut unexplained = profile();
    unexplained.conditions[2].1 = ReadinessCondition::Unsupported { reason: " ".to_string() };
    assert_eq!(
        ReadinessContract(vec![("use".to_string(), unexplained)]).validate().unwrap_err(),
        "named unsupported condition requires a reason"
    );
}

#[test]
fn a_matching_report_satisfies_every_condition() {
    let request = StatusObservationRequest::new(subject("inst-1"), scope(), StatusEndpoint::Health);
    let observation = StatusObservation::captured(&request, reported("inst-1", "1.2.0"), at(), "d".to_string());
    let assessment =
        ReadinessAssessment::evaluate(&request, &profile(), StatusObservationResult::Observed(observation));
    assert_eq!(assessment.state(), ConditionState::Satisfied);
    assert_eq!(
        states(assessment.conditions()),
        vec![ConditionState::Satisfied, ConditionState::Satisfied, ConditionState::Satisfied]
    );
    let release = &assessment.conditions()[2];
    assert_eq!(
        release.reason,
        "component-reported release compared with authored Text(\"1.2.0\"); provenance ReleaseDeclaration"
    );
    let (request_id, payload, observed_at) = assessment.diagnostic_basis().unwrap();
    assert_eq!(payload, "d");
    assert_eq!(request_id.len(), 36);
    assert_eq!(observed_at.ticks_ns, 5);
}

#[test]
fn another_instance_leaves_the_other_fields_unassessed() {
    let request = StatusObservationRequest::new(subject("inst-1"), scope(), StatusEndpoint::Health);
    let observation = StatusObservation::captured(&request, reported("inst-0", "1.2.0"), at(), "d".to_string());
    let assessment =
        ReadinessAssessment::evaluate(&request, &profile(), StatusObservationResult::Observed(observation));
    assert_eq!(assessment.state(), ConditionState::NotMet);
    assert_eq!(
        states(assessment.conditions()),
        vec![ConditionState::NotMet, ConditionState::NotEvaluated, ConditionState::NotEvaluated]
    );
}

#[test]
fn a_wrong_value_is_not_met() {
    let request = StatusObservationRequest::new(subject("inst-1"), scope(), StatusEndpoint::Health);
    let observation = StatusObservation::captured(&request, reported("inst-1", "1.1.9"), at(), "d".to_string());
    let assessment =
        ReadinessAssessment::evaluate(&request, &profile(), StatusObservationResult::Observed(observation));
    assert_eq!(assessment.state(), ConditionState::NotMet);
    assert_eq!(assessment.conditions()[1].state, ConditionState::Satisfied);
    assert_eq!(assessment.conditions()[2].state, ConditionState::NotMet);
}

#[test]
fn a_response_to_another_request_is_not_bound() {
    let request = StatusObservationRequest::new(subject("inst-1"), scope(), StatusEndpoint::Health);
    let other = StatusObservationRequest::new(subject("inst-1"), scope(), StatusEndpoint::Health);
    let observation = StatusObservation::captured(&other, reported("inst-1", "1.2.0"), at(), "d".to_string());
    let assessment =
        ReadinessAssessment::evaluate(&request, &profile(), StatusObservationResult::Observed(observation));
    assert_eq!(assessment.state(), ConditionState::NotMet);
    assert_eq!(assessment.conditions().len(), 1);
    assert_eq!(assessment.conditions()[0].name, "report/assessment-binding");
    assert!(assessment.diagnostic_basis().is_none());
}

#[test]
fn without_a_response_every_condition_stays_unevaluated() {
    let request = StatusObservationRequest::new(subject("inst-1"), scope(), StatusEndpoint::Health);
    let assessment = ReadinessAssessment::evaluate(
        &request,
        &profile(),
        StatusObservationResult::NotEvaluated {
            condition: "report/transport".to_string(),
            reason: "endpoint unreachable".to_string(),
        },
    );
    assert_eq!(assessment.state(), ConditionState::NotEvaluated);
    assert_eq!(assessment.conditions().len(), 4);
    assert_eq!(assessment.conditions()[0].reason, "endpoint unreachable");
    assert_eq!(
        assessment.conditions()[3].reason,
        "no applicable response; authored condition not evaluated"
    );
    let record = assessment.into_record();
    assert!(record.evidence.is_none());
    assert_eq!(
        record.meaning,
        "catalog conditions over a component self-report; not independent functional or physical qualification"
    );
}

#[test]
fn an_unsupported_condition_makes_the_summary_unsupported() {
    let mut p = profile();
    p.conditions.push(("torque".to_string(), ReadinessCondition::Unsupported { reason: "no torque sensor".to_string() }));
    let request = StatusObservationRequest::new(subject("inst-1"), scope(), StatusEndpoint::Health);
    let observation = StatusObservation::captured(&request, reported("inst-1", "1.2.0"), at(), "d".to_string());
    let assessment = ReadinessAssessment::evaluate(&request, &p, StatusObservationResult::Observed(observation));
    assert_eq!(assessment.state(), ConditionState::Unsupported);
}

#[test]
fn no_assessment_requested_is_not_evaluated() {
    let a = ReadinessAssessment::not_evaluated();
    assert_eq!(a.state(), ConditionState::NotEvaluated);
    assert_eq!(a.conditions()[0].name, "readiness/assessment");
    let w = WorkUseAssessment::not_evaluated();
    assert_eq!(w.state(), WorkUseState::NotEvaluated);
    assert_eq!(w.conditions()[0].name, "work-use/assessment");
}

#[test]
fn the_default_provider_grants_nothing() {
    let request = WorkUseRequest::new(scope(), subject("inst-1"), ReadinessAssessment::not_evaluated());
    let reply = NoWorkUseProvider.assess(&request);
    let assessment = WorkUseAssessment::assessed(&request, reply);
    assert_eq!(assessment.state(), WorkUseState::Unsupported);
    assert_eq!(assessment.conditions()[0].name, "work-use/operating-area-provider");
    assert_eq!(assessment.conditions()[0].origin, ReportOrigin::ProviderUnavailable);
}

#[test]
fn a_denial_keeps_its_reasons_and_reference() {
    let request = WorkUseRequest::new(scope(), subject("inst-1"), ReadinessAssessment::not_evaluated());
    let assessment = WorkUseAssessment::assessed(
        &request,
        WorkUseReply::Denied {
            decision_reference: "denial-7".to_string(),
            conditions: vec![("area/busy".to_string(), "cell occupied".to_string())],
        },
    );
    assert_eq!(assessment.state(), WorkUseState::Denied);
    assert_eq!(assessment.conditions()[0].state, ConditionState::NotMet);
    assert_eq!(assessment.conditions()[0].origin, ReportOrigin::OperatingAreaReport);
}

#[test]
fn a_reply_without_reasons_is_unsupported() {
    let request = WorkUseRequest::new(scope(), subject("inst-1"), ReadinessAssessment::not_evaluated());
    let assessment = WorkUseAssessment::assessed(
        &request,
        WorkUseReply::Denied { decision_reference: "x".to_string(), conditions: vec![] },
    );
    assert_eq!(assessment.state(), WorkUseState::Unsupported);
    assert_eq!(assessment.conditions()[0].name, "work-use/provider-response");
}

#[test]
fn readiness_names_keep_name_order_each_once() {
    let mut shuffled = profile();
    shuffled.conditions.swap(1, 2);
    assert_eq!(
        ReadinessContract(vec![("use".to_string(), shuffled)]).validate().unwrap_err(),
        "readiness condition names must be in name order, each name once"
    );
    let mut repeated = profile();
    repeated.conditions[2].0 = "joints".to_string();
    assert_eq!(
        ReadinessContract(vec![("use".to_string(), repeated)]).validate().unwrap_err(),
        "readiness condition names must be in name order, each name once"
    );
    assert_eq!(
        ReadinessContract(vec![("b".to_string(), profile()), ("a".to_string(), profile())]).validate().unwrap_err(),
        "readiness use names must be in name order, each name once"
    );
    assert_eq!(
        ReadinessContract(vec![("a".to_string(), profile()), ("a".to_string(), profile())]).validate().unwrap_err(),
        "readiness use names must be in name order, each name once"
    );
    assert!(ReadinessContract(vec![("a".to_string(), profile()), ("ab".to_string(), profile())]).validate().is_ok());
}
