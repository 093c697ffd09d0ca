use rx_supervisor::decision::{
    Authority, Kind, Owner, Policy, Receiver, Request, SignatureCheck, SignatureEnvelope, SignedDecision,
    SignedRevocation, VerifiedDecision,
};
use rx_supervisor::registration::decisions::{
    decision_key, record_verified_decision, record_verified_revocation, recorded_decision, revocation_key,
};
use rx_supervisor::registration::work::{commit_work, consumption_key, ensure_new_work, recorded_work, result_key};
use rx_supervisor::registration::{
    assignment, new_registration, observe, Binding, CatalogReference, Declaration, Execution, ExecutionState,
    Observation, StoreError, TimePoint, VersionedRegistration,
};
use rx_supervisor::use_assessment::UseSubject;
use rx_supervisor::work_use::{Comparison, Input, Task};

fn owner() -> Owner {
    Owner { registration: "reg-1".to_string(), revision: 2, program: "arm".to_string(), catalog: "cat".to_string() }
}

fn current() -> VersionedRegistration {
    let declaration = Declaration {
        label: "arm".to_string(),
        catalog: CatalogReference { program: "arm".to_string(), digest: "cat".to_string() },
    };
    VersionedRegistration { revision: 2, registration: new_registration("reg-1".to_string(), declaration) }
}

fn policy() -> Policy {
    Policy {
        authorities: vec![(
            "key-1".to_string(),
            Authority {
                issuer: "operator".to_string(),
                public_key: [9u8; 32],
                operating_area: "cell".to_string(),
                roles: vec!["work/support-gap-report".to_string()],
                kinds: vec![Kind::WorkUse],
                max_ttl_ms: 10_000,
            },
        )],
    }
}

fn approved(receiver: &mut Receiver, id: &str) -> (Request, VerifiedDecision) {
    let request = receiver
        .request(
            Kind::WorkUse,
            owner(),
            "cell".to_string(),
            "work/support-gap-report".to_string(),
            "subject".to_string(),
            policy(),
            "policy".to_string(),
            "context".to_string(),
        )
        .unwrap();
    let challenge = request.challenge(receiver, &"key-1".to_string(), 0).unwrap();
    let signed = SignedDecision {
        claim: challenge.claim(id.to_string(), 5_000),
        signature: SignatureEnvelope { key: "key-1".to_string(), signature: "cd".repeat(64) },
    };
    let verified = challenge
        .verify(receiver, &signed, 10, SignatureCheck::Verified, 11, format!("digest-{id}"))
        .unwrap();
    (request, verified)
}

fn task() -> Task {
    Task {
        operation: "op-1".to_string(),
        selection: "arm".to_string(),
        operating_area: "cell".to_string(),
        required_native_packages: 5,
        required_support_profiles: 2,
    }
}

fn input() -> Input {
    Input {
        subject: UseSubject {
            registration: "reg-1".to_string(),
            registration_revision: 2,
            program: "arm".to_string(),
            catalog_digest: "cat".to_string(),
            run: "run-1".to_string(),
            selection: "arm".to_string(),
            instance: Some("inst-1".to_string()),
            pid: Some(77),
        },
        configuration: "cfg".to_string(),
        native_packages: 3,
        support_profiles: 4,
        observed_at: TimePoint { clock_id: "boot".to_string(), ticks_ns: 1 },
        source_digest: "source".to_string(),
        readiness_semantics: "support-summary".to_string(),
        origins: "{}".to_string(),
    }
}

fn running_execution() -> Execution {
    let binding = Binding {
        registration: "reg-1".to_string(),
        registration_revision: 2,
        catalog: CatalogReference { program: "arm".to_string(), digest: "cat".to_string() },
        run: "run-1".to_string(),
        selection: "arm".to_string(),
        instance: "inst-1".to_string(),
    };
    let assigned = assignment(&binding).unwrap();
    let seen = Observation { state: ExecutionState::Running, pid: Some(77), exit_code: None, detail: "up".to_string() };
    observe(Some(&assigned), &binding, seen, false).unwrap().unwrap()
}

#[test]
fn shortfalls_saturate_at_zero() {
    assert_eq!(Comparison::compute(3, 5), Comparison { observed: 3, required: 5, shortfall: 2 });
    assert_eq!(Comparison::compute(6, 5).shortfall, 0);
}

#[test]
fn work_keys_name_operation_component_and_decision() {
    assert_eq!(result_key(&"op".to_string()), "work/result/op");
    assert_eq!(consumption_key(&"c".to_string(), &"d".to_string()), "work/consumed/c/d");
    assert_eq!(decision_key(&"c".to_string(), &"d".to_string()), "components/decision/c/d");
    assert_eq!(revocation_key(&"c".to_string(), &"d".to_string()), "components/decision-revocation/c/d");
}

#[test]
fn an_operation_commits_once() {
    assert!(ensure_new_work(false).is_ok());
    assert!(matches!(ensure_new_work(true),
        Err(StoreError::RevisionConflict(m)) if m == "work-use/operation-already-committed; query history, never replay"));
}

#[test]
fn a_commit_writes_the_report_and_spends_the_decision() {
    let mut receiver = Receiver::open();
    let (request, verified) = approved(&mut receiver, "d-1");
    let execution = running_execution();
    let commit = commit_work(&task(), &input(), &request, &verified, &receiver, 20, 21, &current(), Some(&execution),
        "input-digest".to_string())
    .unwrap();
    assert_eq!(commit.result_key, "work/result/op-1");
    assert_eq!(commit.consumption_key, "work/consumed/reg-1/d-1");
    assert_eq!(commit.report.instance, "inst-1");
    assert_eq!(commit.report.native_packages.shortfall, 2);
    assert_eq!(commit.report.support_profiles.shortfall, 0);
    assert_eq!(commit.report.current_permission, "NONE; HISTORICAL_WORK_RESULT_ONLY");
    assert_eq!(commit.consumption.operation, "op-1");
    let stored = recorded_work(&"reg-1".to_string(), &"op-1".to_string(), Some(commit.report.clone())).unwrap();
    assert_eq!(stored.input_digest, "input-digest");
    assert!(matches!(recorded_work(&"reg-2".to_string(), &"op-1".to_string(), Some(commit.report)),
        Err(StoreError::Integrity(m)) if m == "work result identity differs"));
    assert!(matches!(recorded_work(&"reg-1".to_string(), &"op-1".to_string(), None),
        Err(StoreError::Invalid(m)) if m == "work-use/result-not-found"));
}

#[test]
fn a_stale_execution_or_decision_commits_nothing() {
    let mut receiver = Receiver::open();
    let (request, verified) = approved(&mut receiver, "d-2");
    assert!(matches!(
        commit_work(&task(), &input(), &request, &verified, &receiver, 20, 21, &current(), None, "x".to_string()),
        Err(StoreError::Invalid(m)) if m == "work-use/execution-missing"));
    let mut exited = running_execution();
    exited.last_observed.state = ExecutionState::Exited;
    assert!(matches!(
        commit_work(&task(), &input(), &request, &verified, &receiver, 20, 21, &current(), Some(&exited), "x".to_string()),
        Err(StoreError::Invalid(m)) if m == "work-use/current-execution-changed"));
    let mut moved = current();
    moved.revision = 3;
    assert!(matches!(
        commit_work(&task(), &input(), &request, &verified, &receiver, 20, 21, &moved, Some(&running_execution()), "x".to_string()),
        Err(StoreError::Invalid(m)) if m == "work-use/current-registration-changed"));
    assert!(matches!(
        commit_work(&task(), &input(), &request, &verified, &receiver, 20, 6_000, &current(), Some(&running_execution()), "x".to_string()),
        Err(StoreError::Invalid(m)) if m == "work-use/decision/expired: local monotonic deadline measured from challenge creation elapsed"));
    receiver.close();
    assert!(matches!(
        commit_work(&task(), &input(), &request, &verified, &receiver, 20, 21, &current(), Some(&running_execution()), "x".to_string()),
        Err(StoreError::Invalid(m)) if m.starts_with("work-use/decision/epoch")));
}

#[test]
fn a_decision_record_is_kept_once_and_never_replaced() {
    let mut receiver = Receiver::open();
    let (_, verified) = approved(&mut receiver, "d-3");
    let (record, key) = record_verified_decision(&verified, &receiver, 20, 21, &current(), None).unwrap();
    assert_eq!(key.as_deref(), Some("components/decision/reg-1/d-3"));
    let (again, key) = record_verified_decision(&verified, &receiver, 20, 21, &current(), Some(&record)).unwrap();
    assert!(key.is_none());
    assert_eq!(again.reference.decision, "d-3");
    let (_, other) = approved(&mut receiver, "d-4");
    let (other_record, _) = record_verified_decision(&other, &receiver, 20, 21, &current(), None).unwrap();
    assert!(matches!(record_verified_decision(&verified, &receiver, 20, 21, &current(), Some(&other_record)),
        Err(StoreError::Invalid(m)) if m == "decision/identity: refusing to replace a historical decision"));
    let mut retired = current();
    retired.revision = 9;
    assert!(matches!(record_verified_decision(&verified, &receiver, 20, 21, &retired, None),
        Err(StoreError::Invalid(m)) if m == "decision/current-registration: reference no longer matches accepted author content"));
    assert!(recorded_decision(&"reg-1".to_string(), &"d-3".to_string(), Some(record.clone())).is_ok());
    assert!(matches!(recorded_decision(&"reg-1".to_string(), &"d-9".to_string(), Some(record.clone())),
        Err(StoreError::Integrity(_))));

    let revocation = SignedRevocation {
        claim: verified.revocation_claim("withdrawn".to_string()),
        signature: SignatureEnvelope { key: "key-1".to_string(), signature: "cd".repeat(64) },
    };
    let revoked = verified.revoke(&mut receiver, &revocation, SignatureCheck::Verified, "rev".to_string()).unwrap();
    assert!(matches!(record_verified_revocation(&revoked, None, None),
        Err(StoreError::Invalid(m)) if m == "revocation requires the original recorded decision"));
    let (kept, key) = record_verified_revocation(&revoked, Some(&record), None).unwrap();
    assert_eq!(key.as_deref(), Some("components/decision-revocation/reg-1/d-3"));
    assert!(record_verified_revocation(&revoked, Some(&record), Some(&kept)).unwrap().1.is_none());
    assert!(matches!(record_verified_revocation(&revoked, Some(&other_record), None),
        Err(StoreError::Invalid(m)) if m == "revocation target differs from original decision"));
    // A revoked decision is no longer recorded as live.
    assert!(matches!(record_verified_decision(&verified, &receiver, 20, 21, &current(), None),
        Err(StoreError::Invalid(m)) if m == "decision/revoked: the external decision has been invalidated"));
}
