use rx_supervisor::registration::recovery::{
    assign, dispose, disposition_evidence, disposition_key, gate, record_disposition, reference, request_resume, resume_key,
    resume_after, view, valid_time, DenyRecovery, Disposition, DispositionKind, DispositionRequest, ExecutionRecord, 
    RecoveryAuthority, RecoveryEvidence, RecoveryGate, RecoveryReport, ResumeRequest, WeakObservation,
};
use rx_supervisor::model::Effect;
use rx_supervisor::process::recovery_exit;
use rx_supervisor::Error;
use rx_supervisor::registration::{
    assignment, new_registration, Binding, CatalogReference, Declaration, ExecutionState, Observation, StoreError,
    TimePoint, VersionedRegistration,
};

struct LocalOperator;

impl RecoveryAuthority for LocalOperator {
    fn may_dispose(&self, _request: &DispositionRequest) -> bool {
        true
    }

    fn may_resume(&self, _disposition: &Disposition, _request: &ResumeRequest) -> bool {
        true
    }
}

fn catalog() -> CatalogReference {
    CatalogReference { program: "arm".to_string(), digest: "cat".to_string() }
}

fn current() -> VersionedRegistration {
    VersionedRegistration {
        revision: 1,
        registration: new_registration("reg-1".to_string(), Declaration { label: "arm".to_string(), catalog: catalog() }),
    }
}

fn binding(instance: &str, run: &str) -> Binding {
    Binding {
        registration: "reg-1".to_string(),
        registration_revision: 1,
        catalog: catalog(),
        run: run.to_string(),
        selection: "arm".to_string(),
        instance: instance.to_string(),
    }
}

fn at(ticks: u64) -> TimePoint {
    TimePoint { clock_id: "boot".to_string(), ticks_ns: ticks }
}

/// An execution whose outcome was lost with its owner.
fn lost_row() -> ExecutionRecord {
    let mut execution = assignment(&binding("inst-1", "run-1")).unwrap();
    execution.last_observed = Observation { state: ExecutionState::Unknown, pid: Some(77), exit_code: None, detail: "lost".to_string() };
    ExecutionRecord { revision: 3, digest: "row-digest".to_string(), execution }
}

fn closure_request(row: &ExecutionRecord, pid: u32) -> DispositionRequest {
    DispositionRequest {
        target: reference(row),
        kind: DispositionKind::ConfirmedClosure,
        evidence: RecoveryEvidence::OwnedChildExit {
            report: RecoveryReport {
                actor: "operator".to_string(),
                scope: "host/direct-child-exit".to_string(),
                observed_at: at(50),
                procedure: "owned child reaped".to_string(),
            },
            witness: recovery_exit(&"inst-1".to_string(), Some(Effect::NonActuating), Some(pid), || Ok(Some(Some(0))), at(50))
                .unwrap(),
        },
    }
}

#[test]
fn recovery_keys_name_component_and_subject() {
    assert_eq!(disposition_key(&"c".to_string(), &"i".to_string()), "components/disposition/c/i");
    assert_eq!(resume_key(&"c".to_string(), &"d".to_string()), "components/resume/c/d");
    assert!(valid_time(&at(1)));
    assert!(!valid_time(&at(0)));
    assert!(!valid_time(&TimePoint { clock_id: " ".to_string(), ticks_ns: 5 }));
}

#[test]
fn an_unconfirmed_execution_blocks_new_ones_until_explicit_resume() {
    let rows = vec![lost_row()];
    assert_eq!(gate(&rows, &vec![], &vec![]).unwrap(), RecoveryGate::BlockedUnresolved);
    let refused = assign(&current(), &binding("inst-2", "run-2"), &rows, &vec![], &vec![], None);
    assert!(refused.is_err());

    let request = closure_request(&rows[0], 77);
    let (report, evidence) = disposition_evidence(&request, "witness-digest".to_string()).unwrap();
    let disposition = record_disposition(&rows, &request, report, evidence, &LocalOperator).unwrap();
    assert_eq!(disposition.kind, DispositionKind::ConfirmedClosure);
    let ds = vec![disposition];
    assert_eq!(gate(&rows, &ds, &vec![]).unwrap(), RecoveryGate::ExplicitResumeRequired);

    let resume = ResumeRequest {
        id: "resume-1".to_string(),
        disposition: ds[0].id.clone(),
        actor: "operator".to_string(),
        requested_at: at(60),
        next_run: "run-2".to_string(),
    };
    let (record, permit) =
        request_resume(&"reg-1".to_string(), &current(), &rows, &ds, &vec![], resume, &LocalOperator).unwrap();
    let rs = vec![record.unwrap()];
    assert_eq!(gate(&rows, &ds, &rs).unwrap(), RecoveryGate::ResumeAuthorizedForNamedRun);

    let (execution, consumed) = assign(&current(), &binding("inst-2", "run-2"), &rows, &ds, &rs, Some(&permit)).unwrap();
    assert_eq!(execution.last_observed.state, ExecutionState::Assigned);
    assert_eq!(consumed.unwrap().consumed_by.as_deref(), Some("inst-2"));
}

#[test]
fn weak_observations_never_close_an_execution() {
    let row = lost_row();
    let request = DispositionRequest {
        target: reference(&row),
        kind: DispositionKind::ConfirmedClosure,
        evidence: RecoveryEvidence::ObservationOnly {
            report: RecoveryReport {
                actor: "operator".to_string(),
                scope: "host/direct-child-exit".to_string(),
                observed_at: at(5),
                procedure: "waited".to_string(),
            },
            observation: WeakObservation::Timeout,
        },
    };
    assert!(matches!(disposition_evidence(&request, "d".to_string()),
        Err(StoreError::Invalid(m)) if m.starts_with("disposition requires supported positive evidence")));
}

#[test]
fn an_owned_exit_must_name_the_recorded_pid() {
    let rows = vec![lost_row()];
    let request = closure_request(&rows[0], 78);
    let (report, evidence) = disposition_evidence(&request, "w".to_string()).unwrap();
    assert!(matches!(record_disposition(&rows, &request, report, evidence, &LocalOperator),
        Err(StoreError::Invalid(m)) if m.starts_with("owned exit witness requires matching original instance/PID binding")));
}

#[test]
fn the_default_authority_denies() {
    let rows = vec![lost_row()];
    let request = closure_request(&rows[0], 77);
    let (report, evidence) = disposition_evidence(&request, "w".to_string()).unwrap();
    assert!(matches!(record_disposition(&rows, &request, report, evidence, &DenyRecovery),
        Err(StoreError::Invalid(m)) if m == "recovery disposition authority changed"));
}

#[test]
fn the_view_reports_the_gate() {
    let rows = vec![lost_row()];
    let shown = view(&rows, vec![], vec![]).unwrap();
    assert_eq!(shown.new_execution, RecoveryGate::BlockedUnresolved);
}

#[test]
fn only_an_observed_exit_of_an_owned_non_actuating_child_is_evidence() {
    let instance = "inst-1".to_string();
    let never = || -> Result<Option<Option<i32>>, String> { panic!("not asked") };
    assert!(matches!(recovery_exit(&instance, Some(Effect::ProtocolGuardedService), Some(4), never, at(5)),
        Err(Error::Reconciliation(m)) if m == "recovery evidence requires an owned non-actuating child"));
    assert!(matches!(recovery_exit(&instance, Some(Effect::NonActuating), None, never, at(5)),
        Err(Error::Reconciliation(m)) if m == "owned Child handle absent; external investigation provider is unsupported"));
    assert!(matches!(recovery_exit(&instance, Some(Effect::NonActuating), Some(4), || Ok(None), at(5)),
        Err(Error::Reconciliation(m)) if m == "owned child has not exited"));
    assert!(matches!(recovery_exit(&instance, Some(Effect::NonActuating), Some(4), || Err("wait".to_string()), at(5)),
        Err(Error::Io(m)) if m == "wait"));
    let exit = recovery_exit(&instance, Some(Effect::NonActuating), Some(4), || Ok(Some(Some(3))), at(5)).unwrap();
    assert_eq!(exit.instance(), "inst-1");
}

fn resume_of(id: &str, disposition: &str) -> ResumeRequest {
    ResumeRequest {
        id: id.to_string(),
        disposition: disposition.to_string(),
        actor: "operator".to_string(),
        requested_at: at(60),
        next_run: "run-2".to_string(),
    }
}

#[test]
fn a_claimed_disposition_admits_only_its_own_request_again() {
    let rows = vec![lost_row()];
    let request = closure_request(&rows[0], 77);
    let (report, evidence) = disposition_evidence(&request, "witness-digest".to_string()).unwrap();
    let ds = vec![record_disposition(&rows, &request, report, evidence, &LocalOperator).unwrap()];
    let d = ds[0].id.clone();

    let denied = request_resume(&"reg-1".to_string(), &current(), &rows, &ds, &vec![], resume_of("resume-1", &d), &DenyRecovery);
    assert!(matches!(denied, Err(StoreError::Invalid(m)) if m == "explicit resume authority denied"));

    let (record, _) =
        request_resume(&"reg-1".to_string(), &current(), &rows, &ds, &vec![], resume_of("resume-1", &d), &LocalOperator).unwrap();
    let rs = vec![record.unwrap()];

    let (again, _) =
        request_resume(&"reg-1".to_string(), &current(), &rows, &ds, &rs, resume_of("resume-1", &d), &LocalOperator).unwrap();
    assert!(again.is_none());

    let other = request_resume(&"reg-1".to_string(), &current(), &rows, &ds, &rs, resume_of("resume-2", &d), &LocalOperator);
    assert!(matches!(other, Err(StoreError::Invalid(m)) if m == "disposition already claimed/consumed by another explicit resume"));

    let refused = resume_after(&"reg-1".to_string(), &current(), &ds[0], &rs, resume_of("resume-1", &d), false);
    assert!(matches!(refused, Err(StoreError::Invalid(m)) if m == "explicit resume authority denied"));
    let fresh = resume_after(&"reg-1".to_string(), &current(), &ds[0], &vec![], resume_of("resume-3", &d), true).unwrap();
    assert_eq!(fresh.0.unwrap().request.id, "resume-3");
}

#[test]
fn disposing_checks_the_evidence_before_the_authority() {
    let rows = vec![lost_row()];
    let request = closure_request(&rows[0], 77);
    let d = dispose(&rows, &request, "witness-digest".to_string(), &LocalOperator).unwrap();
    assert_eq!(d.kind, DispositionKind::ConfirmedClosure);
    assert!(matches!(dispose(&rows, &request, "witness-digest".to_string(), &DenyRecovery),
        Err(StoreError::Invalid(m)) if m == "recovery disposition authority denied"));
    let once = Once(std::cell::Cell::new(true));
    assert!(matches!(dispose(&rows, &request, "witness-digest".to_string(), &once),
        Err(StoreError::Invalid(m)) if m == "recovery disposition authority changed"));
    let mut elsewhere = closure_request(&rows[0], 77);
    elsewhere.target.instance = "inst-404".to_string();
    if let RecoveryEvidence::OwnedChildExit { witness, .. } = &mut elsewhere.evidence {
        *witness = recovery_exit(&"inst-404".to_string(), Some(Effect::NonActuating), Some(77), || Ok(Some(Some(0))), at(50)).unwrap();
    }
    assert!(matches!(dispose(&rows, &elsewhere, "witness-digest".to_string(), &DenyRecovery),
        Err(StoreError::Invalid(m)) if m == "recovery disposition authority denied"));
    let mut moved = closure_request(&rows[0], 77);
    if let RecoveryEvidence::OwnedChildExit { report, .. } = &mut moved.evidence {
        report.scope = "elsewhere".to_string();
    }
    assert!(matches!(dispose(&rows, &moved, "witness-digest".to_string(), &LocalOperator),
        Err(StoreError::Invalid(m)) if m == "owned exit witness target/scope/time differs"));
}

/// Allows the first disposition it is asked about, then nothing more.
struct Once(std::cell::Cell<bool>);

impl RecoveryAuthority for Once {
    fn may_dispose(&self, _request: &DispositionRequest) -> bool {
        self.0.replace(false)
    }
}
