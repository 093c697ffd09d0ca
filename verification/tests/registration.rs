use rx_supervisor::registration::{
    assignment, check_execution, check_registration, eligible, execution_key, execution_prefix, key, modify,
    new_registration, observe, Binding, CatalogReference, Declaration, ExecutionState, Observation,
    RegistrationState, StoreError, VersionedRegistration,
};
use rx_supervisor::Error;

fn catalog(digest: &str) -> CatalogReference {
    CatalogReference { program: "arm".to_string(), digest: digest.to_string() }
}

fn declaration(digest: &str) -> Declaration {
    Declaration { label: "left arm".to_string(), catalog: catalog(digest) }
}

fn current(revision: u64) -> VersionedRegistration {
    VersionedRegistration { revision, registration: new_registration("reg-1".to_string(), declaration("c1")) }
}

fn binding(revision: u64) -> Binding {
    Binding {
        registration: "reg-1".to_string(),
        registration_revision: revision,
        catalog: catalog("c1"),
        run: "run-1".to_string(),
        selection: "arm".to_string(),
        instance: "inst-1".to_string(),
    }
}

fn observation(state: ExecutionState, pid: Option<u32>) -> Observation {
    Observation { state, pid, exit_code: None, detail: "seen".to_string() }
}

#[test]
fn storage_keys_are_fixed_prefixes() {
    assert_eq!(key(&"reg-1".to_string()), "components/registration/reg-1");
    assert_eq!(execution_prefix(&"reg-1".to_string()), "components/execution/reg-1/");
    assert_eq!(execution_key(&"reg-1".to_string(), &"inst-1".to_string()), "components/execution/reg-1/inst-1");
}

#[test]
fn stored_rows_must_match_their_keys() {
    let r = new_registration("reg-1".to_string(), declaration("c1"));
    assert_eq!(r.state, RegistrationState::Accepted);
    assert!(check_registration(&"reg-1".to_string(), &r).is_ok());
    assert!(matches!(check_registration(&"reg-2".to_string(), &r),
        Err(StoreError::Integrity(m)) if m == "component identity differs"));
    let execution = assignment(&binding(1)).unwrap();
    assert!(check_execution(&"reg-1".to_string(), &"components/execution/reg-1/inst-1".to_string(), &execution).is_ok());
    assert!(matches!(check_execution(&"reg-1".to_string(), &"components/execution/reg-1/inst-2".to_string(), &execution),
        Err(StoreError::Integrity(m)) if m == "execution identity differs"));
}

#[test]
fn only_the_current_accepted_revision_and_catalog_are_eligible() {
    assert!(eligible(&current(1), &binding(1)).is_ok());
    assert!(matches!(eligible(&current(2), &binding(1)),
        Err(StoreError::RevisionConflict(m)) if m == "component declaration revision changed"));
    let mut other = binding(1);
    other.catalog = catalog("c2");
    assert!(matches!(eligible(&current(1), &other),
        Err(StoreError::Invalid(m)) if m == "accepted catalog differs; explicit declaration review required"));
    let (retired, _) = modify(&current(1), 1, None).unwrap();
    let retired = VersionedRegistration { revision: 2, registration: retired };
    assert!(matches!(eligible(&retired, &binding(2)),
        Err(StoreError::Invalid(m)) if m == "retired component: new execution assignment prohibited; history retained"));
}

#[test]
fn modifying_needs_the_current_revision_and_never_revives() {
    assert!(matches!(modify(&current(3), 2, Some(declaration("c2"))),
        Err(StoreError::RevisionConflict(m)) if m == "component revision changed"));
    let (changed, action) = modify(&current(3), 3, Some(declaration("c2"))).unwrap();
    assert_eq!(action, "declaration-changed");
    assert_eq!(changed.declaration.catalog.digest, "c2");
    let (retired, action) = modify(&current(3), 3, None).unwrap();
    assert_eq!(action, "retired-new-assignments-prohibited");
    assert_eq!(retired.state, RegistrationState::Retired);
    let stored = VersionedRegistration { revision: 4, registration: retired };
    assert!(matches!(modify(&stored, 4, Some(declaration("c3"))),
        Err(StoreError::Invalid(m)) if m == "retired registration cannot be reactivated or rewritten"));
}

#[test]
fn an_assignment_is_recorded_before_any_effect() {
    let execution = assignment(&binding(1)).unwrap();
    assert_eq!(execution.last_observed.state, ExecutionState::Assigned);
    assert_eq!(execution.last_observed.pid, None);
    let mut own = binding(1);
    own.instance = "reg-1".to_string();
    assert!(matches!(assignment(&own), Err(StoreError::Invalid(m)) if m == "registration is not an execution instance"));
}

#[test]
fn observations_are_idempotent_and_frozen_ones_are_kept() {
    let execution = assignment(&binding(1)).unwrap();
    assert!(matches!(observe(None, &binding(1), observation(ExecutionState::Running, Some(5)), false),
        Err(StoreError::Integrity(m)) if m == "execution assignment absent"));
    let running = observe(Some(&execution), &binding(1), observation(ExecutionState::Running, Some(5)), false)
        .unwrap()
        .unwrap();
    assert_eq!(running.last_observed.pid, Some(5));
    assert!(observe(Some(&running), &binding(1), observation(ExecutionState::Running, Some(5)), false)
        .unwrap()
        .is_none());
    assert!(matches!(observe(Some(&running), &binding(1), observation(ExecutionState::Exited, Some(5)), true),
        Err(StoreError::Invalid(_))));
    assert!(matches!(observe(Some(&running), &binding(2), observation(ExecutionState::Exited, Some(5)), false),
        Err(StoreError::Integrity(m)) if m == "execution report binding differs"));
}

#[test]
fn error_messages_carry_their_cause() {
    assert_eq!(Error::Invalid("x".to_string()).message(), "invalid supervisor input: x");
    assert_eq!(Error::Io("x".to_string()).message(), "process: x");
    assert_eq!(Error::Reconciliation("x".to_string()).message(), "reconciliation required: x");
    assert_eq!(Error::Storage(StoreError::KeyConflict).message(), "storage: key conflict");
    assert_eq!(Error::Storage(StoreError::Integrity("bad row".to_string())).message(), "storage: bad row");
}
