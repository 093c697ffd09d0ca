use rx_supervisor::execution_store::{check_resume, check_run_store, locate, store_plan, Location};
use rx_supervisor::model::State;
use rx_supervisor::registration::resident::{bootstrap, check_index, check_resident, may_bootstrap, resident_mapping, Selection};
use rx_supervisor::registration::{
    new_registration, CatalogReference, Declaration, RegistrationState, StoreError, VersionedRegistration,
};
use rx_supervisor::Error;

fn state(plan: &str) -> State {
    State {
        schema: "rx.supervisor-state.v1".to_string(),
        plan: plan.to_string(),
        plan_digest: "d".to_string(),
        stop_requested: false,
        records: vec![],
    }
}

#[test]
fn unknown_run_does_not_create_nested_execution_store() {
    let run = "5f0c7a0e-6a9b-4f4e-9d7b-2a7c1e9b8d11".to_string();
    assert_eq!(locate(None, &run, false, false), Location::Run);
    let error = check_run_store(None, &run).unwrap_err();
    assert!(error.message().contains("unknown-run-id-no-store-created"));
}

#[test]
fn runs_resolve_to_their_own_store() {
    let run = "run-1".to_string();
    assert_eq!(locate(Some(&run), &run, false, true), Location::Root);
    assert_eq!(locate(None, &run, true, false), Location::Root);
    assert_eq!(locate(None, &run, true, true), Location::Run);
    assert_eq!(locate(Some(&"run-0".to_string()), &run, true, false), Location::Run);
    assert!(check_run_store(Some(Some("run-1".to_string())), &run).is_ok());
    assert!(check_run_store(Some(Some("run-2".to_string())), &run).is_err());
    assert!(check_run_store(Some(None), &run).is_err());
    assert_eq!(store_plan(Some(("rx.supervisor-state.v1".to_string(), state("run-1")))).unwrap(), "run-1");
    assert!(matches!(store_plan(Some(("other".to_string(), state("run-1")))),
        Err(Error::Invalid(m)) if m == "execution-store-schema"));
    assert!(matches!(store_plan(None), Err(Error::Reconciliation(m)) if m == "existing-execution-store-has-no-plan"));
    assert!(matches!(check_resume(None, false), Err(Error::Reconciliation(m)) if m == "original-execution-store-required"));
    assert!(matches!(check_resume(Some(&run), true),
        Err(Error::Reconciliation(m)) if m == "resume-requires-fresh-execution-store"));
    assert!(check_resume(Some(&run), false).is_ok());
}

fn declaration(digest: &str) -> Declaration {
    Declaration { label: "arm".to_string(), catalog: CatalogReference { program: "arm".to_string(), digest: digest.to_string() } }
}

#[test]
fn resident_selections_are_bootstrapped_once_from_fresh_stores() {
    assert!(may_bootstrap(true, 0, true).is_ok());
    assert!(matches!(may_bootstrap(false, 0, true),
        Err(StoreError::Integrity(m)) if m == "resident selection mapping missing; no automatic registration or adoption"));
    assert!(may_bootstrap(true, 1, true).is_err());
    let declarations = vec![("arm".to_string(), declaration("c1")), ("camera".to_string(), declaration("c2"))];
    let (registrations, index) = bootstrap(&declarations);
    assert_eq!(registrations.len(), 2);
    assert_eq!(index[1].selection, "camera");
    assert_eq!(index[1].registration, registrations[1].id);
    assert_eq!(registrations[0].state, RegistrationState::Accepted);
    assert!(check_index(&index, &declarations).is_ok());
}

#[test]
fn a_saved_mapping_resolves_each_declared_selection_once() {
    let declarations = vec![("arm".to_string(), declaration("c1")), ("camera".to_string(), declaration("c2"))];
    let entry = |s: &str, r: &str| Selection { selection: s.to_string(), registration: r.to_string() };
    assert!(matches!(check_index(&vec![entry("arm", "a"), entry("arm", "b")], &declarations),
        Err(StoreError::Integrity(m)) if m == "duplicate resident selection mapping"));
    assert!(matches!(check_index(&vec![entry("arm", "a"), entry("camera", "a")], &declarations),
        Err(StoreError::Integrity(m)) if m == "duplicate resident registration mapping"));
    assert!(matches!(check_index(&vec![entry("arm", "a")], &declarations),
        Err(StoreError::Integrity(m)) if m == "resident selection mapping missing or selection set changed; explicit review required"));
    assert!(check_index(&vec![entry("camera", "b"), entry("arm", "a")], &declarations).is_ok());
}

#[test]
fn resident_registrations_stay_accepted_with_their_catalog() {
    let accepted = VersionedRegistration { revision: 1, registration: new_registration("a".to_string(), declaration("c1")) };
    assert!(check_resident(&accepted, &declaration("c1")).is_ok());
    assert!(matches!(check_resident(&accepted, &declaration("c9")),
        Err(StoreError::Integrity(m)) if m == "resident catalog digest changed; explicit declaration review required"));
    let mut retired = accepted.clone();
    retired.registration.state = RegistrationState::Retired;
    assert!(matches!(check_resident(&retired, &declaration("c1")),
        Err(StoreError::Invalid(m)) if m == "resident registration retired; no replacement or reactivation"));
}

#[test]
fn a_mapping_is_reused_when_sound_and_made_only_beside_fresh_stores() {
    let declarations = vec![("arm".to_string(), declaration("c1")), ("camera".to_string(), declaration("c2"))];
    let entry = |s: &str, r: &str| Selection { selection: s.to_string(), registration: r.to_string() };
    let (made, kept) = resident_mapping(Some(vec![entry("arm", "a"), entry("camera", "b")]), &declarations, false, 9, false).unwrap();
    assert!(made.is_empty());
    assert_eq!(kept[1].registration, "b");
    assert!(matches!(resident_mapping(Some(vec![entry("arm", "a")]), &declarations, true, 0, true),
        Err(StoreError::Integrity(m)) if m == "resident selection mapping missing or selection set changed; explicit review required"));
    assert!(matches!(resident_mapping(None, &declarations, true, 3, true),
        Err(StoreError::Integrity(m)) if m == "resident selection mapping missing; no automatic registration or adoption"));
    let (made, index) = resident_mapping(None, &declarations, true, 0, true).unwrap();
    assert_eq!(made.len(), 2);
    assert_eq!(index[0].registration, made[0].id);
}
