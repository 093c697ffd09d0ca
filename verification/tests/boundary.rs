use rx_supervisor::builtin::boundary::{boundary_fact, release_boundary, Fact, RootFacts};

/// The development release root as it stands: custody established by the
/// two-copy rehearsal, the previous root retired, no dual-root window.
fn root() -> RootFacts {
    RootFacts {
        key_id: "rx-development-release-root".to_string(),
        signing_custody: "ESTABLISHED_BY_TWO_COPY_RECOVERY_REHEARSAL".to_string(),
        previous_root: "RETIRED_NOT_ACCEPTED".to_string(),
        dual_root_window: false,
        offline_revocation_freshness: "CHECKPOINT_BOUNDED".to_string(),
    }
}

fn text(boundary: &Vec<(String, Fact)>, key: &str) -> String {
    match boundary_fact(boundary, &key.to_string()) {
        Some(Fact::Text(t)) => t.clone(),
        other => panic!("{key}: {other:?}"),
    }
}

fn flag(boundary: &Vec<(String, Fact)>, key: &str) -> bool {
    match boundary_fact(boundary, &key.to_string()) {
        Some(Fact::Flag(b)) => *b,
        other => panic!("{key}: {other:?}"),
    }
}

#[test]
fn dhi_registered_release_admission_is_explicitly_verified_and_bounded() {
    let boundary = release_boundary(&root());
    assert_eq!(text(&boundary, "dhi_effect_classification"), "NONACTUATING_FRESH_PTY_REGISTERED_RELEASE_VERIFIED");
    assert_eq!(flag(&boundary, "dhi_registered_release_admission_verified"), true);
    assert_eq!(
        text(&boundary, "dhi_registered_release_admission_reason"),
        "SIGNED_RESIDENT_PATH_R1_PRESERVED; FRESH_PTY_ONLY; PHYSICAL_NOT_QUALIFIED"
    );
    assert_eq!(text(&boundary, "development_release_signing_custody"), "ESTABLISHED_BY_TWO_COPY_RECOVERY_REHEARSAL");
    assert_eq!(text(&boundary, "development_release_previous_root"), "RETIRED_NOT_ACCEPTED");
    assert_eq!(flag(&boundary, "development_release_dual_root_window"), false);
    assert_eq!(text(&boundary, "product_release_custody_and_rotation"), "NOT_ESTABLISHED");
}

#[test]
fn ai_worker_l3_boundary_is_blocking_not_observation_only() {
    let boundary = release_boundary(&root());
    assert_eq!(flag(&boundary, "ai_worker_compose_restart_admission_verified"), true);
    assert_eq!(
        text(&boundary, "ai_worker_compose_restart_disposition"),
        "BLOCKED_AND_RECORDED_AT_RX_SERVICE_GENERATION_GATE"
    );
    assert_eq!(
        text(&boundary, "open_manipulator_l3_reuse"),
        "VARIANT_REQUIRED; CATALOG_BOUND_SERVICE_IDENTITY; S6_PROCESS_RESTART_BLOCKED_AND_RECORDED"
    );
    assert_eq!(text(&boundary, "dhi_compose_s6_reuse"), "NOT_ESTABLISHED");
    assert_eq!(flag(&boundary, "robotis_bundle_complete"), false);
}

#[test]
fn open_manipulator_l3_is_an_explicit_variant_not_unchanged_reuse() {
    let boundary = release_boundary(&root());
    assert_eq!(
        text(&boundary, "open_manipulator_l3_reuse"),
        "VARIANT_REQUIRED; CATALOG_BOUND_SERVICE_IDENTITY; S6_PROCESS_RESTART_BLOCKED_AND_RECORDED"
    );
    assert_eq!(text(&boundary, "open_manipulator_realsense"), "NOT_INSTALLED_OR_QUALIFIED");
    assert_eq!(text(&boundary, "open_manipulator_maintenance_handoff"), "NOT_ESTABLISHED");
    assert_eq!(text(&boundary, "remaining_robotis_product"), "NONE_UNTOUCHED; BUNDLE_QUALIFICATION_STILL_REQUIRED");
    assert_eq!(flag(&boundary, "robotis_bundle_complete"), false);
}

#[test]
fn the_boundary_carries_the_root_facts_and_residuals() {
    let boundary = release_boundary(&root());
    assert_eq!(boundary.len(), 48);
    assert_eq!(text(&boundary, "release_key"), "rx-development-release-root");
    assert_eq!(text(&boundary, "offline_revocation_freshness"), "CHECKPOINT_BOUNDED");
    match boundary_fact(&boundary, &"work_commit_residuals".to_string()) {
        Some(Fact::List(items)) => assert_eq!(items, &vec!["TTL_CONTINUES_DURING_POST_CUT_IO".to_string(),
            "HTTP_OBSERVATION_IS_AS_OF".to_string()]),
        other => panic!("{other:?}"),
    }
    assert!(boundary_fact(&boundary, &"absent".to_string()).is_none());
}
