//! The release boundary a build reports: what this release's trust rests
//! on, and what it does not establish. Inspection only; never admission or
//! work permission.
use vstd::prelude::*;
use crate::plan::{find_key, key_of};

verus! {

/// One reported fact.
#[derive(Debug)]
pub enum Fact {
    Text(String),
    Flag(bool),
    List(Vec<String>),
}

/// The mathematical content of a fact.
pub enum FactView {
    Text(Seq<char>),
    Flag(bool),
    List(Seq<Seq<char>>),
}

impl Fact {
    pub open spec fn fact_view(&self) -> FactView {
        match *self {
            Fact::Text(t) => FactView::Text(t@),
            Fact::Flag(b) => FactView::Flag(b),
            Fact::List(l) => FactView::List(l@.map_values(|s: String| s@)),
        }
    }
}

/// What the release root states of itself: its key, the custody of its
/// development signing key, the status of the previous root, whether both
/// roots are accepted for a window, and how fresh offline revocation is.
#[derive(Debug)]
pub struct RootFacts {
    pub key_id: String,
    pub signing_custody: String,
    pub previous_root: String,
    pub dual_root_window: bool,
    pub offline_revocation_freshness: String,
}

/// The boundary facts, by name.
pub open spec fn boundary_table(root: RootFacts) -> Seq<(Seq<char>, FactView)> {
    seq![
        ("ai_sapiens"@, FactView::Text("0.2.2; ASSET_GATE_SIMULATION_ONLY; PHYSICAL_START_WITHHELD"@)),
        ("ai_sapiens_onnx_runtime"@, FactView::Text("1.23.2_DECLARED_SEPARATELY_FROM_POLICY_ASSETS"@)),
        ("ai_sapiens_policy_assets"@, FactView::Text("FOUR_HASHED_POLICIES; REQUIRED_BEFORE_OUTPUT"@)),
        ("ai_sapiens_residual_control"@, FactView::Text("MISSING_OR_FAILED_POLICY_OUTPUTS_ZERO"@)),
        ("ai_worker"@, FactView::Text("2.2.7; PINNED_SOURCE; L3_SIMULATION_RECIPE_ONLY; PHYSICAL_START_WITHHELD"@)),
        ("ai_worker_compose_restart_admission_verified"@, FactView::Flag(true)),
        ("ai_worker_compose_restart_disposition"@, FactView::Text("BLOCKED_AND_RECORDED_AT_RX_SERVICE_GENERATION_GATE"@)),
        ("ai_worker_l3_owner"@, FactView::Text("ONE_SERVICE_GENERATION_OWNER; AUTHORITY_TO_CREATE_REPLACEMENT_ROOT_PROCESS_TREE"@)),
        ("ai_worker_rt_authority"@, FactView::Text("NOT_GRANTED_OR_QUALIFIED; PHYSICAL_PROFILE_REFUSED"@)),
        ("ai_worker_zed_assets"@, FactView::Text("NOT_INSTALLED_OR_QUALIFIED; PHYSICAL_PROFILE_REFUSED"@)),
        ("area_declaration_uniqueness"@, FactView::Text("COMPILED_CATALOG_ONLY; GENERIC_F6_POLICY_RETAINS_1_TO_8_AUTHORITIES"@)),
        ("authenticated_immutable_provenance"@, FactView::Text("NOT_ESTABLISHED_FOR_OS_AND_VERIFIER; DEVELOPMENT_RELEASE_CONTENT_AUTHENTICATED_AT_CHECKPOINT"@)),
        ("development_release_dual_root_window"@, FactView::Flag(root.dual_root_window)),
        ("development_release_previous_root"@, FactView::Text(root.previous_root@)),
        ("development_release_signing_custody"@, FactView::Text(root.signing_custody@)),
        ("dhi"@, FactView::Text("OPTIONAL_RELEASE_RECIPE; FRESH_PTY_MODEL_ONLY; ORIGINAL_DHI_COMMAND_AUTHOR; CM_LIFECYCLE; RX_DESCRIPTOR_CUSTODY"@)),
        ("dhi_compose_s6_reuse"@, FactView::Text("NOT_ESTABLISHED"@)),
        ("dhi_direct_mechanism_scope"@, FactView::Text("FRESH_PTY_ONLY; NO_PHYSICAL_ENDPOINT_OR_ADOPTION; PROCESS_EXIT_DOES_NOT_CLEAR_MODEL_RESIDUAL_OR_UNCONFIRMED_STOP"@)),
        ("dhi_effect_classification"@, FactView::Text("NONACTUATING_FRESH_PTY_REGISTERED_RELEASE_VERIFIED"@)),
        ("dhi_registered_release_admission_reason"@, FactView::Text("SIGNED_RESIDENT_PATH_R1_PRESERVED; FRESH_PTY_ONLY; PHYSICAL_NOT_QUALIFIED"@)),
        ("dhi_registered_release_admission_verified"@, FactView::Flag(true)),
        ("dhi_ros_admin_authority"@, FactView::Text("NOT_ESTABLISHED"@)),
        ("dhi_same_uid_tampering"@, FactView::Text("OUTSIDE_TRUST_BOUNDARY_CHMOD_PTRACE"@)),
        ("dynamixel"@, FactView::Text("ONE_HOST_OWNED_HELPER; OFFICIAL_SDK_4.1.0_PROTOCOL2_PING; SIMULATED_TRANSPORT_ONLY; REAL_ENDPOINT_REFUSED"@)),
        ("dynamixel_physical_qualification"@, FactView::Text("NOT_PERFORMED"@)),
        ("inspection"@, FactView::Text("OBSERVATION_ONLY; NOT_DURABLE_ADMISSION_OR_WORK_PERMISSION"@)),
        ("interval"@, FactView::Text("EXPLICIT_CALLER_DRIVEN_CHECKPOINTS"@)),
        ("inventory"@, FactView::Text("CONSISTENCY_INDEX_AUTHENTICATED_BY_COMPILED_DEVELOPMENT_ROOT"@)),
        ("judge_delivery_order"@, FactView::Text("COOPERATING_MAILBOX_LOCK_THROUGH_WORK_COMMIT; NONCOOPERATING_PUBLICATION_NOT_ORDERED"@)),
        ("monitor"@, FactView::Text("NO_TIMER_OR_BACKGROUND_MONITOR"@)),
        ("offline_revocation_freshness"@, FactView::Text(root.offline_revocation_freshness@)),
        ("open_manipulator"@, FactView::Text("5.1.2; L3_SIMULATION_ONLY; PHYSICAL_START_WITHHELD"@)),
        ("open_manipulator_l3_reuse"@, FactView::Text("VARIANT_REQUIRED; CATALOG_BOUND_SERVICE_IDENTITY; S6_PROCESS_RESTART_BLOCKED_AND_RECORDED"@)),
        ("open_manipulator_maintenance_handoff"@, FactView::Text("NOT_ESTABLISHED"@)),
        ("open_manipulator_realsense"@, FactView::Text("NOT_INSTALLED_OR_QUALIFIED"@)),
        ("operating_area_judge"@, FactView::Text("OPT_IN_DEVELOPMENT_OFFLINE_RULE_JUDGE; PHYSICAL_SAFETY_QUALITY_EQUIPMENT_QUALIFICATION_NOT_GRANTED"@)),
        ("operating_areas"@, FactView::Text("TWO_COMPILED_DEVELOPMENT_AREAS_WITH_DISTINCT_KEYS; SITE_ENROLLMENT_REFUSED; NO_NETWORK_OR_PHYSICAL_AUTHORITY"@)),
        ("product_release_custody_and_rotation"@, FactView::Text("NOT_ESTABLISHED"@)),
        ("release_key"@, FactView::Text(root.key_id@)),
        ("remaining_interval"@, FactView::Text("TRUSTED_INSTALLATION_STABILITY_BETWEEN_BYTE_CHECK_AND_USE"@)),
        ("remaining_robotis_product"@, FactView::Text("NONE_UNTOUCHED; BUNDLE_QUALIFICATION_STILL_REQUIRED"@)),
        ("robotis_bundle_complete"@, FactView::Flag(false)),
        ("robotis_bundle_completion_gaps"@, FactView::Text("FULL_NATIVE_BUILDS; CROSS_PRODUCT_COMPATIBILITY; PHYSICAL_QUALIFICATION; ASSET_LICENSE_CLOSURE; DEPLOYMENT_RECOVERY"@)),
        ("sdk_baseline_complete"@, FactView::Flag(false)),
        ("source_assets"@, FactView::Text("STATUS_SCRIPT_AND_DEVICE_CATALOG_MATCH_COMPILED_SOURCE_CONTENT"@)),
        ("trust"@, FactView::Text("TRUSTED_INSTALLED_RUST_BINARIES_AND_OS"@)),
        ("whole_state_rollback_or_deletion"@, FactView::Text("NOT_DETECTED"@)),
        ("work_commit_residuals"@, FactView::List(seq!["TTL_CONTINUES_DURING_POST_CUT_IO"@, "HTTP_OBSERVATION_IS_AS_OF"@])),
    ]
}

fn entry(key: &str, value: Fact) -> (r: (String, Fact))
    ensures
        r.0@ == key@,
        r.1 == value,
{
    (String::from_str(key), value)
}

/// The release boundary: every fact of `boundary_table`, in its order.
pub fn release_boundary(root: &RootFacts) -> (r: Vec<(String, Fact)>)
    ensures
        r@.len() == boundary_table(*root).len(),
        forall|i: int| 0 <= i < r@.len() ==> (#[trigger] r@[i]).0@ == boundary_table(*root)[i].0
            && r@[i].1.fact_view() == boundary_table(*root)[i].1,
{
    let r = vec![
        entry("ai_sapiens", Fact::Text(String::from_str("0.2.2; ASSET_GATE_SIMULATION_ONLY; PHYSICAL_START_WITHHELD"))),
        entry("ai_sapiens_onnx_runtime", Fact::Text(String::from_str("1.23.2_DECLARED_SEPARATELY_FROM_POLICY_ASSETS"))),
        entry("ai_sapiens_policy_assets", Fact::Text(String::from_str("FOUR_HASHED_POLICIES; REQUIRED_BEFORE_OUTPUT"))),
        entry("ai_sapiens_residual_control", Fact::Text(String::from_str("MISSING_OR_FAILED_POLICY_OUTPUTS_ZERO"))),
        entry("ai_worker", Fact::Text(String::from_str("2.2.7; PINNED_SOURCE; L3_SIMULATION_RECIPE_ONLY; PHYSICAL_START_WITHHELD"))),
        entry("ai_worker_compose_restart_admission_verified", Fact::Flag(true)),
        entry("ai_worker_compose_restart_disposition", Fact::Text(String::from_str("BLOCKED_AND_RECORDED_AT_RX_SERVICE_GENERATION_GATE"))),
        entry("ai_worker_l3_owner", Fact::Text(String::from_str("ONE_SERVICE_GENERATION_OWNER; AUTHORITY_TO_CREATE_REPLACEMENT_ROOT_PROCESS_TREE"))),
        entry("ai_worker_rt_authority", Fact::Text(String::from_str("NOT_GRANTED_OR_QUALIFIED; PHYSICAL_PROFILE_REFUSED"))),
        entry("ai_worker_zed_assets", Fact::Text(String::from_str("NOT_INSTALLED_OR_QUALIFIED; PHYSICAL_PROFILE_REFUSED"))),
        entry("area_declaration_uniqueness", Fact::Text(String::from_str("COMPILED_CATALOG_ONLY; GENERIC_F6_POLICY_RETAINS_1_TO_8_AUTHORITIES"))),
        entry("authenticated_immutable_provenance", Fact::Text(String::from_str("NOT_ESTABLISHED_FOR_OS_AND_VERIFIER; DEVELOPMENT_RELEASE_CONTENT_AUTHENTICATED_AT_CHECKPOINT"))),
        entry("development_release_dual_root_window", Fact::Flag(root.dual_root_window)),
        entry("development_release_previous_root", Fact::Text(root.previous_root.clone())),
        entry("development_release_signing_custody", Fact::Text(root.signing_custody.clone())),
        entry("dhi", Fact::Text(String::from_str("OPTIONAL_RELEASE_RECIPE; FRESH_PTY_MODEL_ONLY; ORIGINAL_DHI_COMMAND_AUTHOR; CM_LIFECYCLE; RX_DESCRIPTOR_CUSTODY"))),
        entry("dhi_compose_s6_reuse", Fact::Text(String::from_str("NOT_ESTABLISHED"))),
        entry("dhi_direct_mechanism_scope", Fact::Text(String::from_str("FRESH_PTY_ONLY; NO_PHYSICAL_ENDPOINT_OR_ADOPTION; PROCESS_EXIT_DOES_NOT_CLEAR_MODEL_RESIDUAL_OR_UNCONFIRMED_STOP"))),
        entry("dhi_effect_classification", Fact::Text(String::from_str("NONACTUATING_FRESH_PTY_REGISTERED_RELEASE_VERIFIED"))),
        entry("dhi_registered_release_admission_reason", Fact::Text(String::from_str("SIGNED_RESIDENT_PATH_R1_PRESERVED; FRESH_PTY_ONLY; PHYSICAL_NOT_QUALIFIED"))),
        entry("dhi_registered_release_admission_verified", Fact::Flag(true)),
        entry("dhi_ros_admin_authority", Fact::Text(String::from_str("NOT_ESTABLISHED"))),
        entry("dhi_same_uid_tampering", Fact::Text(String::from_str("OUTSIDE_TRUST_BOUNDARY_CHMOD_PTRACE"))),
        entry("dynamixel", Fact::Text(String::from_str("ONE_HOST_OWNED_HELPER; OFFICIAL_SDK_4.1.0_PROTOCOL2_PING; SIMULATED_TRANSPORT_ONLY; REAL_ENDPOINT_REFUSED"))),
        entry("dynamixel_physical_qualification", Fact::Text(String::from_str("NOT_PERFORMED"))),
        entry("inspection", Fact::Text(String::from_str("OBSERVATION_ONLY; NOT_DURABLE_ADMISSION_OR_WORK_PERMISSION"))),
        entry("interval", Fact::Text(String::from_str("EXPLICIT_CALLER_DRIVEN_CHECKPOINTS"))),
        entry("inventory", Fact::Text(String::from_str("CONSISTENCY_INDEX_AUTHENTICATED_BY_COMPILED_DEVELOPMENT_ROOT"))),
        entry("judge_delivery_order", Fact::Text(String::from_str("COOPERATING_MAILBOX_LOCK_THROUGH_WORK_COMMIT; NONCOOPERATING_PUBLICATION_NOT_ORDERED"))),
        entry("monitor", Fact::Text(String::from_str("NO_TIMER_OR_BACKGROUND_MONITOR"))),
        entry("offline_revocation_freshness", Fact::Text(root.offline_revocation_freshness.clone())),
        entry("open_manipulator", Fact::Text(String::from_str("5.1.2; L3_SIMULATION_ONLY; PHYSICAL_START_WITHHELD"))),
        entry("open_manipulator_l3_reuse", Fact::Text(String::from_str("VARIANT_REQUIRED; CATALOG_BOUND_SERVICE_IDENTITY; S6_PROCESS_RESTART_BLOCKED_AND_RECORDED"))),
        entry("open_manipulator_maintenance_handoff", Fact::Text(String::from_str("NOT_ESTABLISHED"))),
        entry("open_manipulator_realsense", Fact::Text(String::from_str("NOT_INSTALLED_OR_QUALIFIED"))),
        entry("operating_area_judge", Fact::Text(String::from_str("OPT_IN_DEVELOPMENT_OFFLINE_RULE_JUDGE; PHYSICAL_SAFETY_QUALITY_EQUIPMENT_QUALIFICATION_NOT_GRANTED"))),
        entry("operating_areas", Fact::Text(String::from_str("TWO_COMPILED_DEVELOPMENT_AREAS_WITH_DISTINCT_KEYS; SITE_ENROLLMENT_REFUSED; NO_NETWORK_OR_PHYSICAL_AUTHORITY"))),
        entry("product_release_custody_and_rotation", Fact::Text(String::from_str("NOT_ESTABLISHED"))),
        entry("release_key", Fact::Text(root.key_id.clone())),
        entry("remaining_interval", Fact::Text(String::from_str("TRUSTED_INSTALLATION_STABILITY_BETWEEN_BYTE_CHECK_AND_USE"))),
        entry("remaining_robotis_product", Fact::Text(String::from_str("NONE_UNTOUCHED; BUNDLE_QUALIFICATION_STILL_REQUIRED"))),
        entry("robotis_bundle_complete", Fact::Flag(false)),
        entry("robotis_bundle_completion_gaps", Fact::Text(String::from_str("FULL_NATIVE_BUILDS; CROSS_PRODUCT_COMPATIBILITY; PHYSICAL_QUALIFICATION; ASSET_LICENSE_CLOSURE; DEPLOYMENT_RECOVERY"))),
        entry("sdk_baseline_complete", Fact::Flag(false)),
        entry("source_assets", Fact::Text(String::from_str("STATUS_SCRIPT_AND_DEVICE_CATALOG_MATCH_COMPILED_SOURCE_CONTENT"))),
        entry("trust", Fact::Text(String::from_str("TRUSTED_INSTALLED_RUST_BINARIES_AND_OS"))),
        entry("whole_state_rollback_or_deletion", Fact::Text(String::from_str("NOT_DETECTED"))),
        entry("work_commit_residuals", Fact::List(vec![String::from_str("TTL_CONTINUES_DURING_POST_CUT_IO"), String::from_str("HTTP_OBSERVATION_IS_AS_OF")])),
    ];
    proof {
        assert(r@[0].0@ == boundary_table(*root)[0].0 && r@[0].1.fact_view() == boundary_table(*root)[0].1);
        assert(r@[1].0@ == boundary_table(*root)[1].0 && r@[1].1.fact_view() == boundary_table(*root)[1].1);
        assert(r@[2].0@ == boundary_table(*root)[2].0 && r@[2].1.fact_view() == boundary_table(*root)[2].1);
        assert(r@[3].0@ == boundary_table(*root)[3].0 && r@[3].1.fact_view() == boundary_table(*root)[3].1);
        assert(r@[4].0@ == boundary_table(*root)[4].0 && r@[4].1.fact_view() == boundary_table(*root)[4].1);
        assert(r@[5].0@ == boundary_table(*root)[5].0 && r@[5].1.fact_view() == boundary_table(*root)[5].1);
        assert(r@[6].0@ == boundary_table(*root)[6].0 && r@[6].1.fact_view() == boundary_table(*root)[6].1);
        assert(r@[7].0@ == boundary_table(*root)[7].0 && r@[7].1.fact_view() == boundary_table(*root)[7].1);
        assert(r@[8].0@ == boundary_table(*root)[8].0 && r@[8].1.fact_view() == boundary_table(*root)[8].1);
        assert(r@[9].0@ == boundary_table(*root)[9].0 && r@[9].1.fact_view() == boundary_table(*root)[9].1);
        assert(r@[10].0@ == boundary_table(*root)[10].0 && r@[10].1.fact_view() == boundary_table(*root)[10].1);
        assert(r@[11].0@ == boundary_table(*root)[11].0 && r@[11].1.fact_view() == boundary_table(*root)[11].1);
        assert(r@[12].0@ == boundary_table(*root)[12].0 && r@[12].1.fact_view() == boundary_table(*root)[12].1);
        assert(r@[13].0@ == boundary_table(*root)[13].0 && r@[13].1.fact_view() == boundary_table(*root)[13].1);
        assert(r@[14].0@ == boundary_table(*root)[14].0 && r@[14].1.fact_view() == boundary_table(*root)[14].1);
        assert(r@[15].0@ == boundary_table(*root)[15].0 && r@[15].1.fact_view() == boundary_table(*root)[15].1);
        assert(r@[16].0@ == boundary_table(*root)[16].0 && r@[16].1.fact_view() == boundary_table(*root)[16].1);
        assert(r@[17].0@ == boundary_table(*root)[17].0 && r@[17].1.fact_view() == boundary_table(*root)[17].1);
        assert(r@[18].0@ == boundary_table(*root)[18].0 && r@[18].1.fact_view() == boundary_table(*root)[18].1);
        assert(r@[19].0@ == boundary_table(*root)[19].0 && r@[19].1.fact_view() == boundary_table(*root)[19].1);
        assert(r@[20].0@ == boundary_table(*root)[20].0 && r@[20].1.fact_view() == boundary_table(*root)[20].1);
        assert(r@[21].0@ == boundary_table(*root)[21].0 && r@[21].1.fact_view() == boundary_table(*root)[21].1);
        assert(r@[22].0@ == boundary_table(*root)[22].0 && r@[22].1.fact_view() == boundary_table(*root)[22].1);
        assert(r@[23].0@ == boundary_table(*root)[23].0 && r@[23].1.fact_view() == boundary_table(*root)[23].1);
        assert(r@[24].0@ == boundary_table(*root)[24].0 && r@[24].1.fact_view() == boundary_table(*root)[24].1);
        assert(r@[25].0@ == boundary_table(*root)[25].0 && r@[25].1.fact_view() == boundary_table(*root)[25].1);
        assert(r@[26].0@ == boundary_table(*root)[26].0 && r@[26].1.fact_view() == boundary_table(*root)[26].1);
        assert(r@[27].0@ == boundary_table(*root)[27].0 && r@[27].1.fact_view() == boundary_table(*root)[27].1);
        assert(r@[28].0@ == boundary_table(*root)[28].0 && r@[28].1.fact_view() == boundary_table(*root)[28].1);
        assert(r@[29].0@ == boundary_table(*root)[29].0 && r@[29].1.fact_view() == boundary_table(*root)[29].1);
        assert(r@[30].0@ == boundary_table(*root)[30].0 && r@[30].1.fact_view() == boundary_table(*root)[30].1);
        assert(r@[31].0@ == boundary_table(*root)[31].0 && r@[31].1.fact_view() == boundary_table(*root)[31].1);
        assert(r@[32].0@ == boundary_table(*root)[32].0 && r@[32].1.fact_view() == boundary_table(*root)[32].1);
        assert(r@[33].0@ == boundary_table(*root)[33].0 && r@[33].1.fact_view() == boundary_table(*root)[33].1);
        assert(r@[34].0@ == boundary_table(*root)[34].0 && r@[34].1.fact_view() == boundary_table(*root)[34].1);
        assert(r@[35].0@ == boundary_table(*root)[35].0 && r@[35].1.fact_view() == boundary_table(*root)[35].1);
        assert(r@[36].0@ == boundary_table(*root)[36].0 && r@[36].1.fact_view() == boundary_table(*root)[36].1);
        assert(r@[37].0@ == boundary_table(*root)[37].0 && r@[37].1.fact_view() == boundary_table(*root)[37].1);
        assert(r@[38].0@ == boundary_table(*root)[38].0 && r@[38].1.fact_view() == boundary_table(*root)[38].1);
        assert(r@[39].0@ == boundary_table(*root)[39].0 && r@[39].1.fact_view() == boundary_table(*root)[39].1);
        assert(r@[40].0@ == boundary_table(*root)[40].0 && r@[40].1.fact_view() == boundary_table(*root)[40].1);
        assert(r@[41].0@ == boundary_table(*root)[41].0 && r@[41].1.fact_view() == boundary_table(*root)[41].1);
        assert(r@[42].0@ == boundary_table(*root)[42].0 && r@[42].1.fact_view() == boundary_table(*root)[42].1);
        assert(r@[43].0@ == boundary_table(*root)[43].0 && r@[43].1.fact_view() == boundary_table(*root)[43].1);
        assert(r@[44].0@ == boundary_table(*root)[44].0 && r@[44].1.fact_view() == boundary_table(*root)[44].1);
        assert(r@[45].0@ == boundary_table(*root)[45].0 && r@[45].1.fact_view() == boundary_table(*root)[45].1);
        assert(r@[46].0@ == boundary_table(*root)[46].0 && r@[46].1.fact_view() == boundary_table(*root)[46].1);
        if let Fact::List(l) = r@[47].1 {
            assert(l@.map_values(|s: String| s@) =~= seq!["TTL_CONTINUES_DURING_POST_CUT_IO"@, "HTTP_OBSERVATION_IS_AS_OF"@]);
        }
        assert(r@[47].0@ == boundary_table(*root)[47].0 && r@[47].1.fact_view() == boundary_table(*root)[47].1);
    }
    r
}

/// The fact reported under `key`, if any.
pub fn boundary_fact<'a>(boundary: &'a Vec<(String, Fact)>, key: &String) -> (r: Option<&'a Fact>)
    ensures
        match key_of(boundary@, key@) {
            Some(i) => r == Some(&boundary@[i].1),
            None => r is None,
        },
{
    match find_key(boundary, key) {
        Some(i) => Some(&boundary[i].1),
        None => None,
    }
}

} // verus!
