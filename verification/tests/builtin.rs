use rx_supervisor::builtin::{
    ai_sapiens, ai_worker, dhi, development_area_program, open_manipulator, programs_from_release, status_readiness,
    AreaDeclaration, Compiled, Inventory,
};
use rx_supervisor::decision::Kind;
use rx_supervisor::model::{Argument, Effect, ReadyProbe};
use rx_supervisor::use_assessment::StatusEndpoint;
use rx_supervisor::Error;

const DHI_SOURCES: [&str; 5] = [
    "tools/dhi/session.py",
    "tools/dhi/model.py",
    "tools/dhi/guardian.c",
    "tools/dhi/dependencies.json",
    "tools/dhi/endpoint-channels.json",
];

fn digest(content: &str) -> String {
    format!("sha256:{content}")
}

fn compiled(paths: &[&str]) -> Vec<(String, String)> {
    paths.iter().map(|p| (p.to_string(), digest(p))).collect()
}

fn all_compiled() -> Compiled {
    Compiled {
        status_script: digest("status"),
        device_catalog: digest("catalog"),
        dhi: compiled(&DHI_SOURCES),
        ai_worker: compiled(&["tools/ai-worker/l3_guard.py", "tools/ai-worker/dependencies.json"]),
        ai_sapiens: compiled(&["tools/ai-sapiens/asset_gate.py", "tools/ai-sapiens/dependencies.json"]),
        open_manipulator: compiled(&[
            "tools/ai-worker/l3_guard.py",
            "tools/open-manipulator/dependencies.json",
            "tools/open-manipulator/requirements.py",
        ]),
    }
}

fn base_inventory() -> Inventory {
    Inventory {
        files: vec![
            ("tools/solutions_status.py".to_string(), digest("status")),
            ("catalogs/device-support.v1.json".to_string(), digest("catalog")),
        ],
        external_files: vec![("/usr/bin/python3".to_string(), digest("python"))],
    }
}

fn with(inventory: &mut Inventory, paths: &[&str]) {
    for p in paths {
        inventory.files.push((p.to_string(), digest(p)));
    }
}

fn dhi_fixture() -> Inventory {
    let mut inventory = base_inventory();
    with(&mut inventory, &DHI_SOURCES);
    with(&mut inventory, &[
        "bin/rx-dhi-custody",
        "bin/rx-dhi-controller-manager",
        "dhi/lib/libdynamixel_hardware_interface.so",
        "dhi/lib/libdynamixel_sdk.so",
        "dhi/share/dynamixel_hardware_interface/param/dxl_model/dynamixel.model",
        "dhi/share/dynamixel_hardware_interface/param/dxl_model/xl430_w250.model",
    ]);
    inventory
}

fn root() -> String {
    "/opt/rx/release".to_string()
}

#[test]
fn the_status_readiness_contract_is_valid_and_has_two_uses() {
    let contract = status_readiness();
    assert!(contract.validate().is_ok());
    assert_eq!(contract.0.len(), 2);
    assert_eq!(contract.0[0].0, "diagnostics/operator-connected");
    assert_eq!(contract.0[1].0, "diagnostics/support-summary");
    assert_eq!(contract.0[1].1.endpoint, StatusEndpoint::SupportSummary);
    let names: Vec<&str> = contract.0[0].1.conditions.iter().map(|c| c.0.as_str()).collect();
    assert_eq!(names, vec![
        "operator/api-delegation",
        "report/current-instance",
        "report/native-package-count",
        "report/schema",
        "report/simulation-profile-count",
        "report/support-profile-count",
    ]);
}

#[test]
fn a_release_without_recipes_has_only_the_status_publisher() {
    let release = programs_from_release(&root(), &base_inventory(), &all_compiled()).unwrap();
    assert_eq!(release.programs.len(), 1);
    let (id, program) = &release.programs[0];
    assert_eq!(id, "rx/status-http");
    assert_eq!(program.effect, Effect::NonActuating);
    assert_eq!(program.executable, "/usr/bin/python3");
    assert_eq!(program.executable_sha256, digest("python"));
    assert_eq!(program.fixed_arguments, vec!["/opt/rx/release/tools/solutions_status.py", "serve"]);
    assert!(matches!(&program.arguments[0].1, Argument::Choice { flag, values } if flag == "--bind" && values.len() == 2));
    assert!(matches!(&program.ready, ReadyProbe::HttpStatus { port_parameter } if port_parameter == "port"));
    assert_eq!(release.pins[0].0, "/opt/rx/release/catalogs/device-support.v1.json");
    assert_eq!(release.pins[2].0, "/usr/bin/python3");
}

#[test]
fn changed_status_sources_are_refused() {
    let mut changed = base_inventory();
    changed.files[0].1 = digest("forged");
    assert!(matches!(programs_from_release(&root(), &changed, &all_compiled()),
        Err(Error::Invalid(m)) if m == "release/source-pin-mismatch; inventory cannot authorize changed source assets"));
    let mut missing = base_inventory();
    missing.external_files.clear();
    assert!(matches!(programs_from_release(&root(), &missing, &all_compiled()),
        Err(Error::Invalid(m)) if m == "required release file absent"));
}

#[test]
fn every_carried_recipe_is_offered() {
    let mut inventory = dhi_fixture();
    with(&mut inventory, &["tools/ai-worker/l3_guard.py", "tools/ai-worker/dependencies.json"]);
    with(&mut inventory, &["tools/ai-sapiens/asset_gate.py", "tools/ai-sapiens/dependencies.json"]);
    with(&mut inventory, &["tools/open-manipulator/dependencies.json", "tools/open-manipulator/requirements.py"]);
    let release = programs_from_release(&root(), &inventory, &all_compiled()).unwrap();
    let ids: Vec<&str> = release.programs.iter().map(|p| p.0.as_str()).collect();
    assert_eq!(ids, vec![
        "rx/status-http",
        "rx/dhi-pty-simulation",
        "rx/ai-worker-l3-simulation",
        "rx/ai-sapiens-asset-simulation",
        "rx/open-manipulator-l3-simulation",
    ]);
    assert_eq!(release.programs[1].1.effect, Effect::RequiresPlatformAuthority);
    assert!(release.pins.iter().any(|p| p.0 == "/opt/rx/release/bin/rx-dhi-controller-manager"));
    assert!(release.pins.iter().any(|p| p.0 == "/opt/rx/release/tools/open-manipulator/requirements.py"));
}

#[test]
fn forged_inventory_cannot_authorize_changed_dhi_source() {
    let mut inventory = dhi_fixture();
    assert!(dhi::source_pins(&root(), &inventory, &compiled(&DHI_SOURCES)).unwrap().is_some());
    for path in DHI_SOURCES {
        let at = inventory.files.iter().position(|f| f.0 == path).unwrap();
        let original = inventory.files[at].1.clone();
        inventory.files[at].1 = digest("forged source");
        assert!(matches!(dhi::source_pins(&root(), &inventory, &compiled(&DHI_SOURCES)),
            Err(Error::Invalid(m)) if m.contains("source-pin-mismatch")));
        inventory.files[at].1 = original;
    }
}

#[test]
fn partial_installation_is_not_a_legacy_release_fallback() {
    let mut inventory = dhi_fixture();
    inventory.files.clear();
    assert!(dhi::source_pins(&root(), &inventory, &compiled(&DHI_SOURCES)).unwrap().is_none());
    inventory.files.push(("bin/rx-dhi-custody".to_string(), digest("binary")));
    assert!(dhi::source_pins(&root(), &inventory, &compiled(&DHI_SOURCES)).is_err());
}

#[test]
fn partial_ai_worker_l3_installation_is_not_a_legacy_fallback() {
    let sources = compiled(&["tools/ai-worker/l3_guard.py", "tools/ai-worker/dependencies.json"]);
    let mut inventory = Inventory { files: vec![], external_files: vec![] };
    assert!(ai_worker::source_pins(&root(), &inventory, &sources).unwrap().is_none());
    inventory.files.push(("tools/ai-worker/l3_guard.py".to_string(), digest("partial")));
    assert!(ai_worker::source_pins(&root(), &inventory, &sources).is_err());
}

#[test]
fn dhi_files_cover_its_sources_pins_and_packaged_libraries() {
    let recipe = dhi::program(&root(), &dhi_fixture(), &compiled(&DHI_SOURCES)).unwrap().unwrap();
    let files: Vec<&str> = recipe.program.files.iter().map(|f| f.0.as_str()).collect();
    assert_eq!(files.len(), 5 + 2 + 4);
    assert_eq!(files[5], "/opt/rx/release/bin/rx-dhi-custody");
    assert_eq!(files[6], "/opt/rx/release/bin/rx-dhi-controller-manager");
    assert!(files[7..].iter().all(|f| f.starts_with("/opt/rx/release/dhi/")));
    let mut no_manager = dhi_fixture();
    no_manager.files.retain(|f| f.0 != "bin/rx-dhi-controller-manager");
    assert!(matches!(dhi::program(&root(), &no_manager, &compiled(&DHI_SOURCES)),
        Err(Error::Invalid(m)) if m == "DHI_MANAGER_RELEASE_PIN_REQUIRED"));
    let mut no_sdk = dhi_fixture();
    no_sdk.files.retain(|f| f.0 != "dhi/lib/libdynamixel_sdk.so");
    assert!(matches!(dhi::program(&root(), &no_sdk, &compiled(&DHI_SOURCES)),
        Err(Error::Invalid(m)) if m == "DHI_RELEASE_CONTENT_REQUIRED: dhi/lib/libdynamixel_sdk.so"));
}

#[test]
fn simulation_recipes_pin_python_and_their_state() {
    let mut inventory = base_inventory();
    with(&mut inventory, &["tools/ai-worker/l3_guard.py", "tools/ai-worker/dependencies.json"]);
    let recipe = ai_worker::program(&root(), &inventory, &all_compiled().ai_worker).unwrap().unwrap();
    assert_eq!(recipe.program.fixed_arguments[2..], ["--state", "/var/lib/rx-solutions/ai-worker-l3", "--owner", "rx"]);
    assert_eq!(recipe.pins.last().unwrap().0, "/usr/bin/python3");
    inventory.external_files.clear();
    assert!(matches!(ai_worker::program(&root(), &inventory, &all_compiled().ai_worker),
        Err(Error::Invalid(m)) if m == "AI_WORKER_PYTHON_RELEASE_PIN_REQUIRED"));

    let mut sapiens = base_inventory();
    with(&mut sapiens, &["tools/ai-sapiens/asset_gate.py", "tools/ai-sapiens/dependencies.json"]);
    let recipe = ai_sapiens::program(&root(), &sapiens, &all_compiled().ai_sapiens).unwrap().unwrap();
    assert!(matches!(recipe.program.ready, ReadyProbe::AliveOnly));
    assert_eq!(recipe.program.fixed_arguments[1], "probe");

    let mut manipulator = base_inventory();
    with(&mut manipulator, &["tools/open-manipulator/dependencies.json", "tools/open-manipulator/requirements.py"]);
    assert!(matches!(open_manipulator::program(&root(), &manipulator, &all_compiled().open_manipulator),
        Err(Error::Invalid(m)) if m == "release/source-pin-mismatch; OpenMANIPULATOR L3 source changed"));
    with(&mut manipulator, &["tools/ai-worker/l3_guard.py"]);
    let recipe = open_manipulator::program(&root(), &manipulator, &all_compiled().open_manipulator).unwrap().unwrap();
    assert_eq!(recipe.program.files.len(), 3);
}

fn area() -> AreaDeclaration {
    AreaDeclaration {
        program: "rx/work/cell-a".to_string(),
        key_id: "area-key".to_string(),
        issuer: "cell-a-judge".to_string(),
        public_key: [3u8; 32],
        area: "cell-a".to_string(),
        role: "work/support-gap-report".to_string(),
        max_ttl_ms: 30_000,
    }
}

#[test]
fn an_area_program_is_the_status_publisher_under_the_area_authority() {
    let recipe = development_area_program(&root(), &base_inventory(), &all_compiled(), Ok(Some(area()))).unwrap();
    assert_eq!(recipe.program.id, "rx/work/cell-a");
    let policy = recipe.program.decision_policy.unwrap();
    assert_eq!(policy.authorities.len(), 1);
    assert_eq!(policy.authorities[0].0, "area-key");
    assert_eq!(policy.authorities[0].1.kinds, vec![Kind::WorkUse]);
    assert!(policy.validate().is_ok());
    assert!(matches!(development_area_program(&root(), &base_inventory(), &all_compiled(), Ok(None)),
        Err(Error::Invalid(m)) if m == "area-catalog/program-not-authored"));
    assert!(matches!(development_area_program(&root(), &base_inventory(), &all_compiled(), Err("bad catalog".to_string())),
        Err(Error::Invalid(m)) if m == "bad catalog"));
}
