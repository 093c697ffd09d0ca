use rx_supervisor::model::{
    Argument, Effect, Environment, GuardedStatusBinding, Plan, Process, Program, ReadyProbe,
};
use rx_supervisor::plan::{dependency_order, find_key};
use rx_supervisor::Error;

fn program(id: &str) -> Program {
    Program {
        id: id.to_string(),
        effect: Effect::NonActuating,
        executable: "/opt/rx/bin/demo".to_string(),
        executable_sha256: "00".repeat(32),
        files: vec![("config.toml".to_string(), "11".repeat(32))],
        fixed_arguments: vec!["--serve".to_string()],
        arguments: vec![
            (
                "mode".to_string(),
                Argument::Choice { flag: "--mode".to_string(), values: vec!["fast".to_string(), "slow".to_string()] },
            ),
            ("port".to_string(), Argument::Port { flag: "--port".to_string() }),
        ],
        ready: ReadyProbe::HttpStatus { port_parameter: "port".to_string() },
        execution_requirements: None,
        functional_readiness: None,
        decision_policy: None,
    }
}

fn process(id: &str, depends_on: &[&str], port: &str) -> Process {
    Process {
        id: id.to_string(),
        program: "rx/demo".to_string(),
        parameters: vec![("mode".to_string(), "fast".to_string()), ("port".to_string(), port.to_string())],
        depends_on: depends_on.iter().map(|d| d.to_string()).collect(),
        startup_timeout_ms: 1_000,
        shutdown_timeout_ms: 1_000,
        restart_limit: 1,
        restart_backoff_ms: 500,
    }
}

fn plan(processes: Vec<Process>) -> Plan {
    Plan {
        schema: "rx.solutions-process-plan.v1".to_string(),
        id: "plan-1".to_string(),
        environment: Environment::Simulation,
        profiles: vec![],
        processes,
    }
}

fn invalid(r: Result<(), Error>) -> String {
    match r {
        Err(Error::Invalid(m)) => m,
        other => panic!("expected an invalid plan, got {other:?}"),
    }
}

#[test]
fn launch_adds_each_argument_flag_and_value() {
    let launch = process("a", &[], "8080").launch(&program("rx/demo"), "inst-1".to_string()).unwrap();
    assert_eq!(launch.selection, "a");
    assert_eq!(launch.instance, "inst-1");
    assert_eq!(launch.arguments, vec!["--serve", "--mode", "fast", "--port", "8080"]);
    assert_eq!(launch.port, Some(8080));
}

#[test]
fn launch_refuses_bad_parameters() {
    let p = program("rx/demo");
    let mut choice = process("a", &[], "8080");
    choice.parameters[0].1 = "medium".to_string();
    assert!(matches!(choice.launch(&p, "i".to_string()), Err(Error::Invalid(m)) if m == "parameter choice"));
    for bad in ["80", "65536", "08080", "port"] {
        assert!(matches!(process("a", &[], bad).launch(&p, "i".to_string()), Err(Error::Invalid(m)) if m == "port"));
    }
    let mut missing = process("a", &[], "8080");
    missing.parameters.pop();
    assert!(matches!(missing.launch(&p, "i".to_string()), Err(Error::Invalid(m)) if m == "program parameters differ"));
    let mut empty = process("a", &[], "8080");
    empty.parameters[0].1 = String::new();
    assert!(matches!(empty.launch(&p, "i".to_string()), Err(Error::Invalid(m)) if m == "parameter value"));
}

#[test]
fn guarded_status_is_read_beside_the_authored_path_per_instance() {
    let mut p = program("rx/demo");
    p.effect = Effect::ProtocolGuardedService;
    p.ready = ReadyProbe::GuardedStatus(GuardedStatusBinding::Host {
        path: "/opt/rx/status/arm.json".to_string(),
        installation: "install".to_string(),
        host: "host".to_string(),
        installation_identity: "identity".to_string(),
    });
    let launch = process("a", &[], "8080").launch(&p, "inst-9".to_string()).unwrap();
    match launch.ready {
        ReadyProbe::GuardedStatus(binding) => assert_eq!(binding.path(), "/opt/rx/status/arm.inst-9.json"),
        other => panic!("unexpected {other:?}"),
    }
    let mut relative = p.clone();
    relative.ready = ReadyProbe::GuardedStatus(GuardedStatusBinding::Host {
        path: "status/arm.json".to_string(),
        installation: "install".to_string(),
        host: "host".to_string(),
        installation_identity: "identity".to_string(),
    });
    assert!(matches!(
        process("a", &[], "8080").launch(&relative, "i".to_string()),
        Err(Error::Invalid(m)) if m == "absolute release-owned status path required"
    ));
    let mut unguarded = program("rx/demo");
    unguarded.effect = Effect::ProtocolGuardedService;
    assert!(matches!(
        process("a", &[], "8080").launch(&unguarded, "i".to_string()),
        Err(Error::Invalid(m)) if m == "protocol-guarded effect requires its typed status binding"
    ));
}

#[test]
fn a_sound_plan_validates_and_orders_dependencies_first() {
    let processes = vec![process("b", &["a"], "8081"), process("a", &[], "8080")];
    let programs = vec![("rx/demo".to_string(), program("rx/demo"))];
    assert!(plan(processes.clone()).validate(&programs, &vec![]).is_ok());
    assert_eq!(dependency_order(&processes).unwrap(), vec![1, 0]);
}

#[test]
fn a_dependency_cycle_is_refused() {
    let processes = vec![process("a", &["b"], "8080"), process("b", &["a"], "8081")];
    let programs = vec![("rx/demo".to_string(), program("rx/demo"))];
    assert_eq!(invalid(plan(processes.clone()).validate(&programs, &vec![])), "process dependency cycle");
    assert!(dependency_order(&processes).is_err());
}

#[test]
fn plan_refusals_name_their_cause() {
    let programs = vec![("rx/demo".to_string(), program("rx/demo"))];
    assert_eq!(invalid(plan(vec![]).validate(&programs, &vec![])), "plan shape");
    let mut profiled = plan(vec![process("a", &[], "8080")]);
    profiled.profiles = vec!["gpu".to_string()];
    assert_eq!(invalid(profiled.validate(&programs, &vec![])), "unknown required support profile");
    assert!(profiled.validate(&programs, &vec!["gpu".to_string()]).is_ok());
    assert_eq!(
        invalid(plan(vec![process("a", &[], "8080"), process("a", &[], "8081")]).validate(&programs, &vec![])),
        "duplicate process"
    );
    assert_eq!(
        invalid(plan(vec![process("a", &[], "8080")]).validate(&vec![], &vec![])),
        "program not in release catalog"
    );
    assert_eq!(
        invalid(plan(vec![process("a", &["ghost"], "8080")]).validate(&programs, &vec![])),
        "dependency/timing/restart policy"
    );
    let mut fast = process("a", &[], "8080");
    fast.startup_timeout_ms = 99;
    assert_eq!(invalid(plan(vec![fast]).validate(&programs, &vec![])), "dependency/timing/restart policy");
}

#[test]
fn simulation_only_programs_stay_in_simulation() {
    let mut sim = program("rx/dhi-pty-simulation");
    sim.id = "rx/dhi-pty-simulation".to_string();
    let programs = vec![("rx/dhi-pty-simulation".to_string(), sim)];
    let mut p = process("a", &[], "8080");
    p.program = "rx/dhi-pty-simulation".to_string();
    p.restart_limit = 0;
    let mut physical = plan(vec![p.clone()]);
    physical.environment = Environment::Physical;
    assert_eq!(
        invalid(physical.validate(&programs, &vec![])),
        "DHI_SIMULATION_ONLY_EXPLICIT_SESSION; physical plans and automatic restart are unsupported"
    );
    assert!(plan(vec![p]).validate(&programs, &vec![]).is_ok());
}

#[test]
fn find_key_returns_the_first_entry_with_the_key() {
    let entries = vec![("a".to_string(), 1), ("b".to_string(), 2), ("b".to_string(), 3)];
    assert_eq!(find_key(&entries, &"b".to_string()), Some(1));
    assert_eq!(find_key(&entries, &"c".to_string()), None);
}
