use rx_supervisor::execution::{Capacity, Decision, Request, Requirement, Requirements};
use rx_supervisor::model::{Effect, GuardedStatusBinding, Launch, ReadyProbe};
use rx_supervisor::process::linux_limits::{
    admit_gated, expected_cmdline, gate_step, observed_limit, policy, rollback_result, GateAction, GateEvent,
    GateStage,
};
use rx_supervisor::process::{
    guarded_cut, guarded_ready, guarded_source, host_admission, http_body, kill_arguments, launch_environment,
    log_names, observed_report, probe_port, ready_report, ready_without_probe, status_reply, status_source,
    termination_plan, unread_report, Admission, ReplyFault, SpawnFailure, StatusSource,
};
use rx_supervisor::registration::TimePoint;
use rx_supervisor::supervisor::{GuardedObservation, GuardedState};
use rx_supervisor::text::trim;
use rx_supervisor::use_assessment::{
    Reported, Scalar, StatusEndpoint, StatusObservationRequest, StatusObservationResult, UseScope, UseSubject,
};
use rx_supervisor::Error;

fn launch(effect: Effect, ready: ReadyProbe, port: Option<u16>) -> Launch {
    Launch {
        selection: "probe".to_string(),
        instance: "inst-1".to_string(),
        effect,
        executable: "/usr/bin/python3".to_string(),
        executable_sha256: "sha256:python".to_string(),
        files: vec![],
        arguments: vec!["-c".to_string(), "print(1)".to_string()],
        ready,
        port,
    }
}

fn http() -> ReadyProbe {
    ReadyProbe::HttpStatus { port_parameter: "port".to_string() }
}

fn observation_request(instance: &str, pid: u32) -> StatusObservationRequest {
    let subject = UseSubject {
        registration: "reg-1".to_string(),
        registration_revision: 1,
        program: "arm".to_string(),
        catalog_digest: "catalog".to_string(),
        run: "run-1".to_string(),
        selection: "probe".to_string(),
        instance: Some(instance.to_string()),
        pid: Some(pid),
    };
    let scope = UseScope { operating_area: "cell-a".to_string(), role: "operator".to_string() };
    StatusObservationRequest::new(subject, scope, StatusEndpoint::Health)
}

fn condition(r: &StatusObservationResult) -> (u8, String, String) {
    match r {
        StatusObservationResult::NotEvaluated { condition, reason } => (0, condition.clone(), reason.clone()),
        StatusObservationResult::NotMet { condition, reason } => (1, condition.clone(), reason.clone()),
        StatusObservationResult::Unsupported { condition, reason } => (2, condition.clone(), reason.clone()),
        StatusObservationResult::Observed(_) => panic!("no answer expected"),
    }
}

fn address_space(amount: u64) -> Requirements {
    Requirements(vec![(
        "usage/address-space".to_string(),
        Requirement::UpperBound { resource: Capacity::AddressSpaceBytes, amount },
    )])
}

fn limit_request(rs: Requirements) -> Request {
    Request::new("test/resource".to_string(), "probe".to_string(), "inst-1".to_string(), "plan".to_string(), rs)
}

fn observation(sequence: u64, clock: &str, ticks: u64, digest: &str) -> GuardedObservation {
    GuardedObservation {
        state: GuardedState::Ready,
        sequence,
        observed_at: TimePoint { clock_id: clock.to_string(), ticks_ns: ticks },
        payload_digest: digest.to_string(),
    }
}

#[test]
fn http_body_starts_after_the_blank_line() {
    let reply = b"HTTP/1.1 200 OK\r\nContent-Type: application/json\r\n\r\n{\"a\":1}".to_vec();
    let start = http_body(&reply).unwrap();
    assert_eq!(&reply[start..], b"{\"a\":1}");
    assert_eq!(http_body(&b"HTTP/1.0 200 OK\r\n\r\n".to_vec()), Ok(19));
}

#[test]
fn http_body_judges_size_then_format_then_status() {
    let mut big = b"HTTP/1.1 404 Nope\r\n\r\n".to_vec();
    big.resize(1_048_577, b'x');
    assert_eq!(http_body(&big), Err(ReplyFault::TooLarge));
    let mut limit = b"HTTP/1.1 200 OK\r\n\r\n".to_vec();
    limit.resize(1_048_576, b'x');
    assert!(http_body(&limit).is_ok());
    assert_eq!(http_body(&b"HTTP/1.1 404 Nope\r\n".to_vec()), Err(ReplyFault::Malformed));
    assert_eq!(http_body(&b"HTTP/1.1 404 Nope\r\n\r\n{}".to_vec()), Err(ReplyFault::NotOk));
    assert_eq!(http_body(&b"HTTP/2.0 200 OK\r\n\r\n{}".to_vec()), Err(ReplyFault::NotOk));
    assert_eq!(http_body(&b"HTTP/1.1 200\r\n\r\n".to_vec()), Err(ReplyFault::NotOk));
}

#[test]
fn status_reply_names_each_fault() {
    let bad = status_reply(&b"garbage".to_vec()).unwrap_err();
    assert_eq!(condition(&bad), (1, "report/http-format".to_string(), "malformed HTTP response".to_string()));
    let status = status_reply(&b"HTTP/1.1 500 Oops\r\n\r\n".to_vec()).unwrap_err();
    assert_eq!(condition(&status).1, "report/http-status");
    let mut big = vec![b'x'; 1_048_577];
    big[0] = b'H';
    assert_eq!(condition(&status_reply(&big).unwrap_err()).1, "report/size");
    assert_eq!(condition(&unread_report(false)).2, "no HTTP response obtained; declared conditions not evaluated");
    assert_eq!(condition(&unread_report(true)).2, "complete HTTP response not obtained; no readiness inferred");
}

#[test]
fn status_source_checks_in_order() {
    let request = observation_request("inst-1", 4242);
    let never = || -> Result<bool, String> { panic!("exit is asked only after the binding checks") };
    let alive = launch(Effect::NonActuating, ReadyProbe::AliveOnly, Some(8080));
    match status_source(&alive, &request, Some(4242), Some(Effect::NonActuating), never).unwrap() {
        StatusSource::Answer(a) => assert_eq!(condition(&a).1, "readiness/status-source"),
        StatusSource::Port(_) => panic!("AliveOnly has no status source"),
    }
    let l = launch(Effect::NonActuating, http(), Some(8080));
    match status_source(&l, &request, None, Some(Effect::NonActuating), never).unwrap() {
        StatusSource::Answer(a) => assert_eq!(condition(&a).0, 0),
        StatusSource::Port(_) => panic!("no owner"),
    }
    match status_source(&l, &request, Some(4242), Some(Effect::RequiresPlatformAuthority), never).unwrap() {
        StatusSource::Answer(a) => assert_eq!(condition(&a).1, "report/owned-effect"),
        StatusSource::Port(_) => panic!("control owner"),
    }
    match status_source(&l, &request, Some(7), Some(Effect::NonActuating), never).unwrap() {
        StatusSource::Answer(a) => assert_eq!(condition(&a).1, "report/owner-binding"),
        StatusSource::Port(_) => panic!("other pid"),
    }
    let exited = || -> Result<bool, String> { Ok(true) };
    match status_source(&l, &request, Some(4242), Some(Effect::NonActuating), exited).unwrap() {
        StatusSource::Answer(a) => assert_eq!(condition(&a).1, "execution/current-child"),
        StatusSource::Port(_) => panic!("exited child"),
    }
    let running = || -> Result<bool, String> { Ok(false) };
    assert!(matches!(
        status_source(&l, &request, Some(4242), Some(Effect::NonActuating), running).unwrap(),
        StatusSource::Port(8080)
    ));
    let portless = launch(Effect::NonActuating, http(), None);
    match status_source(&portless, &request, Some(4242), Some(Effect::NonActuating), running).unwrap() {
        StatusSource::Answer(a) => assert_eq!(condition(&a).1, "report/http-binding"),
        StatusSource::Port(_) => panic!("no port"),
    }
    let failing = || -> Result<bool, String> { Err("wait failed".to_string()) };
    assert!(matches!(
        status_source(&l, &request, Some(4242), Some(Effect::NonActuating), failing),
        Err(Error::Io(m)) if m == "wait failed"
    ));
}

#[test]
fn observed_report_binds_the_request() {
    let request = observation_request("inst-1", 4242);
    let none = observed_report(&request, None, || -> Result<bool, String> { panic!("not asked") }).unwrap();
    assert_eq!(condition(&none).1, "report/json-format");
    let decoded = || {
        Some((
            Reported { fields: vec![("supervisor_instance".to_string(), Scalar::Text("inst-1".to_string()))] },
            TimePoint { clock_id: "unix-utc-ns".to_string(), ticks_ns: 5 },
            "sha256:report".to_string(),
        ))
    };
    let gone = observed_report(&request, decoded(), || Ok(true)).unwrap();
    assert_eq!(condition(&gone).2, "owned child exited while its response was read");
    match observed_report(&request, decoded(), || Ok(false)).unwrap() {
        StatusObservationResult::Observed(o) => assert!(o.request().matches(&request)),
        other => panic!("expected an observation, got {other:?}"),
    }
}

#[test]
fn readiness_without_and_with_a_report() {
    assert_eq!(ready_without_probe(false, &ReadyProbe::AliveOnly), Some(false));
    assert_eq!(ready_without_probe(true, &ReadyProbe::AliveOnly), Some(true));
    assert_eq!(ready_without_probe(true, &http()), None);
    assert!(matches!(probe_port(None), Err(Error::Invalid(m)) if m == "probe port missing"));
    assert_eq!(probe_port(Some(9)).unwrap(), 9);
    assert!(ready_report(
        Some("rx.solutions-status.v1"),
        Some("SOFTWARE_READY_UNCOMMISSIONED"),
        Some("inst-1"),
        "inst-1"
    ));
    assert!(!ready_report(Some("rx.solutions-status.v1"), Some("SOFTWARE_READY_UNCOMMISSIONED"), Some("inst-2"), "inst-1"));
    assert!(!ready_report(None, Some("SOFTWARE_READY_UNCOMMISSIONED"), Some("inst-1"), "inst-1"));
    assert!(guarded_ready(&Some(observation(1, "c", 1, "d"))));
    let mut stopped = observation(1, "c", 1, "d");
    stopped.state = GuardedState::Stopped { reconciliation_required: false };
    assert!(!guarded_ready(&Some(stopped)));
    assert!(!guarded_ready(&None));
}

#[test]
fn guarded_reads_never_go_back() {
    let binding = GuardedStatusBinding::Host {
        path: "/run/rx/status.json".to_string(),
        installation: "inst".to_string(),
        host: "host".to_string(),
        installation_identity: "id".to_string(),
    };
    let guarded = launch(Effect::ProtocolGuardedService, ReadyProbe::GuardedStatus(binding), None);
    assert_eq!(guarded_source(&guarded, Some(5)).unwrap().1, 5);
    assert!(matches!(guarded_source(&guarded, None), Err(Error::Reconciliation(m)) if m == "no owned child for status read"));
    let plain = launch(Effect::NonActuating, ReadyProbe::AliveOnly, None);
    assert!(matches!(guarded_source(&plain, Some(5)), Err(Error::Invalid(m)) if m == "guarded status binding required"));

    let last = observation(3, "mono", 100, "d3");
    let regressed = "guarded status cut regressed or changed";
    for next in [
        observation(2, "mono", 200, "d2"),
        observation(4, "other", 200, "d4"),
        observation(4, "mono", 50, "d4"),
        observation(3, "mono", 100, "changed"),
    ] {
        assert!(matches!(guarded_cut(Some(&last), Ok(Some(next))), Err(Error::Reconciliation(m)) if m == regressed));
    }
    let same = guarded_cut(Some(&last), Ok(Some(observation(3, "mono", 100, "d3")))).unwrap().unwrap();
    assert_eq!(same.sequence, 3);
    let later = guarded_cut(Some(&last), Ok(Some(observation(4, "mono", 150, "d4")))).unwrap().unwrap();
    assert_eq!(later.payload_digest, "d4");
    assert!(guarded_cut(Some(&last), Ok(None)).unwrap().is_none());
    assert!(guarded_cut(None, Ok(Some(observation(0, "mono", 0, "d")))).unwrap().is_some());
    assert!(matches!(guarded_cut(None, Err("unreadable".to_string())), Err(Error::Reconciliation(m)) if m == "unreadable"));
}

#[test]
fn termination_signals_the_group_or_the_guarded_service() {
    assert!(matches!(
        termination_plan(Some(Effect::ProtocolGuardedService), true, Some(10)),
        Err(Error::Invalid(m)) if m == "protocol-guarded services cannot be force-killed"
    ));
    assert!(matches!(
        termination_plan(Some(Effect::NonActuating), false, None),
        Err(Error::Reconciliation(m)) if m == "cannot signal a recorded PID without its live child handle"
    ));
    assert_eq!(termination_plan(Some(Effect::ProtocolGuardedService), false, Some(10)).unwrap(), (true, 10));
    assert_eq!(termination_plan(None, true, Some(10)).unwrap(), (false, 10));
    assert_eq!(kill_arguments(true, false, 4242), vec!["-TERM", "--", "4242"]);
    assert_eq!(kill_arguments(false, true, 4242), vec!["-KILL", "--", "-4242"]);
}

#[test]
fn launch_environment_is_cleared_and_names_the_instance() {
    let plain = launch(Effect::NonActuating, ReadyProbe::AliveOnly, None);
    let expected: Vec<(String, String)> = vec![
        ("PATH".to_string(), "/usr/bin:/bin".to_string()),
        ("LANG".to_string(), "C.UTF-8".to_string()),
        ("PYTHONDONTWRITEBYTECODE".to_string(), "1".to_string()),
        ("RX_PROCESS_INSTANCE_ID".to_string(), "inst-1".to_string()),
    ];
    assert_eq!(launch_environment(&plain), expected);
    let binding = GuardedStatusBinding::Host {
        path: "/run/rx/status.json".to_string(),
        installation: "inst".to_string(),
        host: "host".to_string(),
        installation_identity: "id".to_string(),
    };
    let guarded = launch(Effect::ProtocolGuardedService, ReadyProbe::GuardedStatus(binding), None);
    let env = launch_environment(&guarded);
    assert_eq!(env.len(), 5);
    assert_eq!(env[4], ("RX_PROCESS_STATUS_PATH".to_string(), "/run/rx/status.json".to_string()));
    assert_eq!(log_names("inst-1"), ("inst-1.stdout.log".to_string(), "inst-1.stderr.log".to_string()));
}

#[test]
fn address_space_policy_selects_one_ceiling() {
    let l = launch(Effect::NonActuating, ReadyProbe::AliveOnly, None);
    assert_eq!(policy(&limit_request(address_space(67108864)), &l), Ok(("usage/address-space".to_string(), 67108864)));
    let mut spelled = l.clone();
    spelled.executable = "/usr/bin//python3".to_string();
    assert!(policy(&limit_request(address_space(67108864)), &spelled).is_ok());
    let mut other = l.clone();
    other.executable = "/usr/bin/python3.12".to_string();
    assert_eq!(
        policy(&limit_request(address_space(1)), &other),
        Err("AddressSpaceBytes currently supports only release-verified /usr/bin/python3 non-actuating programs".to_string())
    );
    let mut moved = l.clone();
    moved.instance = "inst-2".to_string();
    assert_eq!(
        policy(&limit_request(address_space(1)), &moved),
        Err("request and launch instance/selection differ".to_string())
    );
    let twice = Requirements(vec![
        ("a".to_string(), Requirement::UpperBound { resource: Capacity::AddressSpaceBytes, amount: 1 }),
        ("b".to_string(), Requirement::UpperBound { resource: Capacity::AddressSpaceBytes, amount: 2 }),
    ]);
    assert_eq!(
        policy(&limit_request(twice), &l),
        Err("multiple address-space declarations unsupported; whole bundle not applied".to_string())
    );
    let memory = Requirements(vec![
        ("net".to_string(), Requirement::NotRequired),
        ("ram".to_string(), Requirement::UpperBound { resource: Capacity::MemoryBytes, amount: 1 }),
    ]);
    assert_eq!(
        policy(&limit_request(memory), &l),
        Err("unsupported requirement ram: only AddressSpaceBytes UpperBound is implemented; memory/CPU capacity, reservations and access grants are not applied".to_string())
    );
    assert_eq!(
        policy(&limit_request(address_space(u64::MAX)), &l),
        Err("unsupported requirement usage/address-space: only AddressSpaceBytes UpperBound is implemented; memory/CPU capacity, reservations and access grants are not applied".to_string())
    );
    let nothing = Requirements(vec![("net".to_string(), Requirement::NotRequired)]);
    assert_eq!(policy(&limit_request(nothing), &l), Err("no supported address-space requirement".to_string()));
}

#[test]
fn kernel_limits_are_read_from_procfs_text() {
    let text = "Limit                     Soft Limit           Hard Limit           Units     \n\
                Max cpu time              unlimited            unlimited            seconds   \n\
                Max address space         67108864             67108864             bytes     \n\
                Max file locks            unlimited            unlimited            locks     \n";
    assert_eq!(observed_limit(text).unwrap(), (67108864, 67108864));
    let unlimited = "Max address space         unlimited            unlimited            bytes     \n";
    assert!(matches!(observed_limit(unlimited),
        Err(Error::Reconciliation(m)) if m == "finite address-space kernel limit not observed"));
    assert!(matches!(observed_limit("Max cpu time 1 1 seconds\n"),
        Err(Error::Reconciliation(m)) if m == "address-space kernel limit row absent"));
    assert!(matches!(observed_limit("Max address space 1 1 kilobytes\n"),
        Err(Error::Reconciliation(m)) if m == "address-space kernel limit format differs"));
    assert!(matches!(observed_limit("Max address space 1 bytes\n"),
        Err(Error::Reconciliation(m)) if m == "address-space kernel limit format differs"));
    assert!(matches!(observed_limit("x Max address space 1 1 bytes\n"),
        Err(Error::Reconciliation(m)) if m == "address-space kernel limit row absent"));
    assert_eq!(observed_limit("Max address space 5 +7 bytes").unwrap(), (5, 7));
}

fn run(events: Vec<GateEvent>, expected: &Vec<u8>) -> GateAction {
    let mut stage = GateStage::Claim;
    let mut last = None;
    for event in events {
        match gate_step(stage, event, 67108864, expected) {
            GateAction::Continue(next) => stage = next,
            other => {
                last = Some(other);
                break;
            }
        }
    }
    last.unwrap_or(GateAction::Continue(stage))
}

fn full_path(expected: &Vec<u8>) -> Vec<GateEvent> {
    vec![
        GateEvent::Owned(false),
        GateEvent::Prepared(Ok(())),
        GateEvent::Authorized(true),
        GateEvent::Created(Ok(77)),
        GateEvent::Attached(Ok(())),
        GateEvent::Line(Ok("GATED\n".to_string())),
        GateEvent::Applied(Ok((None, None))),
        GateEvent::Observed(Ok((67108864, 67108864))),
        GateEvent::Authorized(true),
        GateEvent::Delivered(true),
        GateEvent::Line(Ok(String::new())),
        GateEvent::Confirmed { cmdline: Ok(expected.clone()), limits: Ok((67108864, 67108864)), running: Ok(true) },
    ]
}

#[test]
fn a_gated_launch_is_admitted_after_every_check() {
    let l = launch(Effect::NonActuating, ReadyProbe::AliveOnly, None);
    let expected = expected_cmdline(&l);
    assert_eq!(expected, b"/usr/bin/python3\0-c\0print(1)\0".to_vec());
    assert!(matches!(run(full_path(&expected), &expected), GateAction::Admit));
}

#[test]
fn gated_failures_reject_roll_back_or_stay_uncertain() {
    let l = launch(Effect::NonActuating, ReadyProbe::AliveOnly, None);
    let expected = expected_cmdline(&l);
    let with = |k: usize, e: GateEvent| {
        let mut v = full_path(&expected);
        v[k] = e;
        run(v, &expected)
    };
    assert!(matches!(with(0, GateEvent::Owned(true)), GateAction::Uncertain(m) if m == "instance already has a child handle"));
    assert!(matches!(with(1, GateEvent::Prepared(Err("disk".to_string()))),
        GateAction::Reject(m) if m == "launch preparation failed: disk"));
    assert!(matches!(with(2, GateEvent::Authorized(false)),
        GateAction::Reject(m) if m == "startup authority unavailable before gated child creation"));
    assert!(matches!(with(3, GateEvent::Created(Err("fork".to_string()))),
        GateAction::Reject(m) if m == "gated child creation failed: fork"));
    assert!(matches!(with(4, GateEvent::Attached(Err("dup".to_string()))), GateAction::Rollback(m) if m == "dup"));
    assert!(matches!(with(5, GateEvent::Line(Ok("HELLO\n".to_string()))),
        GateAction::Rollback(m) if m == "private child gate unavailable before policy application"));
    assert!(matches!(with(6, GateEvent::Applied(Err("EPERM".to_string()))),
        GateAction::Rollback(m) if m == "kernel application failed: EPERM"));
    assert!(matches!(with(7, GateEvent::Observed(Ok((67108864, 1)))),
        GateAction::Rollback(m) if m == "parent kernel observation did not confirm the complete policy"));
    assert!(matches!(with(8, GateEvent::Authorized(false)),
        GateAction::Rollback(m) if m == "startup authority changed after application, before EXEC"));
    assert!(matches!(with(9, GateEvent::Delivered(false)),
        GateAction::Uncertain(m) if m == "EXEC authorization delivery uncertain"));
    assert!(matches!(with(10, GateEvent::Line(Ok("EXEC_ERROR:2\n".to_string()))),
        GateAction::Rollback(m) if m == "EXEC_ERROR:2"));
    assert!(matches!(with(10, GateEvent::Line(Ok("later\n".to_string()))),
        GateAction::Uncertain(m) if m == "target exec acknowledgement unavailable"));
    let wrong = GateEvent::Confirmed { cmdline: Ok(b"/usr/bin/python3\0".to_vec()), limits: Ok((67108864, 67108864)), running: Ok(true) };
    assert!(matches!(with(11, wrong),
        GateAction::Uncertain(m) if m == "final target/PID/kernel limit could not be confirmed after EXEC"));
    let exited = GateEvent::Confirmed { cmdline: Ok(expected.clone()), limits: Ok((67108864, 67108864)), running: Ok(false) };
    assert!(matches!(with(11, exited), GateAction::Uncertain(_)));
}

#[test]
fn rollback_and_admission_results() {
    let request = limit_request(address_space(67108864));
    match rollback_result(&request, "kernel application failed: EPERM", true).unwrap() {
        Decision::Rejected { unmet } => {
            assert_eq!(unmet.len(), 1);
            assert_eq!(
                unmet[0].reason,
                "kernel application failed: EPERM; gated child exit confirmed, no policy remains from this attempt"
            );
        }
        Decision::Admitted { .. } => panic!("a rollback never admits"),
    }
    assert!(matches!(rollback_result(&request, "x", false),
        Err(SpawnFailure::Uncertain(Error::Reconciliation(m))) if m == "x; gated child rollback unconfirmed"));
    match admit_gated(&request, 77, "usage/address-space".to_string(), 67108864, (None, None)).unwrap() {
        Decision::Admitted { pid, receipt } => {
            assert_eq!(pid, 77);
            assert!(receipt.matches(&request));
        }
        Decision::Rejected { .. } => panic!("confirmed launch"),
    }
    assert!(matches!(admit_gated(&request, 0, "usage/address-space".to_string(), 1, (None, None)),
        Err(SpawnFailure::Uncertain(Error::Reconciliation(m)))
            if m == "invalid supervisor input: kernel observation belongs to another complete request"));
}

#[test]
fn host_admission_routes_requests() {
    let plain = limit_request(Requirements(vec![("net".to_string(), Requirement::NotRequired)]));
    assert!(matches!(host_admission(&plain, false).unwrap(), Admission::Direct(_)));
    assert!(matches!(host_admission(&plain, true).unwrap(), Admission::Direct(_)));
    let limited = limit_request(address_space(1));
    assert!(matches!(host_admission(&limited, true).unwrap(), Admission::Enforce));
    match host_admission(&limited, false).unwrap() {
        Admission::Refused(Decision::Rejected { unmet }) => {
            assert_eq!(unmet[0].reason, "host execution enforcement is not implemented by this backend")
        }
        _ => panic!("a backend without enforcement refuses"),
    }
    let unknown = limit_request(Requirements(vec![("gpu".to_string(), Requirement::Unknown)]));
    match host_admission(&unknown, false).unwrap() {
        Admission::Refused(Decision::Rejected { unmet }) => {
            assert_eq!(unmet[0].reason, "requirement is unknown, not NotRequired")
        }
        _ => panic!("unknown is refused"),
    }
    assert!(matches!(host_admission(&unknown, true).unwrap(), Admission::Enforce));
}

#[test]
fn trim_drops_outer_whitespace() {
    assert_eq!(trim("  EXEC_ERROR:2\r\n"), "EXEC_ERROR:2");
    assert_eq!(trim(" \t "), "");
    assert_eq!(trim("a b"), "a b");
}

fn hex_bytes(hex: &str) -> Vec<u8> {
    (0..hex.len() / 2).map(|i| u8::from_str_radix(&hex[2 * i..2 * i + 2], 16).unwrap()).collect()
}

#[test]
fn a_program_file_must_hash_to_its_release_digest() {
    let expected = hex_bytes("ba7816bf8f01cfea414140de5dae2223b00361a396177a9cb410ff61f20015ad");
    let path = "/opt/programs/abc".to_string();
    assert!(rx_supervisor::process::check_program_digest(&b"abc".to_vec(), &expected, &path).is_ok());
    let changed = rx_supervisor::process::check_program_digest(&b"abd".to_vec(), &expected, &path);
    assert!(matches!(changed, Err(rx_supervisor::Error::Invalid(m)) if m == "program file integrity differs: /opt/programs/abc"));
    let short = rx_supervisor::process::check_program_digest(&b"abc".to_vec(), &b"abc".to_vec(), &path);
    assert!(short.is_err());
}
