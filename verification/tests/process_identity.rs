use rx_supervisor::process_identity::{
    classify, coherent_scope, investigate, investigate_scoped, parse_stat, scope_matches,
    InvestigationOutcome, PidProbe, Scope, Stat, StoredProcessIdentity,
};

fn sample_scope() -> Scope {
    Scope {
        boot: "0f4c6a4e-1d9b-4b8e-9a55-2c1d7e0b9f31".to_string(),
        pid_namespace: "pid:[4026531836]".to_string(),
        time_namespace: "time:[4026531834]".to_string(),
        user_namespace: "user:[4026531837]".to_string(),
        mount_namespace: "mnt:[4026531841]".to_string(),
        uid: 1000,
        euid: 1000,
        proc_mount: "22 1 0:21 / /proc rw,nosuid,nodev,noexec,relatime shared:12 - proc proc rw"
            .to_string(),
        init_start_ticks: 7,
        time_offsets: "monotonic           0         0\nboottime            0         0\n"
            .to_string(),
    }
}

#[test]
fn zombie_and_read_race_are_distinct_unverifiable_findings() {
    let live = Stat { start: 10, state: 'S' };
    assert_eq!(
        classify(10, &live, &Stat { start: 10, state: 'Z' }),
        InvestigationOutcome::unknown("process-zombie-unverifiable")
    );
    assert_eq!(
        classify(10, &live, &Stat { start: 11, state: 'S' }),
        InvestigationOutcome::unknown("process-read-race")
    );
}

#[test]
fn namespace_lifetime_read_race_has_its_own_rejection() {
    let first = sample_scope();
    let mut second = first.clone();
    second.init_start_ticks += 1;
    assert_eq!(
        coherent_scope(first, second),
        Err("scoped-context-read-race".into())
    );
}

#[test]
fn stat_comm_parentheses_do_not_shift_starttime() {
    let text = format!("123 (odd ) (name) S {} 42 0", vec!["0"; 18].join(" "));
    assert_eq!(parse_stat(&text, 123).unwrap().start, 42);
}

#[test]
fn stat_parse_reports_each_malformed_part() {
    assert_eq!(parse_stat("123 S 0", 123).unwrap_err(), "proc-stat-format");
    assert_eq!(parse_stat("124 (x) S 0", 123).unwrap_err(), "proc-stat-pid-mismatch");
    assert_eq!(parse_stat("123 (x) S 0 1", 123).unwrap_err(), "proc-stat-start-missing");
    let text = format!("123 (x) S {} -5 0", vec!["0"; 18].join(" "));
    assert_eq!(parse_stat(&text, 123).unwrap_err(), "proc-stat-start-format");
    let text = format!("123 (x) SS {} 9 0", vec!["0"; 18].join(" "));
    assert_eq!(parse_stat(&text, 123).unwrap_err(), "proc-stat-state-format");
    let text = format!("7 (sh) R {} +18446744073709551615", vec!["1"; 18].join("\t"));
    let stat = parse_stat(&text, 7).unwrap();
    assert_eq!((stat.start, stat.state), (u64::MAX, 'R'));
    let text = format!("7 (sh) R {} 18446744073709551616", vec!["1"; 18].join(" "));
    assert_eq!(parse_stat(&text, 7).unwrap_err(), "proc-stat-start-format");
}

#[test]
fn classification_of_a_live_pid() {
    let live = Stat { start: 10, state: 'S' };
    assert!(!live.zombie());
    assert!(Stat { start: 1, state: 'x' }.zombie());
    assert_eq!(classify(10, &live, &Stat { start: 10, state: 'R' }), InvestigationOutcome::MatchingProcessPresent);
    let reused = classify(9, &live, &live);
    assert!(reused.permits_closure());
    assert_eq!(
        reused,
        InvestigationOutcome::OriginalNotRunning {
            reason: "scoped-pid-reused-different-starttime".into()
        }
    );
    assert!(!InvestigationOutcome::MatchingProcessPresent.permits_closure());
    assert!(!InvestigationOutcome::unknown("x").permits_closure());
}

#[test]
fn foreign_scope_neither_matches_nor_proves_absence() {
    let mut scope = sample_scope();
    scope.pid_namespace.push_str("-foreign");
    let saved = StoredProcessIdentity { scope, pid: i32::MAX as u32, start_ticks: 1 };
    let current = sample_scope();
    assert!(!scope_matches(&saved, &Ok(current.clone())));
    assert_eq!(
        investigate_scoped(&saved, Ok(current.clone()), PidProbe::Absent, Ok(current)),
        Err("saved-namespace-not-observable-in-current-scope".into())
    );
}

#[test]
fn investigation_within_the_saved_scope() {
    let saved = StoredProcessIdentity { scope: sample_scope(), pid: 42, start_ticks: 5 };
    assert!(scope_matches(&saved, &Ok(sample_scope())));
    assert!(!scope_matches(&saved, &Err("proc-read-unverifiable".into())));
    assert_eq!(
        investigate_scoped(&saved, Ok(sample_scope()), PidProbe::Absent, Ok(sample_scope())),
        Ok(InvestigationOutcome::OriginalNotRunning { reason: "scoped-kernel-pid-absent".into() })
    );
    let present = PidProbe::Present {
        first: Ok(Stat { start: 5, state: 'S' }),
        second: Ok(Stat { start: 5, state: 'R' }),
    };
    assert_eq!(
        investigate_scoped(&saved, Ok(sample_scope()), present, Ok(sample_scope())),
        Ok(InvestigationOutcome::MatchingProcessPresent)
    );
    let mut moved = sample_scope();
    moved.time_offsets = "changed".into();
    assert_eq!(
        investigate_scoped(&saved, Ok(sample_scope()), PidProbe::Absent, Ok(moved)),
        Err("scoped-context-read-race".into())
    );
    assert_eq!(
        investigate_scoped(
            &saved,
            Ok(sample_scope()),
            PidProbe::Unobservable { error: "EPERM".into() },
            Ok(sample_scope())
        ),
        Err("pidfd-observation-unverifiable: EPERM".into())
    );
    let racing = PidProbe::Present { first: Err("gone".into()), second: Err("gone".into()) };
    assert_eq!(
        investigate_scoped(&saved, Ok(sample_scope()), racing, Ok(sample_scope())),
        Err("process-read-race: gone".into())
    );
    assert_eq!(
        investigate(None, Ok(InvestigationOutcome::MatchingProcessPresent)),
        InvestigationOutcome::unknown("birth-identity-missing-permanent-no-backfill")
    );
    assert_eq!(
        investigate(Some(&saved), Err("saved-pid-invalid".into())),
        InvestigationOutcome::unknown("saved-pid-invalid")
    );
}

#[test]
fn every_saved_scope_dimension_is_required_before_absence() {
    let saved = StoredProcessIdentity { scope: sample_scope(), pid: i32::MAX as u32, start_ticks: 1 };
    for field in [
        "boot",
        "time_namespace",
        "user_namespace",
        "mount_namespace",
        "uid",
        "euid",
        "proc_mount",
        "time_offsets",
        "init_start_ticks",
    ] {
        let mut altered = saved.clone();
        match field {
            "boot" => altered.scope.boot = "different-context".to_string(),
            "time_namespace" => altered.scope.time_namespace = "different-context".to_string(),
            "user_namespace" => altered.scope.user_namespace = "different-context".to_string(),
            "mount_namespace" => altered.scope.mount_namespace = "different-context".to_string(),
            "uid" => altered.scope.uid = u32::MAX,
            "euid" => altered.scope.euid = u32::MAX,
            "proc_mount" => altered.scope.proc_mount = "different-context".to_string(),
            "time_offsets" => altered.scope.time_offsets = "different-context".to_string(),
            _ => altered.scope.init_start_ticks = u32::MAX as u64,
        }
        let scoped = investigate_scoped(&altered, Ok(sample_scope()), PidProbe::Absent, Ok(sample_scope()));
        assert_eq!(
            investigate(Some(&altered), scoped),
            InvestigationOutcome::unknown("saved-namespace-not-observable-in-current-scope"),
            "{field}"
        );
    }
}
