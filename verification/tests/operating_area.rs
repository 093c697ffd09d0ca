use rx_supervisor::decision::{ChallengeInfo, Claim, Failure, Kind, Owner, Reference, SignatureEnvelope, SignedDecision, Verdict};
use rx_supervisor::operating_area::{
    awaiting, begin_attempt, busy_lock_waits, commit_precheck, commit_state, denial, failed, failure_condition,
    judge_reason, mailbox_next, mailbox_step, pending, work_use_step, ChallengeFault, MailboxNext, OfflineSession,
    PublishedDenial, WorkUseAction, WorkUseEvent, refresh_failure, response_precheck, ConnectionObservation, MailboxStep,
};
use rx_supervisor::use_assessment::WorkUseReply;
use rx_supervisor::Error;

fn owner() -> Owner {
    Owner { registration: "r".to_string(), revision: 1, program: "p".to_string(), catalog: "c".to_string() }
}

fn info() -> ChallengeInfo {
    ChallengeInfo {
        id: "challenge".to_string(),
        epoch: "epoch".to_string(),
        kind: Kind::WorkUse,
        owner: owner(),
        operating_area: "cell-a".to_string(),
        role: "work".to_string(),
        subject: "s".to_string(),
        context_digest: "ctx".to_string(),
        policy_digest: "pol".to_string(),
        key: "key-1".to_string(),
        issuer: "judge".to_string(),
        max_ttl_ms: 1000,
    }
}

fn signed(edit: impl FnOnce(&mut SignedDecision)) -> SignedDecision {
    let mut s = SignedDecision {
        claim: Claim {
            schema: "rx.external-decision.v1".to_string(),
            verdict: Verdict::Approve,
            challenge: info(),
            decision: "d".to_string(),
            ttl_ms: 10,
        },
        signature: SignatureEnvelope { key: "key-1".to_string(), signature: "00".repeat(64) },
    };
    edit(&mut s);
    s
}

fn reference(decision: &str) -> Reference {
    Reference {
        decision: decision.to_string(),
        kind: Kind::WorkUse,
        owner: owner(),
        issuer: "judge".to_string(),
        key: "key-1".to_string(),
        epoch: "epoch".to_string(),
        challenge: "challenge".to_string(),
        context_digest: "ctx".to_string(),
        policy_digest: "pol".to_string(),
        signed_digest: "sd".to_string(),
        ttl_ms: 10,
    }
}

#[test]
fn observations_start_configured_and_record_each_checkpoint() {
    let mut o = ConnectionObservation::configured();
    assert_eq!(o.state, "CONFIGURED_NOT_CONNECTED");
    begin_attempt(&mut o);
    assert_eq!(o.state, "NOT_ASSESSED_AT_CURRENT_BOUNDARY");
    assert!(!pending(&o));
    o.state = "AWAITING_EXTERNAL_DECISION".to_string();
    assert!(pending(&o));
    let reply = denial(&mut o, "work-use/mailbox-conflict", "both approval and denial published".to_string());
    assert_eq!(o.state, "REFUSED");
    assert_eq!(o.condition.as_deref(), Some("work-use/mailbox-conflict"));
    assert!(matches!(reply, WorkUseReply::Denied { decision_reference, conditions }
        if decision_reference == "offline/work-decision-refused" && conditions[0].1 == "both approval and denial published"));
}

#[test]
fn decision_failures_have_their_own_conditions() {
    assert_eq!(failure_condition(Failure::Expired), "work-use/ttl-expired");
    assert_eq!(failure_condition(Failure::Capacity), "work-use/receiver-failure");
    let mut o = ConnectionObservation::configured();
    let reply = failed(&mut o, Failure::Revoked);
    assert!(matches!(reply, WorkUseReply::Denied { conditions, .. }
        if conditions[0].0 == "work-use/revoked" && conditions[0].1 == "decision/revoked: the external decision has been invalidated"));
    assert!(matches!(refresh_failure(Failure::Epoch), Error::Invalid(m) if m.starts_with("work-use/decision/epoch")));
}

#[test]
fn untrusted_responses_are_prechecked_against_the_challenge() {
    assert!(response_precheck(&info(), &signed(|_| {})).is_none());
    assert_eq!(response_precheck(&info(), &signed(|s| s.signature.key = "key-2".to_string())).unwrap().0, "work-use/issuer-scope");
    assert_eq!(response_precheck(&info(), &signed(|s| s.claim.challenge.operating_area = "cell-b".to_string())).unwrap().0,
        "work-use/operating-area-mismatch");
    assert_eq!(response_precheck(&info(), &signed(|s| s.claim.challenge.kind = Kind::InitialBinding)).unwrap().0,
        "work-use/role-kind-mismatch");
}

#[test]
fn the_mailbox_decides_the_next_step() {
    assert_eq!(mailbox_step(true, true, false, 0, 10), MailboxStep::Conflict);
    assert_eq!(mailbox_step(true, false, true, 0, 10), MailboxStep::Denial);
    assert_eq!(mailbox_step(false, false, true, 0, 10), MailboxStep::Refresh);
    assert_eq!(mailbox_step(false, false, false, 10, 10), MailboxStep::Lapsed);
    assert_eq!(mailbox_step(false, false, false, 9, 10), MailboxStep::Awaiting);
    assert_eq!(mailbox_step(false, true, false, 99, 10), MailboxStep::Verify);
    assert!(busy_lock_waits(true, false, 9, 10));
    assert!(!busy_lock_waits(true, false, 10, 10));
    assert!(!busy_lock_waits(false, false, 0, 10));
    assert!(matches!(awaiting("work-use/pending-external-decision", "original nonce and deadline retained; no work use attempted"),
        WorkUseReply::NotEvaluated { conditions } if conditions.len() == 1));
    assert_eq!(judge_reason("rule-7", "cell occupied"), "unverified negative issuer report; rule-7: cell occupied");
}

#[test]
fn a_commit_needs_the_verified_decision_it_was_prepared_under() {
    let r = reference("d-1");
    assert!(matches!(commit_precheck(false, Some(&r), &r), Err(Error::Invalid(m)) if m == "work-use/unconnected"));
    assert!(matches!(commit_precheck(true, None, &r), Err(Error::Invalid(m)) if m == "work-use/no-verified-decision"));
    assert!(matches!(commit_precheck(true, Some(&reference("d-2")), &r), Err(Error::Invalid(m)) if m == "work-use/context-mismatch"));
    assert!(commit_precheck(true, Some(&r), &r).is_ok());
    assert_eq!(commit_state(true), "COMMIT_CALLBACK_COMPLETED");
    assert_eq!(commit_state(false), "COMMIT_REFUSED");
}

fn denied_with(next: MailboxNext) -> (String, String) {
    match next {
        MailboxNext::Reply(WorkUseReply::Denied { conditions, .. }) => conditions[0].clone(),
        other => panic!("not a refusal: {other:?}"),
    }
}

#[test]
fn the_mailbox_decides_in_order_conflict_denial_refresh_lifetime_verify() {
    let id = "ch-1".to_string();
    let mut o = ConnectionObservation::configured();
    let note = || Some(Some(PublishedDenial { challenge: "ch-1".to_string(), rule: "R1".to_string(), reason: "busy".to_string() }));
    let (c, m) = denied_with(mailbox_next(&mut o, &id, note(), true, false, 0, 10));
    assert_eq!((c.as_str(), m.as_str()), ("work-use/mailbox-conflict", "both approval and denial published"));
    let (c, m) = denied_with(mailbox_next(&mut o, &id, note(), false, true, 0, 10));
    assert_eq!(c, "work-use/judge-policy-denied");
    assert_eq!(m, "unverified negative issuer report; R1: busy");
    let other = Some(Some(PublishedDenial { challenge: "ch-0".to_string(), rule: "R1".to_string(), reason: "busy".to_string() }));
    assert_eq!(denied_with(mailbox_next(&mut o, &id, other, false, false, 0, 10)).0, "work-use/context-mismatch");
    assert_eq!(denied_with(mailbox_next(&mut o, &id, Some(None), false, false, 0, 10)).0, "work-use/encoding");
    assert!(matches!(mailbox_next(&mut o, &id, None, true, true, 0, 10), MailboxNext::Refresh));
    let (c, _) = denied_with(mailbox_next(&mut o, &id, None, false, false, 10, 10));
    assert_eq!(c, "work-use/unconnected");
    assert_eq!(o.state, "REFUSED");
    assert!(matches!(mailbox_next(&mut o, &id, None, false, false, 9, 10),
        MailboxNext::Reply(WorkUseReply::NotEvaluated { conditions }) if conditions[0].0 == "work-use/pending-external-decision"));
    assert!(pending(&o));
    assert!(matches!(mailbox_next(&mut o, &id, None, true, false, 9, 10), MailboxNext::Verify));
}

fn refused_under(a: WorkUseAction) -> String {
    match a {
        WorkUseAction::Reply(WorkUseReply::Denied { conditions, .. }) => conditions[0].0.clone(),
        other => panic!("not a refusal: {other:?}"),
    }
}

#[test]
fn one_session_holds_one_challenge_for_one_context() {
    let mut session: Option<OfflineSession> = None;
    let mut o = ConnectionObservation::configured();
    assert_eq!(refused_under(work_use_step(&mut session, &mut o, WorkUseEvent::Request { context: None })), "work-use/unconnected");
    assert_eq!(refused_under(work_use_step(&mut session, &mut o, WorkUseEvent::Request { context: Some(None) })), "work-use/encoding");
    let ctx = || WorkUseEvent::Request { context: Some(Some("ctx-1".to_string())) };
    assert!(matches!(work_use_step(&mut session, &mut o, ctx()), WorkUseAction::Challenge));
    let refused = work_use_step(&mut session, &mut o, WorkUseEvent::Challenge {
        context: "ctx-1".to_string(),
        outcome: Err(ChallengeFault::Area("no area".to_string())),
    });
    assert_eq!(refused_under(refused), "work-use/area-catalog-invalid");
    assert!(session.is_none());
    let made = work_use_step(&mut session, &mut o, WorkUseEvent::Challenge {
        context: "ctx-1".to_string(),
        outcome: Ok("ch-1".to_string()),
    });
    assert!(matches!(made, WorkUseAction::Proceed));
    assert_eq!(o.challenge.as_deref(), Some("ch-1"));
    assert!(matches!(work_use_step(&mut session, &mut o, ctx()), WorkUseAction::Proceed));
    let other = WorkUseEvent::Request { context: Some(Some("ctx-2".to_string())) };
    assert_eq!(refused_under(work_use_step(&mut session, &mut o, other)), "work-use/context-mismatch");
    let busy = || WorkUseEvent::Busy { reason: "locked".to_string(), elapsed_ms: 5, max_ttl_ms: 10 };
    assert_eq!(refused_under(work_use_step(&mut session, &mut o, busy())), "work-use/mailbox-unavailable");
    assert!(matches!(work_use_step(&mut session, &mut o, WorkUseEvent::Published), WorkUseAction::Proceed));
    assert!(session.as_ref().unwrap().published);
    assert!(matches!(work_use_step(&mut session, &mut o, busy()),
        WorkUseAction::Reply(WorkUseReply::NotEvaluated { conditions }) if conditions[0].0 == "work-use/pending-publication"));
    assert!(pending(&o));
    assert!(matches!(work_use_step(&mut session, &mut o, WorkUseEvent::Verified), WorkUseAction::Proceed));
    assert_eq!(o.state, "EXTERNAL_DECISION_VERIFIED");
    assert_eq!(refused_under(work_use_step(&mut session, &mut o, busy())), "work-use/mailbox-unavailable");
}
