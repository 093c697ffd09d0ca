//! Offline signed work decisions exchanged through a mailbox. The host never
//! holds a private key or runs an issuer; these are the rules it applies to
//! what the mailbox holds.
use vstd::prelude::*;
use crate::decision::{failure_text, ChallengeInfo, Failure, Reference, SignedDecision};
use crate::text::join;
use crate::use_assessment::WorkUseReply;
use crate::Error;

verus! {

/// What the offline provider last observed at a checkpoint. Not current
/// permission or physical authority.
#[derive(Clone, Debug)]
pub struct ConnectionObservation {
    pub state: String,
    pub challenge: Option<String>,
    pub condition: Option<String>,
    pub meaning: String,
}

impl ConnectionObservation {
    /// Configured, not yet connected.
    pub fn configured() -> (r: Self)
        ensures
            r.state@ == "CONFIGURED_NOT_CONNECTED"@,
            r.challenge is None,
            r.condition is None,
            r.meaning@ == "OFFLINE_CHECKPOINT_OBSERVATION; NOT_CURRENT_PERMISSION_OR_PHYSICAL_AUTHORITY"@,
    {
        ConnectionObservation {
            state: String::from_str("CONFIGURED_NOT_CONNECTED"),
            challenge: None,
            condition: None,
            meaning: String::from_str("OFFLINE_CHECKPOINT_OBSERVATION; NOT_CURRENT_PERMISSION_OR_PHYSICAL_AUTHORITY"),
        }
    }
}

pub open spec fn spec_failure_condition(f: Failure) -> Seq<char> {
    match f {
        Failure::IssuerScope => "work-use/issuer-scope"@,
        Failure::Expired => "work-use/ttl-expired"@,
        Failure::Signature => "work-use/signature-mismatch"@,
        Failure::Revoked => "work-use/revoked"@,
        Failure::Context => "work-use/context-mismatch"@,
        Failure::Kind => "work-use/role-kind-mismatch"@,
        Failure::Epoch => "work-use/receiver-epoch"@,
        Failure::Encoding => "work-use/encoding"@,
        Failure::Ttl => "work-use/ttl-invalid"@,
        _ => "work-use/receiver-failure"@,
    }
}

/// The condition a refused decision is reported under.
pub fn failure_condition(f: Failure) -> (r: &'static str)
    ensures
        r@ == spec_failure_condition(f),
{
    match f {
        Failure::IssuerScope => "work-use/issuer-scope",
        Failure::Expired => "work-use/ttl-expired",
        Failure::Signature => "work-use/signature-mismatch",
        Failure::Revoked => "work-use/revoked",
        Failure::Context => "work-use/context-mismatch",
        Failure::Kind => "work-use/role-kind-mismatch",
        Failure::Epoch => "work-use/receiver-epoch",
        Failure::Encoding => "work-use/encoding",
        Failure::Ttl => "work-use/ttl-invalid",
        _ => "work-use/receiver-failure",
    }
}

/// Why an untrusted response is refused before its signature is checked,
/// if it is: another key, operating area, role or kind than the challenge.
pub open spec fn spec_precheck(info: ChallengeInfo, signed: SignedDecision) -> Option<(Seq<char>, Seq<char>)> {
    if signed.signature.key@ != info.key@ {
        Some(("work-use/issuer-scope"@, "untrusted response key is outside authored issuer scope"@))
    } else if signed.claim.challenge.operating_area@ != info.operating_area@ {
        Some(("work-use/operating-area-mismatch"@, "untrusted claimed area differs; issuer identity not verified"@))
    } else if signed.claim.challenge.role@ != info.role@ || signed.claim.challenge.kind != info.kind {
        Some(("work-use/role-kind-mismatch"@, "untrusted claimed role/kind differs; issuer identity not verified"@))
    } else {
        None
    }
}

pub fn response_precheck(info: &ChallengeInfo, signed: &SignedDecision) -> (r: Option<(&'static str, &'static str)>)
    ensures
        match spec_precheck(*info, *signed) {
            None => r is None,
            Some((c, m)) => r matches Some((x, y)) && x@ == c && y@ == m,
        },
{
    if signed.signature.key != info.key {
        return Some(("work-use/issuer-scope", "untrusted response key is outside authored issuer scope"));
    }
    if signed.claim.challenge.operating_area != info.operating_area {
        return Some(("work-use/operating-area-mismatch", "untrusted claimed area differs; issuer identity not verified"));
    }
    if signed.claim.challenge.role != info.role || signed.claim.challenge.kind != info.kind {
        return Some(("work-use/role-kind-mismatch", "untrusted claimed role/kind differs; issuer identity not verified"));
    }
    None
}

/// What the provider does with what the mailbox holds for its challenge.
#[derive(Clone, Copy, Debug, PartialEq, Eq, Structural)]
pub enum MailboxStep {
    /// Both an approval and a denial were published.
    Conflict,
    /// A denial was published: read it and refuse.
    Denial,
    /// A decision was verified before: refresh its revocation and liveness.
    Refresh,
    /// No reply within the challenge's lifetime: refuse; nothing is renewed.
    Lapsed,
    /// No reply yet: keep waiting under the original nonce and deadline.
    Awaiting,
    /// A reply was published: check and verify it.
    Verify,
}

pub open spec fn spec_mailbox_step(denial: bool, response: bool, verified: bool, elapsed_ms: u64, max_ttl_ms: u64) -> MailboxStep {
    if denial && response {
        MailboxStep::Conflict
    } else if denial {
        MailboxStep::Denial
    } else if verified {
        MailboxStep::Refresh
    } else if !response {
        if elapsed_ms >= max_ttl_ms { MailboxStep::Lapsed } else { MailboxStep::Awaiting }
    } else {
        MailboxStep::Verify
    }
}

pub fn mailbox_step(denial: bool, response: bool, verified: bool, elapsed_ms: u64, max_ttl_ms: u64) -> (r: MailboxStep)
    ensures
        r == spec_mailbox_step(denial, response, verified, elapsed_ms, max_ttl_ms),
{
    if denial && response {
        MailboxStep::Conflict
    } else if denial {
        MailboxStep::Denial
    } else if verified {
        MailboxStep::Refresh
    } else if !response {
        if elapsed_ms >= max_ttl_ms { MailboxStep::Lapsed } else { MailboxStep::Awaiting }
    } else {
        MailboxStep::Verify
    }
}

/// A busy mailbox lock means an issuer is publishing: only a request that
/// was already published, is unanswered and is still within its lifetime
/// waits; anything else is refused.
pub fn busy_lock_waits(published: bool, verified: bool, elapsed_ms: u64, max_ttl_ms: u64) -> (r: bool)
    ensures
        r == (published && !verified && elapsed_ms < max_ttl_ms),
{
    published && !verified && elapsed_ms < max_ttl_ms
}

/// A checkpoint observation moves to `state`, with `condition` as its
/// reason; the challenge and meaning stay.
pub fn observe(o: &mut ConnectionObservation, state: &str, condition: Option<&str>)
    ensures
        final(o).state@ == state@,
        match condition {
            Some(c) => final(o).condition matches Some(x) && x@ == c@,
            None => final(o).condition is None,
        },
        final(o).challenge == old(o).challenge,
        final(o).meaning == old(o).meaning,
{
    o.state = String::from_str(state);
    o.condition = match condition {
        Some(c) => Some(String::from_str(c)),
        None => None,
    };
}

/// A new attempt has not been assessed at the current boundary yet.
pub fn begin_attempt(o: &mut ConnectionObservation)
    ensures
        final(o).state@ == "NOT_ASSESSED_AT_CURRENT_BOUNDARY"@,
        final(o).condition is None,
        final(o).challenge == old(o).challenge,
        final(o).meaning == old(o).meaning,
{
    observe(o, "NOT_ASSESSED_AT_CURRENT_BOUNDARY", None);
}

/// The provider awaits an external decision.
pub fn pending(o: &ConnectionObservation) -> (r: bool)
    ensures
        r == (o.state@ == "AWAITING_EXTERNAL_DECISION"@),
{
    crate::text::same_text(o.state.as_str(), "AWAITING_EXTERNAL_DECISION")
}

/// A refusal under `condition`, for `reason`. Never a grant.
pub fn denial(o: &mut ConnectionObservation, condition: &str, reason: String) -> (r: WorkUseReply)
    ensures
        r matches WorkUseReply::Denied { decision_reference, conditions } && decision_reference@ == "offline/work-decision-refused"@
            && conditions@.len() == 1 && conditions@[0].0@ == condition@ && conditions@[0].1 == reason,
        final(o).state@ == "REFUSED"@,
        final(o).condition matches Some(c) && c@ == condition@,
        final(o).challenge == old(o).challenge,
{
    observe(o, "REFUSED", Some(condition));
    let mut conditions: Vec<(String, String)> = Vec::new();
    conditions.push((String::from_str(condition), reason));
    WorkUseReply::Denied { decision_reference: String::from_str("offline/work-decision-refused"), conditions }
}

/// A decision check that failed, refused under its own condition with its
/// own message.
pub fn failed(o: &mut ConnectionObservation, f: Failure) -> (r: WorkUseReply)
    ensures
        r matches WorkUseReply::Denied { decision_reference, conditions } && decision_reference@ == "offline/work-decision-refused"@
            && conditions@.len() == 1 && conditions@[0].0@ == spec_failure_condition(f) && conditions@[0].1@ == failure_text(f),
        final(o).state@ == "REFUSED"@,
        final(o).condition matches Some(c) && c@ == spec_failure_condition(f),
        final(o).challenge == old(o).challenge,
{
    denial(o, failure_condition(f), f.message())
}

/// A reply that leaves work use unevaluated for now, under `condition`.
pub fn awaiting(condition: &str, reason: &str) -> (r: WorkUseReply)
    ensures
        r matches WorkUseReply::NotEvaluated { conditions } && conditions@.len() == 1 && conditions@[0].0@ == condition@
            && conditions@[0].1@ == reason@,
{
    let mut conditions: Vec<(String, String)> = Vec::new();
    conditions.push((String::from_str(condition), String::from_str(reason)));
    WorkUseReply::NotEvaluated { conditions }
}

/// The reason a published denial is reported with: an issuer's negative
/// report, whose signature is not verified.
pub fn judge_reason(rule: &str, reason: &str) -> (r: String)
    ensures
        r@ == "unverified negative issuer report; "@ + rule@ + ": "@ + reason@,
{
    join("unverified negative issuer report; ", rule).concat(": ").concat(reason)
}

/// A commit needs a session, a verified decision in it, and that decision
/// to be the one the work was prepared under.
pub fn commit_precheck(connected: bool, verified: Option<&Reference>, prepared: &Reference) -> (r: Result<(), Error>)
    ensures
        !connected ==> (r matches Err(Error::Invalid(m)) && m@ == "work-use/unconnected"@),
        connected && verified is None ==> (r matches Err(Error::Invalid(m)) && m@ == "work-use/no-verified-decision"@),
        connected && (verified matches Some(v) && !v.same(prepared)) ==> (r matches Err(Error::Invalid(m))
            && m@ == "work-use/context-mismatch"@),
        connected && (verified matches Some(v) && v.same(prepared)) ==> r is Ok,
{
    if !connected {
        return Err(Error::Invalid(String::from_str("work-use/unconnected")));
    }
    match verified {
        None => Err(Error::Invalid(String::from_str("work-use/no-verified-decision"))),
        Some(v) => {
            if !v.matches(prepared) {
                return Err(Error::Invalid(String::from_str("work-use/context-mismatch")));
            }
            Ok(())
        },
    }
}

/// What a commit checkpoint records once the caller's commit returned.
pub fn commit_state(committed: bool) -> (r: &'static str)
    ensures
        committed ==> r@ == "COMMIT_CALLBACK_COMPLETED"@,
        !committed ==> r@ == "COMMIT_REFUSED"@,
{
    if committed {
        "COMMIT_CALLBACK_COMPLETED"
    } else {
        "COMMIT_REFUSED"
    }
}

/// The failure a commit reports when the final refresh refused the decision.
pub fn refresh_failure(f: Failure) -> (r: Error)
    ensures
        r matches Error::Invalid(m) && m@ == "work-use/"@ + failure_text(f),
{
    Error::Invalid(join("work-use/", f.message().as_str()))
}

/// A denial published for a challenge, as decoded: the challenge it names,
/// and the issuer's rule and reason.
#[derive(Debug)]
pub struct PublishedDenial {
    pub challenge: String,
    pub rule: String,
    pub reason: String,
}

/// What the provider does once it has read the mailbox.
#[derive(Debug)]
pub enum MailboxNext {
    /// Answer with this reply.
    Reply(WorkUseReply),
    /// Refresh the decision verified before and grant it while it is live.
    Refresh,
    /// Check and verify the published reply.
    Verify,
}

/// `r` refuses under `condition` for `reason`, and `o` records the refusal.
pub open spec fn refused_as(r: MailboxNext, o: ConnectionObservation, condition: Seq<char>, reason: Seq<char>) -> bool {
    &&& r matches MailboxNext::Reply(WorkUseReply::Denied { decision_reference, conditions })
        && decision_reference@ == "offline/work-decision-refused"@ && conditions@.len() == 1
        && conditions@[0].0@ == condition && conditions@[0].1@ == reason
    &&& o.state@ == "REFUSED"@
    &&& o.condition matches Some(c) && c@ == condition
}

/// Decides on what the mailbox held for challenge `id`, in this order: a
/// conflict of approval and denial, a denial (`published`: absent,
/// undecodable as `Some(None)`, or decoded), a decision verified before, no reply within
/// the challenge's lifetime or yet, and a reply to verify. `elapsed_ms` is
/// how long the challenge has been out, of `max_ttl_ms`.
pub fn mailbox_next(
    o: &mut ConnectionObservation,
    id: &String,
    published: Option<Option<PublishedDenial>>,
    response: bool,
    verified: bool,
    elapsed_ms: u64,
    max_ttl_ms: u64,
) -> (r: MailboxNext)
    ensures
        final(o).challenge == old(o).challenge,
        match spec_mailbox_step(published is Some, response, verified, elapsed_ms, max_ttl_ms) {
            MailboxStep::Conflict => refused_as(r, *final(o), "work-use/mailbox-conflict"@, "both approval and denial published"@),
            MailboxStep::Denial => match published->0 {
                None => refused_as(r, *final(o), spec_failure_condition(Failure::Encoding), failure_text(Failure::Encoding)),
                Some(d) => if d.challenge@ != id@ {
                    refused_as(r, *final(o), spec_failure_condition(Failure::Context), failure_text(Failure::Context))
                } else {
                    refused_as(r, *final(o), "work-use/judge-policy-denied"@,
                        "unverified negative issuer report; "@ + d.rule@ + ": "@ + d.reason@)
                },
            },
            MailboxStep::Refresh => r is Refresh && *final(o) == *old(o),
            MailboxStep::Lapsed => refused_as(r, *final(o), "work-use/unconnected"@,
                "no external decision within original challenge lifetime; no automatic renewal"@),
            MailboxStep::Awaiting => (r matches MailboxNext::Reply(WorkUseReply::NotEvaluated { conditions })
                && conditions@.len() == 1 && conditions@[0].0@ == "work-use/pending-external-decision"@
                && conditions@[0].1@ == "original nonce and deadline retained; no work use attempted"@)
                && final(o).state@ == "AWAITING_EXTERNAL_DECISION"@ && final(o).condition is None,
            MailboxStep::Verify => r is Verify && *final(o) == *old(o),
        },
{
    match mailbox_step(published.is_some(), response, verified, elapsed_ms, max_ttl_ms) {
        MailboxStep::Conflict => MailboxNext::Reply(denial(o, "work-use/mailbox-conflict",
            String::from_str("both approval and denial published"))),
        MailboxStep::Denial => match published {
            Some(Some(d)) => {
                if d.challenge != *id {
                    MailboxNext::Reply(failed(o, Failure::Context))
                } else {
                    let reason = judge_reason(d.rule.as_str(), d.reason.as_str());
                    MailboxNext::Reply(denial(o, "work-use/judge-policy-denied", reason))
                }
            },
            _ => MailboxNext::Reply(failed(o, Failure::Encoding)),
        },
        MailboxStep::Refresh => MailboxNext::Refresh,
        MailboxStep::Lapsed => MailboxNext::Reply(denial(o, "work-use/unconnected",
            String::from_str("no external decision within original challenge lifetime; no automatic renewal"))),
        MailboxStep::Awaiting => {
            observe(o, "AWAITING_EXTERNAL_DECISION", None);
            MailboxNext::Reply(awaiting("work-use/pending-external-decision",
                "original nonce and deadline retained; no work use attempted"))
        },
        MailboxStep::Verify => MailboxNext::Verify,
    }
}

/// The offline provider's session: the one challenge it published for one
/// receiving context, and how far that challenge got.
#[derive(Debug)]
pub struct OfflineSession {
    /// The digest of the receiving request the challenge answers.
    pub context: String,
    /// The challenge's identity.
    pub challenge: String,
    /// The request was published to the mailbox.
    pub published: bool,
    /// A decision for it was verified.
    pub verified: bool,
}

/// Why no first challenge was made.
#[derive(Debug)]
pub enum ChallengeFault {
    /// The program's authored operating-area catalog is unusable.
    Area(String),
    /// The receiving request refused to issue a challenge.
    Failed(Failure),
}

/// What happened in an assessment, as the provider learns it.
#[derive(Debug)]
pub enum WorkUseEvent {
    /// A work-use request arrived: without a receiving request (`None`),
    /// with one that could not be encoded (`Some(None)`), or with the digest
    /// of its receiving request.
    Request { context: Option<Option<String>> },
    /// The first challenge for `context` was sought: its identity, or why
    /// none was made.
    Challenge { context: String, outcome: Result<String, ChallengeFault> },
    /// The mailbox lock was held by someone else, for `reason`;
    /// `elapsed_ms` of the challenge's `max_ttl_ms` have passed.
    Busy { reason: String, elapsed_ms: u64, max_ttl_ms: u64 },
    /// The request was published to the mailbox.
    Published,
    /// A decision was verified for the challenge.
    Verified,
}

/// What the provider does next.
#[derive(Debug)]
pub enum WorkUseAction {
    /// Answer with this reply; the assessment ends.
    Reply(WorkUseReply),
    /// Seek the first challenge for the request's context.
    Challenge,
    /// Go on with the mailbox exchange.
    Proceed,
}

/// What event `e` makes of the session `s` (before: `s0`) and the reply.
pub open spec fn work_use_stepped(s0: Option<OfflineSession>, s: Option<OfflineSession>, o0: ConnectionObservation,
    o: ConnectionObservation, e: WorkUseEvent, r: WorkUseAction) -> bool {
    match e {
        WorkUseEvent::Request { context } => s == s0 && match context {
            None => refused_reply(r, o, "work-use/unconnected"@, "no authored receiving request; host is not an issuer"@),
            Some(None) => refused_reply(r, o, spec_failure_condition(Failure::Encoding), failure_text(Failure::Encoding)),
            Some(Some(c)) => match s0 {
                None => r is Challenge && o == o0,
                Some(x) => if x.context@ != c@ {
                    refused_reply(r, o, spec_failure_condition(Failure::Context), failure_text(Failure::Context))
                } else {
                    r is Proceed && o == o0
                },
            },
        },
        WorkUseEvent::Challenge { context, outcome } => match outcome {
            Err(ChallengeFault::Area(reason)) => s == s0 && refused_reply(r, o, "work-use/area-catalog-invalid"@, reason@),
            Err(ChallengeFault::Failed(f)) => s == s0 && refused_reply(r, o, spec_failure_condition(f), failure_text(f)),
            Ok(id) => r is Proceed && s == Some(OfflineSession { context, challenge: id, published: false, verified: false })
                && o == ConnectionObservation { challenge: Some(id), ..o0 },
        },
        WorkUseEvent::Busy { reason, elapsed_ms, max_ttl_ms } => s == s0 && if s0 matches Some(x)
            && x.published && !x.verified && elapsed_ms < max_ttl_ms {
            (r matches WorkUseAction::Reply(WorkUseReply::NotEvaluated { conditions }) && conditions@.len() == 1
                && conditions@[0].0@ == "work-use/pending-publication"@
                && conditions@[0].1@ == "cooperating issuer publication in progress; original deadline retained; no use attempted"@)
                && o.state@ == "AWAITING_EXTERNAL_DECISION"@
                && (o.condition matches Some(c) && c@ == "work-use/pending-publication"@)
                && o.challenge == o0.challenge
        } else {
            refused_reply(r, o, "work-use/mailbox-unavailable"@, reason@)
        },
        WorkUseEvent::Published => r is Proceed && o == o0 && match s0 {
            Some(x) => s == Some(OfflineSession { published: true, ..x }),
            None => s == s0,
        },
        WorkUseEvent::Verified => r is Proceed && match s0 {
            Some(x) => s == Some(OfflineSession { verified: true, ..x }) && o.state@ == "EXTERNAL_DECISION_VERIFIED"@
                && o.condition is None && o.challenge == o0.challenge,
            None => s == s0 && o == o0,
        },
    }
}

/// `r` refuses under `condition` for `reason`, and `o` records the refusal.
pub open spec fn refused_reply(r: WorkUseAction, o: ConnectionObservation, condition: Seq<char>, reason: Seq<char>) -> bool {
    &&& r matches WorkUseAction::Reply(WorkUseReply::Denied { decision_reference, conditions })
        && decision_reference@ == "offline/work-decision-refused"@ && conditions@.len() == 1
        && conditions@[0].0@ == condition && conditions@[0].1@ == reason
    &&& o.state@ == "REFUSED"@
    &&& o.condition matches Some(c) && c@ == condition
}

/// One step of the offline provider's assessment. A session holds one
/// challenge for one receiving context: a first challenge is sought only
/// without a session, a request of another context is refused, and a busy
/// mailbox is waited on only for a published, unanswered challenge within
/// its lifetime. Nothing is renewed.
pub fn work_use_step(session: &mut Option<OfflineSession>, o: &mut ConnectionObservation, event: WorkUseEvent) -> (r: WorkUseAction)
    requires
        event is Challenge ==> (*old(session)) is None,
    ensures
        work_use_stepped(*old(session), *final(session), *old(o), *final(o), event, r),
{
    match event {
        WorkUseEvent::Request { context } => match context {
            None => WorkUseAction::Reply(denial(o, "work-use/unconnected",
                String::from_str("no authored receiving request; host is not an issuer"))),
            Some(None) => WorkUseAction::Reply(failed(o, Failure::Encoding)),
            Some(Some(c)) => match session {
                None => WorkUseAction::Challenge,
                Some(x) => {
                    if x.context != c {
                        WorkUseAction::Reply(failed(o, Failure::Context))
                    } else {
                        WorkUseAction::Proceed
                    }
                },
            },
        },
        WorkUseEvent::Challenge { context, outcome } => match outcome {
            Err(ChallengeFault::Area(reason)) => WorkUseAction::Reply(denial(o, "work-use/area-catalog-invalid", reason)),
            Err(ChallengeFault::Failed(f)) => WorkUseAction::Reply(failed(o, f)),
            Ok(id) => {
                o.challenge = Some(id.clone());
                *session = Some(OfflineSession { context, challenge: id, published: false, verified: false });
                WorkUseAction::Proceed
            },
        },
        WorkUseEvent::Busy { reason, elapsed_ms, max_ttl_ms } => {
            let waits = match session {
                Some(x) => busy_lock_waits(x.published, x.verified, elapsed_ms, max_ttl_ms),
                None => false,
            };
            if waits {
                observe(o, "AWAITING_EXTERNAL_DECISION", Some("work-use/pending-publication"));
                WorkUseAction::Reply(awaiting("work-use/pending-publication",
                    "cooperating issuer publication in progress; original deadline retained; no use attempted"))
            } else {
                WorkUseAction::Reply(denial(o, "work-use/mailbox-unavailable", reason))
            }
        },
        WorkUseEvent::Published => {
            if let Some(x) = session {
                x.published = true;
            }
            WorkUseAction::Proceed
        },
        WorkUseEvent::Verified => {
            let known = session.is_some();
            if let Some(x) = session {
                x.verified = true;
            }
            if known {
                observe(o, "EXTERNAL_DECISION_VERIFIED", None);
            }
            WorkUseAction::Proceed
        },
    }
}

/// A session answers one context with one challenge: once a challenge was
/// made, every later request seeks none, and a request of another context
/// is refused for the context.
pub proof fn law_one_challenge_per_context(s0: Option<OfflineSession>, s: Option<OfflineSession>, o0: ConnectionObservation,
    o: ConnectionObservation, context: String, r: WorkUseAction)
    requires
        s0 is Some,
        work_use_stepped(s0, s, o0, o, WorkUseEvent::Request { context: Some(Some(context)) }, r),
    ensures
        !(r is Challenge),
        s == s0,
        s0->0.context@ != context@ ==> refused_reply(r, o, spec_failure_condition(Failure::Context), failure_text(Failure::Context)),
{
}

} // verus!
