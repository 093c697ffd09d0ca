//! What the supervisor concludes from the signals it sends to the processes
//! it owns. Creating and signalling processes is the OS backend's work.
use vstd::prelude::*;
use crate::model::{Effect, Launch, ReadyProbe};
use crate::model::GuardedStatusBinding;
use crate::supervisor::{GuardedObservation, GuardedState};
use crate::text::{decimal, decimal_string, join, same_text};
use crate::use_assessment::{StatusObservation, StatusObservationRequest, StatusObservationResult, Reported};
use crate::registration::TimePoint;
use crate::registration::recovery::OwnedExit;
use crate::execution::{enforced, names_where, receipt_refusal, unmet_for, Decision, Evidence, Receipt, Request, Requirement};
use crate::Error;

pub mod linux_limits;

verus! {

/// Why a process did not start: certainly not, or possibly.
#[derive(Debug)]
pub enum SpawnFailure {
    NotStarted(Error),
    Uncertain(Error),
}

#[derive(Clone, Copy, Debug, PartialEq, Eq, Structural)]
pub enum SignalOutcome {
    Accepted,
    OwnedNonActuatingExit,
}

pub open spec fn unconfirmed_signal() -> Seq<char> {
    "owned process signal was not confirmed"@
}

/// What a signal to an owned process achieved. An accepted signal is not an
/// observed exit. A failed signal is no success, except where this very
/// owned non-actuating child is observed to have exited already;
/// `observe_exit` reports whether it has, and is asked only then.
pub fn signal_outcome<F: FnOnce() -> Result<bool, String>>(accepted: bool, effect: Option<Effect>, observe_exit: F) -> (r: Result<SignalOutcome, Error>)
    requires
        !accepted && effect == Some(Effect::NonActuating) ==> observe_exit.requires(()),
    ensures
        accepted ==> r == Ok::<SignalOutcome, Error>(SignalOutcome::Accepted),
        !accepted && effect != Some(Effect::NonActuating) ==> (r matches Err(Error::Reconciliation(m)) && m@ == unconfirmed_signal()),
        !accepted && effect == Some(Effect::NonActuating) ==> exists|seen: Result<bool, String>| #[trigger] observe_exit.ensures((), seen)
            && match seen {
                Ok(true) => r == Ok::<SignalOutcome, Error>(SignalOutcome::OwnedNonActuatingExit),
                Ok(false) => r matches Err(Error::Reconciliation(m)) && m@ == unconfirmed_signal(),
                Err(e) => r matches Err(Error::Io(m)) && m == e,
            },
{
    if accepted {
        return Ok(SignalOutcome::Accepted);
    }
    if effect == Some(Effect::NonActuating) {
        let seen = observe_exit();
        match seen {
            Ok(true) => {
                return Ok(SignalOutcome::OwnedNonActuatingExit);
            },
            Ok(false) => {},
            Err(e) => {
                return Err(Error::Io(e));
            },
        }
    }
    Err(Error::Reconciliation(String::from_str("owned process signal was not confirmed")))
}

/// The largest HTTP response a status read accepts, in bytes.
pub open spec fn reply_limit() -> nat {
    1048576
}

/// Whether the blank line that ends an HTTP header, `\r\n\r\n`, starts
/// at `i`.
pub open spec fn header_break_at(b: Seq<u8>, i: int) -> bool {
    &&& 0 <= i
    &&& i + 4 <= b.len()
    &&& b[i] == 13u8
    &&& b[i + 1] == 10u8
    &&& b[i + 2] == 13u8
    &&& b[i + 3] == 10u8
}

/// The first header break at or after `i`.
pub open spec fn break_from(b: Seq<u8>, i: int) -> Option<int>
    decreases b.len() - i,
{
    if i < 0 || i + 4 > b.len() {
        None
    } else if header_break_at(b, i) {
        Some(i)
    } else {
        break_from(b, i + 1)
    }
}

/// A status line of `HTTP/1.0 200 ` or `HTTP/1.1 200 `.
pub open spec fn status_ok(b: Seq<u8>) -> bool {
    &&& b.len() >= 13
    &&& b.take(7) == seq![72u8, 84u8, 84u8, 80u8, 47u8, 49u8, 46u8]
    &&& (b[7] == 48u8 || b[7] == 49u8)
    &&& b.subrange(8, 13) == seq![32u8, 50u8, 48u8, 48u8, 32u8]
}

/// Why a status response is not a usable HTTP 200 reply.
#[derive(Clone, Copy, Debug, PartialEq, Eq, Structural)]
pub enum ReplyFault {
    TooLarge,
    Malformed,
    NotOk,
}

/// Where the body of a bounded HTTP 200 reply starts, or why the reply is
/// not one: the size is judged first, then the header's end, then the
/// status line.
pub open spec fn reply_body(b: Seq<u8>) -> Result<int, ReplyFault> {
    if b.len() > reply_limit() {
        Err(ReplyFault::TooLarge)
    } else if break_from(b, 0) is None {
        Err(ReplyFault::Malformed)
    } else if !status_ok(b) {
        Err(ReplyFault::NotOk)
    } else {
        Ok(break_from(b, 0)->0 + 4)
    }
}

proof fn lemma_break_from(b: Seq<u8>, i: int)
    requires
        0 <= i,
    ensures
        break_from(b, i) matches Some(k) ==> i <= k && k + 4 <= b.len() && header_break_at(b, k),
    decreases b.len() - i,
{
    if i + 4 <= b.len() && !header_break_at(b, i) {
        lemma_break_from(b, i + 1);
    }
}

/// Where the first header break of `bytes` starts.
fn header_break(bytes: &Vec<u8>) -> (r: Option<usize>)
    ensures
        match break_from(bytes@, 0) {
            Some(k) => r == Some(k as usize),
            None => r is None,
        },
{
    let n = bytes.len();
    let mut k: usize = 0;
    while k < n && n - k >= 4
        invariant
            n == bytes@.len(),
            k <= n,
            break_from(bytes@, 0) == break_from(bytes@, k as int),
        decreases n - k,
    {
        if bytes[k] == 13u8 && bytes[k + 1] == 10u8 && bytes[k + 2] == 13u8 && bytes[k + 3] == 10u8 {
            return Some(k);
        }
        k = k + 1;
    }
    None
}

/// The start of the body of an HTTP status reply.
pub fn http_body(bytes: &Vec<u8>) -> (r: Result<usize, ReplyFault>)
    ensures
        match reply_body(bytes@) {
            Ok(k) => r == Ok::<usize, ReplyFault>(k as usize) && 0 <= k <= bytes@.len(),
            Err(f) => r == Err::<usize, ReplyFault>(f),
        },
{
    let n = bytes.len();
    if n > 1048576 {
        return Err(ReplyFault::TooLarge);
    }
    let split = match header_break(bytes) {
        Some(s) => s,
        None => {
            return Err(ReplyFault::Malformed);
        },
    };
    proof {
        lemma_break_from(bytes@, 0);
    }
    if n < 13 {
        return Err(ReplyFault::NotOk);
    }
    let ok = bytes[0] == 72u8 && bytes[1] == 84u8 && bytes[2] == 84u8 && bytes[3] == 80u8 && bytes[4] == 47u8
        && bytes[5] == 49u8 && bytes[6] == 46u8 && (bytes[7] == 48u8 || bytes[7] == 49u8) && bytes[8] == 32u8
        && bytes[9] == 50u8 && bytes[10] == 48u8 && bytes[11] == 48u8 && bytes[12] == 32u8;
    if !ok {
        proof {
            if status_ok(bytes@) {
                assert(bytes@.take(7)[0] == bytes@[0]);
                assert(bytes@.take(7)[1] == bytes@[1]);
                assert(bytes@.take(7)[2] == bytes@[2]);
                assert(bytes@.take(7)[3] == bytes@[3]);
                assert(bytes@.take(7)[4] == bytes@[4]);
                assert(bytes@.take(7)[5] == bytes@[5]);
                assert(bytes@.take(7)[6] == bytes@[6]);
                assert(bytes@.subrange(8, 13)[0] == bytes@[8]);
                assert(bytes@.subrange(8, 13)[1] == bytes@[9]);
                assert(bytes@.subrange(8, 13)[2] == bytes@[10]);
                assert(bytes@.subrange(8, 13)[3] == bytes@[11]);
                assert(bytes@.subrange(8, 13)[4] == bytes@[12]);
            }
        }
        return Err(ReplyFault::NotOk);
    }
    assert(bytes@.take(7) =~= seq![72u8, 84u8, 84u8, 80u8, 47u8, 49u8, 46u8]);
    assert(bytes@.subrange(8, 13) =~= seq![32u8, 50u8, 48u8, 48u8, 32u8]);
    Ok(split + 4)
}

/// An answer that settles a status observation without a report: `kind` is
/// 0 for not evaluated, 1 for not met and 2 for unsupported.
pub open spec fn answered(r: StatusObservationResult, kind: int, condition: Seq<char>, reason: Seq<char>) -> bool {
    match r {
        StatusObservationResult::NotEvaluated { condition: c, reason: m } => kind == 0 && c@ == condition && m@ == reason,
        StatusObservationResult::NotMet { condition: c, reason: m } => kind == 1 && c@ == condition && m@ == reason,
        StatusObservationResult::Unsupported { condition: c, reason: m } => kind == 2 && c@ == condition && m@ == reason,
        StatusObservationResult::Observed(_) => false,
    }
}

fn answer(kind: u8, condition: &str, reason: &str) -> (r: StatusObservationResult)
    requires
        kind <= 2,
    ensures
        answered(r, kind as int, condition@, reason@),
{
    let c = String::from_str(condition);
    let m = String::from_str(reason);
    if kind == 0 {
        StatusObservationResult::NotEvaluated { condition: c, reason: m }
    } else if kind == 1 {
        StatusObservationResult::NotMet { condition: c, reason: m }
    } else {
        StatusObservationResult::Unsupported { condition: c, reason: m }
    }
}

/// What settles a status observation before the owned child's exit is
/// checked: the program kind, the current owner, the owner's effect and the
/// binding of the request to this very launch and child.
pub open spec fn source_answer(launch: Launch, request: StatusObservationRequest, owned_pid: Option<u32>, owned_effect: Option<Effect>) -> Option<(int, Seq<char>, Seq<char>)> {
    if launch.effect != Effect::NonActuating || !(launch.ready is HttpStatus) {
        Some((2, "readiness/status-source"@, "only non-actuating HttpStatus programs have this provider; AliveOnly remains a liveness probe"@))
    } else if owned_pid is None {
        Some((0, "execution/current-owner"@, "no current owned Child; saved identity is not observation evidence"@))
    } else if owned_effect != Some(Effect::NonActuating) {
        Some((2, "report/owned-effect"@, "the owned child is not a non-actuating observation source"@))
    } else if !(request.spec_subject().instance matches Some(i) && i@ == launch.instance@) || request.spec_subject().pid != owned_pid {
        Some((1, "report/owner-binding"@, "assessment instance/PID differs from owned launch"@))
    } else {
        None
    }
}

/// Where a status observation goes next: to the child's HTTP port, or
/// nowhere, with this answer.
#[derive(Debug)]
pub enum StatusSource {
    Port(u16),
    Answer(StatusObservationResult),
}

/// The checks before a status request is sent. `child_exited` reports
/// whether the owned child has exited, and is asked only once every earlier
/// check has passed.
pub fn status_source<F: FnOnce() -> Result<bool, String>>(launch: &Launch, request: &StatusObservationRequest, owned_pid: Option<u32>, owned_effect: Option<Effect>, child_exited: F) -> (r: Result<StatusSource, Error>)
    requires
        source_answer(*launch, *request, owned_pid, owned_effect) is None ==> child_exited.requires(()),
    ensures
        source_answer(*launch, *request, owned_pid, owned_effect) matches Some(a) ==> (r matches Ok(StatusSource::Answer(x)) && answered(x, a.0, a.1, a.2)),
        source_answer(*launch, *request, owned_pid, owned_effect) is None ==> exists|seen: Result<bool, String>| #[trigger] child_exited.ensures((), seen)
            && match seen {
                Err(e) => r matches Err(Error::Io(m)) && m == e,
                Ok(true) => r matches Ok(StatusSource::Answer(x)) && answered(x, 1, "execution/current-child"@, "owned child has exited; no current functional report"@),
                Ok(false) => match launch.port {
                    None => r matches Ok(StatusSource::Answer(x)) && answered(x, 2, "report/http-binding"@, "no authored HTTP port binding"@),
                    Some(p) => r matches Ok(StatusSource::Port(q)) && q == p,
                },
            },
{
    let http = match &launch.ready {
        ReadyProbe::HttpStatus { .. } => true,
        _ => false,
    };
    if launch.effect != Effect::NonActuating || !http {
        return Ok(StatusSource::Answer(answer(2, "readiness/status-source", "only non-actuating HttpStatus programs have this provider; AliveOnly remains a liveness probe")));
    }
    let pid = match owned_pid {
        Some(p) => p,
        None => {
            return Ok(StatusSource::Answer(answer(0, "execution/current-owner", "no current owned Child; saved identity is not observation evidence")));
        },
    };
    if owned_effect != Some(Effect::NonActuating) {
        return Ok(StatusSource::Answer(answer(2, "report/owned-effect", "the owned child is not a non-actuating observation source")));
    }
    let bound = match request.instance() {
        Some(i) => same_text(i.as_str(), launch.instance.as_str()),
        None => false,
    };
    if !bound || request.pid() != Some(pid) {
        return Ok(StatusSource::Answer(answer(1, "report/owner-binding", "assessment instance/PID differs from owned launch")));
    }
    let seen = child_exited();
    match seen {
        Err(e) => Err(Error::Io(e)),
        Ok(true) => Ok(StatusSource::Answer(answer(1, "execution/current-child", "owned child has exited; no current functional report"))),
        Ok(false) => match launch.port {
            None => Ok(StatusSource::Answer(answer(2, "report/http-binding", "no authored HTTP port binding"))),
            Some(p) => Ok(StatusSource::Port(p)),
        },
    }
}

/// The answer when no complete HTTP response was had: `connected` says
/// whether a connection was made before the read failed.
pub fn unread_report(connected: bool) -> (r: StatusObservationResult)
    ensures
        answered(r, 0, "report/transport"@, if connected {
            "complete HTTP response not obtained; no readiness inferred"@
        } else {
            "no HTTP response obtained; declared conditions not evaluated"@
        }),
{
    if connected {
        answer(0, "report/transport", "complete HTTP response not obtained; no readiness inferred")
    } else {
        answer(0, "report/transport", "no HTTP response obtained; declared conditions not evaluated")
    }
}

/// Where the body of a status response starts, or the answer that a
/// response which is no bounded HTTP 200 reply gives.
pub fn status_reply(bytes: &Vec<u8>) -> (r: Result<usize, StatusObservationResult>)
    ensures
        match reply_body(bytes@) {
            Ok(k) => r matches Ok(q) && q == k,
            Err(ReplyFault::TooLarge) => r matches Err(x) && answered(x, 1, "report/size"@, "component report exceeds bounded response size"@),
            Err(ReplyFault::Malformed) => r matches Err(x) && answered(x, 1, "report/http-format"@, "malformed HTTP response"@),
            Err(ReplyFault::NotOk) => r matches Err(x) && answered(x, 1, "report/http-status"@, "requested diagnostic endpoint did not return HTTP 200"@),
        },
{
    match http_body(bytes) {
        Ok(k) => Ok(k),
        Err(ReplyFault::TooLarge) => Err(answer(1, "report/size", "component report exceeds bounded response size")),
        Err(ReplyFault::Malformed) => Err(answer(1, "report/http-format", "malformed HTTP response")),
        Err(ReplyFault::NotOk) => Err(answer(1, "report/http-status", "requested diagnostic endpoint did not return HTTP 200")),
    }
}

/// The observation made of a decoded report: none where the body was not
/// unambiguous JSON, none where the child exited while it was read, and
/// otherwise the report bound to `request`. `child_exited` is asked only
/// where a report was decoded.
pub fn observed_report<F: FnOnce() -> Result<bool, String>>(request: &StatusObservationRequest, decoded: Option<(Reported, TimePoint, String)>, child_exited: F) -> (r: Result<StatusObservationResult, Error>)
    requires
        decoded is Some ==> child_exited.requires(()),
    ensures
        decoded is None ==> (r matches Ok(x) && answered(x, 1, "report/json-format"@, "component response is not unambiguous JSON"@)),
        decoded matches Some(d) ==> exists|seen: Result<bool, String>| #[trigger] child_exited.ensures((), seen)
            && match seen {
                Err(e) => r matches Err(Error::Io(m)) && m == e,
                Ok(true) => r matches Ok(x) && answered(x, 1, "execution/current-child"@, "owned child exited while its response was read"@),
                Ok(false) => r matches Ok(StatusObservationResult::Observed(o)) && o.spec_request() == *request
                    && o.spec_reported() == d.0 && o.spec_observed_at() == d.1 && o.spec_digest() == d.2,
            },
{
    match decoded {
        None => Ok(answer(1, "report/json-format", "component response is not unambiguous JSON")),
        Some((reported, observed_at, digest)) => {
            let seen = child_exited();
            match seen {
                Err(e) => Err(Error::Io(e)),
                Ok(true) => Ok(answer(1, "execution/current-child", "owned child exited while its response was read")),
                Ok(false) => Ok(StatusObservationResult::Observed(StatusObservation::captured(request, reported, observed_at, digest))),
            }
        },
    }
}

/// Readiness that needs no probe: none without an owned child, and mere
/// liveness for an `AliveOnly` program. `None` where a probe must answer.
pub fn ready_without_probe(owned: bool, probe: &ReadyProbe) -> (r: Option<bool>)
    ensures
        r == if !owned {
            Some(false)
        } else if *probe is AliveOnly {
            Some(true)
        } else {
            None::<bool>
        },
{
    if !owned {
        return Some(false);
    }
    match probe {
        ReadyProbe::AliveOnly => Some(true),
        _ => None,
    }
}

/// The port an HTTP readiness probe reads.
pub fn probe_port(port: Option<u16>) -> (r: Result<u16, Error>)
    ensures
        match port {
            Some(p) => r matches Ok(q) && q == p,
            None => r matches Err(Error::Invalid(m)) && m@ == "probe port missing"@,
        },
{
    match port {
        Some(p) => Ok(p),
        None => Err(Error::Invalid(String::from_str("probe port missing"))),
    }
}

/// Whether a health report declares this very instance ready: its
/// `schema`, `phase` and `supervisor_instance` text fields, where present.
pub fn ready_report(schema: Option<&str>, phase: Option<&str>, supervisor_instance: Option<&str>, instance: &str) -> (r: bool)
    ensures
        r == ((schema matches Some(s) && s@ == "rx.solutions-status.v1"@)
            && (phase matches Some(p) && p@ == "SOFTWARE_READY_UNCOMMISSIONED"@)
            && (supervisor_instance matches Some(i) && i@ == instance@)),
{
    let a = match schema {
        Some(s) => same_text(s, "rx.solutions-status.v1"),
        None => false,
    };
    let b = match phase {
        Some(p) => same_text(p, "SOFTWARE_READY_UNCOMMISSIONED"),
        None => false,
    };
    let c = match supervisor_instance {
        Some(i) => same_text(i, instance),
        None => false,
    };
    a && b && c
}

/// Whether a guarded service's latest report declares it ready.
pub fn guarded_ready(observation: &Option<GuardedObservation>) -> (r: bool)
    ensures
        r == (*observation matches Some(o) && o.state is Ready),
{
    match observation {
        Some(o) => match o.state {
            GuardedState::Ready => true,
            _ => false,
        },
        None => false,
    }
}

/// The status binding of a guarded launch, and its owned child.
pub fn guarded_source(launch: &Launch, owned_pid: Option<u32>) -> (r: Result<(&GuardedStatusBinding, u32), Error>)
    ensures
        match launch.ready {
            ReadyProbe::GuardedStatus(b) => match owned_pid {
                Some(p) => r matches Ok((x, q)) && *x == b && q == p,
                None => r matches Err(Error::Reconciliation(m)) && m@ == "no owned child for status read"@,
            },
            _ => r matches Err(Error::Invalid(m)) && m@ == "guarded status binding required"@,
        },
{
    match &launch.ready {
        ReadyProbe::GuardedStatus(b) => match owned_pid {
            Some(p) => Ok((b, p)),
            None => Err(Error::Reconciliation(String::from_str("no owned child for status read"))),
        },
        _ => Err(Error::Invalid(String::from_str("guarded status binding required"))),
    }
}

/// A guarded report that goes back on the last one accepted: an earlier
/// sequence, another clock, an earlier time, or the same sequence with
/// another payload.
pub open spec fn cut_regressed(previous: GuardedObservation, next: GuardedObservation) -> bool {
    ||| next.sequence < previous.sequence
    ||| next.observed_at.clock_id@ != previous.observed_at.clock_id@
    ||| next.observed_at.ticks_ns < previous.observed_at.ticks_ns
    ||| (next.sequence == previous.sequence && next.payload_digest@ != previous.payload_digest@)
}

/// What a guarded status read establishes against the last accepted report:
/// a failed read and a regressed report are reconciliation errors; an
/// accepted report becomes the last one.
pub fn guarded_cut(previous: Option<&GuardedObservation>, read: Result<Option<GuardedObservation>, String>) -> (r: Result<Option<GuardedObservation>, Error>)
    ensures
        match read {
            Err(e) => r matches Err(Error::Reconciliation(m)) && m == e,
            Ok(None) => r matches Ok(None),
            Ok(Some(n)) => if previous matches Some(p) && cut_regressed(*p, n) {
                r matches Err(Error::Reconciliation(m)) && m@ == "guarded status cut regressed or changed"@
            } else {
                r == Ok::<Option<GuardedObservation>, Error>(Some(n))
            },
        },
{
    match read {
        Err(e) => Err(Error::Reconciliation(e)),
        Ok(None) => Ok(None),
        Ok(Some(n)) => {
            if let Some(p) = previous {
                if n.sequence < p.sequence || !same_text(n.observed_at.clock_id.as_str(), p.observed_at.clock_id.as_str())
                    || n.observed_at.ticks_ns < p.observed_at.ticks_ns || (n.sequence == p.sequence
                    && !same_text(n.payload_digest.as_str(), p.payload_digest.as_str())) {
                    return Err(Error::Reconciliation(String::from_str("guarded status cut regressed or changed")));
                }
            }
            Ok(Some(n))
        },
    }
}

/// Whether and how an owned process may be signalled: a protocol-guarded
/// service is never force-killed, and a recorded PID without its live
/// child handle is never signalled. `Ok` carries whether the service is
/// guarded and the child's PID.
pub fn termination_plan(effect: Option<Effect>, force: bool, owned_pid: Option<u32>) -> (r: Result<(bool, u32), Error>)
    ensures
        effect == Some(Effect::ProtocolGuardedService) && force ==> (r matches Err(Error::Invalid(m)) && m@ == "protocol-guarded services cannot be force-killed"@),
        !(effect == Some(Effect::ProtocolGuardedService) && force) ==> match owned_pid {
            None => r matches Err(Error::Reconciliation(m)) && m@ == "cannot signal a recorded PID without its live child handle"@,
            Some(p) => r == Ok::<(bool, u32), Error>((effect == Some(Effect::ProtocolGuardedService), p)),
        },
{
    let guarded = effect == Some(Effect::ProtocolGuardedService);
    if guarded && force {
        return Err(Error::Invalid(String::from_str("protocol-guarded services cannot be force-killed")));
    }
    match owned_pid {
        None => Err(Error::Reconciliation(String::from_str("cannot signal a recorded PID without its live child handle"))),
        Some(p) => Ok((guarded, p)),
    }
}

/// The arguments of `kill`: the signal, then the target, which is the
/// guarded service alone or else the child's whole process group.
pub fn kill_arguments(guarded: bool, force: bool, pid: u32) -> (r: Vec<String>)
    ensures
        r@.len() == 3,
        r@[0]@ == (if force { "-KILL"@ } else { "-TERM"@ }),
        r@[1]@ == "--"@,
        r@[2]@ == (if guarded { decimal(pid as nat) } else { "-"@ + decimal(pid as nat) }),
{
    let signal = if force {
        String::from_str("-KILL")
    } else {
        String::from_str("-TERM")
    };
    let number = decimal_string(pid as u64);
    let target = if guarded {
        number
    } else {
        join("-", number.as_str())
    };
    let mut r: Vec<String> = Vec::new();
    r.push(signal);
    r.push(String::from_str("--"));
    r.push(target);
    r
}

/// The whole environment of a started program, before any status path.
pub open spec fn base_environment(instance: Seq<char>) -> Seq<(Seq<char>, Seq<char>)> {
    seq![
        ("PATH"@, "/usr/bin:/bin"@),
        ("LANG"@, "C.UTF-8"@),
        ("PYTHONDONTWRITEBYTECODE"@, "1"@),
        ("RX_PROCESS_INSTANCE_ID"@, instance),
    ]
}

pub open spec fn texts_of(v: Seq<(String, String)>) -> Seq<(Seq<char>, Seq<char>)> {
    v.map_values(|p: (String, String)| (p.0@, p.1@))
}

/// The environment of a gated launch: the same cleared environment, with
/// the instance's identity.
pub fn gated_environment(instance: &str) -> (r: Vec<(String, String)>)
    ensures
        texts_of(r@) == base_environment(instance@),
{
    let mut r: Vec<(String, String)> = Vec::new();
    r.push((String::from_str("PATH"), String::from_str("/usr/bin:/bin")));
    r.push((String::from_str("LANG"), String::from_str("C.UTF-8")));
    r.push((String::from_str("PYTHONDONTWRITEBYTECODE"), String::from_str("1")));
    r.push((String::from_str("RX_PROCESS_INSTANCE_ID"), String::from_str(instance)));
    assert(texts_of(r@) =~= base_environment(instance@));
    r
}

/// The environment of a directly started program: a guarded service also
/// learns where its status is read.
pub fn launch_environment(launch: &Launch) -> (r: Vec<(String, String)>)
    ensures
        texts_of(r@) == match launch.ready {
            ReadyProbe::GuardedStatus(b) => base_environment(launch.instance@).push(("RX_PROCESS_STATUS_PATH"@, b.spec_path()@)),
            _ => base_environment(launch.instance@),
        },
{
    let mut r = gated_environment(launch.instance.as_str());
    if let ReadyProbe::GuardedStatus(b) = &launch.ready {
        r.push((String::from_str("RX_PROCESS_STATUS_PATH"), b.path().clone()));
        assert(texts_of(r@) =~= base_environment(launch.instance@).push(("RX_PROCESS_STATUS_PATH"@, b.spec_path()@)));
    }
    r
}

/// The names of a launch's output and error logs.
pub fn log_names(instance: &str) -> (r: (String, String))
    ensures
        r.0@ == instance@ + ".stdout.log"@,
        r.1@ == instance@ + ".stderr.log"@,
{
    (join(instance, ".stdout.log"), join(instance, ".stderr.log"))
}

/// How a backend goes on with a request before any process exists.
#[derive(Debug)]
pub enum Admission {
    /// Nothing needs enforcement: start the program with this receipt.
    Direct(Receipt),
    /// The backend enforces the requirements itself.
    Enforce,
    /// Rejected; no process is started.
    Refused(Decision),
}

/// The admission route of `request`. A backend that cannot enforce
/// (`enforcing` false) rejects unknown requirements, then every requirement
/// that needs enforcement; otherwise a request with nothing to enforce gets
/// a receipt of no requirements.
pub fn host_admission(request: &Request, enforcing: bool) -> (r: Result<Admission, Error>)
    ensures
        ({
            let rs = request.spec_requirements().0@;
            let unknown = names_where(rs, |x: Requirement| x is Unknown);
            let needs = exists|i: int| 0 <= i < rs.len() && enforced(#[trigger] rs[i].1);
            if !enforcing && unknown.len() > 0 {
                r matches Ok(Admission::Refused(Decision::Rejected { unmet })) && unmet_for(unmet@, unknown, "requirement is unknown, not NotRequired"@)
            } else if needs {
                if enforcing {
                    r matches Ok(Admission::Enforce)
                } else {
                    r matches Ok(Admission::Refused(Decision::Rejected { unmet })) && unmet_for(unmet@, names_where(rs, |x: Requirement| enforced(x)),
                        "host execution enforcement is not implemented by this backend"@)
                }
            } else {
                match receipt_refusal(*request, Evidence::NoRequirements) {
                    None => r matches Ok(Admission::Direct(receipt)) && receipt.spec_request().same(request) && receipt.spec_evidence() == Evidence::NoRequirements,
                    Some(m) => r matches Err(Error::Invalid(x)) && x@ == m,
                }
            }
        }),
{
    if !enforcing {
        let unknown = request.unknown();
        if unknown.len() > 0 {
            return Ok(Admission::Refused(Decision::Rejected { unmet: unknown }));
        }
    }
    if request.requirements().needs_enforcement() {
        if enforcing {
            return Ok(Admission::Enforce);
        }
        return Ok(Admission::Refused(Decision::Rejected { unmet: request.reject("host execution enforcement is not implemented by this backend") }));
    }
    match Receipt::reported(request, Evidence::NoRequirements) {
        Ok(receipt) => Ok(Admission::Direct(receipt)),
        Err(e) => Err(e),
    }
}

/// Evidence that this owner's own non-actuating child has exited, taken
/// from its live handle: another effect, a missing handle or a child that
/// has not exited is never evidence. `wait` reports the child's exit code
/// once it has exited, and is asked only where the handle is owned.
pub fn recovery_exit<F: FnOnce() -> Result<Option<Option<i32>>, String>>(
    instance: &String,
    effect: Option<Effect>,
    owned_pid: Option<u32>,
    wait: F,
    observed_at: TimePoint,
) -> (r: Result<OwnedExit, Error>)
    requires
        effect == Some(Effect::NonActuating) && owned_pid is Some ==> wait.requires(()),
    ensures
        effect != Some(Effect::NonActuating) ==> (r matches Err(Error::Reconciliation(m))
            && m@ == "recovery evidence requires an owned non-actuating child"@),
        effect == Some(Effect::NonActuating) && owned_pid is None ==> (r matches Err(Error::Reconciliation(m))
            && m@ == "owned Child handle absent; external investigation provider is unsupported"@),
        effect == Some(Effect::NonActuating) && owned_pid is Some ==> exists|seen: Result<Option<Option<i32>>, String>|
            #[trigger] wait.ensures((), seen) && match seen {
                Err(e) => r matches Err(Error::Io(m)) && m == e,
                Ok(None) => r matches Err(Error::Reconciliation(m)) && m@ == "owned child has not exited"@,
                Ok(Some(code)) => r matches Ok(x) && x.spec_instance() == *instance && x.spec_pid() == owned_pid->0
                    && x.spec_exit_code() == code && x.spec_observed_at() == observed_at,
            },
{
    if effect != Some(Effect::NonActuating) {
        return Err(Error::Reconciliation(String::from_str("recovery evidence requires an owned non-actuating child")));
    }
    let pid = match owned_pid {
        Some(p) => p,
        None => {
            return Err(Error::Reconciliation(String::from_str("owned Child handle absent; external investigation provider is unsupported")));
        },
    };
    match wait() {
        Err(e) => Err(Error::Io(e)),
        Ok(None) => Err(Error::Reconciliation(String::from_str("owned child has not exited"))),
        Ok(Some(code)) => Ok(OwnedExit::observed(instance.clone(), pid, code, observed_at)),
    }
}

/// The SHA-256 digest of `bytes`.
pub uninterp spec fn sha256_of(bytes: Seq<u8>) -> Seq<u8>;

/// `sha2::Sha256::digest`: the 32-byte SHA-256 digest of `bytes`, a
/// function of the bytes alone. What the digest is on given bytes is not
/// stated here.
#[verifier::external_body]
pub(crate) fn sha256(bytes: &Vec<u8>) -> (r: Vec<u8>)
    ensures
        r@ == sha256_of(bytes@),
        r@.len() == 32,
{
    <sha2::Sha256 as sha2::Digest>::digest(bytes.as_slice()).to_vec()
}

/// Checks the bytes of the program file shown as `path` against its release
/// digest `expected`.
pub fn check_program_digest(bytes: &Vec<u8>, expected: &Vec<u8>, path: &String) -> (r: Result<(), Error>)
    ensures
        r is Ok <==> sha256_of(bytes@) == expected@,
        r matches Err(e) ==> (e matches Error::Invalid(m) && m@ == "program file integrity differs: "@ + path@),
{
    let digest = sha256(bytes);
    if digest.len() != expected.len() {
        return Err(Error::Invalid(String::from_str("program file integrity differs: ").concat(path.as_str())));
    }
    let mut i: usize = 0;
    while i < digest.len()
        invariant
            digest@.len() == expected@.len(),
            digest@ == sha256_of(bytes@),
            i <= digest@.len(),
            forall|k: int| 0 <= k < i ==> digest@[k] == expected@[k],
        decreases digest@.len() - i,
    {
        if digest[i] != expected[i] {
            return Err(Error::Invalid(String::from_str("program file integrity differs: ").concat(path.as_str())));
        }
        i = i + 1;
    }
    assert(digest@ =~= expected@);
    Ok(())
}

} // verus!
