//! The supervisor's rules: what its durable state may hold, what reopening
//! it does, when software may be rearmed, and what each supervision step
//! decides for a process. Running the processes is the backend's work.
use vstd::prelude::*;
use crate::execution::{enforced, names_where, unmet_for, Application, Decision, Request, Requirement, Requirements, Status as ExecutionStatus, Unmet};
use crate::process::SpawnFailure;
use crate::error_text;
use crate::model::{Effect, GuardedExit, Phase, Plan, Process, Program, Record, State};
use crate::plan::key_of;
use crate::registration::{integrity, Refusal, StoreError, TimePoint};
use crate::Error;

verus! {

pub open spec fn state_schema() -> Seq<char> {
    "rx.supervisor-state.v1"@
}

/// A record may carry a guarded exit only for an exited process with an
/// instance and a nonzero pid; a confirmed exit needs exit code 0, a
/// nonzero sequence and a named clock.
pub open spec fn record_sound(r: Record) -> Option<Seq<char>> {
    match r.guarded_exit {
        None => None,
        Some(exit) => if r.phase != Phase::Exited || r.instance is None || r.pid is None || r.pid == Some(0u32) {
            Some("guarded exit without owned process identity"@)
        } else {
            match exit {
                GuardedExit::Confirmed { sequence, observed_at, .. } => if r.exit_code != Some(0i32) || sequence == 0
                    || observed_at.clock_id@.len() == 0 {
                    Some("guarded exit proof shape differs"@)
                } else {
                    None
                },
                GuardedExit::Unconfirmed { .. } => None,
            }
        },
    }
}

pub open spec fn records_refusal(records: Seq<(String, Record)>, k: int) -> Option<Seq<char>>
    decreases records.len() - k,
{
    if k < 0 || k >= records.len() {
        None
    } else if record_sound(records[k].1) is Some {
        record_sound(records[k].1)
    } else {
        records_refusal(records, k + 1)
    }
}

/// A stored state is refused, with an integrity error, when one of its
/// records carries an unsound guarded exit.
pub fn check_state(state: &State) -> (r: Result<(), StoreError>)
    ensures
        match records_refusal(state.records@, 0) {
            None => r is Ok,
            Some(m) => r matches Err(e) && e@ == Refusal::Integrity(m),
        },
{
    let mut k: usize = 0;
    while k < state.records.len()
        invariant
            k <= state.records@.len(),
            records_refusal(state.records@, 0) == records_refusal(state.records@, k as int),
        decreases state.records@.len() - k,
    {
        let r = &state.records[k].1;
        if let Some(exit) = &r.guarded_exit {
            let pid_zero = match r.pid {
                None => true,
                Some(p) => p == 0,
            };
            if r.phase != Phase::Exited || r.instance.is_none() || pid_zero {
                return Err(integrity("guarded exit without owned process identity"));
            }
            if let GuardedExit::Confirmed { sequence, observed_at, .. } = exit {
                let code_zero = match r.exit_code {
                    Some(c) => c == 0,
                    None => false,
                };
                if !code_zero || *sequence == 0 || observed_at.clock_id.as_str().unicode_len() == 0 {
                    return Err(integrity("guarded exit proof shape differs"));
                }
            }
        }
        k = k + 1;
    }
    Ok(())
}

/// A pending record, as a new state holds it.
pub open spec fn fresh_record(r: Record, id: String) -> bool {
    &&& r.id == id
    &&& r.instance is None
    &&& r.phase == Phase::Pending
    &&& r.attempts == 0
    &&& r.pid is None
    &&& r.exit_code is None
    &&& r.error is None
    &&& r.guarded_exit is None
    &&& r.resources is None
}

/// The state of a plan that never ran: every process pending, in plan order.
pub fn initial_state(plan: &Plan, digest: String) -> (r: State)
    ensures
        r.schema@ == state_schema(),
        r.plan == plan.id,
        r.plan_digest == digest,
        !r.stop_requested,
        r.records@.len() == plan.processes@.len(),
        forall|i: int| 0 <= i < r.records@.len() ==> (#[trigger] r.records@[i]).0 == plan.processes@[i].id
            && fresh_record(r.records@[i].1, plan.processes@[i].id),
{
    let mut records: Vec<(String, Record)> = Vec::new();
    let mut i: usize = 0;
    while i < plan.processes.len()
        invariant
            i <= plan.processes@.len(),
            records@.len() == i,
            forall|k: int| 0 <= k < i ==> (#[trigger] records@[k]).0 == plan.processes@[k].id
                && fresh_record(records@[k].1, plan.processes@[k].id),
        decreases plan.processes@.len() - i,
    {
        let id = plan.processes[i].id.clone();
        records.push((id.clone(), Record {
            id,
            instance: None,
            phase: Phase::Pending,
            attempts: 0,
            pid: None,
            exit_code: None,
            error: None,
            guarded_exit: None,
            resources: None,
        }));
        i = i + 1;
    }
    State {
        schema: String::from_str("rx.supervisor-state.v1"),
        plan: plan.id.clone(),
        plan_digest: digest,
        stop_requested: false,
        records,
    }
}

/// A phase in which the previous owner may still have held the process.
pub open spec fn in_flight(p: Phase) -> bool {
    p == Phase::SpawnEntered || p == Phase::Starting || p == Phase::ProcessReady || p == Phase::Unready
        || p == Phase::StopRequested
}

pub open spec fn ownership_lost() -> Seq<char> {
    "supervisor ownership lost; no PID adoption or replay"@
}

/// Reopens a stored state for the same plan and plan digest. Ownership of a
/// process in flight is lost with the previous owner: it becomes unknown;
/// no pid is adopted and nothing is replayed.
pub fn reopen(state: &mut State, plan: &String, digest: &String) -> (r: Result<(), StoreError>)
    ensures
        old(state).plan@ != plan@ || old(state).plan_digest@ != digest@ ==> (r matches Err(e) && e@ == Refusal::KeyConflict)
            && *final(state) == *old(state),
        old(state).plan@ == plan@ && old(state).plan_digest@ == digest@ ==> (r is Ok && {
            &&& final(state).schema == old(state).schema
            &&& final(state).plan == old(state).plan
            &&& final(state).plan_digest == old(state).plan_digest
            &&& final(state).stop_requested == old(state).stop_requested
            &&& final(state).records@.len() == old(state).records@.len()
            &&& forall|i: int| 0 <= i < old(state).records@.len() ==> {
                let o = #[trigger] old(state).records@[i];
                let n = final(state).records@[i];
                if in_flight(o.1.phase) {
                    n == (o.0, Record { phase: Phase::Unknown, error: Some(n.1.error->0), ..o.1 })
                        && (n.1.error matches Some(m) && m@ == ownership_lost())
                } else {
                    n == o
                }
            }
        }),
{
    if state.plan != *plan || state.plan_digest != *digest {
        return Err(StoreError::KeyConflict);
    }
    let ghost before = state.records@;
    let mut i: usize = 0;
    while i < state.records.len()
        invariant
            i <= state.records@.len(),
            state.records@.len() == before.len(),
            state.plan == old(state).plan,
            state.plan_digest == old(state).plan_digest,
            state.schema == old(state).schema,
            state.stop_requested == old(state).stop_requested,
            before == old(state).records@,
            forall|k: int| i <= k < before.len() ==> state.records@[k] == before[k],
            forall|k: int| 0 <= k < i ==> {
                let o = #[trigger] before[k];
                let n = state.records@[k];
                if in_flight(o.1.phase) {
                    n == (o.0, Record { phase: Phase::Unknown, error: Some(n.1.error->0), ..o.1 })
                        && (n.1.error matches Some(m) && m@ == ownership_lost())
                } else {
                    n == o
                }
            },
        decreases state.records@.len() - i,
    {
        let phase = state.records[i].1.phase;
        if phase == Phase::SpawnEntered || phase == Phase::Starting || phase == Phase::ProcessReady
            || phase == Phase::Unready || phase == Phase::StopRequested {
            let (id, record) = state.records.remove(i);
            let changed = Record {
                phase: Phase::Unknown,
                error: Some(String::from_str("supervisor ownership lost; no PID adoption or replay")),
                ..record
            };
            state.records.insert(i, (id, changed));
        }
        i = i + 1;
    }
    Ok(())
}

/// The process has stopped for good: exited, skipped or failed to start.
pub open spec fn settled(p: Phase) -> bool {
    p == Phase::Exited || p == Phase::Skipped || p == Phase::StartFailed
}

/// The program of every process of `plan` is in `programs`.
pub open spec fn programs_cover(plan: Plan, programs: Seq<(String, Program)>) -> bool {
    forall|i: int| 0 <= i < plan.processes@.len() ==> key_of(programs, (#[trigger] plan.processes@[i]).program@) is Some
}

/// The effect of the program that `p` runs.
pub open spec fn effect_of(programs: Seq<(String, Program)>, p: Process) -> Effect {
    programs[key_of(programs, p.program@)->0].1.effect
}

/// Software may be reactivated only after a requested stop that every
/// process has completed, and only when no process actuates.
pub open spec fn rearm_allowed(state: State, plan: Plan, programs: Seq<(String, Program)>) -> bool {
    &&& state.stop_requested
    &&& forall|i: int| 0 <= i < state.records@.len() ==> settled((#[trigger] state.records@[i]).1.phase)
    &&& forall|i: int| 0 <= i < plan.processes@.len() ==> effect_of(programs, #[trigger] plan.processes@[i]) == Effect::NonActuating
}

pub fn rearm_check(state: &State, plan: &Plan, programs: &Vec<(String, Program)>) -> (r: Result<(), Error>)
    requires
        programs_cover(*plan, programs@),
    ensures
        r is Ok <==> rearm_allowed(*state, *plan, programs@),
        r matches Err(e) ==> (e matches Error::Reconciliation(m) && m@ == "software reactivation prerequisites not satisfied"@),
{
    let mut ok = state.stop_requested;
    let mut i: usize = 0;
    while ok && i < state.records.len()
        invariant
            i <= state.records@.len(),
            ok ==> state.stop_requested && forall|k: int| 0 <= k < i ==> settled((#[trigger] state.records@[k]).1.phase),
            !ok ==> !rearm_allowed(*state, *plan, programs@),
        decreases state.records@.len() - i,
    {
        let phase = state.records[i].1.phase;
        if !(phase == Phase::Exited || phase == Phase::Skipped || phase == Phase::StartFailed) {
            ok = false;
            assert(!settled(state.records@[i as int].1.phase));
        }
        i = i + 1;
    }
    let mut j: usize = 0;
    while ok && j < plan.processes.len()
        invariant
            j <= plan.processes@.len(),
            programs_cover(*plan, programs@),
            ok ==> state.stop_requested && forall|k: int| 0 <= k < state.records@.len() ==> settled((#[trigger] state.records@[k]).1.phase),
            ok ==> forall|k: int| 0 <= k < j ==> effect_of(programs@, #[trigger] plan.processes@[k]) == Effect::NonActuating,
            !ok ==> !rearm_allowed(*state, *plan, programs@),
        decreases plan.processes@.len() - j,
    {
        let x = match crate::plan::find_key(programs, &plan.processes[j].program) {
            Some(x) => x,
            None => {
                assert(key_of(programs@, plan.processes@[j as int].program@) is Some);
                0
            },
        };
        if programs[x].1.effect != Effect::NonActuating {
            ok = false;
            assert(effect_of(programs@, plan.processes@[j as int]) != Effect::NonActuating);
        }
        j = j + 1;
    }
    if !ok {
        return Err(Error::Reconciliation(String::from_str("software reactivation prerequisites not satisfied")));
    }
    Ok(())
}

/// Rearming makes every process pending again with no instance, attempt,
/// pid, exit code or error, and withdraws the stop request.
/// `n` is `o` rearmed: the stop request withdrawn, and every process
/// pending again with no instance, attempt, pid, exit code or error.
pub open spec fn rearmed(o: State, n: State) -> bool {
    &&& !n.stop_requested
    &&& n.schema == o.schema
    &&& n.plan == o.plan
    &&& n.plan_digest == o.plan_digest
    &&& n.records@.len() == o.records@.len()
    &&& forall|i: int| 0 <= i < o.records@.len() ==> {
        let x = #[trigger] o.records@[i];
        n.records@[i] == (x.0, Record {
            phase: Phase::Pending,
            instance: None,
            attempts: 0,
            pid: None,
            exit_code: None,
            error: None,
            ..x.1
        })
    }
}

pub fn rearm(state: &mut State)
    ensures
        rearmed(*old(state), *final(state)),
{
    state.stop_requested = false;
    let ghost before = state.records@;
    let mut i: usize = 0;
    while i < state.records.len()
        invariant
            i <= state.records@.len(),
            state.records@.len() == before.len(),
            before == old(state).records@,
            !state.stop_requested,
            state.schema == old(state).schema,
            state.plan == old(state).plan,
            state.plan_digest == old(state).plan_digest,
            forall|k: int| i <= k < before.len() ==> state.records@[k] == before[k],
            forall|k: int| 0 <= k < i ==> {
                let o = #[trigger] before[k];
                state.records@[k] == (o.0, Record {
                    phase: Phase::Pending,
                    instance: None,
                    attempts: 0,
                    pid: None,
                    exit_code: None,
                    error: None,
                    ..o.1
                })
            },
        decreases state.records@.len() - i,
    {
        let (id, record) = state.records.remove(i);
        let reset = Record { phase: Phase::Pending, instance: None, attempts: 0, pid: None, exit_code: None, error: None, ..record };
        state.records.insert(i, (id, reset));
        i = i + 1;
    }
}

/// The record of process `id` in `state`.
pub open spec fn record_of(state: State, id: Seq<char>) -> Record {
    state.records@[key_of(state.records@, id)->0].1
}

/// Every process of `plan` has a record in `state`.
pub open spec fn records_cover(state: State, plan: Plan) -> bool {
    forall|i: int| 0 <= i < plan.processes@.len() ==> key_of(state.records@, (#[trigger] plan.processes@[i]).id@) is Some
}

/// Shutdown completed: a stop was requested and every process settled.
pub open spec fn spec_all_exited(state: State) -> bool {
    state.stop_requested && forall|i: int| 0 <= i < state.records@.len() ==> settled((#[trigger] state.records@[i]).1.phase)
}

/// Every guarded service confirmed its own stop, or never started.
pub open spec fn spec_guarded_confirmed(state: State, plan: Plan, programs: Seq<(String, Program)>) -> bool {
    spec_all_exited(state) && forall|i: int| 0 <= i < plan.processes@.len() ==> {
        let p = #[trigger] plan.processes@[i];
        let r = record_of(state, p.id@);
        effect_of(programs, p) != Effect::ProtocolGuardedService || r.phase == Phase::Skipped
            || r.phase == Phase::StartFailed || r.guarded_exit matches Some(GuardedExit::Confirmed { .. })
    }
}

/// Some guarded exit was not confirmed, or confirmed needing reconciliation.
pub open spec fn spec_reconciliation(state: State) -> bool {
    exists|i: int| 0 <= i < state.records@.len() && match (#[trigger] state.records@[i]).1.guarded_exit {
        Some(GuardedExit::Unconfirmed { .. }) => true,
        Some(GuardedExit::Confirmed { reconciliation_required, .. }) => reconciliation_required,
        None => false,
    }
}

/// The summary a supervision step reports: whether shutdown completed,
/// whether every guarded service confirmed its stop, and whether an exit
/// needs reconciliation.
pub fn summary(state: &State, plan: &Plan, programs: &Vec<(String, Program)>) -> (r: (bool, bool, bool))
    requires
        programs_cover(*plan, programs@),
        records_cover(*state, *plan),
    ensures
        r.0 == spec_all_exited(*state),
        r.1 == spec_guarded_confirmed(*state, *plan, programs@),
        r.2 == spec_reconciliation(*state),
{
    let mut all = state.stop_requested;
    let mut reconcile = false;
    let mut i: usize = 0;
    while i < state.records.len()
        invariant
            i <= state.records@.len(),
            all == (state.stop_requested && forall|k: int| 0 <= k < i ==> settled((#[trigger] state.records@[k]).1.phase)),
            reconcile == exists|k: int| 0 <= k < i && match (#[trigger] state.records@[k]).1.guarded_exit {
                Some(GuardedExit::Unconfirmed { .. }) => true,
                Some(GuardedExit::Confirmed { reconciliation_required, .. }) => reconciliation_required,
                None => false,
            },
        decreases state.records@.len() - i,
    {
        let r = &state.records[i].1;
        if !(r.phase == Phase::Exited || r.phase == Phase::Skipped || r.phase == Phase::StartFailed) {
            all = false;
        }
        let needs = match &r.guarded_exit {
            Some(GuardedExit::Unconfirmed { .. }) => true,
            Some(GuardedExit::Confirmed { reconciliation_required, .. }) => *reconciliation_required,
            None => false,
        };
        if needs {
            reconcile = true;
        }
        i = i + 1;
    }
    let mut confirmed = all;
    let mut j: usize = 0;
    while confirmed && j < plan.processes.len()
        invariant
            j <= plan.processes@.len(),
            programs_cover(*plan, programs@),
            records_cover(*state, *plan),
            all == spec_all_exited(*state),
            confirmed ==> all && forall|k: int| 0 <= k < j ==> {
                let p = #[trigger] plan.processes@[k];
                let r = record_of(*state, p.id@);
                effect_of(programs@, p) != Effect::ProtocolGuardedService || r.phase == Phase::Skipped
                    || r.phase == Phase::StartFailed || r.guarded_exit matches Some(GuardedExit::Confirmed { .. })
            },
            !confirmed ==> !spec_guarded_confirmed(*state, *plan, programs@),
        decreases plan.processes@.len() - j,
    {
        let p = &plan.processes[j];
        let x = match crate::plan::find_key(programs, &p.program) {
            Some(x) => x,
            None => {
                assert(key_of(programs@, plan.processes@[j as int].program@) is Some);
                0
            },
        };
        let y = match crate::plan::find_key(&state.records, &p.id) {
            Some(y) => y,
            None => {
                assert(key_of(state.records@, plan.processes@[j as int].id@) is Some);
                0
            },
        };
        let r = &state.records[y].1;
        let ok = programs[x].1.effect != Effect::ProtocolGuardedService || r.phase == Phase::Skipped
            || r.phase == Phase::StartFailed || match &r.guarded_exit {
            Some(GuardedExit::Confirmed { .. }) => true,
            _ => false,
        };
        if !ok {
            confirmed = false;
        }
        j = j + 1;
    }
    (all, confirmed, reconcile)
}

/// A guarded service's status, as the supervisor reads it.
#[derive(Clone, Debug)]
pub enum GuardedState {
    Ready,
    Stopped { reconciliation_required: bool },
    /// Any other reported state.
    Other,
}

/// One status report of a guarded service.
#[derive(Clone, Debug)]
pub struct GuardedObservation {
    pub state: GuardedState,
    pub sequence: u64,
    pub observed_at: TimePoint,
    pub payload_digest: String,
}

/// What an observed exit of a guarded service establishes: only a zero
/// exit followed by the service's own terminal report confirms the stop.
pub fn interpret_exit(code: Option<i32>, status: Result<Option<GuardedObservation>, String>) -> (r: GuardedExit)
    ensures
        match status {
            Ok(Some(o)) => if code == Some(0i32) {
                match o.state {
                    GuardedState::Stopped { reconciliation_required } => r == GuardedExit::Confirmed {
                        reconciliation_required,
                        sequence: o.sequence,
                        observed_at: o.observed_at,
                        payload_digest: o.payload_digest,
                    },
                    _ => r matches GuardedExit::Unconfirmed { reason } && reason@ == "exited without terminal guarded status"@,
                }
            } else {
                r matches GuardedExit::Unconfirmed { reason } && reason@ == "zero exit and current guarded stop report required"@
            },
            Ok(None) => r matches GuardedExit::Unconfirmed { reason } && reason@ == "zero exit and current guarded stop report required"@,
            Err(e) => r matches GuardedExit::Unconfirmed { reason } && reason == e,
        },
{
    match status {
        Ok(Some(o)) => {
            let zero = match code {
                Some(c) => c == 0,
                None => false,
            };
            if zero {
                match o.state {
                    GuardedState::Stopped { reconciliation_required } => GuardedExit::Confirmed {
                        reconciliation_required,
                        sequence: o.sequence,
                        observed_at: o.observed_at,
                        payload_digest: o.payload_digest,
                    },
                    _ => GuardedExit::Unconfirmed { reason: String::from_str("exited without terminal guarded status") },
                }
            } else {
                GuardedExit::Unconfirmed { reason: String::from_str("zero exit and current guarded stop report required") }
            }
        },
        Ok(None) => GuardedExit::Unconfirmed { reason: String::from_str("zero exit and current guarded stop report required") },
        Err(e) => GuardedExit::Unconfirmed { reason: e },
    }
}

/// `<process>: <reason>`, as a blocked step reports it.
pub fn blocked(process: &String, reason: &str) -> (r: String)
    ensures
        r@ == process@ + ": "@ + reason@,
{
    process.clone().concat(": ").concat(reason)
}

/// Records an observed exit. An exit nobody asked for is an error, and an
/// unexpected exit of a guarded service requests the stop of the rest.
pub fn record_exit(state: &mut State, index: usize, code: Option<i32>, exit: Option<GuardedExit>, guarded: bool)
    requires
        index < old(state).records@.len(),
    ensures
        ({
            let o = old(state).records@[index as int];
            let n = final(state).records@[index as int];
            &&& n.0 == o.0
            &&& n.1.phase == Phase::Exited
            &&& n.1.exit_code == code
            &&& n.1.guarded_exit == exit
            &&& n.1.error == if old(state).stop_requested { o.1.error } else { n.1.error }
            &&& !old(state).stop_requested ==> (n.1.error matches Some(m) && m@ == "unexpected service exit"@)
            &&& n.1.id == o.1.id && n.1.instance == o.1.instance && n.1.attempts == o.1.attempts
            &&& n.1.pid == o.1.pid && n.1.resources == o.1.resources
        }),
        final(state).stop_requested == (old(state).stop_requested || guarded),
        final(state).records@.len() == old(state).records@.len(),
        forall|i: int| 0 <= i < old(state).records@.len() && i != index ==> final(state).records@[i] == old(state).records@[i],
        final(state).schema == old(state).schema,
        final(state).plan == old(state).plan,
        final(state).plan_digest == old(state).plan_digest,
{
    let stop = state.stop_requested;
    let (id, record) = state.records.remove(index);
    let error = if stop { record.error } else { Some(String::from_str("unexpected service exit")) };
    let changed = Record { phase: Phase::Exited, exit_code: code, guarded_exit: exit, error, ..record };
    state.records.insert(index, (id, changed));
    if guarded && !stop {
        state.stop_requested = true;
    }
}

/// What the host saw of one process in a supervision step.
#[derive(Debug)]
pub enum Sighting {
    /// Whether the backend still owns the record's live instance.
    Handle { owned: bool },
    /// At the spawn boundary: the PID of the child this supervisor started
    /// and still holds, if any.
    SpawnBoundary { pid: Option<u32> },
    /// During startup: whether readiness is confirmed, and whether the
    /// startup deadline has passed.
    Startup { up: bool, overdue: bool },
    /// Whether a ready guarded service still reports protocol readiness.
    Guarded { ready: bool },
}

/// A phase in which this supervisor holds a started process.
pub open spec fn live(p: Phase) -> bool {
    p == Phase::Starting || p == Phase::ProcessReady || p == Phase::Unready || p == Phase::StopRequested
}

/// `n` is `o` with only its phase, PID and error changed as given.
pub open spec fn moved_to(o: Record, n: Record, phase: Phase, pid: Option<u32>, error: Seq<char>) -> bool {
    &&& n.phase == phase
    &&& n.pid == pid
    &&& n.error matches Some(m) && m@ == error
    &&& n.id == o.id && n.instance == o.instance && n.attempts == o.attempts && n.exit_code == o.exit_code
    &&& n.guarded_exit == o.guarded_exit && n.resources == o.resources
}

/// What sighting `s` makes of record `o`: the new record `n`, and whether
/// the plan must now stop. A record of unknown ownership never changes: no
/// PID is adopted, nothing is replayed or restarted. A live record whose
/// handle is gone becomes unknown; an unconfirmed spawn boundary becomes
/// unknown, and a confirmed one starting with its PID; a confirmed startup
/// is process-ready, and an overdue one unready but retained; a ready
/// guarded service that lost protocol readiness requests the plan's stop.
pub open spec fn sighted(o: Record, s: Sighting, n: Record, stop: bool) -> bool {
    if o.phase == Phase::Unknown {
        n == o && !stop
    } else {
        match s {
            Sighting::Handle { owned } => !stop && if live(o.phase) && o.instance is Some && !owned {
                moved_to(o, n, Phase::Unknown, o.pid, "live process handle unavailable"@)
            } else {
                n == o
            },
            Sighting::SpawnBoundary { pid } => !stop && if o.phase == Phase::SpawnEntered {
                match pid {
                    Some(p) => n == Record { phase: Phase::Starting, pid: Some(p), ..o },
                    None => moved_to(o, n, Phase::Unknown, o.pid, "spawn boundary is unconfirmed; retry forbidden"@),
                }
            } else {
                n == o
            },
            Sighting::Startup { up, overdue } => !stop && if o.phase == Phase::Starting && up {
                n == Record { phase: Phase::ProcessReady, ..o }
            } else if o.phase == Phase::Starting && overdue {
                moved_to(o, n, Phase::Unready, o.pid, "startup probe deadline exceeded; process may still be alive"@)
            } else {
                n == o
            },
            Sighting::Guarded { ready } => if o.phase == Phase::ProcessReady && !ready {
                stop && moved_to(o, n, Phase::ProcessReady, o.pid, "protocol readiness lost; cooperative stop required"@)
            } else {
                !stop && n == o
            },
        }
    }
}

/// Whether sighting `s` of record `o` asks the plan to stop.
pub open spec fn asks_stop(o: Record, s: Sighting) -> bool {
    o.phase == Phase::ProcessReady && (s matches Sighting::Guarded { ready } && !ready)
}

/// Applies what was seen of the process at `index` to the state.
pub fn sight(state: &mut State, index: usize, s: Sighting)
    requires
        index < old(state).records@.len(),
    ensures
        final(state).records@[index as int].0 == old(state).records@[index as int].0,
        sighted(old(state).records@[index as int].1, s, final(state).records@[index as int].1,
            asks_stop(old(state).records@[index as int].1, s)),
        final(state).stop_requested == (old(state).stop_requested || asks_stop(old(state).records@[index as int].1, s)),
        final(state).records@.len() == old(state).records@.len(),
        forall|i: int| 0 <= i < old(state).records@.len() && i != index ==> final(state).records@[i] == old(state).records@[i],
        final(state).schema == old(state).schema,
        final(state).plan == old(state).plan,
        final(state).plan_digest == old(state).plan_digest,
{
    let (id, record) = state.records.remove(index);
    let mut stop = false;
    let changed = if record.phase == Phase::Unknown {
        record
    } else {
        match s {
            Sighting::Handle { owned } => {
                let live = record.phase == Phase::Starting || record.phase == Phase::ProcessReady
                    || record.phase == Phase::Unready || record.phase == Phase::StopRequested;
                if live && record.instance.is_some() && !owned {
                    Record { phase: Phase::Unknown, error: Some(String::from_str("live process handle unavailable")), ..record }
                } else {
                    record
                }
            },
            Sighting::SpawnBoundary { pid } => {
                if record.phase == Phase::SpawnEntered {
                    match pid {
                        Some(p) => Record { phase: Phase::Starting, pid: Some(p), ..record },
                        None => Record {
                            phase: Phase::Unknown,
                            error: Some(String::from_str("spawn boundary is unconfirmed; retry forbidden")),
                            ..record
                        },
                    }
                } else {
                    record
                }
            },
            Sighting::Startup { up, overdue } => {
                if record.phase == Phase::Starting && up {
                    Record { phase: Phase::ProcessReady, ..record }
                } else if record.phase == Phase::Starting && overdue {
                    Record {
                        phase: Phase::Unready,
                        error: Some(String::from_str("startup probe deadline exceeded; process may still be alive")),
                        ..record
                    }
                } else {
                    record
                }
            },
            Sighting::Guarded { ready } => {
                if record.phase == Phase::ProcessReady && !ready {
                    stop = true;
                    Record { error: Some(String::from_str("protocol readiness lost; cooperative stop required")), ..record }
                } else {
                    record
                }
            },
        }
    };
    state.records.insert(index, (id, changed));
    if stop && !state.stop_requested {
        state.stop_requested = true;
    }
}

/// Why a step leaves a process alone before anything else is decided: a
/// record of unknown ownership is held, never started, stopped or adopted.
pub fn ownership_hold(p: &Process, record: &Record) -> (r: Option<String>)
    ensures
        r is Some <==> record.phase == Phase::Unknown,
        r matches Some(m) ==> m@ == p.id@ + ": "@ + "process ownership unknown"@,
{
    if record.phase == Phase::Unknown {
        Some(blocked(&p.id, "process ownership unknown"))
    } else {
        None
    }
}

/// Whatever a run of steps sees of a process whose ownership is unknown,
/// its record stays exactly as it is: no PID is adopted and no new phase,
/// start or replay follows, and no stop is requested on its account.
pub proof fn law_unknown_is_absorbing(records: Seq<Record>, seen: Seq<Sighting>, stops: Seq<bool>)
    requires
        records.len() == seen.len() + 1,
        stops.len() == seen.len(),
        records[0].phase == Phase::Unknown,
        forall|i: int| 0 <= i < seen.len() ==> #[trigger] sighted(records[i], seen[i], records[i + 1], stops[i]),
    ensures
        forall|i: int| 0 <= i < records.len() ==> #[trigger] records[i] == records[0],
        forall|i: int| 0 <= i < stops.len() ==> !#[trigger] stops[i],
    decreases seen.len(),
{
    if seen.len() > 0 {
        let n = seen.len() - 1;
        law_unknown_is_absorbing(records.drop_last(), seen.drop_last(), stops.drop_last());
        assert(records.drop_last()[n] == records[0]);
        assert(sighted(records[n], seen[n], records[n + 1], stops[n]));
        assert forall|i: int| 0 <= i < records.len() implies #[trigger] records[i] == records[0] by {
            if i < records.len() - 1 {
                assert(records.drop_last()[i] == records[0]);
            }
        }
        assert forall|i: int| 0 <= i < stops.len() implies !#[trigger] stops[i] by {
            if i < n {
                assert(!stops.drop_last()[i]);
            }
        }
    }
}

/// The identity a start uses: a prepared record keeps the identity it was
/// prepared under; any other record gets a fresh one (`None` here).
pub fn start_identity(record: &Record) -> (r: Result<Option<String>, Error>)
    ensures
        record.phase == Phase::Prepared ==> match record.instance {
            Some(i) => r == Ok::<Option<String>, Error>(Some(i)),
            None => r matches Err(Error::Invalid(m)) && m@ == "prepared identity missing"@,
        },
        record.phase != Phase::Prepared ==> r == Ok::<Option<String>, Error>(None),
{
    if record.phase == Phase::Prepared {
        match &record.instance {
            Some(i) => Ok(Some(i.clone())),
            None => Err(Error::Invalid(String::from_str("prepared identity missing"))),
        }
    } else {
        Ok(None)
    }
}

/// One durable step of a start, in the order the steps are taken.
#[derive(Debug)]
pub enum StartEvent {
    /// The start was authorized under the fresh identity `instance`:
    /// record it, with no trace of an earlier execution.
    Prepared { instance: String },
    /// Enter the spawn boundary, before any OS effect, counting the attempt.
    Entered,
    /// The authority withdrew before the OS was asked.
    Withdrawn,
    /// The OS started the process with this PID.
    Spawned { pid: u32 },
    /// Certainly nothing started.
    NotStarted { error: Error },
    /// Something may have started.
    Uncertain { error: Error },
}

/// What start event `e` makes of record `o`. An uncertain outcome leaves
/// the record of unknown ownership, never retried.
pub open spec fn started_as(o: Record, e: StartEvent, n: Record) -> bool {
    match e {
        StartEvent::Prepared { instance } => n == Record {
            phase: Phase::Prepared,
            instance: Some(instance),
            pid: None,
            exit_code: None,
            error: None,
            guarded_exit: None,
            ..o
        },
        StartEvent::Entered => n == Record { phase: Phase::SpawnEntered, attempts: (o.attempts + 1) as u64, ..o },
        StartEvent::Withdrawn => moved_to(o, n, Phase::StartFailed, o.pid, "startup authority changed before OS invocation"@),
        StartEvent::Spawned { pid } => n == Record { phase: Phase::Starting, pid: Some(pid), ..o },
        StartEvent::NotStarted { error } => moved_to(o, n, Phase::StartFailed, o.pid, error_text(error)),
        StartEvent::Uncertain { error } => moved_to(o, n, Phase::Unknown, o.pid, error_text(error)),
    }
}

/// Records start event `e` for the process at `index`.
pub fn start_step(state: &mut State, index: usize, e: StartEvent)
    requires
        index < old(state).records@.len(),
        e is Entered ==> old(state).records@[index as int].1.attempts < u64::MAX,
    ensures
        final(state).records@[index as int].0 == old(state).records@[index as int].0,
        started_as(old(state).records@[index as int].1, e, final(state).records@[index as int].1),
        final(state).stop_requested == old(state).stop_requested,
        final(state).records@.len() == old(state).records@.len(),
        forall|i: int| 0 <= i < old(state).records@.len() && i != index ==> final(state).records@[i] == old(state).records@[i],
        final(state).schema == old(state).schema,
        final(state).plan == old(state).plan,
        final(state).plan_digest == old(state).plan_digest,
{
    let (id, record) = state.records.remove(index);
    let changed = match e {
        StartEvent::Prepared { instance } => Record {
            phase: Phase::Prepared,
            instance: Some(instance),
            pid: None,
            exit_code: None,
            error: None,
            guarded_exit: None,
            ..record
        },
        StartEvent::Entered => Record { phase: Phase::SpawnEntered, attempts: record.attempts + 1, ..record },
        StartEvent::Withdrawn => Record {
            phase: Phase::StartFailed,
            error: Some(String::from_str("startup authority changed before OS invocation")),
            ..record
        },
        StartEvent::Spawned { pid } => Record { phase: Phase::Starting, pid: Some(pid), ..record },
        StartEvent::NotStarted { error } => Record { phase: Phase::StartFailed, error: Some(error.message()), ..record },
        StartEvent::Uncertain { error } => Record { phase: Phase::Unknown, error: Some(error.message()), ..record },
    };
    state.records.insert(index, (id, changed));
}

/// What a supervision step does with one process, once it is known,
/// for a live record with an instance, whether the backend still owns the
/// instance and whether it exited.
#[derive(Debug)]
pub enum StepAction {
    /// Leave the process alone and report it blocked for this reason.
    Hold(String),
    /// Its live handle is gone: it becomes of unknown ownership.
    Lost,
    /// It exited: record the exit; for a guarded service whose stop was
    /// not requested, latch the plan's stop too.
    Exit { latch_stop: bool },
    /// The plan is stopping: take the stop step.
    Stop,
    /// Take the start decision.
    Start(StartDecision),
    /// Resolve its spawn boundary.
    SpawnBoundary,
    /// Probe its startup.
    Startup,
    /// Check a ready guarded service's protocol readiness.
    Guarded,
    /// Nothing to do.
    Idle,
}

/// One process's place in a step: the action, and a note reported beside
/// it (a started process whose dependency is no longer ready).
#[derive(Debug)]
pub struct Step {
    pub note: Option<String>,
    pub action: StepAction,
}

/// The backend no longer owns the instance.
pub open spec fn handle_lost(handle: Option<(bool, bool)>) -> bool {
    handle matches Some((owned, _)) && !owned
}

/// The backend owns the instance, and it exited.
pub open spec fn handle_exited(handle: Option<(bool, bool)>) -> bool {
    handle matches Some((owned, exited)) && owned && exited
}

/// What `route` decides for `p` and its record.
pub open spec fn route_as(r: Step, p: Process, record: Record, stopping: bool, stop_requested: bool, effect: Effect,
    retry_pending: bool, ready: bool, handle: Option<(bool, bool)>) -> bool {
    &&& (record.phase == Phase::Unknown ==> r.note is None && (r.action matches StepAction::Hold(m)
        && m@ == p.id@ + ": "@ + "process ownership unknown"@))
    &&& (record.phase != Phase::Unknown && live(record.phase) && record.instance is Some && handle_lost(handle)
        ==> r.note is None && r.action is Lost)
    &&& (record.phase != Phase::Unknown && live(record.phase) && record.instance is Some && handle_exited(handle)
        ==> r.note is None && (r.action matches StepAction::Exit { latch_stop }
            && latch_stop == (effect == Effect::ProtocolGuardedService && !stop_requested)))
    &&& (record.phase != Phase::Unknown && !(live(record.phase) && record.instance is Some && (handle_lost(handle) || handle_exited(handle))) ==> {
        &&& (((record.phase == Phase::Starting || record.phase == Phase::ProcessReady) && !ready) ==> (r.note matches Some(m)
            && m@ == p.id@ + ": "@ + "dependency lost; readiness is not control authority"@))
        &&& (!((record.phase == Phase::Starting || record.phase == Phase::ProcessReady) && !ready) ==> r.note is None)
        &&& if stopping {
            r.action is Stop
        } else {
            match record.phase {
                Phase::Pending | Phase::Prepared | Phase::Exited | Phase::StartFailed => (r.action matches StepAction::Start(d)
                    && start_decided(d, p, record, effect, retry_pending, ready)),
                Phase::SpawnEntered => r.action is SpawnBoundary,
                Phase::Starting => r.action is Startup,
                Phase::Unready => r.action matches StepAction::Hold(m)
                    && m@ == p.id@ + ": "@ + "startup not confirmed; process retained"@,
                Phase::ProcessReady => if effect == Effect::ProtocolGuardedService { r.action is Guarded } else { r.action is Idle },
                _ => r.action is Idle,
            }
        }
    })
}

/// Decides what a step does with process `p` and its record. `stopping`
/// is whether the plan's stop was requested or latched; `effect` is its
/// program's effect; `retry_pending` whether its restart backoff is still
/// running; `ready` whether its dependencies are ready; `handle`, for a
/// live record with an instance, whether its instance is owned and, if so,
/// whether it exited.
pub fn route(p: &Process, record: &Record, stopping: bool, stop_requested: bool, effect: Effect, retry_pending: bool,
    ready: bool, handle: Option<(bool, bool)>) -> (r: Step)
    requires
        live(record.phase) && record.instance is Some ==> handle is Some,
    ensures
        route_as(r, *p, *record, stopping, stop_requested, effect, retry_pending, ready, handle),
{
    if let Some(m) = ownership_hold(p, record) {
        return Step { note: None, action: StepAction::Hold(m) };
    }
    let is_live = record.phase == Phase::Starting || record.phase == Phase::ProcessReady || record.phase == Phase::Unready
        || record.phase == Phase::StopRequested;
    if is_live && record.instance.is_some() {
        match handle {
            Some((false, _)) => {
                return Step { note: None, action: StepAction::Lost };
            },
            Some((true, true)) => {
                return Step {
                    note: None,
                    action: StepAction::Exit { latch_stop: effect == Effect::ProtocolGuardedService && !stop_requested },
                };
            },
            _ => {},
        }
    }
    let note = if (record.phase == Phase::Starting || record.phase == Phase::ProcessReady) && !ready {
        Some(blocked(&p.id, "dependency lost; readiness is not control authority"))
    } else {
        None
    };
    if stopping {
        return Step { note, action: StepAction::Stop };
    }
    let action = match record.phase {
        Phase::Pending | Phase::Prepared | Phase::Exited | Phase::StartFailed => {
            StepAction::Start(start_gate(p, record, effect, retry_pending, ready))
        },
        Phase::SpawnEntered => StepAction::SpawnBoundary,
        Phase::Starting => StepAction::Startup,
        Phase::Unready => StepAction::Hold(blocked(&p.id, "startup not confirmed; process retained")),
        Phase::ProcessReady => {
            if effect == Effect::ProtocolGuardedService {
                StepAction::Guarded
            } else {
                StepAction::Idle
            }
        },
        _ => StepAction::Idle,
    };
    Step { note, action }
}

/// What `start_gate` decides for `p` and its record.
pub open spec fn start_decided(d: StartDecision, p: Process, record: Record, effect: Effect, retry_pending: bool, ready: bool) -> bool {
    if record.attempts > 0 && (effect != Effect::NonActuating || record.attempts > p.restart_limit) {
        d matches StartDecision::Blocked(m) && m@ == p.id@ + ": "@ + restart_refused()
    } else if retry_pending || !ready {
        d is Wait
    } else {
        d is Start
    }
}

/// In a step, a process of unknown ownership is only held: it is reported
/// blocked, and nothing is probed, started, stopped or recorded of it.
/// Over any run of steps, what is seen of it never changes its record.
pub proof fn law_unknown_is_held(p: Process, record: Record, r: Step, stopping: bool, stop_requested: bool, effect: Effect,
    retry_pending: bool, ready: bool, handle: Option<(bool, bool)>)
    requires
        record.phase == Phase::Unknown,
        route_as(r, p, record, stopping, stop_requested, effect, retry_pending, ready, handle),
    ensures
        r.note is None,
        r.action matches StepAction::Hold(m) && m@ == p.id@ + ": "@ + "process ownership unknown"@,
{
}

/// In a step that is not stopping, a process whose restart budget is spent
/// (it ran before and actuates, or ran more often than its limit) is held
/// with the refusal, and neither started nor changed.
pub proof fn law_spent_budget_is_held(p: Process, record: Record, r: Step, stop_requested: bool, effect: Effect,
    retry_pending: bool, ready: bool, handle: Option<(bool, bool)>)
    requires
        record.phase == Phase::Pending || record.phase == Phase::Prepared || record.phase == Phase::Exited
            || record.phase == Phase::StartFailed,
        record.attempts > 0 && (effect != Effect::NonActuating || record.attempts > p.restart_limit),
        route_as(r, p, record, false, stop_requested, effect, retry_pending, ready, handle),
    ensures
        r.action matches StepAction::Start(StartDecision::Blocked(m)) && m@ == p.id@ + ": "@ + restart_refused(),
{
}

/// Software reactivation of a completed stop: only when the stop was
/// requested, every process has settled and every program is non-actuating
/// is the state rearmed; otherwise it is refused and left as it was.
pub fn rearm_software(state: &mut State, plan: &Plan, programs: &Vec<(String, Program)>) -> (r: Result<(), Error>)
    requires
        programs_cover(*plan, programs@),
    ensures
        r is Ok <==> rearm_allowed(*old(state), *plan, programs@),
        r is Ok ==> rearmed(*old(state), *final(state)),
        r matches Err(e) ==> (e matches Error::Reconciliation(m) && m@ == "software reactivation prerequisites not satisfied"@)
            && *final(state) == *old(state),
{
    if let Err(e) = rearm_check(state, plan, programs) {
        return Err(e);
    }
    rearm(state);
    Ok(())
}

/// Every dependency of `p` is ready.
pub open spec fn dependencies_ready(state: State, p: Process) -> bool {
    forall|t: int| 0 <= t < p.depends_on@.len() ==> record_of(state, (#[trigger] p.depends_on@[t])@).phase == Phase::ProcessReady
}

/// The dependencies of every process have records in `state`.
pub open spec fn dependencies_covered(state: State, p: Process) -> bool {
    forall|t: int| 0 <= t < p.depends_on@.len() ==> key_of(state.records@, (#[trigger] p.depends_on@[t])@) is Some
}

pub fn deps_ready(state: &State, p: &Process) -> (r: bool)
    requires
        dependencies_covered(*state, *p),
    ensures
        r == dependencies_ready(*state, *p),
{
    let mut t: usize = 0;
    while t < p.depends_on.len()
        invariant
            t <= p.depends_on@.len(),
            dependencies_covered(*state, *p),
            forall|u: int| 0 <= u < t ==> record_of(*state, (#[trigger] p.depends_on@[u])@).phase == Phase::ProcessReady,
        decreases p.depends_on@.len() - t,
    {
        let y = match crate::plan::find_key(&state.records, &p.depends_on[t]) {
            Some(y) => y,
            None => {
                assert(key_of(state.records@, p.depends_on@[t as int]@) is Some);
                0
            },
        };
        if state.records[y].1.phase != Phase::ProcessReady {
            return false;
        }
        t = t + 1;
    }
    true
}

/// What a step decides for a process that may be started.
#[derive(Debug)]
pub enum StartDecision {
    /// Report the process blocked for this reason.
    Blocked(String),
    /// Leave it for a later step.
    Wait,
    /// Start it.
    Start,
}

pub open spec fn restart_refused() -> Seq<char> {
    "restart budget exhausted or explicit control restart required"@
}

/// Whether to start a pending, prepared, exited or failed process now. A
/// process that already ran restarts only if it does not actuate and its
/// restart budget is not spent; it waits out its backoff and its
/// dependencies' readiness.
pub fn start_gate(p: &Process, record: &Record, effect: Effect, retry_pending: bool, ready: bool) -> (r: StartDecision)
    ensures
        record.attempts > 0 && (effect != Effect::NonActuating || record.attempts > p.restart_limit)
            ==> (r matches StartDecision::Blocked(m) && m@ == p.id@ + ": "@ + restart_refused()),
        !(record.attempts > 0 && (effect != Effect::NonActuating || record.attempts > p.restart_limit)) && (retry_pending || !ready)
            ==> r is Wait,
        !(record.attempts > 0 && (effect != Effect::NonActuating || record.attempts > p.restart_limit)) && !retry_pending && ready
            ==> r is Start,
{
    if record.attempts > 0 && (effect != Effect::NonActuating || record.attempts > p.restart_limit) {
        return StartDecision::Blocked(blocked(&p.id, "restart budget exhausted or explicit control restart required"));
    }
    if retry_pending || !ready {
        return StartDecision::Wait;
    }
    StartDecision::Start
}

/// What a step decides for a process while the plan is stopping.
#[derive(Debug)]
pub enum StopDecision {
    /// Never started: mark it skipped.
    Skip,
    /// Already settled.
    Done,
    Blocked(String),
    /// Record the stop request, recheck authority, then ask it to stop.
    RequestStop,
    /// Ask it to stop again.
    Terminate,
    /// The grace period passed: terminate a non-actuating process by force.
    Force,
    /// Wait for it to stop.
    Wait,
}

/// A process that depends on `id` is still present.
pub open spec fn dependents_present(plan: Plan, state: State, id: Seq<char>) -> bool {
    exists|i: int| 0 <= i < plan.processes@.len() && {
        let q = #[trigger] plan.processes@[i];
        &&& exists|t: int| 0 <= t < q.depends_on@.len() && (#[trigger] q.depends_on@[t])@ == id
        &&& !(settled(record_of(state, q.id@).phase) || record_of(state, q.id@).phase == Phase::Pending
            || record_of(state, q.id@).phase == Phase::Prepared)
    }
}

/// The stop step of one process. `present` says whether a dependent
/// process is still present, `may_stop` what the lifecycle authority says,
/// and `stopping` whether a stop was already sent and, if so, whether its
/// grace period has passed.
/// Whether process `q` depends on the process named `id`.
fn depends_on_id(q: &Process, id: &String) -> (r: bool)
    ensures
        r == exists|t: int| 0 <= t < q.depends_on@.len() && (#[trigger] q.depends_on@[t])@ == id@,
{
    let mut t: usize = 0;
    while t < q.depends_on.len()
        invariant
            t <= q.depends_on@.len(),
            forall|u: int| 0 <= u < t ==> (#[trigger] q.depends_on@[u])@ != id@,
        decreases q.depends_on@.len() - t,
    {
        if q.depends_on[t] == *id {
            return true;
        }
        t = t + 1;
    }
    false
}

/// Whether a process that depends on `id` has started and not yet
/// settled: such a dependent keeps `id` from being stopped.
pub fn dependents_remaining(plan: &Plan, state: &State, id: &String) -> (r: bool)
    requires
        records_cover(*state, *plan),
    ensures
        r == dependents_present(*plan, *state, id@),
{
    let mut i: usize = 0;
    while i < plan.processes.len()
        invariant
            i <= plan.processes@.len(),
            records_cover(*state, *plan),
            forall|k: int| 0 <= k < i ==> !({
                let q = #[trigger] plan.processes@[k];
                &&& exists|t: int| 0 <= t < q.depends_on@.len() && (#[trigger] q.depends_on@[t])@ == id@
                &&& !(settled(record_of(*state, q.id@).phase) || record_of(*state, q.id@).phase == Phase::Pending
                    || record_of(*state, q.id@).phase == Phase::Prepared)
            }),
        decreases plan.processes@.len() - i,
    {
        let q = &plan.processes[i];
        if depends_on_id(q, id) {
            let y = match crate::plan::find_key(&state.records, &q.id) {
                Some(y) => y,
                None => {
                    assert(key_of(state.records@, plan.processes@[i as int].id@) is Some);
                    0
                },
            };
            let phase = state.records[y].1.phase;
            if !(phase == Phase::Exited || phase == Phase::StartFailed || phase == Phase::Skipped || phase == Phase::Pending
                || phase == Phase::Prepared) {
                return true;
            }
        }
        i = i + 1;
    }
    false
}

pub fn stop_step(p: &Process, record: &Record, present: bool, may_stop: bool, stopping: Option<bool>, effect: Effect) -> (r: StopDecision)
    ensures
        record.phase == Phase::Pending || record.phase == Phase::Prepared ==> r is Skip,
        settled(record.phase) ==> r is Done,
        !(record.phase == Phase::Pending || record.phase == Phase::Prepared || settled(record.phase)) ==> {
            if record.instance is None {
                r matches StopDecision::Blocked(m) && m@ == p.id@ + ": "@ + "no process identity"@
            } else if present {
                r matches StopDecision::Blocked(m) && m@ == p.id@ + ": "@ + "dependent process still present"@
            } else if !may_stop {
                r matches StopDecision::Blocked(m) && m@ == p.id@ + ": "@ + "release/stop authority required"@
            } else if record.phase != Phase::StopRequested {
                r is RequestStop
            } else {
                match stopping {
                    None => r is Terminate,
                    Some(false) => r is Wait,
                    Some(true) => if effect == Effect::NonActuating {
                        r is Force
                    } else {
                        r matches StopDecision::Blocked(m) && m@ == p.id@ + ": "@
                            + "control process is retained; forced termination not allowed"@
                    },
                }
            }
        },
{
    if record.phase == Phase::Pending || record.phase == Phase::Prepared {
        return StopDecision::Skip;
    }
    if record.phase == Phase::Exited || record.phase == Phase::StartFailed || record.phase == Phase::Skipped {
        return StopDecision::Done;
    }
    if record.instance.is_none() {
        return StopDecision::Blocked(blocked(&p.id, "no process identity"));
    }
    if present {
        return StopDecision::Blocked(blocked(&p.id, "dependent process still present"));
    }
    if !may_stop {
        return StopDecision::Blocked(blocked(&p.id, "release/stop authority required"));
    }
    if record.phase != Phase::StopRequested {
        return StopDecision::RequestStop;
    }
    match stopping {
        None => StopDecision::Terminate,
        Some(false) => StopDecision::Wait,
        Some(true) => {
            if effect == Effect::NonActuating {
                StopDecision::Force
            } else {
                StopDecision::Blocked(blocked(&p.id, "control process is retained; forced termination not allowed"))
            }
        },
    }
}

/// Requirement `name` is declared and more than "not required".
pub open spec fn declared_enforced(rs: Seq<(String, Requirement)>, name: Seq<char>) -> bool {
    key_of(rs, name) is Some && !(rs[key_of(rs, name)->0].1 is NotRequired)
}

/// A backend's rejection is usable: it names 1..=n distinct declared
/// requirements that need enforcement, each with a bounded reason.
pub open spec fn rejection_valid(unmet: Seq<Unmet>, rs: Seq<(String, Requirement)>) -> bool {
    &&& 1 <= unmet.len() <= rs.len()
    &&& forall|a: int, b: int| 0 <= a < b < unmet.len() ==> (#[trigger] unmet[a]).requirement@ != (#[trigger] unmet[b]).requirement@
    &&& forall|a: int| 0 <= a < unmet.len() ==> declared_enforced(rs, (#[trigger] unmet[a]).requirement@)
        && crate::text::bounded(unmet[a].reason@, 1024)
}

pub fn check_rejection(unmet: &Vec<Unmet>, requirements: &Requirements) -> (r: bool)
    ensures
        r == rejection_valid(unmet@, requirements.0@),
{
    if unmet.len() == 0 || unmet.len() > requirements.0.len() {
        return false;
    }
    let mut a: usize = 0;
    while a < unmet.len()
        invariant
            a <= unmet@.len(),
            1 <= unmet@.len() <= requirements.0@.len(),
            forall|x: int, y: int| 0 <= x < a && x < y < unmet@.len() ==> (#[trigger] unmet@[x]).requirement@ != (#[trigger] unmet@[y]).requirement@,
            forall|x: int| 0 <= x < a ==> declared_enforced(requirements.0@, (#[trigger] unmet@[x]).requirement@)
                && crate::text::bounded(unmet@[x].reason@, 1024),
        decreases unmet@.len() - a,
    {
        let named = match crate::plan::find_key(&requirements.0, &unmet[a].requirement) {
            Some(j) => match requirements.0[j].1 {
                Requirement::NotRequired => false,
                _ => true,
            },
            None => false,
        };
        if !named || !crate::text::is_bounded(&unmet[a].reason, 1024) {
            return false;
        }
        let mut b: usize = a + 1;
        while b < unmet.len()
            invariant
                a < unmet@.len(),
                a + 1 <= b <= unmet@.len(),
                forall|y: int| a < y < b ==> unmet@[a as int].requirement@ != (#[trigger] unmet@[y]).requirement@,
            decreases unmet@.len() - b,
        {
            if unmet[a].requirement == unmet[b].requirement {
                return false;
            }
            b = b + 1;
        }
        a = a + 1;
    }
    true
}

/// `<requirement>: <reason>` for each unmet requirement, joined by `; `.
pub open spec fn unmet_text(unmet: Seq<Unmet>) -> Seq<char>
    decreases unmet.len(),
{
    if unmet.len() == 0 {
        Seq::empty()
    } else if unmet.len() == 1 {
        unmet[0].requirement@ + ": "@ + unmet[0].reason@
    } else {
        unmet_text(unmet.drop_last()) + "; "@ + unmet.last().requirement@ + ": "@ + unmet.last().reason@
    }
}

/// The failure a rejected start reports.
pub fn rejection_message(unmet: &Vec<Unmet>) -> (r: String)
    ensures
        r@ == "execution admission rejected: "@ + unmet_text(unmet@),
{
    let mut text = String::new();
    let mut i: usize = 0;
    while i < unmet.len()
        invariant
            i <= unmet@.len(),
            text@ == unmet_text(unmet@.take(i as int)),
        decreases unmet@.len() - i,
    {
        proof {
            assert(unmet@.take(i + 1).drop_last() == unmet@.take(i as int));
        }
        if i == 0 {
            text = unmet[i].requirement.clone().concat(": ").concat(unmet[i].reason.as_str());
        } else {
            text = text.concat("; ").concat(unmet[i].requirement.as_str()).concat(": ").concat(unmet[i].reason.as_str());
        }
        i = i + 1;
    }
    proof {
        assert(unmet@.take(i as int) == unmet@);
    }
    String::from_str("execution admission rejected: ").concat(text.as_str())
}

pub open spec fn unmatched_receipt() -> Seq<char> {
    "execution admission receipt does not match the complete current launch"@
}

pub open spec fn invalid_rejection() -> Seq<char> {
    "backend rejection has no valid named requirement reason"@
}

/// The reasons a start that did not begin leaves: every requirement that
/// needs enforcement, or else the start itself, for the error's message.
pub open spec fn start_reasons(request: Request, unmet: Seq<Unmet>, text: Seq<char>) -> bool {
    let names = names_where(request.spec_requirements().0@, |x: Requirement| enforced(x));
    if names.len() > 0 {
        unmet_for(unmet, names, text)
    } else {
        unmet.len() == 1 && unmet[0].requirement@ == "execution/start"@ && unmet[0].reason@ == text
    }
}

/// What a start under declared requirements established, and the admission
/// status it leaves. Only a receipt for exactly this request, with a real
/// PID, admits. A rejection must name declared enforced requirements, each
/// once, with a bounded reason; otherwise the start is uncertain.
pub fn admission_result(request: &Request, decision: Result<Decision, SpawnFailure>) -> (r: (Result<u32, SpawnFailure>, ExecutionStatus))
    ensures
        r.1.requested matches Some(q) && q.0@ == request.spec_requirements().0@,
        match decision {
            Ok(Decision::Admitted { pid, receipt }) => if pid != 0 && receipt.spec_request().same(request) {
                r.0 == Ok::<u32, SpawnFailure>(pid) && r.1.application == (Application::ReportedAtStart { receipt })
                    && r.1.not_applied_reasons@.len() == 0
            } else {
                (r.0 matches Err(SpawnFailure::Uncertain(Error::Reconciliation(m))) && m@ == unmatched_receipt())
                    && (r.1.application matches Application::Unconfirmed { reason } && reason@ == "reconciliation required: "@ + unmatched_receipt())
                    && r.1.not_applied_reasons@.len() == 0
            },
            Ok(Decision::Rejected { unmet }) => if rejection_valid(unmet@, request.spec_requirements().0@) {
                (r.0 matches Err(SpawnFailure::NotStarted(Error::Invalid(m))) && m@ == "execution admission rejected: "@ + unmet_text(unmet@))
                    && r.1.application is NotApplied && r.1.not_applied_reasons@ == unmet@
            } else {
                (r.0 matches Err(SpawnFailure::Uncertain(Error::Reconciliation(m))) && m@ == invalid_rejection())
                    && (r.1.application matches Application::Unconfirmed { reason } && reason@ == "reconciliation required: "@ + invalid_rejection())
                    && r.1.not_applied_reasons@.len() == 0
            },
            Err(SpawnFailure::Uncertain(e)) => r.0 == Err::<u32, SpawnFailure>(SpawnFailure::Uncertain(e))
                && (r.1.application matches Application::Unconfirmed { reason } && reason@ == error_text(e))
                && r.1.not_applied_reasons@.len() == 0,
            Err(SpawnFailure::NotStarted(e)) => r.0 == Err::<u32, SpawnFailure>(SpawnFailure::NotStarted(e))
                && r.1.application is NotApplied && start_reasons(*request, r.1.not_applied_reasons@, error_text(e)),
        },
{
    let requested = Some(request.requirements().duplicate());
    match decision {
        Ok(Decision::Admitted { pid, receipt }) => {
            if pid != 0 && receipt.matches(request) {
                (Ok(pid), ExecutionStatus { requested, application: Application::ReportedAtStart { receipt }, not_applied_reasons: Vec::new() })
            } else {
                let e = Error::Reconciliation(String::from_str("execution admission receipt does not match the complete current launch"));
                let reason = e.message();
                (Err(SpawnFailure::Uncertain(e)), ExecutionStatus { requested, application: Application::Unconfirmed { reason }, not_applied_reasons: Vec::new() })
            }
        },
        Ok(Decision::Rejected { unmet }) => {
            if check_rejection(&unmet, request.requirements()) {
                let m = rejection_message(&unmet);
                (Err(SpawnFailure::NotStarted(Error::Invalid(m))), ExecutionStatus { requested, application: Application::NotApplied, not_applied_reasons: unmet })
            } else {
                let e = Error::Reconciliation(String::from_str("backend rejection has no valid named requirement reason"));
                let reason = e.message();
                (Err(SpawnFailure::Uncertain(e)), ExecutionStatus { requested, application: Application::Unconfirmed { reason }, not_applied_reasons: Vec::new() })
            }
        },
        Err(SpawnFailure::Uncertain(e)) => {
            let reason = e.message();
            (Err(SpawnFailure::Uncertain(e)), ExecutionStatus { requested, application: Application::Unconfirmed { reason }, not_applied_reasons: Vec::new() })
        },
        Err(SpawnFailure::NotStarted(e)) => {
            let text = e.message();
            let mut reasons = request.reject(text.as_str());
            if reasons.len() == 0 {
                proof {
                    let names = names_where(request.spec_requirements().0@, |x: Requirement| enforced(x));
                    assert(names.len() == 0);
                }
                reasons.push(Unmet { requirement: String::from_str("execution/start"), reason: text });
            }
            (Err(SpawnFailure::NotStarted(e)), ExecutionStatus { requested, application: Application::NotApplied, not_applied_reasons: reasons })
        },
    }
}

/// The admission status of a process with no current-owner observation:
/// legacy where nothing is declared, unconfirmed once a start was attempted
/// or ownership was lost, and otherwise not applied.
pub fn unobserved_status(requested: Option<Requirements>, attempts: u64, phase: Phase) -> (r: ExecutionStatus)
    ensures
        r.requested == requested,
        r.not_applied_reasons@.len() == 0,
        requested is None ==> r.application is LegacyNotDeclared,
        requested is Some && (attempts > 0 || phase == Phase::Unknown) ==> (r.application matches Application::Unconfirmed { reason }
            && reason@ == "no current-owner application receipt; no resource recovery is inferred"@),
        requested is Some && !(attempts > 0 || phase == Phase::Unknown) ==> r.application is NotApplied,
{
    let application = if requested.is_none() {
        Application::LegacyNotDeclared
    } else if attempts > 0 || phase == Phase::Unknown {
        Application::Unconfirmed { reason: String::from_str("no current-owner application receipt; no resource recovery is inferred") }
    } else {
        Application::NotApplied
    };
    ExecutionStatus { requested, application, not_applied_reasons: Vec::new() }
}

/// A process waits for every one of its dependencies: they count as ready
/// exactly when each process it depends on is `ProcessReady`. One that is
/// still starting, unready, stopping, exited or of unknown ownership holds
/// the dependent back.
pub proof fn law_dependencies_ready_only_when_each_is_ready(state: State, p: Process, t: int)
    requires
        0 <= t < p.depends_on@.len(),
    ensures
        record_of(state, p.depends_on@[t]@).phase != Phase::ProcessReady ==> !dependencies_ready(state, p),
        record_of(state, p.depends_on@[t]@).phase == Phase::Starting ==> !dependencies_ready(state, p),
        (forall|u: int| 0 <= u < p.depends_on@.len() ==> record_of(state, (#[trigger] p.depends_on@[u])@).phase
            == Phase::ProcessReady) ==> dependencies_ready(state, p),
{
}

} // verus!
