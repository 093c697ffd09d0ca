//! Explicit local software recovery. Historical execution reports are never
//! rewritten; a closure is a separate disposition, and a new execution after
//! an unresolved one needs an explicit, single-use resume.
use vstd::prelude::*;
use crate::ids::fresh_id;
use crate::registration::{
    assignment, eligibility, eligible, Registration,
    conflict, integrity, invalid, Binding, CatalogReference, Execution,
    ExecutionState, Refusal, RegistrationState, StoreError, TimePoint, VersionedRegistration,
};
use crate::text::{blank, bounded, byte_len, is_bounded, join3};

verus! {

/// `components/disposition/<component>/<instance>`
pub fn disposition_key(component: &String, instance: &String) -> (r: String)
    ensures
        r@ == "components/disposition/"@ + component@ + "/"@ + instance@,
{
    join3("components/disposition/", component.as_str(), instance.as_str())
}

/// `components/resume/<component>/<disposition>`
pub fn resume_key(component: &String, disposition: &String) -> (r: String)
    ensures
        r@ == "components/resume/"@ + component@ + "/"@ + disposition@,
{
    join3("components/resume/", component.as_str(), disposition.as_str())
}

/// Ephemeral evidence minted only after the real OS owner observed and
/// retired its non-actuating child handle. A persisted reference is not this.
#[derive(Debug)]
pub struct OwnedExit {
    reference: String,
    instance: String,
    pid: u32,
    exit_code: Option<i32>,
    observed_at: TimePoint,
}

impl OwnedExit {
    pub closed spec fn spec_instance(&self) -> String {
        self.instance
    }

    pub closed spec fn spec_pid(&self) -> u32 {
        self.pid
    }

    pub closed spec fn spec_reference(&self) -> String {
        self.reference
    }

    pub closed spec fn spec_observed_at(&self) -> TimePoint {
        self.observed_at
    }

    pub closed spec fn spec_exit_code(&self) -> Option<i32> {
        self.exit_code
    }

    /// The exit of an owned child, under a fresh reference. Only the owner
    /// of the child mints one.
    pub(crate) fn observed(instance: String, pid: u32, exit_code: Option<i32>, observed_at: TimePoint) -> (r:
        Self)
        ensures
            r.spec_instance() == instance,
            r.spec_pid() == pid,
            r.spec_observed_at() == observed_at,
            r.spec_exit_code() == exit_code,
    {
        OwnedExit { reference: fresh_id(), instance, pid, exit_code, observed_at }
    }

    pub fn instance(&self) -> (r: &String)
        ensures
            *r == self.spec_instance(),
    {
        &self.instance
    }

    pub fn observed_at(&self) -> (r: &TimePoint)
        ensures
            *r == self.spec_observed_at(),
    {
        &self.observed_at
    }
}

/// Names one recorded observation exactly: its row revision and digest.
#[derive(Clone, Debug)]
pub struct ObservationRef {
    pub registration: String,
    pub instance: String,
    pub revision: u64,
    pub digest: String,
}

impl ObservationRef {
    pub open spec fn same(&self, other: &ObservationRef) -> bool {
        &&& self.registration@ == other.registration@
        &&& self.instance@ == other.instance@
        &&& self.revision == other.revision
        &&& self.digest@ == other.digest@
    }

    pub fn duplicate(&self) -> (r: Self)
        ensures
            r == *self,
    {
        ObservationRef {
            registration: self.registration.clone(),
            instance: self.instance.clone(),
            revision: self.revision,
            digest: self.digest.clone(),
        }
    }

    pub fn matches(&self, other: &ObservationRef) -> (r: bool)
        ensures
            r == self.same(other),
    {
        self.registration == other.registration && self.instance == other.instance
            && self.revision == other.revision && self.digest == other.digest
    }
}

#[derive(Clone, Debug)]
pub struct RecoveryReport {
    pub actor: String,
    pub scope: String,
    pub observed_at: TimePoint,
    pub procedure: String,
}

#[derive(Clone, Copy, Debug, PartialEq, Eq, Structural)]
pub enum DispositionKind {
    ConfirmedClosure,
    UnableToResolve,
}

/// Observations that never suffice to close an execution.
#[derive(Debug)]
pub enum WeakObservation {
    Timeout,
    CurrentIdle,
    ProcessAbsent,
    ElapsedTime,
}

#[derive(Debug)]
pub enum RecoveryEvidence {
    NoEvidence,
    ObservationOnly { report: RecoveryReport, observation: WeakObservation },
    OwnedChildExit { report: RecoveryReport, witness: OwnedExit },
    Investigation { report: RecoveryReport, finding: String },
}

#[derive(Debug)]
pub struct DispositionRequest {
    pub target: ObservationRef,
    pub kind: DispositionKind,
    pub evidence: RecoveryEvidence,
}

#[derive(Clone, Debug)]
pub enum EvidenceReference {
    OwnedChildExit { reference: String, digest: String },
    Investigation { finding: String },
}

#[derive(Clone, Copy, Debug, PartialEq, Eq, Structural)]
pub enum PastOutcome {
    Unresolved,
}

#[derive(Clone, Copy, Debug, PartialEq, Eq, Structural)]
pub enum ResourceRecovery {
    NotClaimed,
}

#[derive(Clone, Copy, Debug, PartialEq, Eq, Structural)]
pub enum WorkUsePermission {
    Unsupported,
}

#[derive(Clone, Debug)]
pub struct Disposition {
    pub id: String,
    pub target: ObservationRef,
    pub kind: DispositionKind,
    pub report: RecoveryReport,
    pub evidence: EvidenceReference,
    pub past_outcome: PastOutcome,
    pub resource_recovery: ResourceRecovery,
    pub work_use_permission: WorkUsePermission,
}

#[derive(Clone, Debug)]
pub struct ResumeRequest {
    pub id: String,
    pub disposition: String,
    pub actor: String,
    pub requested_at: TimePoint,
    pub next_run: String,
}

impl ResumeRequest {
    pub open spec fn same(&self, other: &ResumeRequest) -> bool {
        &&& self.id@ == other.id@
        &&& self.disposition@ == other.disposition@
        &&& self.actor@ == other.actor@
        &&& self.requested_at.clock_id@ == other.requested_at.clock_id@
        &&& self.requested_at.ticks_ns == other.requested_at.ticks_ns
        &&& self.next_run@ == other.next_run@
    }

    pub fn matches(&self, other: &ResumeRequest) -> (r: bool)
        ensures
            r == self.same(other),
    {
        self.id == other.id && self.disposition == other.disposition && self.actor == other.actor
            && self.requested_at.clock_id == other.requested_at.clock_id
            && self.requested_at.ticks_ns == other.requested_at.ticks_ns && self.next_run
            == other.next_run
    }
}

impl ResumeRequest {
    pub fn duplicate(&self) -> (r: Self)
        ensures
            r == *self,
    {
        ResumeRequest {
            id: self.id.clone(),
            disposition: self.disposition.clone(),
            actor: self.actor.clone(),
            requested_at: self.requested_at.duplicate(),
            next_run: self.next_run.clone(),
        }
    }
}

#[derive(Clone, Debug)]
pub struct ResumeRecord {
    pub request: ResumeRequest,
    pub registration_revision: u64,
    pub catalog: CatalogReference,
    pub consumed_by: Option<String>,
}

/// A live permission to resume one named run. It cannot be deserialized; a
/// lost, unconsumed permit is reissued only through the same explicit request.
#[derive(Clone, Debug)]
pub struct ResumePermit {
    registration: String,
    request: ResumeRequest,
}

impl ResumePermit {
    pub closed spec fn spec_registration(&self) -> String {
        self.registration
    }

    pub closed spec fn spec_request(&self) -> ResumeRequest {
        self.request
    }
}

/// Binds recovery decisions to authenticated local policy; report strings
/// alone do not authenticate an actor. The defaults deny.
pub trait RecoveryAuthority {
    fn may_dispose(&self, request: &DispositionRequest) -> (r: bool)
        default_ensures
            !r,
    {
        false
    }

    fn may_resume(&self, disposition: &Disposition, request: &ResumeRequest) -> (r: bool)
        default_ensures
            !r,
    {
        false
    }
}

/// The authority that refuses every disposition and resume.
pub struct DenyRecovery;

impl RecoveryAuthority for DenyRecovery {

}

/// Only the recovery gate; never lifecycle or work permission.
#[derive(Clone, Copy, Debug, PartialEq, Eq, Structural)]
pub enum RecoveryGate {
    NoRecoveryBlock,
    BlockedUnresolved,
    ExplicitResumeRequired,
    ResumeAuthorizedForNamedRun,
}

#[derive(Clone, Debug)]
pub struct RecoveryView {
    pub dispositions: Vec<Disposition>,
    pub resume_requests: Vec<ResumeRecord>,
    pub new_execution: RecoveryGate,
    pub limitations: Vec<String>,
}

/// One stored execution row with its revision and content digest.
#[derive(Clone, Debug)]
pub struct ExecutionRecord {
    pub revision: u64,
    pub digest: String,
    pub execution: Execution,
}

pub open spec fn spec_valid_time(time: TimePoint) -> bool {
    !blank(time.clock_id@) && byte_len(time.clock_id@) <= 128 && time.ticks_ns > 0
}

/// A named clock with a positive reading.
pub fn valid_time(time: &TimePoint) -> (r: bool)
    ensures
        r == spec_valid_time(*time),
{
    is_bounded(&time.clock_id, 128) && time.ticks_ns > 0
}

pub closed spec fn spec_reference(row: ExecutionRecord) -> ObservationRef {
    ObservationRef {
        registration: row.execution.binding.registration,
        instance: row.execution.binding.instance,
        revision: row.revision,
        digest: row.digest,
    }
}

/// The exact reference of a stored observation.
pub fn reference(row: &ExecutionRecord) -> (r: ObservationRef)
    ensures
        r == spec_reference(*row),
{
    ObservationRef {
        registration: row.execution.binding.registration.clone(),
        instance: row.execution.binding.instance.clone(),
        revision: row.revision,
        digest: row.digest.clone(),
    }
}

/// The row holds the execution of `instance` of `registration`.
pub open spec fn row_is(row: ExecutionRecord, registration: Seq<char>, instance: Seq<char>) -> bool {
    row.execution.binding.registration@ == registration && row.execution.binding.instance@
        == instance
}

/// The first row, from `k` on, that holds the given execution.
pub open spec fn row_from(rows: Seq<ExecutionRecord>, registration: Seq<char>, instance: Seq<char>, k: int) -> Option<int>
    decreases rows.len() - k,
{
    if k < 0 || k >= rows.len() {
        None
    } else if row_is(rows[k], registration, instance) {
        Some(k)
    } else {
        row_from(rows, registration, instance, k + 1)
    }
}

pub open spec fn row_of(rows: Seq<ExecutionRecord>, registration: Seq<char>, instance: Seq<char>) -> Option<int> {
    row_from(rows, registration, instance, 0)
}

pub proof fn lemma_row_from(rows: Seq<ExecutionRecord>, registration: Seq<char>, instance: Seq<char>, k: int)
    requires
        0 <= k,
    ensures
        row_from(rows, registration, instance, k) matches Some(i) ==> k <= i < rows.len()
            && row_is(rows[i], registration, instance),
    decreases rows.len() - k,
{
    if k < rows.len() && !row_is(rows[k], registration, instance) {
        lemma_row_from(rows, registration, instance, k + 1);
    }
}

/// Finds the stored execution of `instance` of `registration`.
pub fn find_row(rows: &Vec<ExecutionRecord>, registration: &String, instance: &String) -> (r: Option<usize>)
    ensures
        r matches Some(i) ==> row_of(rows@, registration@, instance@) == Some(i as int),
        r is None ==> row_of(rows@, registration@, instance@) is None,
        r matches Some(i) ==> i < rows@.len() && row_is(rows@[i as int], registration@, instance@),
{
    let mut k: usize = 0;
    while k < rows.len()
        invariant
            k <= rows@.len(),
            row_of(rows@, registration@, instance@) == row_from(rows@, registration@, instance@, k as int),
        decreases rows@.len() - k,
    {
        if rows[k].execution.binding.registration == *registration
            && rows[k].execution.binding.instance == *instance {
            return Some(k);
        }
        k = k + 1;
    }
    None
}

/// The refusal, if any, of treating `expected` as a still-current target.
pub open spec fn target_result(rows: Seq<ExecutionRecord>, expected: ObservationRef) -> Result<int, Refusal> {
    match row_of(rows, expected.registration@, expected.instance@) {
        None => Err(Refusal::Invalid("recovery target missing"@)),
        Some(i) => if spec_reference(rows[i]).same(&expected) {
            Ok(i)
        } else {
            Err(Refusal::RevisionConflict("original observation revision/digest differs"@))
        },
    }
}

/// The recorded observation that `expected` names, unchanged since then.
pub fn target(rows: &Vec<ExecutionRecord>, expected: &ObservationRef) -> (r: Result<usize, StoreError>)
    ensures
        r matches Ok(i) ==> target_result(rows@, *expected) == Ok::<int, Refusal>(i as int),
        r matches Err(e) ==> target_result(rows@, *expected) == Err::<int, Refusal>(e@),
        r matches Ok(i) ==> i < rows@.len(),
{
    match find_row(rows, &expected.registration, &expected.instance) {
        None => Err(invalid("recovery target missing")),
        Some(i) => {
            if reference(&rows[i]).matches(expected) {
                Ok(i)
            } else {
                Err(conflict("original observation revision/digest differs"))
            }
        },
    }
}

/// A disposition's evidence fits its kind: closure needs an owned exit, an
/// unresolved finding needs an investigation.
pub open spec fn evidence_fits(kind: DispositionKind, evidence: EvidenceReference) -> bool {
    match kind {
        DispositionKind::ConfirmedClosure => evidence is OwnedChildExit,
        DispositionKind::UnableToResolve => evidence is Investigation,
    }
}

pub open spec fn disposition_row_result(component: Seq<char>, row_key: Seq<char>, d: Disposition, rows: Seq<ExecutionRecord>) -> Result<(), Refusal> {
    if !(d.target.registration@ == component && row_key == "components/disposition/"@
        + component + "/"@ + d.target.instance@ && evidence_fits(d.kind, d.evidence)) {
        Err(Refusal::Integrity("disposition identity/evidence differs"@))
    } else {
        match target_result(rows, d.target) {
            Ok(_) => Ok(()),
            Err(e) => Err(e),
        }
    }
}

/// A stored disposition must be filed under its target, carry evidence that
/// fits its kind, and still name its unchanged original observation.
pub fn check_disposition(component: &String, row_key: &String, d: &Disposition, rows: &Vec<ExecutionRecord>) -> (r: Result<(), StoreError>)
    ensures
        r is Ok <==> disposition_row_result(component@, row_key@, *d, rows@) is Ok,
        r matches Err(e) ==> disposition_row_result(component@, row_key@, *d, rows@) == Err::<(), Refusal>(e@),
{
    let fits = match (d.kind, &d.evidence) {
        (DispositionKind::ConfirmedClosure, EvidenceReference::OwnedChildExit { .. }) => true,
        (DispositionKind::UnableToResolve, EvidenceReference::Investigation { .. }) => true,
        _ => false,
    };
    if d.target.registration != *component || *row_key != disposition_key(component, &d.target.instance) || !fits {
        return Err(integrity("disposition identity/evidence differs"));
    }
    match target(rows, &d.target) {
        Ok(_) => Ok(()),
        Err(e) => Err(e),
    }
}

/// A stored resume must be filed under its disposition.
pub fn check_resume(component: &String, row_key: &String, r: &ResumeRecord) -> (res: Result<(), StoreError>)
    ensures
        res is Ok <==> row_key@ == "components/resume/"@ + component@ + "/"@ + r.request.disposition@,
        res matches Err(e) ==> e@ == Refusal::Integrity("resume identity differs"@),
{
    if *row_key != resume_key(component, &r.request.disposition) {
        return Err(integrity("resume identity differs"));
    }
    Ok(())
}

pub open spec fn spec_unresolved(e: Execution) -> bool {
    !(e.last_observed.state == ExecutionState::Exited || e.last_observed.state == ExecutionState::NotStarted)
}

/// An execution whose outcome was never confirmed.
pub fn unresolved(e: &Execution) -> (r: bool)
    ensures
        r == spec_unresolved(*e),
{
    !(e.last_observed.state == ExecutionState::Exited || e.last_observed.state == ExecutionState::NotStarted)
}

/// Whether a confirmed closure's resume was spent by exactly the execution it
/// named: a new instance, on the requested run, catalog and revision.
pub open spec fn consumed_result(rows: Seq<ExecutionRecord>, d: Disposition, r: ResumeRecord) -> Result<bool, Refusal> {
    if d.kind != DispositionKind::ConfirmedClosure || r.request.disposition@ != d.id@ {
        Ok(false)
    } else {
        match r.consumed_by {
            None => Ok(false),
            Some(instance) => match row_of(rows, d.target.registration@, instance@) {
                None => Err(Refusal::Integrity("resume consumption has no execution"@)),
                Some(i) => {
                    let b = rows[i].execution.binding;
                    if b.instance@ != instance@ || instance@ == d.target.instance@ || b.run@
                        != r.request.next_run@ || !b.catalog.same(&r.catalog)
                        || b.registration_revision != r.registration_revision {
                        Err(Refusal::Integrity("consumed resume does not match assigned execution"@))
                    } else {
                        Ok(true)
                    }
                },
            },
        }
    }
}

pub fn consumed(rows: &Vec<ExecutionRecord>, d: &Disposition, r: &ResumeRecord) -> (res: Result<bool, StoreError>)
    ensures
        res matches Ok(b) ==> consumed_result(rows@, *d, *r) == Ok::<bool, Refusal>(b),
        res matches Err(e) ==> consumed_result(rows@, *d, *r) == Err::<bool, Refusal>(e@),
{
    if d.kind != DispositionKind::ConfirmedClosure || r.request.disposition != d.id {
        return Ok(false);
    }
    let instance = match &r.consumed_by {
        None => {
            return Ok(false);
        },
        Some(instance) => instance,
    };
    let i = match find_row(rows, &d.target.registration, instance) {
        None => {
            return Err(integrity("resume consumption has no execution"));
        },
        Some(i) => i,
    };
    let b = &rows[i].execution.binding;
    if b.instance != *instance || *instance == d.target.instance || b.run != r.request.next_run
        || !b.catalog.matches(&r.catalog) || b.registration_revision != r.registration_revision {
        return Err(integrity("consumed resume does not match assigned execution"));
    }
    Ok(true)
}


/// The first position from `k` on whose element satisfies `p`.
pub open spec fn first_from<T>(s: Seq<T>, p: spec_fn(T) -> bool, k: int) -> Option<int>
    decreases s.len() - k,
{
    if k < 0 || k >= s.len() {
        None
    } else if p(s[k]) {
        Some(k)
    } else {
        first_from(s, p, k + 1)
    }
}

pub open spec fn first<T>(s: Seq<T>, p: spec_fn(T) -> bool) -> Option<int> {
    first_from(s, p, 0)
}

pub proof fn lemma_first_from<T>(s: Seq<T>, p: spec_fn(T) -> bool, k: int)
    requires
        0 <= k,
    ensures
        first_from(s, p, k) matches Some(i) ==> k <= i < s.len() && p(s[i]),
        first_from(s, p, k) is None ==> forall|i: int| k <= i < s.len() ==> !p(#[trigger] s[i]),
    decreases s.len() - k,
{
    if k < s.len() {
        lemma_first_from(s, p, k + 1);
    }
}

/// A confirmed closure of the given instance.
pub open spec fn closes(instance: Seq<char>) -> spec_fn(Disposition) -> bool {
    |d: Disposition| d.target.instance@ == instance && d.kind == DispositionKind::ConfirmedClosure
}

/// The disposition with the given identity.
pub open spec fn named(id: Seq<char>) -> spec_fn(Disposition) -> bool {
    |d: Disposition| d.id@ == id
}

/// The resume of the given disposition.
pub open spec fn resumes(disposition: Seq<char>) -> spec_fn(ResumeRecord) -> bool {
    |r: ResumeRecord| r.request.disposition@ == disposition
}

/// The resume recorded for exactly this request.
pub open spec fn requested(request: ResumeRequest) -> spec_fn(ResumeRecord) -> bool {
    |r: ResumeRecord| r.request.same(&request)
}

pub fn find_closure(ds: &Vec<Disposition>, instance: &String) -> (r: Option<usize>)
    ensures
        r matches Some(i) ==> first(ds@, closes(instance@)) == Some(i as int) && i < ds@.len(),
        r is None ==> first(ds@, closes(instance@)) is None,
{
    let mut k: usize = 0;
    while k < ds.len()
        invariant
            k <= ds@.len(),
            first(ds@, closes(instance@)) == first_from(ds@, closes(instance@), k as int),
        decreases ds@.len() - k,
    {
        if ds[k].target.instance == *instance && ds[k].kind == DispositionKind::ConfirmedClosure {
            return Some(k);
        }
        k = k + 1;
    }
    None
}

pub fn find_disposition(ds: &Vec<Disposition>, id: &String) -> (r: Option<usize>)
    ensures
        r matches Some(i) ==> first(ds@, named(id@)) == Some(i as int) && i < ds@.len(),
        r is None ==> first(ds@, named(id@)) is None,
{
    let mut k: usize = 0;
    while k < ds.len()
        invariant
            k <= ds@.len(),
            first(ds@, named(id@)) == first_from(ds@, named(id@), k as int),
        decreases ds@.len() - k,
    {
        if ds[k].id == *id {
            return Some(k);
        }
        k = k + 1;
    }
    None
}

pub fn find_resume(rs: &Vec<ResumeRecord>, disposition: &String) -> (r: Option<usize>)
    ensures
        r matches Some(i) ==> first(rs@, resumes(disposition@)) == Some(i as int) && i < rs@.len(),
        r is None ==> first(rs@, resumes(disposition@)) is None,
{
    let mut k: usize = 0;
    while k < rs.len()
        invariant
            k <= rs@.len(),
            first(rs@, resumes(disposition@)) == first_from(rs@, resumes(disposition@), k as int),
        decreases rs@.len() - k,
    {
        if rs[k].request.disposition == *disposition {
            return Some(k);
        }
        k = k + 1;
    }
    None
}

pub fn find_request(rs: &Vec<ResumeRecord>, request: &ResumeRequest) -> (r: Option<usize>)
    ensures
        r matches Some(i) ==> first(rs@, requested(*request)) == Some(i as int) && i < rs@.len(),
        r is None ==> first(rs@, requested(*request)) is None,
{
    let mut k: usize = 0;
    while k < rs.len()
        invariant
            k <= rs@.len(),
            first(rs@, requested(*request)) == first_from(rs@, requested(*request), k as int),
        decreases rs@.len() - k,
    {
        if rs[k].request.matches(request) {
            return Some(k);
        }
        k = k + 1;
    }
    None
}

/// The recovery gate over the executions from `k` on, having reached `acc`.
pub open spec fn gate_from(rows: Seq<ExecutionRecord>, ds: Seq<Disposition>, rs: Seq<ResumeRecord>, k: int, acc: RecoveryGate) -> Result<RecoveryGate, Refusal>
    decreases rows.len() - k,
{
    if k < 0 || k >= rows.len() {
        Ok(acc)
    } else {
        let e = rows[k].execution;
        if !spec_unresolved(e) {
            gate_from(rows, ds, rs, k + 1, acc)
        } else {
            match first(ds, closes(e.binding.instance@)) {
                None => Ok(RecoveryGate::BlockedUnresolved),
                Some(di) => match first(rs, resumes(ds[di].id@)) {
                    None => gate_from(rows, ds, rs, k + 1, RecoveryGate::ExplicitResumeRequired),
                    Some(ri) => match consumed_result(rows, ds[di], rs[ri]) {
                        Err(x) => Err(x),
                        Ok(true) => gate_from(rows, ds, rs, k + 1, acc),
                        Ok(false) => gate_from(
                            rows,
                            ds,
                            rs,
                            k + 1,
                            RecoveryGate::ResumeAuthorizedForNamedRun,
                        ),
                    },
                },
            }
        }
    }
}

/// Whether a new execution of the component is blocked by recovery, and why.
pub open spec fn spec_gate(rows: Seq<ExecutionRecord>, ds: Seq<Disposition>, rs: Seq<ResumeRecord>) -> Result<RecoveryGate, Refusal> {
    gate_from(rows, ds, rs, 0, RecoveryGate::NoRecoveryBlock)
}

/// The recovery gate: every unconfirmed execution needs a confirmed closure
/// whose explicit resume was consumed by a new execution.
pub fn gate(rows: &Vec<ExecutionRecord>, ds: &Vec<Disposition>, rs: &Vec<ResumeRecord>) -> (r: Result<RecoveryGate, StoreError>)
    ensures
        r matches Ok(g) ==> spec_gate(rows@, ds@, rs@) == Ok::<RecoveryGate, Refusal>(g),
        r matches Err(e) ==> spec_gate(rows@, ds@, rs@) == Err::<RecoveryGate, Refusal>(e@),
{
    let mut acc = RecoveryGate::NoRecoveryBlock;
    let mut k: usize = 0;
    while k < rows.len()
        invariant
            k <= rows@.len(),
            spec_gate(rows@, ds@, rs@) == gate_from(rows@, ds@, rs@, k as int, acc),
        decreases rows@.len() - k,
    {
        let e = &rows[k].execution;
        if unresolved(e) {
            match find_closure(ds, &e.binding.instance) {
                None => {
                    return Ok(RecoveryGate::BlockedUnresolved);
                },
                Some(di) => match find_resume(rs, &ds[di].id) {
                    None => {
                        acc = RecoveryGate::ExplicitResumeRequired;
                    },
                    Some(ri) => {
                        match consumed(rows, &ds[di], &rs[ri]) {
                            Err(x) => {
                                return Err(x);
                            },
                            Ok(true) => {},
                            Ok(false) => {
                                acc = RecoveryGate::ResumeAuthorizedForNamedRun;
                            },
                        }
                    },
                },
            }
        }
        k = k + 1;
    }
    Ok(acc)
}


/// The checks that an explicit resume permit must pass before the assignment
/// it names; on success, the disposition and resume that it selects.
pub open spec fn permit_result(rows: Seq<ExecutionRecord>, ds: Seq<Disposition>, rs: Seq<ResumeRecord>, binding: Binding, permit: ResumePermit) -> Result<(int, int), Refusal> {
    let p = permit.spec_request();
    if permit.spec_registration()@ != binding.registration@ || p.next_run@ != binding.run@ {
        Err(Refusal::Invalid("resume permit targets another component/run"@))
    } else {
        match first(ds, named(p.disposition@)) {
            None => Err(Refusal::Invalid("resume disposition absent"@)),
            Some(di) => match first(rs, requested(p)) {
                None => Err(Refusal::Invalid("explicit resume request absent or changed"@)),
                Some(ri) => {
                    let d = ds[di];
                    let r = rs[ri];
                    if d.kind != DispositionKind::ConfirmedClosure || r.consumed_by is Some {
                        Err(
                            Refusal::Invalid(
                                "confirmed disposition resume already consumed or unavailable"@,
                            ),
                        )
                    } else if r.registration_revision != binding.registration_revision
                        || !r.catalog.same(&binding.catalog) {
                        Err(Refusal::Invalid("resume declaration/catalog changed"@))
                    } else if binding.instance@ == d.target.instance@ {
                        Err(Refusal::Invalid("recovery requires a new run and instance"@))
                    } else {
                        match target_result(rows, d.target) {
                            Err(x) => Err(x),
                            Ok(t) => if binding.run@ == rows[t].execution.binding.run@ {
                                Err(Refusal::Invalid("recovery requires a new run and instance"@))
                            } else {
                                Ok((di, ri))
                            },
                        }
                    }
                },
            },
        }
    }
}

/// The checks over every unconfirmed execution from `k` on; `chosen` is the
/// disposition that the permit of this very assignment resumes.
pub open spec fn admit_from(rows: Seq<ExecutionRecord>, ds: Seq<Disposition>, rs: Seq<ResumeRecord>, chosen: Option<Seq<char>>, k: int) -> Result<(), Refusal>
    decreases rows.len() - k,
{
    if k < 0 || k >= rows.len() {
        Ok(())
    } else {
        let e = rows[k].execution;
        if !spec_unresolved(e) {
            admit_from(rows, ds, rs, chosen, k + 1)
        } else {
            match first(ds, closes(e.binding.instance@)) {
                None => Err(
                    Refusal::Invalid(
                        "previous assignment unresolved; explicit confirmed disposition required"@,
                    ),
                ),
                Some(di) => if chosen == Some(ds[di].id@) {
                    admit_from(rows, ds, rs, chosen, k + 1)
                } else {
                    match first(rs, resumes(ds[di].id@)) {
                        None => Err(
                            Refusal::Invalid(
                                "confirmed disposition alone does not permit assignment; explicit resume request required"@,
                            ),
                        ),
                        Some(ri) => match consumed_result(rows, ds[di], rs[ri]) {
                            Err(x) => Err(x),
                            Ok(true) => admit_from(rows, ds, rs, chosen, k + 1),
                            Ok(false) => Err(
                                Refusal::Invalid("explicit resume permit required for this assignment"@),
                            ),
                        },
                    }
                },
            }
        }
    }
}

/// The recovery admission of a new assignment: on success, the resume record
/// to store as consumed by this assignment, if a permit was used.
pub open spec fn admission(rows: Seq<ExecutionRecord>, ds: Seq<Disposition>, rs: Seq<ResumeRecord>, binding: Binding, permit: Option<ResumePermit>) -> Result<Option<ResumeRecord>, Refusal> {
    match permit {
        None => match admit_from(rows, ds, rs, None, 0) {
            Err(x) => Err(x),
            Ok(_) => Ok(None),
        },
        Some(p) => match permit_result(rows, ds, rs, binding, p) {
            Err(x) => Err(x),
            Ok((di, ri)) => match admit_from(rows, ds, rs, Some(ds[di].id@), 0) {
                Err(x) => Err(x),
                Ok(_) => Ok(Some(ResumeRecord { consumed_by: Some(binding.instance), ..rs[ri] })),
            },
        },
    }
}

/// Recovery admission of a new assignment of `binding`: every unconfirmed
/// execution of the component must be closed and its resume consumed, except
/// the one that this assignment's own permit resumes.
pub fn check_admission(rows: &Vec<ExecutionRecord>, ds: &Vec<Disposition>, rs: &Vec<ResumeRecord>, binding: &Binding, permit: Option<&ResumePermit>) -> (r: Result<Option<ResumeRecord>, StoreError>)
    ensures
        r matches Ok(o) ==> admission(rows@, ds@, rs@, *binding, match permit { Some(p) => Some(*p), None => None }) == Ok::<Option<ResumeRecord>, Refusal>(o),
        r matches Err(e) ==> admission(rows@, ds@, rs@, *binding, match permit { Some(p) => Some(*p), None => None }) == Err::<Option<ResumeRecord>, Refusal>(e@),
{
    let mut selected: Option<(usize, usize)> = None;
    if let Some(p) = permit {
        if p.registration != binding.registration || p.request.next_run != binding.run {
            return Err(invalid("resume permit targets another component/run"));
        }
        let di = match find_disposition(ds, &p.request.disposition) {
            None => {
                return Err(invalid("resume disposition absent"));
            },
            Some(di) => di,
        };
        let ri = match find_request(rs, &p.request) {
            None => {
                return Err(invalid("explicit resume request absent or changed"));
            },
            Some(ri) => ri,
        };
        let d = &ds[di];
        let r = &rs[ri];
        if d.kind != DispositionKind::ConfirmedClosure || r.consumed_by.is_some() {
            return Err(invalid("confirmed disposition resume already consumed or unavailable"));
        }
        if r.registration_revision != binding.registration_revision || !r.catalog.matches(
            &binding.catalog,
        ) {
            return Err(invalid("resume declaration/catalog changed"));
        }
        if binding.instance == d.target.instance {
            return Err(invalid("recovery requires a new run and instance"));
        }
        let t = match target(rows, &d.target) {
            Err(x) => {
                return Err(x);
            },
            Ok(t) => t,
        };
        if binding.run == rows[t].execution.binding.run {
            return Err(invalid("recovery requires a new run and instance"));
        }
        selected = Some((di, ri));
    }
    let ghost chosen: Option<Seq<char>> = match selected {
        Some((di, _)) => Some(ds@[di as int].id@),
        None => None,
    };
    let mut k: usize = 0;
    while k < rows.len()
        invariant
            k <= rows@.len(),
            selected matches Some((di, ri)) ==> di < ds@.len() && ri < rs@.len(),
            chosen == match selected {
                Some((di, _)) => Some(ds@[di as int].id@),
                None => None::<Seq<char>>,
            },
            admit_from(rows@, ds@, rs@, chosen, 0) == admit_from(rows@, ds@, rs@, chosen, k as int),
            match permit {
                None => selected is None,
                Some(p) => selected matches Some((di, ri)) && permit_result(
                    rows@,
                    ds@,
                    rs@,
                    *binding,
                    *p,
                ) == Ok::<(int, int), Refusal>((di as int, ri as int)),
            },
        decreases rows@.len() - k,
    {
        let e = &rows[k].execution;
        if unresolved(e) {
            let di = match find_closure(ds, &e.binding.instance) {
                None => {
                    return Err(
                        invalid(
                            "previous assignment unresolved; explicit confirmed disposition required",
                        ),
                    );
                },
                Some(di) => di,
            };
            let is_chosen = match selected {
                Some((c, _)) => ds[c].id == ds[di].id,
                None => false,
            };
            if !is_chosen {
                let ri = match find_resume(rs, &ds[di].id) {
                    None => {
                        return Err(
                            invalid(
                                "confirmed disposition alone does not permit assignment; explicit resume request required",
                            ),
                        );
                    },
                    Some(ri) => ri,
                };
                match consumed(rows, &ds[di], &rs[ri]) {
                    Err(x) => {
                        return Err(x);
                    },
                    Ok(true) => {},
                    Ok(false) => {
                        return Err(invalid("explicit resume permit required for this assignment"));
                    },
                }
            }
        }
        k = k + 1;
    }
    match selected {
        None => Ok(None),
        Some((_, ri)) => {
            let r = &rs[ri];
            Ok(
                Some(
                    ResumeRecord {
                        request: r.request.duplicate(),
                        registration_revision: r.registration_revision,
                        catalog: r.catalog.duplicate(),
                        consumed_by: Some(binding.instance.clone()),
                    },
                ),
            )
        },
    }
}


proof fn lemma_gate_keeps_block(rows: Seq<ExecutionRecord>, ds: Seq<Disposition>, rs: Seq<ResumeRecord>, k: int, acc: RecoveryGate)
    requires
        0 <= k,
        acc != RecoveryGate::NoRecoveryBlock,
    ensures
        gate_from(rows, ds, rs, k, acc) != Ok::<RecoveryGate, Refusal>(RecoveryGate::NoRecoveryBlock),
    decreases rows.len() - k,
{
    if k < rows.len() {
        let e = rows[k].execution;
        if !spec_unresolved(e) {
            lemma_gate_keeps_block(rows, ds, rs, k + 1, acc);
        } else {
            match first(ds, closes(e.binding.instance@)) {
                None => {},
                Some(di) => match first(rs, resumes(ds[di].id@)) {
                    None => lemma_gate_keeps_block(rows, ds, rs, k + 1, RecoveryGate::ExplicitResumeRequired),
                    Some(ri) => match consumed_result(rows, ds[di], rs[ri]) {
                        Err(x) => {},
                        Ok(true) => lemma_gate_keeps_block(rows, ds, rs, k + 1, acc),
                        Ok(false) => lemma_gate_keeps_block(
                            rows,
                            ds,
                            rs,
                            k + 1,
                            RecoveryGate::ResumeAuthorizedForNamedRun,
                        ),
                    },
                },
            }
        }
    }
}

proof fn lemma_admission_follows_gate(rows: Seq<ExecutionRecord>, ds: Seq<Disposition>, rs: Seq<ResumeRecord>, k: int)
    requires
        0 <= k,
    ensures
        admit_from(rows, ds, rs, None, k) is Ok <==> gate_from(rows, ds, rs, k, RecoveryGate::NoRecoveryBlock)
            == Ok::<RecoveryGate, Refusal>(RecoveryGate::NoRecoveryBlock),
    decreases rows.len() - k,
{
    if k < rows.len() {
        lemma_admission_follows_gate(rows, ds, rs, k + 1);
        let e = rows[k].execution;
        if spec_unresolved(e) {
            match first(ds, closes(e.binding.instance@)) {
                None => {},
                Some(di) => match first(rs, resumes(ds[di].id@)) {
                    None => lemma_gate_keeps_block(rows, ds, rs, k + 1, RecoveryGate::ExplicitResumeRequired),
                    Some(ri) => match consumed_result(rows, ds[di], rs[ri]) {
                        Err(x) => {},
                        Ok(true) => {},
                        Ok(false) => lemma_gate_keeps_block(
                            rows,
                            ds,
                            rs,
                            k + 1,
                            RecoveryGate::ResumeAuthorizedForNamedRun,
                        ),
                    },
                },
            }
        }
    }
}

/// A new execution without a resume permit is admitted exactly when the
/// component's recovery view shows no recovery block.
pub proof fn law_admission_without_permit_matches_gate(rows: Seq<ExecutionRecord>, ds: Seq<Disposition>, rs: Seq<ResumeRecord>, binding: Binding)
    ensures
        admission(rows, ds, rs, binding, None) is Ok <==> spec_gate(rows, ds, rs) == Ok::<
            RecoveryGate,
            Refusal,
        >(RecoveryGate::NoRecoveryBlock),
{
    lemma_admission_follows_gate(rows, ds, rs, 0);
}

/// A resume permit is single use: once the record that an admitted assignment
/// consumed is stored, the same permit admits no further assignment.
pub proof fn law_resume_permit_is_single_use(
    rows: Seq<ExecutionRecord>,
    ds: Seq<Disposition>,
    rs: Seq<ResumeRecord>,
    binding: Binding,
    permit: ResumePermit,
    later_rows: Seq<ExecutionRecord>,
    later_binding: Binding,
)
    requires
        admission(rows, ds, rs, binding, Some(permit)) is Ok,
    ensures
        first(rs, requested(permit.spec_request())) matches Some(ri) && admission(
            later_rows,
            ds,
            rs.update(ri, admission(rows, ds, rs, binding, Some(permit))->Ok_0->0),
            later_binding,
            Some(permit),
        ) is Err,
{
    let p = permit.spec_request();
    let ri = first(rs, requested(p))->0;
    let r2 = admission(rows, ds, rs, binding, Some(permit))->Ok_0->0;
    let rs2 = rs.update(ri, r2);
    lemma_first_from(rs, requested(p), 0);
    assert(rs2[ri].request == rs[ri].request);
    assert forall|i: int| 0 <= i < ri implies rs2[i] == rs[i] by {}
    assert(first(rs2, requested(p)) == Some(ri)) by {
        assert forall|k: int| 0 <= k <= ri implies first_from(rs2, requested(p), k) == Some(ri) by {
            lemma_first_reaches(rs, rs2, requested(p), k, ri);
        }
    }
}

proof fn lemma_first_reaches<T>(a: Seq<T>, b: Seq<T>, p: spec_fn(T) -> bool, k: int, i: int)
    requires
        0 <= k <= i < a.len() == b.len(),
        first_from(a, p, 0) == Some(i),
        p(b[i]),
        forall|j: int| 0 <= j < i ==> b[j] == a[j],
    ensures
        first_from(b, p, k) == Some(i),
    decreases i - k,
{
    lemma_first_from(a, p, 0);
    lemma_first_before(a, p, 0, i);
    if k < i {
        assert(!p(a[k]));
        lemma_first_reaches(a, b, p, k + 1, i);
    }
}

proof fn lemma_first_before<T>(a: Seq<T>, p: spec_fn(T) -> bool, k: int, i: int)
    requires
        0 <= k <= i,
        first_from(a, p, k) == Some(i),
    ensures
        forall|j: int| k <= j < i ==> !p(#[trigger] a[j]),
    decreases i - k,
{
    if k < i {
        lemma_first_before(a, p, k + 1, i);
    }
}


pub open spec fn same_time(a: TimePoint, b: TimePoint) -> bool {
    a.clock_id@ == b.clock_id@ && a.ticks_ns == b.ticks_ns
}

/// The refusal, if any, of the evidence offered for a disposition: a closure
/// needs the owned exit of the same instance reported by the direct-child
/// scope at the same time; an unresolved finding needs a named investigation.
/// Timeouts, idleness, absence and elapsed time never suffice.
pub open spec fn evidence_refusal(request: DispositionRequest) -> Option<Refusal> {
    match (request.kind, request.evidence) {
        (DispositionKind::ConfirmedClosure, RecoveryEvidence::OwnedChildExit { report, witness }) => {
            if report.scope@ != "host/direct-child-exit"@ || !same_time(
                report.observed_at,
                witness.spec_observed_at(),
            ) || witness.spec_instance()@ != request.target.instance@ {
                Some(Refusal::Invalid("owned exit witness target/scope/time differs"@))
            } else if !spec_valid_time(report.observed_at) {
                Some(Refusal::Invalid("evidence observation time required"@))
            } else {
                None
            }
        },
        (DispositionKind::UnableToResolve, RecoveryEvidence::Investigation { report, finding }) => {
            if report.scope@ == "host/execution-investigation"@ && bounded(finding@, 2048) {
                if !spec_valid_time(report.observed_at) {
                    Some(Refusal::Invalid("evidence observation time required"@))
                } else {
                    None
                }
            } else {
                Some(Refusal::Invalid(insufficient_evidence()))
            }
        },
        _ => Some(Refusal::Invalid(insufficient_evidence())),
    }
}

pub open spec fn insufficient_evidence() -> Seq<char> {
    "disposition requires supported positive evidence or an explicit unresolved investigation; timeout/idle/absence/time alone is insufficient"@
}

/// Checks the evidence of a disposition request and returns the report and
/// the stored evidence reference. `witness_digest` is the content digest of
/// the owned exit witness, when there is one.
pub fn disposition_evidence(request: &DispositionRequest, witness_digest: String) -> (r: Result<(RecoveryReport, EvidenceReference), StoreError>)
    ensures
        r is Ok <==> evidence_refusal(*request) is None,
        r matches Err(e) ==> evidence_refusal(*request) == Some(e@),
        r matches Ok((report, evidence)) ==> match request.evidence {
            RecoveryEvidence::OwnedChildExit { report: given, witness } => report == given
                && evidence == EvidenceReference::OwnedChildExit {
                reference: witness.spec_reference(),
                digest: witness_digest,
            },
            RecoveryEvidence::Investigation { report: given, finding } => report == given
                && evidence == EvidenceReference::Investigation { finding },
            _ => false,
        },
{
    let (report, evidence) = match (request.kind, &request.evidence) {
        (DispositionKind::ConfirmedClosure, RecoveryEvidence::OwnedChildExit { report, witness }) => {
            if report.scope != String::from_str("host/direct-child-exit") || report.observed_at.clock_id
                != witness.observed_at.clock_id || report.observed_at.ticks_ns
                != witness.observed_at.ticks_ns || witness.instance != request.target.instance {
                return Err(invalid("owned exit witness target/scope/time differs"));
            }
            (
                RecoveryReport {
                    actor: report.actor.clone(),
                    scope: report.scope.clone(),
                    observed_at: report.observed_at.duplicate(),
                    procedure: report.procedure.clone(),
                },
                EvidenceReference::OwnedChildExit {
                    reference: witness.reference.clone(),
                    digest: witness_digest,
                },
            )
        },
        (DispositionKind::UnableToResolve, RecoveryEvidence::Investigation { report, finding }) => {
            if report.scope == String::from_str("host/execution-investigation") && is_bounded(
                finding,
                2048,
            ) {
                (
                    RecoveryReport {
                        actor: report.actor.clone(),
                        scope: report.scope.clone(),
                        observed_at: report.observed_at.duplicate(),
                        procedure: report.procedure.clone(),
                    },
                    EvidenceReference::Investigation { finding: finding.clone() },
                )
            } else {
                return Err(
                    invalid(
                        "disposition requires supported positive evidence or an explicit unresolved investigation; timeout/idle/absence/time alone is insufficient",
                    ),
                );
            }
        },
        _ => {
            return Err(
                invalid(
                    "disposition requires supported positive evidence or an explicit unresolved investigation; timeout/idle/absence/time alone is insufficient",
                ),
            );
        },
    };
    if !valid_time(&report.observed_at) {
        return Err(invalid("evidence observation time required"));
    }
    Ok((report, evidence))
}

/// The refusal, if any, of disposing the target inside the transaction: the
/// target must be unchanged, still an unconfirmed assignment, and an owned
/// exit must name the PID that the original observation recorded.
pub open spec fn target_refusal(rows: Seq<ExecutionRecord>, request: DispositionRequest) -> Option<Refusal> {
    match target_result(rows, request.target) {
        Err(x) => Some(x),
        Ok(t) => {
            let o = rows[t].execution.last_observed;
            if !(o.state == ExecutionState::Unknown || o.state == ExecutionState::Assigned) {
                Some(Refusal::Invalid("recovery target is not an unconfirmed assignment"@))
            } else if request.evidence matches RecoveryEvidence::OwnedChildExit { witness, .. }
                && o.pid != Some(witness.spec_pid()) {
                Some(
                    Refusal::Invalid(
                        "owned exit witness requires matching original instance/PID binding; absence is not closure evidence"@,
                    ),
                )
            } else {
                None
            }
        },
    }
}

/// Records a disposition of an unconfirmed assignment. The authority is asked
/// again inside the transaction; the stored disposition never claims the
/// past outcome, resource recovery or work permission.
pub fn record_disposition<A: RecoveryAuthority>(rows: &Vec<ExecutionRecord>, request: &DispositionRequest, report: RecoveryReport, evidence: EvidenceReference, authority: &A) -> (r: Result<Disposition, StoreError>)
    ensures
        target_refusal(rows@, *request) matches Some(x) ==> (r matches Err(e) && e@ == x),
        target_refusal(rows@, *request) is None ==> (r is Err ==> (r matches Err(e) && e@
            == Refusal::Invalid("recovery disposition authority changed"@))),
        r matches Ok(d) ==> target_refusal(rows@, *request) is None && d.target.same(&request.target)
            && d.kind == request.kind && d.report == report && d.evidence == evidence
            && d.past_outcome == PastOutcome::Unresolved && d.resource_recovery
            == ResourceRecovery::NotClaimed && d.work_use_permission
            == WorkUsePermission::Unsupported,
{
    let t = match target(rows, &request.target) {
        Err(x) => {
            return Err(x);
        },
        Ok(t) => t,
    };
    let o = &rows[t].execution.last_observed;
    if !(o.state == ExecutionState::Unknown || o.state == ExecutionState::Assigned) {
        return Err(invalid("recovery target is not an unconfirmed assignment"));
    }
    if let RecoveryEvidence::OwnedChildExit { witness, .. } = &request.evidence {
        if o.pid != Some(witness.pid) {
            return Err(
                invalid(
                    "owned exit witness requires matching original instance/PID binding; absence is not closure evidence",
                ),
            );
        }
    }
    if !authority.may_dispose(request) {
        return Err(invalid("recovery disposition authority changed"));
    }
    Ok(
        Disposition {
            id: fresh_id(),
            target: request.target.duplicate(),
            kind: request.kind,
            report,
            evidence,
            past_outcome: PastOutcome::Unresolved,
            resource_recovery: ResourceRecovery::NotClaimed,
            work_use_permission: WorkUsePermission::Unsupported,
        },
    )
}


/// An observation is frozen once any disposition targets it.
pub fn frozen(ds: &Vec<Disposition>, instance: &String) -> (r: bool)
    ensures
        r == exists|i: int| 0 <= i < ds@.len() && (#[trigger] ds@[i]).target.instance@ == instance@,
{
    let mut k: usize = 0;
    while k < ds.len()
        invariant
            k <= ds@.len(),
            forall|i: int| 0 <= i < k ==> (#[trigger] ds@[i]).target.instance@ != instance@,
        decreases ds@.len() - k,
    {
        if ds[k].target.instance == *instance {
            return true;
        }
        k = k + 1;
    }
    false
}

/// Everything known about recovery for one component, with its gate.
pub fn view(rows: &Vec<ExecutionRecord>, ds: Vec<Disposition>, rs: Vec<ResumeRecord>) -> (r: Result<RecoveryView, StoreError>)
    ensures
        r matches Ok(v) ==> v.dispositions == ds && v.resume_requests == rs
            && spec_gate(rows@, ds@, rs@) == Ok::<RecoveryGate, Refusal>(v.new_execution),
        r matches Err(e) ==> spec_gate(rows@, ds@, rs@) == Err::<RecoveryGate, Refusal>(e@),
{
    let g = match gate(rows, &ds, &rs) {
        Err(e) => {
            return Err(e);
        },
        Ok(g) => g,
    };
    let mut limitations: Vec<String> = Vec::new();
    limitations.push(String::from_str("external investigation provider after total manager-process/Child-handle loss is unsupported"));
    limitations.push(String::from_str("confirmed closure without the original saved PID binding is unsupported"));
    limitations.push(String::from_str("functional readiness and work-use permission unsupported"));
    limitations.push(String::from_str("resource recovery, F1 receipt restoration and physical outcome confirmation not claimed"));
    Ok(RecoveryView { dispositions: ds, resume_requests: rs, new_execution: g, limitations })
}

/// The refusal, if any, of an explicit resume request before the authority is
/// asked; on success, the disposition it resumes.
pub open spec fn resume_check(current: VersionedRegistration, rows: Seq<ExecutionRecord>, ds: Seq<Disposition>, request: ResumeRequest) -> Result<int, Refusal> {
    if !spec_valid_time(request.requested_at) {
        Err(Refusal::Invalid("explicit resume request time required"@))
    } else if current.registration.state != RegistrationState::Accepted {
        Err(Refusal::Invalid("retired registration cannot resume"@))
    } else {
        match first(ds, named(request.disposition@)) {
            None => Err(Refusal::Invalid("disposition not found"@)),
            Some(di) => if ds[di].kind != DispositionKind::ConfirmedClosure {
                Err(Refusal::Invalid("unable-to-resolve disposition does not enable new execution"@))
            } else {
                match target_result(rows, ds[di].target) {
                    Err(x) => Err(x),
                    Ok(t) => {
                        let old = rows[t].execution.binding;
                        if old.run@ == request.next_run@ || !old.catalog.same(
                            &current.registration.declaration.catalog,
                        ) {
                            Err(Refusal::Invalid("resume requires new run and unchanged reviewed catalog"@))
                        } else {
                            Ok(di)
                        }
                    },
                }
            },
        }
    }
}

/// The refusal, if any, from a resume already recorded for the disposition:
/// only the very same, unconsumed request under the unchanged declaration may
/// be reissued.
pub open spec fn prior_resume_refusal(current: VersionedRegistration, previous: ResumeRecord, request: ResumeRequest) -> Option<Refusal> {
    if previous.consumed_by is Some || !previous.request.same(&request) {
        Some(Refusal::Invalid("disposition already claimed/consumed by another explicit resume"@))
    } else if previous.registration_revision != current.revision || !previous.catalog.same(
        &current.registration.declaration.catalog,
    ) {
        Some(Refusal::Invalid("pending resume declaration changed"@))
    } else {
        None
    }
}

/// The outcome of a resume of disposition `d` once the authority answered
/// `allowed`: a denial, a refusal by the resume already recorded for `d`,
/// or the permit for `component` with the record to store (none when the
/// same pending request is reissued).
pub open spec fn resumed_as(r: Result<(Option<ResumeRecord>, ResumePermit), StoreError>, component: String, current: VersionedRegistration,
    d: Disposition, rs: Seq<ResumeRecord>, request: ResumeRequest, allowed: bool) -> bool {
    if !allowed {
        r matches Err(e) && e@ == Refusal::Invalid("explicit resume authority denied"@)
    } else {
        match first(rs, resumes(d.id@)) {
            Some(ri) => match prior_resume_refusal(current, rs[ri], request) {
                Some(x) => r matches Err(e) && e@ == x,
                None => r matches Ok((record, permit)) && record is None && permit.spec_registration() == component
                    && permit.spec_request() == request,
            },
            None => r matches Ok((record, permit)) && permit.spec_registration() == component
                && permit.spec_request() == request && record == Some(ResumeRecord {
                    request,
                    registration_revision: current.revision,
                    catalog: current.registration.declaration.catalog,
                    consumed_by: None,
                }),
        }
    }
}

/// A resume of disposition `d`, which passed the checks before the
/// authority is asked, once the authority answered `allowed`. A resume
/// already recorded for `d` must be this very request, unconsumed, under
/// the unchanged declaration.
pub fn resume_after(component: &String, current: &VersionedRegistration, d: &Disposition, rs: &Vec<ResumeRecord>, request: ResumeRequest,
    allowed: bool) -> (r: Result<(Option<ResumeRecord>, ResumePermit), StoreError>)
    ensures
        resumed_as(r, *component, *current, *d, rs@, request, allowed),
{
    if !allowed {
        return Err(invalid("explicit resume authority denied"));
    }
    let record = match find_resume(rs, &d.id) {
        Some(ri) => {
            let previous = &rs[ri];
            if previous.consumed_by.is_some() || !previous.request.matches(&request) {
                return Err(invalid("disposition already claimed/consumed by another explicit resume"));
            }
            if previous.registration_revision != current.revision || !previous.catalog.matches(
                &current.registration.declaration.catalog,
            ) {
                return Err(invalid("pending resume declaration changed"));
            }
            None
        },
        None => Some(
            ResumeRecord {
                request: request.duplicate(),
                registration_revision: current.revision,
                catalog: current.registration.declaration.catalog.duplicate(),
                consumed_by: None,
            },
        ),
    };
    Ok((record, ResumePermit { registration: component.clone(), request }))
}

/// An explicit resume of a confirmed closure for a new named run. After the
/// checks of `resume_check` the authority is asked, and what it answers
/// decides the rest as `resume_after` says.
pub fn request_resume<A: RecoveryAuthority>(component: &String, current: &VersionedRegistration, rows: &Vec<ExecutionRecord>, ds: &Vec<Disposition>, rs: &Vec<ResumeRecord>, request: ResumeRequest, authority: &A) -> (r: Result<(Option<ResumeRecord>, ResumePermit), StoreError>)
    ensures
        resume_check(*current, rows@, ds@, request) matches Err(x) ==> (r matches Err(e) && e@ == x),
        resume_check(*current, rows@, ds@, request) is Ok ==> exists|allowed: bool| #![auto]
            call_ensures(A::may_resume, (authority, &ds@[resume_check(*current, rows@, ds@, request)->Ok_0], &request), allowed)
            && resumed_as(r, *component, *current, ds@[resume_check(*current, rows@, ds@, request)->Ok_0], rs@, request, allowed),
{
    if !valid_time(&request.requested_at) {
        return Err(invalid("explicit resume request time required"));
    }
    if current.registration.state != RegistrationState::Accepted {
        return Err(invalid("retired registration cannot resume"));
    }
    let di = match find_disposition(ds, &request.disposition) {
        None => {
            return Err(invalid("disposition not found"));
        },
        Some(di) => di,
    };
    let d = &ds[di];
    if d.kind != DispositionKind::ConfirmedClosure {
        return Err(invalid("unable-to-resolve disposition does not enable new execution"));
    }
    let t = match target(rows, &d.target) {
        Err(x) => {
            return Err(x);
        },
        Ok(t) => t,
    };
    let old = &rows[t].execution.binding;
    if old.run == request.next_run || !old.catalog.matches(&current.registration.declaration.catalog) {
        return Err(invalid("resume requires new run and unchanged reviewed catalog"));
    }
    assert(resume_check(*current, rows@, ds@, request) == Ok::<int, Refusal>(di as int));
    let ask = A::may_resume;
    let allowed = ask(authority, d, &request);
    let ghost req = request;
    let r = resume_after(component, current, d, rs, request, allowed);
    assert(call_ensures(A::may_resume, (authority, &ds@[resume_check(*current, rows@, ds@, req)->Ok_0], &req), allowed)
        && resumed_as(r, *component, *current, ds@[resume_check(*current, rows@, ds@, req)->Ok_0], rs@, req, allowed));
    r
}


/// The outcome of assigning `binding`: refused by eligibility, by the
/// registration being its own instance, or by recovery admission; otherwise
/// the resume record that the assignment consumes, if any.
pub open spec fn assignment_result(current: VersionedRegistration, binding: Binding, rows: Seq<ExecutionRecord>, ds: Seq<Disposition>, rs: Seq<ResumeRecord>, permit: Option<ResumePermit>) -> Result<Option<ResumeRecord>, Refusal> {
    match eligibility(current, binding) {
        Some(x) => Err(x),
        None => if binding.registration@ == binding.instance@ {
            Err(Refusal::Invalid("registration is not an execution instance"@))
        } else {
            admission(rows, ds, rs, binding, permit)
        },
    }
}

/// Assigns a new execution: the registration must be eligible, the instance
/// must not be the registration, and recovery must admit it. Returns the
/// execution to record and the resume record it consumes, if any.
pub fn assign(current: &VersionedRegistration, binding: &Binding, rows: &Vec<ExecutionRecord>, ds: &Vec<Disposition>, rs: &Vec<ResumeRecord>, permit: Option<&ResumePermit>) -> (r: Result<(Execution, Option<ResumeRecord>), StoreError>)
    ensures
        r matches Ok((e, consumed)) ==> assignment_result(*current, *binding, rows@, ds@, rs@, match permit { Some(p) => Some(*p), None => None }) == Ok::<Option<ResumeRecord>, Refusal>(consumed)
            && e.binding == *binding && e.last_observed.state == ExecutionState::Assigned,
        r matches Err(x) ==> assignment_result(*current, *binding, rows@, ds@, rs@, match permit { Some(p) => Some(*p), None => None }) == Err::<Option<ResumeRecord>, Refusal>(x@),
{
    if let Err(x) = eligible(current, binding) {
        return Err(x);
    }
    let e = match assignment(binding) {
        Err(x) => {
            return Err(x);
        },
        Ok(e) => e,
    };
    match check_admission(rows, ds, rs, binding, permit) {
        Err(x) => Err(x),
        Ok(consumed) => Ok((e, consumed)),
    }
}

/// Once a registration is retired, no binding of it is assigned again,
/// whatever its recovery records say.
pub proof fn law_retired_registration_takes_no_assignment(
    current: VersionedRegistration,
    retired: Registration,
    revision: u64,
    binding: Binding,
    rows: Seq<ExecutionRecord>,
    ds: Seq<Disposition>,
    rs: Seq<ResumeRecord>,
    permit: Option<ResumePermit>,
)
    requires
        retired.state == RegistrationState::Retired,
    ensures
        assignment_result(
            VersionedRegistration { revision, registration: retired },
            binding,
            rows,
            ds,
            rs,
            permit,
        ) is Err,
{
}

/// What recording a disposition of `request`, with sound evidence, gives
/// once the authority first allowed it: a refusal of the target, a changed
/// authority when it is asked again, or the disposition to store.
pub open spec fn disposed_as(r: Result<Disposition, StoreError>, rows: Seq<ExecutionRecord>, request: DispositionRequest,
    witness_digest: String) -> bool {
    &&& (target_refusal(rows, request) is Some ==> (r matches Err(e) && e@ == target_refusal(rows, request)->0))
    &&& (target_refusal(rows, request) is None ==> (r is Err ==> (r matches Err(e)
        && e@ == Refusal::Invalid("recovery disposition authority changed"@))))
    &&& (r matches Ok(d) ==> target_refusal(rows, request) is None
        && d.target.same(&request.target) && d.kind == request.kind
        && d.past_outcome == PastOutcome::Unresolved && d.resource_recovery == ResourceRecovery::NotClaimed
        && d.work_use_permission == WorkUsePermission::Unsupported
        && match request.evidence {
            RecoveryEvidence::OwnedChildExit { report, witness } => d.report == report
                && d.evidence == EvidenceReference::OwnedChildExit { reference: witness.spec_reference(), digest: witness_digest },
            RecoveryEvidence::Investigation { report, finding } => d.report == report
                && d.evidence == EvidenceReference::Investigation { finding },
            _ => false,
        })
}

/// Disposes of an unconfirmed assignment, in order: the evidence must be
/// sound (see `disposition_evidence`); the authority is asked, and a denial
/// ends it before the target is even looked at; then the target is checked,
/// the authority asked again inside the write, and the disposition to store
/// is made (see `record_disposition`).
pub fn dispose<A: RecoveryAuthority>(rows: &Vec<ExecutionRecord>, request: &DispositionRequest, witness_digest: String, authority: &A)
    -> (r: Result<Disposition, StoreError>)
    ensures
        evidence_refusal(*request) matches Some(x) ==> (r matches Err(e) && e@ == x),
        evidence_refusal(*request) is None ==> exists|first: bool| #![auto] call_ensures(A::may_dispose, (authority, request), first)
            && if first {
                disposed_as(r, rows@, *request, witness_digest)
            } else {
                r matches Err(e) && e@ == Refusal::Invalid("recovery disposition authority denied"@)
            },
{
    let (report, evidence) = match disposition_evidence(request, witness_digest) {
        Err(e) => {
            return Err(e);
        },
        Ok(x) => x,
    };
    let ghost digest = witness_digest;
    let ask = A::may_dispose;
    let first = ask(authority, request);
    if !first {
        let r = Err(invalid("recovery disposition authority denied"));
        assert(call_ensures(A::may_dispose, (authority, request), first));
        return r;
    }
    let r = record_disposition(rows, request, report, evidence, authority);
    assert(call_ensures(A::may_dispose, (authority, request), first) && disposed_as(r, rows@, *request, digest));
    r
}

/// Pushing the first match onto a sequence without one makes it the first.
proof fn lemma_first_push<T>(s: Seq<T>, p: spec_fn(T) -> bool, x: T, k: int)
    requires
        0 <= k <= s.len(),
        forall|i: int| k <= i < s.len() ==> !p(#[trigger] s[i]),
        p(x),
    ensures
        first_from(s.push(x), p, k) == Some(s.len() as int),
    decreases s.len() - k,
{
    if k < s.len() {
        assert(s.push(x)[k] == s[k]);
        lemma_first_push(s, p, x, k + 1);
    } else {
        assert(s.push(x)[k] == x);
    }
}

/// An explicit resume is idempotent for its own request and exclusive
/// against any other: once a resume of disposition `d` was granted with a
/// new record, asking again with the very same request (and the authority
/// still allowing it) gives a permit for it and writes no record, while
/// any other request for `d` is refused as already claimed.
pub proof fn law_resume_is_claimed_once(
    component: String,
    current: VersionedRegistration,
    d: Disposition,
    rs: Seq<ResumeRecord>,
    request: ResumeRequest,
    other: ResumeRequest,
    first_result: Result<(Option<ResumeRecord>, ResumePermit), StoreError>,
    again: Result<(Option<ResumeRecord>, ResumePermit), StoreError>,
    contested: Result<(Option<ResumeRecord>, ResumePermit), StoreError>,
)
    requires
        request.disposition@ == d.id@,
        resumed_as(first_result, component, current, d, rs, request, true),
        first_result matches Ok((Some(_), _)),
        resumed_as(again, component, current, d, rs.push(first_result->Ok_0.0->0), request, true),
        resumed_as(contested, component, current, d, rs.push(first_result->Ok_0.0->0), other, true),
        !other.same(&request),
    ensures
        again matches Ok((record, permit)) && record is None && permit.spec_registration() == component
            && permit.spec_request() == request,
        contested matches Err(e) && e@ == Refusal::Invalid("disposition already claimed/consumed by another explicit resume"@),
{
    let p = resumes(d.id@);
    let rec = first_result->Ok_0.0->0;
    lemma_first_from(rs, p, 0);
    assert(first(rs, p) is None);
    assert(rec.request == request);
    lemma_first_push(rs, p, rec, 0);
    assert(first(rs.push(rec), p) == Some(rs.len() as int));
    assert(rs.push(rec)[rs.len() as int] == rec);
}

} // verus!
