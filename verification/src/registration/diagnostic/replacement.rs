//! Explicit replacement changes one future-assignment route, never a run's
//! binding identity. Frozen versions and prior results stay readable.
use vstd::prelude::*;
use crate::decision::{self, failure_text, Kind, Owner, Policy, Receiver, Reference, VerifiedDecision};
use crate::ids::fresh_id;
use crate::registration::diagnostic::{
    entity_key, invalid, observe, AcceptanceKind, AcceptanceReply, AcceptanceRequest, Assessment,
    BindingJudgment, Catalog, Dependency, Generation, ProbePurpose, RegistrationRef, Sample, Source,
    TrackedBinding, profile_of, observed_for, Observed,
};
use crate::registration::recovery::WorkUsePermission;
use crate::registration::{conflict, integrity, Refusal, StoreError};
use crate::use_assessment::ConditionState;

verus! {

/// When and how diagnostic dependencies are observed.
#[derive(Clone, Debug)]
pub struct CheckpointPolicy {
    pub cadence: String,
    pub maximum_detection_delay_ms: Option<u64>,
    pub observations: String,
    pub failure_detection: String,
    pub follow_up: String,
}

impl CheckpointPolicy {
    /// The policy in force: explicit caller-driven checkpoints, no timer.
    pub open spec fn is_current(&self) -> bool {
        &&& self.cadence@ == "EXPLICIT_CALLER_DRIVEN_CHECKPOINTS; NO_TIMER_OR_BACKGROUND_MONITOR"@
        &&& self.maximum_detection_delay_ms is None
        &&& self.observations@ == "PREPARATION_ONLY captures at ASSIGN then reuses captured input; RESULT_GENERATION captures at FINISH; CONTINUOUS observes at ASSIGN/BEGIN/POLL/FINISH; INSPECT explicitly observes dependent providers; replacement APPLY probes its candidate"@
        &&& self.failure_detection@ == "at the next required observation: known loss/changed identity/report is NOT_MET; unavailable evidence is NOT_EVALUATED"@
        &&& self.follow_up@ == "withhold the affected transition/result consumption; preserve runs/results; no automatic stop, replay, replacement or physical handover"@
    }

    pub fn current() -> (r: Self)
        ensures
            r.is_current(),
    {
        CheckpointPolicy {
            cadence: String::from_str("EXPLICIT_CALLER_DRIVEN_CHECKPOINTS; NO_TIMER_OR_BACKGROUND_MONITOR"),
            maximum_detection_delay_ms: None,
            observations: String::from_str("PREPARATION_ONLY captures at ASSIGN then reuses captured input; RESULT_GENERATION captures at FINISH; CONTINUOUS observes at ASSIGN/BEGIN/POLL/FINISH; INSPECT explicitly observes dependent providers; replacement APPLY probes its candidate"),
            failure_detection: String::from_str("at the next required observation: known loss/changed identity/report is NOT_MET; unavailable evidence is NOT_EVALUATED"),
            follow_up: String::from_str("withhold the affected transition/result consumption; preserve runs/results; no automatic stop, replay, replacement or physical handover"),
        }
    }
}

/// A new assignment may only use the binding its route currently names.
pub fn admit_assignment(assignment_current: bool) -> (r: Result<(), StoreError>)
    ensures
        r is Ok <==> assignment_current,
        r matches Err(e) ==> e@ == Refusal::RevisionConflict(
            "replacement/superseded-binding; use assign_current(root) for a new run"@),
{
    if !assignment_current {
        return Err(conflict("replacement/superseded-binding; use assign_current(root) for a new run"));
    }
    Ok(())
}

/// `components/diagnostic/version/<component>/<id>`
pub fn version_key(component: &String, id: &String) -> (r: String)
    ensures
        r@ == "components/diagnostic/version/"@ + component@ + "/"@ + id@,
{
    let r = entity_key("version", component, id);
    proof {
        reveal_strlit("version");
        reveal_strlit("components/diagnostic/");
        reveal_strlit("/");
        reveal_strlit("components/diagnostic/version/");
        assert("components/diagnostic/"@ + "version"@ + "/"@ =~= "components/diagnostic/version/"@);
    }
    r
}

/// `components/diagnostic/route/<component>/<id>`
pub fn route_key(component: &String, id: &String) -> (r: String)
    ensures
        r@ == "components/diagnostic/route/"@ + component@ + "/"@ + id@,
{
    let r = entity_key("route", component, id);
    proof {
        reveal_strlit("route");
        reveal_strlit("components/diagnostic/");
        reveal_strlit("/");
        reveal_strlit("components/diagnostic/route/");
        assert("components/diagnostic/"@ + "route"@ + "/"@ =~= "components/diagnostic/route/"@);
    }
    r
}

/// `components/diagnostic/application/<component>/<id>`
pub fn application_key(component: &String, id: &String) -> (r: String)
    ensures
        r@ == "components/diagnostic/application/"@ + component@ + "/"@ + id@,
{
    let r = entity_key("application", component, id);
    proof {
        reveal_strlit("application");
        reveal_strlit("components/diagnostic/");
        reveal_strlit("/");
        reveal_strlit("components/diagnostic/application/");
        assert("components/diagnostic/"@ + "application"@ + "/"@ =~= "components/diagnostic/application/"@);
    }
    r
}

/// `components/diagnostic/replacement-consumed/<component>/<id>`
pub fn consumption_key(component: &String, id: &String) -> (r: String)
    ensures
        r@ == "components/diagnostic/replacement-consumed/"@ + component@ + "/"@ + id@,
{
    let r = entity_key("replacement-consumed", component, id);
    proof {
        reveal_strlit("replacement-consumed");
        reveal_strlit("components/diagnostic/");
        reveal_strlit("/");
        reveal_strlit("components/diagnostic/replacement-consumed/");
        assert("components/diagnostic/"@ + "replacement-consumed"@ + "/"@ =~= "components/diagnostic/replacement-consumed/"@);
    }
    r
}

/// The route of a relationship: its root binding, the binding new
/// assignments use, and how many replacements were applied.
#[derive(Clone, Debug)]
pub struct Route {
    pub root: String,
    pub active: String,
    pub generation: u64,
}

impl Route {
    pub open spec fn same(&self, other: &Route) -> bool {
        self.root@ == other.root@ && self.active@ == other.active@ && self.generation == other.generation
    }

    pub fn matches(&self, other: &Route) -> (r: bool)
        ensures
            r == self.same(other),
    {
        self.root == other.root && self.active == other.active && self.generation == other.generation
    }

    pub fn duplicate(&self) -> (r: Self)
        ensures
            r == *self,
    {
        Route { root: self.root.clone(), active: self.active.clone(), generation: self.generation }
    }
}

/// A sealed, immutable binding version of a relationship.
#[derive(Clone, Debug)]
pub struct Version {
    pub root: String,
    pub binding: String,
    pub digest: String,
}

impl Version {
    pub open spec fn same(&self, other: &Version) -> bool {
        self.root@ == other.root@ && self.binding@ == other.binding@ && self.digest@ == other.digest@
    }
}

/// A stored version must be filed under its own binding.
pub fn version(row: Option<Version>, id: &String) -> (r: Result<Option<Version>, StoreError>)
    ensures
        row is None ==> (r matches Ok(x) && x is None),
        row matches Some(v) ==> if v.binding@ == id@ {
            (r matches Ok(x) && x == Some(v))
        } else {
            (r matches Err(e) && e@ == Refusal::Invalid("replacement/version-identity"@))
        },
{
    match row {
        None => Ok(None),
        Some(v) => {
            if v.binding != *id {
                return Err(invalid("replacement/version-identity"));
            }
            Ok(Some(v))
        },
    }
}

/// A sealed binding never changes: its content must still have the digest
/// its version recorded. `digest` is the digest of the binding as stored.
pub fn check_version(sealed: &Option<Version>, digest: &String) -> (r: Result<(), StoreError>)
    ensures
        r is Ok <==> !(sealed matches Some(v) && v.digest@ != digest@),
        r matches Err(e) ==> e@ == Refusal::Integrity("immutable diagnostic binding version differs"@),
{
    if let Some(v) = sealed {
        if v.digest != *digest {
            return Err(integrity("immutable diagnostic binding version differs"));
        }
    }
    Ok(())
}

/// The root of the relationship that `id` belongs to.
pub fn root_of(id: &String, own: &Option<Version>) -> (r: String)
    ensures
        r == match *own { Some(v) => v.root, None => *id },
{
    match own {
        Some(v) => v.root.clone(),
        None => id.clone(),
    }
}

/// The route of the relationship rooted at `root`. `stored` is the route row
/// and its revision; `root_version` and `active_version` are the versions
/// stored for the root and for the binding the stored route names. A stored
/// route must name its root, have been applied at least once, and have both
/// bindings sealed under it; without one, the root must be unsealed and
/// routes to itself.
pub fn route_of(root: &String, stored: Option<(Route, u64)>, root_version: &Option<Version>, active_version: &Option<Version>) -> (r: Result<(Route, Option<u64>), StoreError>)
    ensures
        match stored {
            Some((route, revision)) => if route.root@ != root@ || route.generation == 0 {
                (r matches Err(e) && e@ == Refusal::Invalid("replacement/route-identity"@))
            } else if !(root_version matches Some(v) && v.root@ == root@) || !(active_version matches Some(v) && v.root@ == root@) {
                (r matches Err(e) && e@ == Refusal::Invalid("replacement/incomplete-version-membership"@))
            } else {
                (r matches Ok((x, rev)) && x == route && rev == Some(revision))
            },
            None => if root_version is Some {
                (r matches Err(e) && e@ == Refusal::Invalid("replacement/version-without-route"@))
            } else {
                (r matches Ok((x, rev)) && x.root == *root && x.active == *root && x.generation == 0 && rev is None)
            },
        },
{
    match stored {
        Some((route, revision)) => {
            if route.root != *root || route.generation == 0 {
                return Err(invalid("replacement/route-identity"));
            }
            let root_sealed = match root_version {
                Some(v) => v.root == *root,
                None => false,
            };
            let active_sealed = match active_version {
                Some(v) => v.root == *root,
                None => false,
            };
            if !root_sealed || !active_sealed {
                return Err(invalid("replacement/incomplete-version-membership"));
            }
            Ok((route, Some(revision)))
        },
        None => {
            if root_version.is_some() {
                return Err(invalid("replacement/version-without-route"));
            }
            Ok((Route { root: root.clone(), active: root.clone(), generation: 0 }, None))
        },
    }
}

/// The state a replacement is approved against: the route, its revision,
/// and the active binding with its revision.
#[derive(Debug)]
pub struct Snapshot {
    pub route: Route,
    pub route_revision: Option<u64>,
    pub binding_revision: u64,
    pub active: TrackedBinding,
}

impl Snapshot {
    pub open spec fn same(&self, other: &Snapshot) -> bool {
        &&& self.route.same(&other.route)
        &&& self.route_revision == other.route_revision
        &&& self.binding_revision == other.binding_revision
        &&& self.active.same(&other.active)
    }

    pub fn matches(&self, other: &Snapshot) -> (r: bool)
        ensures
            r == self.same(other),
    {
        self.route.matches(&other.route) && self.route_revision == other.route_revision
            && self.binding_revision == other.binding_revision && self.active.matches(&other.active)
    }
}

/// A new assignment may use `id` only while its route names it.
pub fn assignment_is_current(snapshot: &Snapshot, id: &String) -> (r: bool)
    ensures
        r == (snapshot.route.active@ == id@),
{
    snapshot.route.active == *id
}

/// The configuration resolved for future assignments; not current source
/// availability or work permission.
#[derive(Debug)]
pub struct Routing {
    pub root: String,
    pub revision: Option<u64>,
    pub generation: u64,
    pub active: TrackedBinding,
    pub meaning: String,
    pub checkpoints: CheckpointPolicy,
}

pub fn routing(s: Snapshot) -> (r: Routing)
    ensures
        r.root == s.route.root,
        r.revision == s.route_revision,
        r.generation == s.route.generation,
        r.active == s.active,
        r.meaning@ == "ONE_FUTURE_ASSIGNMENT_ROUTE; NOT_CURRENT_SOURCE_AVAILABILITY_OR_WORK_PERMISSION"@,
        r.checkpoints.is_current(),
{
    Routing {
        root: s.route.root,
        revision: s.route_revision,
        generation: s.route.generation,
        active: s.active,
        meaning: String::from_str("ONE_FUTURE_ASSIGNMENT_ROUTE; NOT_CURRENT_SOURCE_AVAILABILITY_OR_WORK_PERMISSION"),
        checkpoints: CheckpointPolicy::current(),
    }
}

/// Seals `b` as a version under `root`. `digest` is the binding's digest
/// and `existing` the version already stored for it. Only a binding with a
/// pinned generation is sealed, and a version is never changed. On success,
/// the version to store, if it is new.
pub fn seal(root: &String, b: &TrackedBinding, digest: String, existing: &Option<Version>) -> (r: Result<Option<Version>, StoreError>)
    ensures
        b.generation is None ==> (r matches Err(e) && e@ == Refusal::Invalid("replacement/unpinned-generation"@)),
        b.generation is Some ==> match *existing {
            Some(old) => if old.root@ == root@ && old.binding@ == b.id@ && old.digest@ == digest@ {
                (r matches Ok(x) && x is None)
            } else {
                (r matches Err(e) && e@ == Refusal::Invalid("replacement/immutable-version-conflict"@))
            },
            None => (r matches Ok(x) && x == Some(Version { root: *root, binding: b.id, digest })),
        },
{
    if b.generation.is_none() {
        return Err(invalid("replacement/unpinned-generation"));
    }
    match existing {
        Some(old) => {
            if !(old.root == *root && old.binding == b.id && old.digest == digest) {
                return Err(invalid("replacement/immutable-version-conflict"));
            }
            Ok(None)
        },
        None => Ok(Some(Version { root: root.clone(), binding: b.id.clone(), digest })),
    }
}

/// An explicit request to replace the provider of a relationship.
#[derive(Debug)]
pub struct ReplacementIntent {
    pub application: String,
    /// The root or a known version of this same relationship.
    pub binding: String,
    pub proposed_provider: RegistrationRef,
    pub proposed_generation: Generation,
}

/// Why a replacement cannot be prepared against snapshot `s`, if it cannot.
pub open spec fn target_refusal(consumer: RegistrationRef, catalog: Catalog, s: Snapshot, intent: ReplacementIntent) -> Option<Seq<char>> {
    if !s.active.consumer.same(&consumer) {
        Some("replacement/consumer-binding-revision; old interpretation cannot be migrated by replacement"@)
    } else if !(profile_of(catalog.profiles@, s.active.profile@) matches Some(i) && catalog.profiles@[i].1 is Required)
        || s.active.generation is None {
        Some("replacement/requires-pinned-dependent-binding"@)
    } else if intent.proposed_provider.registration@ == consumer.registration@ || (s.active.provider matches Some(p)
        && p.same(&intent.proposed_provider) && s.active.generation->0.same(&intent.proposed_generation)) {
        Some("replacement/self-or-unchanged-target"@)
    } else {
        None
    }
}

/// The next binding version of a replacement: the active binding under a
/// fresh identity, with the proposed provider and generation. The consumer
/// must be eligible, the application new, the active binding the consumer's
/// own, of a dependent profile and pinned, and the proposal another target
/// than the consumer and than what is active.
pub fn replacement_target(
    consumer: &RegistrationRef,
    catalog: &Catalog,
    eligibility: &Assessment,
    application_recorded: bool,
    s: &Snapshot,
    intent: &ReplacementIntent,
) -> (r: Result<TrackedBinding, StoreError>)
    requires
        eligibility.state != ConditionState::Satisfied ==> eligibility.conditions@.len() >= 1,
    ensures
        eligibility.state != ConditionState::Satisfied ==> (r matches Err(e) && e@ == Refusal::Invalid(eligibility.conditions@[0].reason@)),
        eligibility.state == ConditionState::Satisfied && application_recorded ==> (r matches Err(e)
            && e@ == Refusal::Invalid("replacement/application-already-recorded; query history"@)),
        eligibility.state == ConditionState::Satisfied && !application_recorded ==> match target_refusal(*consumer, *catalog, *s, *intent) {
            Some(m) => (r matches Err(e) && e@ == Refusal::Invalid(m)),
            None => (r matches Ok(next) && {
                &&& next.id@.len() == 36
                &&& next.consumer == s.active.consumer
                &&& next.profile == s.active.profile
                &&& next.operating_area == s.active.operating_area
                &&& next.provider == Some(intent.proposed_provider)
                &&& next.generation == Some(intent.proposed_generation)
                &&& next.purpose == s.active.purpose
            }),
        },
{
    if eligibility.state != ConditionState::Satisfied {
        return Err(StoreError::Invalid(eligibility.conditions[0].reason.clone()));
    }
    if application_recorded {
        return Err(invalid("replacement/application-already-recorded; query history"));
    }
    if !s.active.consumer.matches(consumer) {
        return Err(invalid("replacement/consumer-binding-revision; old interpretation cannot be migrated by replacement"));
    }
    let dependent = match catalog.profile(&s.active.profile) {
        Some(i) => match &catalog.profiles[i].1 {
            Dependency::Required { .. } => true,
            _ => false,
        },
        None => false,
    };
    if !dependent || s.active.generation.is_none() {
        return Err(invalid("replacement/requires-pinned-dependent-binding"));
    }
    let unchanged = match (&s.active.provider, &s.active.generation) {
        (Some(p), Some(g)) => p.matches(&intent.proposed_provider) && g.matches(&intent.proposed_generation),
        _ => false,
    };
    if intent.proposed_provider.registration == consumer.registration || unchanged {
        return Err(invalid("replacement/self-or-unchanged-target"));
    }
    Ok(TrackedBinding {
        id: fresh_id(),
        consumer: s.active.consumer.duplicate(),
        profile: s.active.profile.clone(),
        operating_area: s.active.operating_area.clone(),
        provider: Some(intent.proposed_provider.duplicate()),
        generation: Some(intent.proposed_generation.duplicate()),
        purpose: s.active.purpose,
    })
}

/// The acceptance request of a replacement, carrying a sealed replacement
/// decision request. `policy` is the author's decision policy, `subject` the
/// canonical JSON of the application, and the digests those of the policy
/// and of the whole decision context.
pub fn replacement_request(
    consumer: &RegistrationRef,
    policy: Option<Policy>,
    receiver: &Receiver,
    s: &Snapshot,
    intent: &ReplacementIntent,
    subject: String,
    policy_digest: String,
    context_digest: String,
) -> (r: Result<AcceptanceRequest, StoreError>)
    ensures
        policy is None ==> (r matches Err(e) && e@ == Refusal::Invalid("replacement/author-policy-absent"@)),
        policy is Some && !receiver.spec_active() ==> (r matches Err(e) && e@ == Refusal::Invalid(failure_text(decision::Failure::Epoch))),
        policy is Some && receiver.spec_active() && decision::policy_refusal(policy->0) is Some ==> (r matches Err(e)
            && e@ == Refusal::Invalid(failure_text(decision::Failure::Policy))),
        policy is Some && receiver.spec_active() && decision::policy_refusal(policy->0) is None ==> (r matches Ok(q) && {
            &&& q.kind == AcceptanceKind::Replacement
            &&& q.binding == s.active
            &&& q.proposed_provider == Some(intent.proposed_provider)
            &&& q.proposed_generation == Some(intent.proposed_generation)
            &&& q.decision matches Some(d) && d.spec_kind() == Kind::ReplacementBinding
                && d.spec_owner().registration == consumer.registration
                && d.spec_owner().revision == consumer.revision
                && d.spec_owner().program == consumer.catalog.program
                && d.spec_owner().catalog == consumer.catalog.digest
                && d.spec_operating_area() == s.active.operating_area@
                && d.spec_role() == s.active.profile@
                && d.spec_subject() == subject@
                && d.spec_policy() == policy->0
                && d.spec_epoch() == receiver.spec_epoch()
        }),
{
    let policy = match policy {
        None => {
            return Err(invalid("replacement/author-policy-absent"));
        },
        Some(p) => p,
    };
    let owner = Owner {
        registration: consumer.registration.clone(),
        revision: consumer.revision,
        program: consumer.catalog.program.clone(),
        catalog: consumer.catalog.digest.clone(),
    };
    let request = match receiver.request(Kind::ReplacementBinding, owner, s.active.operating_area.clone(),
        s.active.profile.clone(), subject, policy, policy_digest, context_digest) {
        Err(f) => {
            return Err(StoreError::Invalid(f.message()));
        },
        Ok(q) => q,
    };
    Ok(AcceptanceRequest {
        kind: AcceptanceKind::Replacement,
        binding: s.active.duplicate(),
        proposed_provider: Some(intent.proposed_provider.duplicate()),
        proposed_generation: Some(intent.proposed_generation.duplicate()),
        decision: Some(request),
    })
}

/// A live approval of one replacement application. Only preparation makes
/// one; history cannot restore it.
#[derive(Debug)]
pub struct PreparedReplacement {
    intent: ReplacementIntent,
    snapshot: Snapshot,
    next: TrackedBinding,
    proof: VerifiedDecision,
}

impl PreparedReplacement {
    pub closed spec fn spec_intent(&self) -> ReplacementIntent {
        self.intent
    }

    pub closed spec fn spec_snapshot(&self) -> Snapshot {
        self.snapshot
    }

    pub closed spec fn spec_next(&self) -> TrackedBinding {
        self.next
    }

    pub closed spec fn spec_decision(&self) -> VerifiedDecision {
        self.proof
    }

    pub fn decision(&self) -> (r: &VerifiedDecision)
        ensures
            *r == self.spec_decision(),
    {
        &self.proof
    }

    pub fn application(&self) -> (r: &String)
        ensures
            *r == self.spec_intent().application,
    {
        &self.intent.application
    }

    pub fn snapshot(&self) -> (r: &Snapshot)
        ensures
            *r == self.spec_snapshot(),
    {
        &self.snapshot
    }

    pub fn next(&self) -> (r: &TrackedBinding)
        ensures
            *r == self.spec_next(),
    {
        &self.next
    }
}

/// Why a replacement is not prepared from the judgment `reply` to
/// `request`, if it is not: only a verified decision that passes the
/// request's own check at `receiver` prepares it.
pub open spec fn replacement_refusal(reply: AcceptanceReply, request: AcceptanceRequest, receiver: Receiver, now_ms: u64,
    later_ms: u64) -> Option<Refusal> {
    match reply {
        AcceptanceReply::Verified(proof) => match request.decision {
            None => Some(Refusal::Invalid(decision::failure_text(decision::Failure::Unconfigured))),
            Some(q) => match decision::request_check(q, proof, receiver, now_ms, later_ms) {
                Some(f) => Some(Refusal::Invalid(decision::failure_text(f))),
                None => None,
            },
        },
        _ => Some(Refusal::Invalid("replacement/no-live-external-approval; assessment alone never applies"@)),
    }
}

/// What preparing gives for the judgment `reply`: the refusal, or the
/// approval of `intent` over `snapshot` and `next` holding the verified
/// decision.
pub open spec fn prepared_as(r: Result<PreparedReplacement, StoreError>, reply: AcceptanceReply, intent: ReplacementIntent,
    snapshot: Snapshot, next: TrackedBinding, request: AcceptanceRequest, receiver: Receiver, now_ms: u64, later_ms: u64) -> bool {
    match replacement_refusal(reply, request, receiver, now_ms, later_ms) {
        Some(e) => r matches Err(x) && x@ == e,
        None => r matches Ok(p) && p.spec_intent() == intent && p.spec_snapshot() == snapshot && p.spec_next() == next
            && (reply matches AcceptanceReply::Verified(d) && p.spec_decision() == d),
    }
}

/// Prepares a replacement from the consumer-side judgment `reply` to
/// `request`, without changing a route or spending the approval.
pub fn prepared_replacement(
    intent: ReplacementIntent,
    snapshot: Snapshot,
    next: TrackedBinding,
    request: &AcceptanceRequest,
    reply: AcceptanceReply,
    receiver: &Receiver,
    now_ms: u64,
    later_ms: u64,
) -> (r: Result<PreparedReplacement, StoreError>)
    ensures
        prepared_as(r, reply, intent, snapshot, next, *request, *receiver, now_ms, later_ms),
{
    let proof = match reply {
        AcceptanceReply::Verified(proof) => proof,
        _ => {
            return Err(invalid("replacement/no-live-external-approval; assessment alone never applies"));
        },
    };
    let q = match &request.decision {
        None => {
            return Err(StoreError::Invalid(decision::Failure::Unconfigured.message()));
        },
        Some(q) => q,
    };
    if let Err(f) = q.check(&proof, receiver, now_ms, later_ms) {
        return Err(StoreError::Invalid(f.message()));
    }
    Ok(PreparedReplacement { intent, snapshot, next, proof })
}

/// Verifies an application-bound approval without changing a route or
/// spending it: `port` judges `request`, and what it replies prepares the
/// replacement as `prepared_replacement` says. Applying it is a separate
/// step.
pub fn prepare_replacement<J: BindingJudgment>(
    intent: ReplacementIntent,
    snapshot: Snapshot,
    next: TrackedBinding,
    request: &AcceptanceRequest,
    port: &J,
    receiver: &Receiver,
    now_ms: u64,
    later_ms: u64,
) -> (r: Result<PreparedReplacement, StoreError>)
    ensures
        exists|reply: AcceptanceReply| call_ensures(J::assess, (port, request), reply)
            && prepared_as(r, reply, intent, snapshot, next, *request, *receiver, now_ms, later_ms),
{
    let judge = J::assess;
    let reply = judge(port, request);
    prepared_replacement(intent, snapshot, next, request, reply, receiver, now_ms, later_ms)
}

/// Inert history of one explicit application; not current approval,
/// availability, process ownership or handover authority.
#[derive(Debug)]
pub struct ReplacementReceipt {
    pub application: String,
    pub root: String,
    pub generation: u64,
    pub previous: TrackedBinding,
    pub next: TrackedBinding,
    pub decision: Reference,
    pub candidate_observation: Sample,
    pub signature_verification: String,
    pub operating_area_policy: String,
    pub application_effect: String,
    pub current_authority: String,
    pub process_ownership: String,
    pub physical_handover: String,
    pub work_use: WorkUsePermission,
    pub checkpoints: CheckpointPolicy,
}

/// The reasons of `conditions`, joined by `; `.
pub open spec fn joined(conditions: Seq<crate::use_assessment::ConditionAssessment>) -> Seq<char>
    decreases conditions.len(),
{
    if conditions.len() == 0 {
        Seq::empty()
    } else if conditions.len() == 1 {
        conditions[0].reason@
    } else {
        joined(conditions.drop_last()) + "; "@ + conditions.last().reason@
    }
}

fn join_reasons(conditions: &Vec<crate::use_assessment::ConditionAssessment>) -> (r: String)
    ensures
        r@ == joined(conditions@),
{
    let mut out = String::new();
    let mut i: usize = 0;
    while i < conditions.len()
        invariant
            i <= conditions@.len(),
            out@ == joined(conditions@.take(i as int)),
        decreases conditions@.len() - i,
    {
        proof {
            assert(conditions@.take(i + 1).drop_last() == conditions@.take(i as int));
        }
        if i == 0 {
            out = conditions[i].reason.clone();
        } else {
            out = out.concat("; ").concat(conditions[i].reason.as_str());
        }
        i = i + 1;
    }
    proof {
        assert(conditions@.take(i as int) == conditions@);
    }
    out
}

/// What applying one replacement writes: the receipt, the versions to seal
/// (when new), the new route under the route revision it replaces, and the
/// keys of the new binding, the route, the application and the spent
/// decision.
#[derive(Debug)]
pub struct Application {
    pub receipt: ReplacementReceipt,
    pub active_version: Option<Version>,
    pub next_version: Option<Version>,
    pub route: Route,
    pub route_revision: Option<u64>,
    pub binding_key: String,
    pub route_key: String,
    pub application_key: String,
    pub consumption_key: String,
}

pub open spec fn receipt_notes(r: ReplacementReceipt) -> bool {
    &&& r.signature_verification@ == "EXTERNAL_SIGNATURE_AND_CONTEXT_VERIFIED_AT_LOGICAL_CUT"@
    &&& r.operating_area_policy@ == "NOT_EVALUATED_BY_HOST; PRODUCTION_PROVIDER_NOT_CONNECTED"@
    &&& r.application_effect@ == "EXPLICIT_SWITCH_FOR_FUTURE_DIAGNOSTIC_ASSIGNMENTS"@
    &&& r.current_authority@ == "NONE; HISTORICAL_APPLICATION_ONLY"@
    &&& r.process_ownership@ == "UNCHANGED; NO_PID_ADOPTION"@
    &&& r.physical_handover@ == "NOT_ASSESSED"@
    &&& r.work_use == WorkUsePermission::Unsupported
    &&& r.checkpoints.is_current()
}

/// Why `b` cannot be sealed under `root` with `digest`, given the version
/// `existing` already stored for it, if it cannot.
pub open spec fn seal_refusal(root: Seq<char>, b: TrackedBinding, digest: Seq<char>, existing: Option<Version>) -> Option<Refusal> {
    if b.generation is None {
        Some(Refusal::Invalid("replacement/unpinned-generation"@))
    } else {
        match existing {
            Some(old) => if old.root@ == root && old.binding@ == b.id@ && old.digest@ == digest {
                None
            } else {
                Some(Refusal::Invalid("replacement/immutable-version-conflict"@))
            },
            None => None,
        }
    }
}

/// The version to store for `b` under `root`, if it is new.
pub open spec fn new_version(root: String, b: TrackedBinding, digest: String, existing: Option<Version>) -> Option<Version> {
    if existing is Some {
        None
    } else {
        Some(Version { root, binding: b.id, digest })
    }
}

/// Why applying `p` is refused once its candidate was observed as
/// `observed`, if it is, in the order the checks are made.
pub open spec fn application_refusal(
    observed: Observed,
    p: PreparedReplacement,
    request: AcceptanceRequest,
    receiver: Receiver,
    now_ms: u64,
    later_ms: u64,
    eligibility: Assessment,
    latest: Snapshot,
    bindings: usize,
    active_digest: Seq<char>,
    next_digest: Seq<char>,
    active_sealed: Option<Version>,
    next_sealed: Option<Version>,
) -> Option<Refusal> {
    let s = p.spec_snapshot();
    let d = p.spec_decision();
    if observed.assessment.state != ConditionState::Satisfied {
        Some(Refusal::Invalid("replacement/candidate-unavailable: "@ + joined(observed.assessment.conditions@)))
    } else if observed.sample is None {
        Some(Refusal::Invalid("replacement/candidate-observation-missing"@))
    } else {
        match request.decision {
            None => Some(Refusal::Invalid(decision::failure_text(decision::Failure::Unconfigured))),
            Some(q) => if decision::request_check(q, d, receiver, now_ms, now_ms) is Some {
                Some(Refusal::Invalid(decision::failure_text(decision::request_check(q, d, receiver, now_ms, now_ms)->0)))
            } else if eligibility.state != ConditionState::Satisfied {
                Some(Refusal::Invalid(eligibility.conditions@[0].reason@))
            } else if !latest.same(&s) {
                Some(Refusal::RevisionConflict("replacement/route-CAS-conflict"@))
            } else if bindings >= 64 {
                Some(Refusal::Invalid("diagnostic binding capacity reached; explicit archival policy required"@))
            } else if s.route.generation == u64::MAX {
                Some(Refusal::Invalid("replacement/route-generation-overflow"@))
            } else if seal_refusal(s.route.root@, s.active, active_digest, active_sealed) is Some {
                seal_refusal(s.route.root@, s.active, active_digest, active_sealed)
            } else if seal_refusal(s.route.root@, p.spec_next(), next_digest, next_sealed) is Some {
                seal_refusal(s.route.root@, p.spec_next(), next_digest, next_sealed)
            } else if decision::request_check(q, d, receiver, later_ms, later_ms) is Some {
                Some(Refusal::Invalid(decision::failure_text(decision::request_check(q, d, receiver, later_ms, later_ms)->0)))
            } else {
                None
            },
        }
    }
}

/// What applying `p` writes, given the observation `observed` of its
/// candidate.
pub open spec fn application_of(
    a: Application,
    consumer: RegistrationRef,
    p: PreparedReplacement,
    observed: Observed,
    active_digest: String,
    next_digest: String,
    active_sealed: Option<Version>,
    next_sealed: Option<Version>,
) -> bool {
    let s = p.spec_snapshot();
    &&& a.route.root == s.route.root
    &&& a.route.active == p.spec_next().id
    &&& a.route.generation == s.route.generation + 1
    &&& a.route_revision == s.route_revision
    &&& a.receipt.application == p.spec_intent().application
    &&& a.receipt.root == s.route.root
    &&& a.receipt.generation == s.route.generation + 1
    &&& a.receipt.previous == s.active
    &&& a.receipt.next == p.spec_next()
    &&& a.receipt.decision == p.spec_decision().spec_reference()
    &&& a.receipt.candidate_observation == observed.sample->0
    &&& receipt_notes(a.receipt)
    &&& a.active_version == new_version(s.route.root, s.active, active_digest, active_sealed)
    &&& a.next_version == new_version(s.route.root, p.spec_next(), next_digest, next_sealed)
    &&& a.binding_key@ == "components/diagnostic/binding/"@ + consumer.registration@ + "/"@ + p.spec_next().id@
    &&& a.route_key@ == "components/diagnostic/route/"@ + consumer.registration@ + "/"@ + s.route.root@
    &&& a.application_key@ == "components/diagnostic/application/"@ + consumer.registration@ + "/"@ + p.spec_intent().application@
    &&& a.consumption_key@ == "components/diagnostic/replacement-consumed/"@ + consumer.registration@ + "/"@
        + p.spec_decision().spec_reference().decision@
}

/// The outcome of applying `p` once its candidate was observed as
/// `observed`: the refusal, or what applying writes.
pub open spec fn applied_as(
    r: Result<Application, StoreError>,
    observed: Observed,
    consumer: RegistrationRef,
    p: PreparedReplacement,
    request: AcceptanceRequest,
    receiver: Receiver,
    now_ms: u64,
    later_ms: u64,
    eligibility: Assessment,
    latest: Snapshot,
    bindings: usize,
    active_digest: String,
    next_digest: String,
    active_sealed: Option<Version>,
    next_sealed: Option<Version>,
) -> bool {
    match application_refusal(observed, p, request, receiver, now_ms, later_ms, eligibility, latest, bindings, active_digest@,
        next_digest@, active_sealed, next_sealed) {
        Some(e) => r matches Err(x) && x@ == e,
        None => r matches Ok(a) && application_of(a, consumer, p, observed, active_digest, next_digest, active_sealed, next_sealed),
    }
}

/// Applies a prepared replacement whose candidate was observed as
/// `observed`: an explicit, atomic switch of the route for future
/// assignments only. The candidate must be satisfied with a captured
/// sample; the approval must pass `request`'s check at `receiver` at
/// `now_ms`; the consumer must still be eligible; `latest`, the snapshot in
/// the writing transaction, must be the approved one; there must be room
/// for a binding and a next generation; both bindings are sealed under the
/// root (`*_digest` their digests, `*_sealed` their stored versions); and
/// the approval must still pass at `later_ms`.
pub fn applied_replacement(
    consumer: &RegistrationRef,
    p: &PreparedReplacement,
    observed: Observed,
    request: &AcceptanceRequest,
    receiver: &Receiver,
    now_ms: u64,
    later_ms: u64,
    eligibility: &Assessment,
    latest: &Snapshot,
    bindings: usize,
    active_digest: String,
    next_digest: String,
    active_sealed: &Option<Version>,
    next_sealed: &Option<Version>,
) -> (r: Result<Application, StoreError>)
    requires
        eligibility.state != ConditionState::Satisfied ==> eligibility.conditions@.len() >= 1,
    ensures
        applied_as(r, observed, *consumer, *p, *request, *receiver, now_ms, later_ms, *eligibility, *latest, bindings,
            active_digest, next_digest, *active_sealed, *next_sealed),
{
    if observed.assessment.state != ConditionState::Satisfied {
        let reasons = join_reasons(&observed.assessment.conditions);
        return Err(StoreError::Invalid(String::from_str("replacement/candidate-unavailable: ").concat(reasons.as_str())));
    }
    let sample = match observed.sample {
        None => {
            return Err(invalid("replacement/candidate-observation-missing"));
        },
        Some(s) => s,
    };
    let q = match &request.decision {
        None => {
            return Err(StoreError::Invalid(decision::Failure::Unconfigured.message()));
        },
        Some(q) => q,
    };
    let reference = match q.check(&p.proof, receiver, now_ms, now_ms) {
        Err(f) => {
            return Err(StoreError::Invalid(f.message()));
        },
        Ok(reference) => reference,
    };
    if eligibility.state != ConditionState::Satisfied {
        return Err(StoreError::Invalid(eligibility.conditions[0].reason.clone()));
    }
    if !latest.matches(&p.snapshot) {
        return Err(conflict("replacement/route-CAS-conflict"));
    }
    if bindings >= 64 {
        return Err(invalid("diagnostic binding capacity reached; explicit archival policy required"));
    }
    let generation = match p.snapshot.route.generation.checked_add(1) {
        None => {
            return Err(invalid("replacement/route-generation-overflow"));
        },
        Some(g) => g,
    };
    let root = &p.snapshot.route.root;
    let active_version = match seal(root, &p.snapshot.active, active_digest, active_sealed) {
        Err(e) => {
            return Err(e);
        },
        Ok(v) => v,
    };
    let next_version = match seal(root, &p.next, next_digest, next_sealed) {
        Err(e) => {
            return Err(e);
        },
        Ok(v) => v,
    };
    let route = Route { root: root.clone(), active: p.next.id.clone(), generation };
    let binding_key = entity_key("binding", &consumer.registration, &p.next.id);
    let route_key = route_key(&consumer.registration, root);
    let application_key = application_key(&consumer.registration, &p.intent.application);
    let consumption_key = consumption_key(&consumer.registration, &reference.decision);
    if let Err(f) = q.check(&p.proof, receiver, later_ms, later_ms) {
        return Err(StoreError::Invalid(f.message()));
    }
    proof {
        reveal_strlit("binding");
        reveal_strlit("components/diagnostic/");
        reveal_strlit("/");
        reveal_strlit("components/diagnostic/binding/");
        assert("components/diagnostic/"@ + "binding"@ + "/"@ =~= "components/diagnostic/binding/"@);
    }
    let receipt = ReplacementReceipt {
        application: p.intent.application.clone(),
        root: root.clone(),
        generation,
        previous: p.snapshot.active.duplicate(),
        next: p.next.duplicate(),
        decision: reference,
        candidate_observation: sample,
        signature_verification: String::from_str("EXTERNAL_SIGNATURE_AND_CONTEXT_VERIFIED_AT_LOGICAL_CUT"),
        operating_area_policy: String::from_str("NOT_EVALUATED_BY_HOST; PRODUCTION_PROVIDER_NOT_CONNECTED"),
        application_effect: String::from_str("EXPLICIT_SWITCH_FOR_FUTURE_DIAGNOSTIC_ASSIGNMENTS"),
        current_authority: String::from_str("NONE; HISTORICAL_APPLICATION_ONLY"),
        process_ownership: String::from_str("UNCHANGED; NO_PID_ADOPTION"),
        physical_handover: String::from_str("NOT_ASSESSED"),
        work_use: WorkUsePermission::Unsupported,
        checkpoints: CheckpointPolicy::current(),
    };
    Ok(Application {
        receipt,
        active_version,
        next_version,
        route,
        route_revision: p.snapshot.route_revision,
        binding_key,
        route_key,
        application_key,
        consumption_key,
    })
}


/// Applies a prepared replacement: the route must still be the approved
/// one when applying starts (`current`), and the candidate's profile must
/// be in `catalog`; the candidate is then observed through `source`, and
/// what it replies decides the rest as `applied_replacement` says.
/// Existing runs and results keep their bindings; no process or provider
/// ownership moves.
pub fn apply_replacement<S: Source>(
    consumer: &RegistrationRef,
    catalog: &Catalog,
    p: &PreparedReplacement,
    current: &Snapshot,
    request: &AcceptanceRequest,
    source: &mut S,
    receiver: &Receiver,
    now_ms: u64,
    later_ms: u64,
    eligibility: &Assessment,
    latest: &Snapshot,
    bindings: usize,
    active_digest: String,
    next_digest: String,
    active_sealed: &Option<Version>,
    next_sealed: &Option<Version>,
) -> (r: Result<Application, StoreError>)
    requires
        current.same(&p.spec_snapshot()) && eligibility.state != ConditionState::Satisfied ==> eligibility.conditions@.len() >= 1,
    ensures
        !current.same(&p.spec_snapshot()) ==> (r matches Err(e) && e@ == Refusal::RevisionConflict("replacement/route-changed-since-approval"@))
            && *final(source) == *old(source),
        (r matches Err(e) && e@ == Refusal::RevisionConflict("replacement/route-changed-since-approval"@)) <==> !current.same(&p.spec_snapshot()),
        current.same(&p.spec_snapshot()) && profile_of(catalog.profiles@, p.spec_next().profile@) is None
            ==> (r matches Err(e) && e@ == Refusal::Invalid("replacement/profile-missing"@)) && *final(source) == *old(source),
        current.same(&p.spec_snapshot()) && profile_of(catalog.profiles@, p.spec_next().profile@) is Some
            ==> exists|o: Observed| #![auto] observed_for(o, *old(source), p.spec_next(), None, ProbePurpose::Inspect, catalog.profiles@[profile_of(catalog.profiles@, p.spec_next().profile@)->0].1)
                && applied_as(r, o, *consumer, *p, *request, *receiver, now_ms, later_ms, *eligibility, *latest, bindings,
                    active_digest, next_digest, *active_sealed, *next_sealed),
{
    if !current.matches(&p.snapshot) {
        return Err(conflict("replacement/route-changed-since-approval"));
    }
    let i = match catalog.profile(&p.next.profile) {
        None => {
            return Err(invalid("replacement/profile-missing"));
        },
        Some(i) => i,
    };
    let declaration = &catalog.profiles[i].1;
    let observed = observe(&p.next, None, declaration, ProbePurpose::Inspect, source);
    let r = applied_replacement(consumer, p, observed, request, receiver, now_ms, later_ms, eligibility, latest, bindings,
        active_digest, next_digest, active_sealed, next_sealed);
    proof {
        reveal_strlit("replacement/route-changed-since-approval");
        reveal_strlit("replacement/route-CAS-conflict");
        assert("replacement/route-CAS-conflict"@[18] != "replacement/route-changed-since-approval"@[18]);
        let refusal = application_refusal(observed, *p, *request, *receiver, now_ms, later_ms, *eligibility, *latest, bindings,
            active_digest@, next_digest@, *active_sealed, *next_sealed);
        assert(refusal != Some(Refusal::RevisionConflict("replacement/route-changed-since-approval"@)));
    }
    r
}

/// A stored receipt, found under the key of application `id`, must name it
/// and this consumer; its bindings must still be the stored immutable
/// versions (`previous`, `next`), and its decision a replacement decision.
pub fn recorded_replacement(component: &String, id: &String, row: Option<ReplacementReceipt>, previous: &TrackedBinding, next: &TrackedBinding) -> (r: Result<ReplacementReceipt, StoreError>)
    ensures
        row is None ==> (r matches Err(e) && e@ == Refusal::Invalid("replacement/application-not-found"@)),
        row matches Some(v) ==> if !(v.application@ == id@ && v.previous.consumer.registration@ == component@
            && v.next.consumer.same(&v.previous.consumer)) {
            (r matches Err(e) && e@ == Refusal::Invalid("replacement/receipt-identity"@))
        } else if !(previous.same(&v.previous) && next.same(&v.next) && v.decision.kind == Kind::ReplacementBinding) {
            (r matches Err(e) && e@ == Refusal::Integrity("replacement receipt differs from immutable versions"@))
        } else {
            (r matches Ok(x) && x == v)
        },
{
    let value = match row {
        None => {
            return Err(invalid("replacement/application-not-found"));
        },
        Some(v) => v,
    };
    if !(value.application == *id && value.previous.consumer.registration == *component
        && value.next.consumer.matches(&value.previous.consumer)) {
        return Err(invalid("replacement/receipt-identity"));
    }
    if !(previous.matches(&value.previous) && next.matches(&value.next) && value.decision.kind == Kind::ReplacementBinding) {
        return Err(integrity("replacement receipt differs from immutable versions"));
    }
    Ok(value)
}

/// An applied replacement switches the route rooted at the approved
/// snapshot to the prepared binding, one generation on: the route names the
/// new binding, whose provider is the one the replacement proposed, and
/// the receipt keeps the binding it replaced. Nothing else moves.
pub proof fn law_application_routes_to_the_proposed_provider(
    a: Application,
    observed: Observed,
    consumer: RegistrationRef,
    p: PreparedReplacement,
    request: AcceptanceRequest,
    receiver: Receiver,
    now_ms: u64,
    later_ms: u64,
    eligibility: Assessment,
    latest: Snapshot,
    bindings: usize,
    active_digest: String,
    next_digest: String,
    active_sealed: Option<Version>,
    next_sealed: Option<Version>,
)
    requires
        applied_as(Ok::<Application, StoreError>(a), observed, consumer, p, request, receiver, now_ms, later_ms, eligibility,
            latest, bindings, active_digest, next_digest, active_sealed, next_sealed),
        p.spec_next().provider == Some(p.spec_intent().proposed_provider),
    ensures
        a.route.root == p.spec_snapshot().route.root,
        a.route.active == p.spec_next().id,
        a.route.generation == p.spec_snapshot().route.generation + 1,
        a.route_revision == p.spec_snapshot().route_revision,
        a.receipt.previous == p.spec_snapshot().active,
        a.receipt.next.provider == Some(p.spec_intent().proposed_provider),
        latest.same(&p.spec_snapshot()),
{
}

} // verus!
