//! Diagnostic-only consumption of component reports. Nothing here
//! orchestrates processes or issues work permission; source I/O stays
//! behind its own port.
use vstd::prelude::*;
use crate::decision::{self, Policy};
use crate::ids::fresh_id;
use crate::registration::recovery::WorkUsePermission;
use crate::registration::{
    CatalogReference, Refusal, RegistrationState, StoreError, TimePoint, VersionedRegistration,
};
use crate::text::{bounded, is_bounded, join};
use crate::use_assessment::{
    copy_conditions, unobserved_condition, AssessmentRecord, ConditionAssessment, ConditionState,
    ReadinessAssessment, ReportOrigin, UseScope,
};

pub mod replacement;

verus! {

#[derive(Clone, Copy, Debug, PartialEq, Eq, Structural)]
pub enum Window {
    PreparationOnly,
    ResultGeneration,
    Continuous,
}

/// Undeclared and unknown never mean independent. Only the catalog author
/// changes these; a site request names a profile, never a replacement.
#[derive(Clone, Debug)]
pub enum Dependency {
    Undeclared,
    Unknown { reason: String },
    Independent,
    Required { window: Window, provider_role: String, interpretation: String },
}

impl Dependency {
    pub fn duplicate(&self) -> (r: Self)
        ensures
            r == *self,
    {
        match self {
            Dependency::Undeclared => Dependency::Undeclared,
            Dependency::Unknown { reason } => Dependency::Unknown { reason: reason.clone() },
            Dependency::Independent => Dependency::Independent,
            Dependency::Required { window, provider_role, interpretation } => Dependency::Required {
                window: *window,
                provider_role: provider_role.clone(),
                interpretation: interpretation.clone(),
            },
        }
    }
}

/// A diagnostic catalog: profiles by name, in name order, each name once.
#[derive(Clone, Debug)]
pub struct Catalog {
    pub program: String,
    pub version: u64,
    pub decision_policy: Option<Policy>,
    pub profiles: Vec<(String, Dependency)>,
}

/// `Invalid(message)`.
pub fn invalid(message: &str) -> (r: StoreError)
    ensures
        r@ == Refusal::Invalid(message@),
{
    StoreError::Invalid(String::from_str(message))
}

/// An unknown dependency without a bounded reason.
pub open spec fn unexplained(d: Dependency) -> bool {
    d matches Dependency::Unknown { reason } && !bounded(reason@, 1024)
}

pub open spec fn unknown_unbounded(profiles: Seq<(String, Dependency)>) -> bool {
    exists|i: int| 0 <= i < profiles.len() && unexplained(#[trigger] profiles[i].1)
}

/// Why a catalog cannot be referenced, if it cannot: an unsound decision
/// policy, a zero version or 1..=16 profiles violated, or an unknown
/// dependency without a bounded reason.
pub open spec fn catalog_refusal(c: Catalog) -> Option<Seq<char>> {
    if c.decision_policy is Some && decision::policy_refusal(c.decision_policy->0) is Some {
        decision::policy_refusal(c.decision_policy->0)
    } else if c.version == 0 || c.profiles@.len() == 0 || c.profiles@.len() > 16 {
        Some("diagnostic catalog requires version and 1..16 profiles"@)
    } else if unknown_unbounded(c.profiles@) {
        Some("unknown dependency requires a bounded reason"@)
    } else {
        None
    }
}

impl Catalog {
    /// The reference of this catalog, whose content digest is `digest`.
    pub fn reference(&self, digest: String) -> (r: Result<CatalogReference, StoreError>)
        ensures
            catalog_refusal(*self) is None ==> (r matches Ok(c) && c.program == self.program && c.digest == digest),
            catalog_refusal(*self) matches Some(m) ==> (r matches Err(e) && e@ == Refusal::Invalid(m)),
    {
        if let Some(policy) = &self.decision_policy {
            if let Err(m) = policy.validate() {
                return Err(StoreError::Invalid(m));
            }
        }
        if self.version == 0 || self.profiles.len() == 0 || self.profiles.len() > 16 {
            return Err(invalid("diagnostic catalog requires version and 1..16 profiles"));
        }
        let mut i: usize = 0;
        while i < self.profiles.len()
            invariant
                i <= self.profiles@.len(),
                self.version != 0 && 1 <= self.profiles@.len() <= 16,
                self.decision_policy is Some ==> decision::policy_refusal(self.decision_policy->0) is None,
                forall|k: int| 0 <= k < i ==> !unexplained(#[trigger] self.profiles@[k].1),
            decreases self.profiles@.len() - i,
        {
            if let Dependency::Unknown { reason } = &self.profiles[i].1 {
                if !is_bounded(reason, 1024) {
                    assert(unexplained(self.profiles@[i as int].1));
                    return Err(invalid("unknown dependency requires a bounded reason"));
                }
            }
            i = i + 1;
        }
        Ok(CatalogReference { program: self.program.clone(), digest })
    }

    /// The position of `profile` among this catalog's profiles.
    pub fn profile(&self, profile: &String) -> (r: Option<usize>)
        ensures
            r matches Some(i) ==> profile_of(self.profiles@, profile@) == Some(i as int) && i < self.profiles@.len(),
            r is None ==> profile_of(self.profiles@, profile@) is None,
    {
        let mut k: usize = 0;
        while k < self.profiles.len()
            invariant
                k <= self.profiles@.len(),
                profile_of(self.profiles@, profile@) == profile_from(self.profiles@, profile@, k as int),
            decreases self.profiles@.len() - k,
        {
            if self.profiles[k].0 == *profile {
                proof {
                    lemma_profile_from(self.profiles@, profile@, k as int);
                }
                return Some(k);
            }
            k = k + 1;
        }
        None
    }
}

pub open spec fn profile_from(profiles: Seq<(String, Dependency)>, name: Seq<char>, k: int) -> Option<int>
    decreases profiles.len() - k,
{
    if k < 0 || k >= profiles.len() {
        None
    } else if profiles[k].0@ == name {
        Some(k)
    } else {
        profile_from(profiles, name, k + 1)
    }
}

pub open spec fn profile_of(profiles: Seq<(String, Dependency)>, name: Seq<char>) -> Option<int> {
    profile_from(profiles, name, 0)
}

pub proof fn lemma_profile_from(profiles: Seq<(String, Dependency)>, name: Seq<char>, k: int)
    requires
        0 <= k,
    ensures
        profile_from(profiles, name, k) matches Some(i) ==> k <= i < profiles.len() && profiles[i].0@ == name,
    decreases profiles.len() - k,
{
    if k < profiles.len() {
        lemma_profile_from(profiles, name, k + 1);
    }
}

fn required(window: Window) -> (r: Dependency)
    ensures
        r matches Dependency::Required { window: w, provider_role, interpretation } && w == window
            && provider_role@ == "diagnostics/support-summary"@
            && interpretation@ == "reported-support-summary.v1"@,
{
    Dependency::Required {
        window,
        provider_role: String::from_str("diagnostics/support-summary"),
        interpretation: String::from_str("reported-support-summary.v1"),
    }
}

/// The framework's bounded read-only reference operation: three profiles
/// that need the support summary, one per window, and an independent
/// catalog summary.
pub fn catalog() -> (r: Catalog)
    ensures
        r.program@ == "rx/diagnostic-consumer"@,
        r.version == 1,
        r.decision_policy is None,
        r.profiles@.len() == 4,
        r.profiles@[0].0@ == "catalog-summary"@,
        r.profiles@[0].1 is Independent,
        r.profiles@[1].0@ == "current-report-collection"@,
        r.profiles@[1].1 matches Dependency::Required { window, .. } && window == Window::Continuous,
        r.profiles@[2].0@ == "snapshot-after-preparation"@,
        r.profiles@[2].1 matches Dependency::Required { window, .. } && window == Window::PreparationOnly,
        r.profiles@[3].0@ == "snapshot-at-generation"@,
        r.profiles@[3].1 matches Dependency::Required { window, .. } && window == Window::ResultGeneration,
        forall|i: int| 1 <= i < 4 ==> ((#[trigger] r.profiles@[i]).1 matches Dependency::Required { provider_role, interpretation, .. }
            && provider_role@ == "diagnostics/support-summary"@ && interpretation@ == "reported-support-summary.v1"@),
{
    let mut profiles: Vec<(String, Dependency)> = Vec::new();
    profiles.push((String::from_str("catalog-summary"), Dependency::Independent));
    profiles.push((String::from_str("current-report-collection"), required(Window::Continuous)));
    profiles.push((String::from_str("snapshot-after-preparation"), required(Window::PreparationOnly)));
    profiles.push((String::from_str("snapshot-at-generation"), required(Window::ResultGeneration)));
    Catalog { program: String::from_str("rx/diagnostic-consumer"), version: 1, decision_policy: None, profiles }
}

/// A registration revision and the catalog it was accepted with.
#[derive(Clone, Debug)]
pub struct RegistrationRef {
    pub registration: String,
    pub revision: u64,
    pub catalog: CatalogReference,
}

impl RegistrationRef {
    pub open spec fn same(&self, other: &RegistrationRef) -> bool {
        self.registration@ == other.registration@ && self.revision == other.revision
            && self.catalog.same(&other.catalog)
    }

    pub fn matches(&self, other: &RegistrationRef) -> (r: bool)
        ensures
            r == self.same(other),
    {
        self.registration == other.registration && self.revision == other.revision
            && self.catalog.matches(&other.catalog)
    }

    pub fn duplicate(&self) -> (r: Self)
        ensures
            r == *self,
    {
        RegistrationRef {
            registration: self.registration.clone(),
            revision: self.revision,
            catalog: self.catalog.duplicate(),
        }
    }

    pub fn from_registration(value: &VersionedRegistration) -> (r: Self)
        ensures
            r.registration == value.registration.id,
            r.revision == value.revision,
            r.catalog == value.registration.declaration.catalog,
    {
        RegistrationRef {
            registration: value.registration.id.clone(),
            revision: value.revision,
            catalog: value.registration.declaration.catalog.duplicate(),
        }
    }
}

/// One provider execution and the configuration it ran with.
#[derive(Clone, Debug)]
pub struct Generation {
    pub run: String,
    pub instance: String,
    pub pid: u32,
    pub configuration: String,
}

impl Generation {
    pub open spec fn same(&self, other: &Generation) -> bool {
        self.run@ == other.run@ && self.instance@ == other.instance@ && self.pid == other.pid
            && self.configuration@ == other.configuration@
    }

    pub fn matches(&self, other: &Generation) -> (r: bool)
        ensures
            r == self.same(other),
    {
        self.run == other.run && self.instance == other.instance && self.pid == other.pid
            && self.configuration == other.configuration
    }

    pub fn duplicate(&self) -> (r: Self)
        ensures
            r == *self,
    {
        Generation {
            run: self.run.clone(),
            instance: self.instance.clone(),
            pid: self.pid,
            configuration: self.configuration.clone(),
        }
    }
}

#[derive(Clone, Copy, Debug, PartialEq, Eq, Structural)]
pub enum Purpose {
    DiagnosticOnly,
}

/// A diagnostic relationship between a consumer and, where the profile
/// needs one, a provider. Tracking it accepts no work binding.
#[derive(Clone, Debug)]
pub struct TrackedBinding {
    pub id: String,
    pub consumer: RegistrationRef,
    pub profile: String,
    pub operating_area: String,
    pub provider: Option<RegistrationRef>,
    pub generation: Option<Generation>,
    pub purpose: Purpose,
}

pub open spec fn same_provider(a: Option<RegistrationRef>, b: Option<RegistrationRef>) -> bool {
    match (a, b) {
        (Some(x), Some(y)) => x.same(&y),
        (None, None) => true,
        _ => false,
    }
}

pub open spec fn same_generation(a: Option<Generation>, b: Option<Generation>) -> bool {
    match (a, b) {
        (Some(x), Some(y)) => x.same(&y),
        (None, None) => true,
        _ => false,
    }
}

impl TrackedBinding {
    pub open spec fn same(&self, other: &TrackedBinding) -> bool {
        &&& self.id@ == other.id@
        &&& self.consumer.same(&other.consumer)
        &&& self.profile@ == other.profile@
        &&& self.operating_area@ == other.operating_area@
        &&& same_provider(self.provider, other.provider)
        &&& same_generation(self.generation, other.generation)
        &&& self.purpose == other.purpose
    }

    pub fn matches(&self, other: &TrackedBinding) -> (r: bool)
        ensures
            r == self.same(other),
    {
        let provider = match (&self.provider, &other.provider) {
            (Some(x), Some(y)) => x.matches(y),
            (None, None) => true,
            _ => false,
        };
        let generation = match (&self.generation, &other.generation) {
            (Some(x), Some(y)) => x.matches(y),
            (None, None) => true,
            _ => false,
        };
        self.id == other.id && self.consumer.matches(&other.consumer) && self.profile == other.profile
            && self.operating_area == other.operating_area && provider && generation && self.purpose
            == other.purpose
    }

    pub fn duplicate(&self) -> (r: Self)
        ensures
            r == *self,
    {
        TrackedBinding {
            id: self.id.clone(),
            consumer: self.consumer.duplicate(),
            profile: self.profile.clone(),
            operating_area: self.operating_area.clone(),
            provider: match &self.provider {
                Some(p) => Some(p.duplicate()),
                None => None,
            },
            generation: match &self.generation {
                Some(g) => Some(g.duplicate()),
                None => None,
            },
            purpose: self.purpose,
        }
    }
}

#[derive(Clone, Copy, Debug, PartialEq, Eq, Structural)]
pub enum RunPhase {
    Assigned,
    Running,
    Completed,
}

/// Persisted history of one provider report. It is never live evidence.
#[derive(Debug)]
pub struct Sample {
    pub reference: String,
    pub provider: RegistrationRef,
    pub generation: Generation,
    pub request: String,
    pub report_digest: String,
    pub observed_at: TimePoint,
    pub report: AssessmentRecord,
}

/// One diagnostic run: at most `MAX_SAMPLES` samples, and a result exactly
/// when it is completed.
#[derive(Debug)]
pub struct Run {
    pub id: String,
    pub binding: String,
    pub phase: RunPhase,
    pub purpose: Purpose,
    pub samples: Vec<Sample>,
    pub result: Option<String>,
}

#[derive(Debug)]
pub struct DiagnosticResult {
    /// The report digest of the last sample in the body, if it has samples.
    pub last_report_digest: Option<String>,
    pub id: String,
    pub run: String,
    pub binding: String,
    pub consumer: RegistrationRef,
    pub profile: String,
    pub purpose: Purpose,
    /// The result document, in canonical JSON.
    pub body: String,
    pub digest: String,
    pub work_use: WorkUsePermission,
}

/// The most samples one run keeps.
pub const MAX_SAMPLES: usize = 16;

/// `components/diagnostic/<kind>/<component>/<id>`
pub fn entity_key(kind: &str, component: &String, id: &String) -> (r: String)
    ensures
        r@ == "components/diagnostic/"@ + kind@ + "/"@ + component@ + "/"@ + id@,
{
    join("components/diagnostic/", kind).concat("/").concat(component.as_str()).concat("/").concat(id.as_str())
}

/// A stored binding must be the one asked for, of this component.
pub fn check_binding(component: &String, id: &String, value: &TrackedBinding) -> (r: Result<(), StoreError>)
    ensures
        r is Ok <==> (value.id@ == id@ && value.consumer.registration@ == component@),
        r matches Err(e) ==> e@ == Refusal::Invalid("diagnostic binding identity differs"@),
{
    if value.id != *id || value.consumer.registration != *component {
        return Err(invalid("diagnostic binding identity differs"));
    }
    Ok(())
}

/// A stored run must be the one asked for, of this binding, within its
/// sample bound, and have a result exactly when completed.
pub fn check_run(binding_id: &String, id: &String, value: &Run) -> (r: Result<(), StoreError>)
    ensures
        r is Ok <==> (value.id@ == id@ && value.binding@ == binding_id@ && value.samples@.len() <= MAX_SAMPLES
            && ((value.phase == RunPhase::Completed) == value.result is Some)),
        r matches Err(e) ==> e@ == Refusal::Invalid("diagnostic run identity or lifecycle differs"@),
{
    if value.id != *id || value.binding != *binding_id || value.samples.len() > MAX_SAMPLES
        || ((value.phase == RunPhase::Completed) != value.result.is_some()) {
        return Err(invalid("diagnostic run identity or lifecycle differs"));
    }
    Ok(())
}

/// A stored result must be the one asked for, of this component, carry the
/// digest of its body (`body_digest`), and come from a completed run that
/// names it.
pub fn check_result(component: &String, id: &String, value: &DiagnosticResult, body_digest: &String, source: &Run) -> (r: Result<(), StoreError>)
    ensures
        !(value.id@ == id@ && value.consumer.registration@ == component@ && value.digest@ == body_digest@)
            ==> (r matches Err(e) && e@ == Refusal::Invalid("diagnostic result identity or digest differs"@)),
        (value.id@ == id@ && value.consumer.registration@ == component@ && value.digest@ == body_digest@) ==> (
            if source.phase == RunPhase::Completed && (source.result matches Some(x) && x@ == id@) {
                r is Ok
            } else {
                (r matches Err(e) && e@ == Refusal::Invalid("diagnostic result has no matching completed run"@))
            }),
{
    if value.id != *id || value.consumer.registration != *component || value.digest != *body_digest {
        return Err(invalid("diagnostic result identity or digest differs"));
    }
    let names = match &source.result {
        Some(x) => *x == *id,
        None => false,
    };
    if source.phase != RunPhase::Completed || !names {
        return Err(invalid("diagnostic result has no matching completed run"));
    }
    Ok(())
}

/// An assessment: a summary state and the conditions behind it.
#[derive(Debug)]
pub struct Assessment {
    pub state: ConditionState,
    pub conditions: Vec<ConditionAssessment>,
}

impl Assessment {
    pub fn duplicate(&self) -> (r: Self)
        ensures
            r.state == self.state,
            r.conditions@ == self.conditions@,
    {
        Assessment { state: self.state, conditions: copy_conditions(self.conditions.as_slice()) }
    }

    /// `state` for the single reason `reason` under the condition `name`.
    pub open spec fn is_single(&self, state: ConditionState, name: Seq<char>, reason: Seq<char>) -> bool {
        &&& self.state == state
        &&& self.conditions@.len() == 1
        &&& unobserved_condition(self.conditions@[0], state, name, reason)
    }

    /// The same summary and conditions as `other`.
    pub open spec fn copies(&self, other: &Assessment) -> bool {
        self.state == other.state && self.conditions@ == other.conditions@
    }
}

pub fn assessment(state: ConditionState, condition: &str, reason: &str) -> (r: Assessment)
    ensures
        r.is_single(state, condition@, reason@),
{
    let mut conditions: Vec<ConditionAssessment> = Vec::new();
    conditions.push(ConditionAssessment {
        name: String::from_str(condition),
        state,
        reason: String::from_str(reason),
        origin: ReportOrigin::NotObserved,
        observed: None,
    });
    Assessment { state, conditions }
}

pub fn met(condition: &str, reason: &str) -> (r: Assessment)
    ensures
        r.is_single(ConditionState::Satisfied, condition@, reason@),
{
    assessment(ConditionState::Satisfied, condition, reason)
}

pub fn not_met(condition: &str, reason: &str) -> (r: Assessment)
    ensures
        r.is_single(ConditionState::NotMet, condition@, reason@),
{
    assessment(ConditionState::NotMet, condition, reason)
}

pub fn unassessed(condition: &str, reason: &str) -> (r: Assessment)
    ensures
        r.is_single(ConditionState::NotEvaluated, condition@, reason@),
{
    assessment(ConditionState::NotEvaluated, condition, reason)
}

pub fn unsupported(condition: &str, reason: &str) -> (r: Assessment)
    ensures
        r.is_single(ConditionState::Unsupported, condition@, reason@),
{
    assessment(ConditionState::Unsupported, condition, reason)
}

/// Whether the consumer is still the accepted registration revision and
/// catalog it tracked with. `current` is the registration stored under the
/// expected registration's identity.
pub fn eligible_consumer(current: &VersionedRegistration, expected: &RegistrationRef) -> (r: Result<Assessment, StoreError>)
    ensures
        current.registration.id@ != expected.registration@ ==> (r matches Err(e) && e@ == Refusal::Integrity("component identity differs"@)),
        current.registration.id@ == expected.registration@ ==> (r matches Ok(a) && if current.registration.state != RegistrationState::Accepted {
            a.is_single(ConditionState::NotMet, "consumer/registration"@, "consumer registration is retired; historical records are retained"@)
        } else if !(current.revision == expected.revision && current.registration.declaration.catalog.same(&expected.catalog)) {
            a.is_single(ConditionState::NotMet, "consumer/catalog-revision"@, "consumer declaration/interpretation changed; explicit review required"@)
        } else {
            a.is_single(ConditionState::Satisfied, "consumer/registration"@, "current consumer registration matches its authored diagnostic catalog"@)
        }),
{
    if current.registration.id != expected.registration {
        return Err(crate::registration::integrity("component identity differs"));
    }
    if current.registration.state != RegistrationState::Accepted {
        return Ok(not_met("consumer/registration", "consumer registration is retired; historical records are retained"));
    }
    if !RegistrationRef::from_registration(current).matches(expected) {
        return Ok(not_met("consumer/catalog-revision", "consumer declaration/interpretation changed; explicit review required"));
    }
    Ok(met("consumer/registration", "current consumer registration matches its authored diagnostic catalog"))
}

#[derive(Clone, Copy, Debug, PartialEq, Eq, Structural)]
pub enum ProbePurpose {
    Assign,
    Begin,
    Poll,
    Finish,
    Inspect,
}

/// A fresh call context for one provider observation. Stored samples never
/// become one.
#[derive(Debug)]
pub struct Probe {
    id: String,
    binding: String,
    run: Option<String>,
    purpose: ProbePurpose,
    provider: RegistrationRef,
    scope: UseScope,
}

pub open spec fn same_text_option(a: Option<String>, b: Option<String>) -> bool {
    match (a, b) {
        (Some(x), Some(y)) => x@ == y@,
        (None, None) => true,
        _ => false,
    }
}

impl Probe {
    pub closed spec fn spec_id(&self) -> String {
        self.id
    }

    pub closed spec fn spec_binding(&self) -> String {
        self.binding
    }

    pub closed spec fn spec_run(&self) -> Option<String> {
        self.run
    }

    pub closed spec fn spec_purpose(&self) -> ProbePurpose {
        self.purpose
    }

    pub closed spec fn spec_provider(&self) -> RegistrationRef {
        self.provider
    }

    pub closed spec fn spec_scope(&self) -> UseScope {
        self.scope
    }

    pub open spec fn same(&self, other: &Probe) -> bool {
        &&& self.spec_id()@ == other.spec_id()@
        &&& self.spec_binding()@ == other.spec_binding()@
        &&& same_text_option(self.spec_run(), other.spec_run())
        &&& self.spec_purpose() == other.spec_purpose()
        &&& self.spec_provider().same(&other.spec_provider())
        &&& self.spec_scope().same(&other.spec_scope())
    }

    pub fn matches(&self, other: &Probe) -> (r: bool)
        ensures
            r == self.same(other),
    {
        let run = match (&self.run, &other.run) {
            (Some(x), Some(y)) => *x == *y,
            (None, None) => true,
            _ => false,
        };
        self.id == other.id && self.binding == other.binding && run && self.purpose == other.purpose
            && self.provider.matches(&other.provider) && self.scope.matches(&other.scope)
    }

    pub fn duplicate(&self) -> (r: Self)
        ensures
            r == *self,
    {
        Probe {
            id: self.id.clone(),
            binding: self.binding.clone(),
            run: match &self.run {
                Some(x) => Some(x.clone()),
                None => None,
            },
            purpose: self.purpose,
            provider: self.provider.duplicate(),
            scope: self.scope.duplicate(),
        }
    }

    pub fn provider(&self) -> (r: &RegistrationRef)
        ensures
            *r == self.spec_provider(),
    {
        &self.provider
    }

    pub fn scope(&self) -> (r: &UseScope)
        ensures
            *r == self.spec_scope(),
    {
        &self.scope
    }
}

/// What a source observed of a provider for a probe.
#[derive(Debug)]
pub struct ProviderObservation {
    request: Probe,
    provider: RegistrationRef,
    generation: Option<Generation>,
    assessment: ReadinessAssessment,
}

impl ProviderObservation {
    pub closed spec fn spec_request(&self) -> Probe {
        self.request
    }

    pub closed spec fn spec_provider(&self) -> RegistrationRef {
        self.provider
    }

    pub closed spec fn spec_generation(&self) -> Option<Generation> {
        self.generation
    }

    pub closed spec fn spec_assessment(&self) -> ReadinessAssessment {
        self.assessment
    }

    pub fn captured(request: &Probe, provider: RegistrationRef, generation: Option<Generation>, assessment: ReadinessAssessment) -> (r: Self)
        ensures
            r.spec_request() == *request,
            r.spec_provider() == provider,
            r.spec_generation() == generation,
            r.spec_assessment() == assessment,
    {
        ProviderObservation { request: request.duplicate(), provider, generation, assessment }
    }
}

#[derive(Debug)]
pub enum SourceReply {
    Observed(ProviderObservation),
    Missing { known_lost: bool, reason: String },
    Unsupported { reason: String },
}

/// Where current provider observations come from. By default none is
/// connected.
pub trait Source {
    fn observe(&mut self, probe: &Probe) -> (r: SourceReply)
        default_ensures
            r matches SourceReply::Unsupported { reason } && reason@ == "current provider observation source is not connected"@,
    {
        SourceReply::Unsupported { reason: String::from_str("current provider observation source is not connected") }
    }
}

pub struct NoSource;

impl Source for NoSource {
}

/// A current observation: its assessment and, when it satisfied the
/// authored conditions, the sample it captured.
#[derive(Debug)]
pub struct Observed {
    pub assessment: Assessment,
    pub sample: Option<Sample>,
}

/// The probe for observing `binding`'s provider, or the assessment that
/// stands without one.
pub fn probe_for(binding: &TrackedBinding, run: Option<&String>, declaration: &Dependency, purpose: ProbePurpose) -> (r: Result<Probe, Assessment>)
    ensures
        match *declaration {
            Dependency::Independent => (r matches Err(a) && a.is_single(ConditionState::Satisfied, "dependency/independent"@,
                "author explicitly declares this catalog-summary operation independent"@)),
            Dependency::Undeclared => (r matches Err(a) && a.is_single(ConditionState::Unsupported, "dependency/undeclared"@,
                "author has not declared the dependency scope"@)),
            Dependency::Unknown { reason } => (r matches Err(a) && a.is_single(ConditionState::NotEvaluated, "dependency/unknown"@, reason@)),
            Dependency::Required { provider_role, .. } => match binding.provider {
                None => (r matches Err(a) && a.is_single(ConditionState::NotEvaluated, "dependency/provider"@,
                    "no provider registration selected"@)),
                Some(provider) => (r matches Ok(p) && {
                    &&& p.spec_id()@.len() == 36
                    &&& p.spec_binding() == binding.id
                    &&& p.spec_run() == match run { Some(x) => Some(*x), None => None::<String> }
                    &&& p.spec_purpose() == purpose
                    &&& p.spec_provider() == provider
                    &&& p.spec_scope().operating_area == binding.operating_area
                    &&& p.spec_scope().role == provider_role
                }),
            },
        },
{
    match declaration {
        Dependency::Independent => Err(met("dependency/independent", "author explicitly declares this catalog-summary operation independent")),
        Dependency::Undeclared => Err(unsupported("dependency/undeclared", "author has not declared the dependency scope")),
        Dependency::Unknown { reason } => Err(unassessed("dependency/unknown", reason.as_str())),
        Dependency::Required { provider_role, .. } => match &binding.provider {
            None => Err(unassessed("dependency/provider", "no provider registration selected")),
            Some(provider) => Ok(Probe {
                id: fresh_id(),
                binding: binding.id.clone(),
                run: match run {
                    Some(x) => Some(x.clone()),
                    None => None,
                },
                purpose,
                provider: provider.duplicate(),
                scope: UseScope { operating_area: binding.operating_area.clone(), role: provider_role.clone() },
            }),
        },
    }
}

/// Every condition names a bounded reason.
pub open spec fn explained(conditions: Seq<ConditionAssessment>) -> bool {
    forall|i: int| 0 <= i < conditions.len() ==> bounded((#[trigger] conditions[i]).reason@, 1024)
}

fn all_explained(a: &Assessment) -> (r: bool)
    ensures
        r == explained(a.conditions@),
{
    let mut i: usize = 0;
    while i < a.conditions.len()
        invariant
            i <= a.conditions@.len(),
            forall|k: int| 0 <= k < i ==> bounded((#[trigger] a.conditions@[k]).reason@, 1024),
        decreases a.conditions@.len() - i,
    {
        if !is_bounded(&a.conditions[i].reason, 1024) {
            return false;
        }
        i = i + 1;
    }
    true
}

/// The generation the binding pinned differs from the one reported.
pub open spec fn generation_changed(pinned: Option<Generation>, reported: Option<Generation>) -> bool {
    pinned is Some && reported is Some && !pinned->0.same(&reported->0)
}

/// `r` is `a` where every reason is explained, else the unsupported answer
/// to an unexplained response.
pub open spec fn checked_rejection(r: Assessment, a_state: ConditionState, a_conditions: Seq<ConditionAssessment>) -> bool {
    if explained(a_conditions) {
        r.state == a_state && r.conditions@ == a_conditions
    } else {
        r.is_single(ConditionState::Unsupported, "dependency/provider-response"@,
            "source response lacks a bounded named explanation"@)
    }
}

/// `a` is a single condition whose rejection `r` is, after the explanation check.
pub open spec fn single_rejection(r: Assessment, state: ConditionState, name: Seq<char>, reason: Seq<char>) -> bool {
    if bounded(reason, 1024) {
        r.is_single(state, name, reason)
    } else {
        r.is_single(ConditionState::Unsupported, "dependency/provider-response"@,
            "source response lacks a bounded named explanation"@)
    }
}

fn checked(a: Assessment) -> (r: Assessment)
    ensures
        checked_rejection(r, a.state, a.conditions@),
{
    if all_explained(&a) {
        a
    } else {
        unsupported("dependency/provider-response", "source response lacks a bounded named explanation")
    }
}

/// What judging `reply` to `probe`, made for `binding`, gives.
pub open spec fn judged_as(r: Observed, binding: TrackedBinding, probe: Probe, reply: SourceReply) -> bool {
    match reply {
        SourceReply::Missing { known_lost, reason } => r.sample is None && single_rejection(r.assessment,
            if known_lost { ConditionState::NotMet } else { ConditionState::NotEvaluated },
            "dependency/provider-observation"@, reason@),
        SourceReply::Unsupported { reason } => r.sample is None && single_rejection(r.assessment,
            ConditionState::Unsupported, "dependency/provider-source"@, reason@),
        SourceReply::Observed(value) => if !value.spec_request().same(&probe) || !value.spec_provider().same(&probe.spec_provider()) {
            r.sample is None && r.assessment.is_single(ConditionState::NotMet, "dependency/observation-context"@,
                "old request or another registration/revision/catalog cannot supply this dependency"@)
        } else if generation_changed(binding.generation, value.spec_generation()) {
            r.sample is None && r.assessment.is_single(ConditionState::NotMet, "dependency/provider-generation"@,
                "provider execution/configuration changed; same format cannot inherit the tracked binding"@)
        } else if value.spec_assessment().spec_state() != ConditionState::Satisfied {
            r.sample is None && checked_rejection(r.assessment, value.spec_assessment().spec_state(),
                value.spec_assessment().spec_conditions())
        } else if value.spec_generation() is Some && value.spec_assessment().spec_evidence() is Some {
            let e = value.spec_assessment().spec_evidence()->0;
            &&& r.assessment.is_single(ConditionState::Satisfied, "dependency/provider-report"@,
                "fresh request-bound provider report satisfies the authored self-report conditions; no work permission"@)
            &&& r.sample matches Some(s)
            &&& s.reference == e.request_id
            &&& s.provider == probe.spec_provider()
            &&& s.generation == value.spec_generation()->0
            &&& s.request == probe.spec_id()
            &&& s.report_digest == e.payload_digest
            &&& s.observed_at == e.observed_at
            &&& s.report.state == value.spec_assessment().spec_state()
            &&& s.report.conditions@ == value.spec_assessment().spec_conditions()
            &&& s.report.evidence == value.spec_assessment().spec_evidence()
        } else {
            r.sample is None && r.assessment.is_single(ConditionState::NotMet, "dependency/report-evidence"@,
                "satisfied metadata without current execution and captured report evidence is insufficient"@)
        },
    }
}

/// Judges a source's reply to `probe`, made for `binding`. Only a reply to
/// this very probe, from this provider, of the pinned generation, that
/// satisfied the authored conditions and carries report evidence is met,
/// and only it captures a sample. Every other reply is rejected, and a
/// rejection without bounded reasons is unsupported.
pub fn judge(binding: &TrackedBinding, probe: &Probe, reply: SourceReply) -> (r: Observed)
    ensures
        judged_as(r, *binding, *probe, reply),
{
    let rejection = match reply {
        SourceReply::Missing { known_lost, reason } => {
            let state = if known_lost { ConditionState::NotMet } else { ConditionState::NotEvaluated };
            checked(assessment(state, "dependency/provider-observation", reason.as_str()))
        },
        SourceReply::Unsupported { reason } => checked(unsupported("dependency/provider-source", reason.as_str())),
        SourceReply::Observed(value) => {
            if !value.request.matches(probe) || !value.provider.matches(&probe.provider) {
                not_met("dependency/observation-context",
                    "old request or another registration/revision/catalog cannot supply this dependency")
            } else if match (&binding.generation, &value.generation) {
                (Some(expected), Some(actual)) => !actual.matches(expected),
                _ => false,
            } {
                not_met("dependency/provider-generation",
                    "provider execution/configuration changed; same format cannot inherit the tracked binding")
            } else if value.assessment.state() != ConditionState::Satisfied {
                let state = value.assessment.state();
                let conditions = copy_conditions(value.assessment.conditions());
                checked(Assessment { state, conditions })
            } else {
                let basis = value.assessment.diagnostic_basis();
                match (value.generation, basis) {
                    (Some(generation), Some((reference, report_digest, observed_at))) => {
                        let sample = Sample {
                            reference,
                            provider: probe.provider.duplicate(),
                            generation,
                            request: probe.id.clone(),
                            report_digest,
                            observed_at,
                            report: value.assessment.into_record(),
                        };
                        return Observed {
                            assessment: met("dependency/provider-report",
                                "fresh request-bound provider report satisfies the authored self-report conditions; no work permission"),
                            sample: Some(sample),
                        };
                    },
                    _ => not_met("dependency/report-evidence",
                        "satisfied metadata without current execution and captured report evidence is insufficient"),
                }
            }
        },
    };
    Observed { assessment: rejection, sample: None }
}

/// The assessment that stands for `declaration` without asking a source,
/// if one does: its summary state, condition name and reason.
pub open spec fn standing(binding: TrackedBinding, declaration: Dependency) -> Option<(ConditionState, Seq<char>, Seq<char>)> {
    match declaration {
        Dependency::Independent => Some((ConditionState::Satisfied, "dependency/independent"@,
            "author explicitly declares this catalog-summary operation independent"@)),
        Dependency::Undeclared => Some((ConditionState::Unsupported, "dependency/undeclared"@,
            "author has not declared the dependency scope"@)),
        Dependency::Unknown { reason } => Some((ConditionState::NotEvaluated, "dependency/unknown"@, reason@)),
        Dependency::Required { .. } => if binding.provider is None {
            Some((ConditionState::NotEvaluated, "dependency/provider"@, "no provider registration selected"@))
        } else {
            None
        },
    }
}

/// What holds of an observation of `binding` under `declaration`, whatever
/// its source replied: a standing assessment is the observation, without a
/// sample, and a captured sample comes only with a satisfied assessment.
pub open spec fn observation_of(o: Observed, binding: TrackedBinding, declaration: Dependency) -> bool {
    &&& match standing(binding, declaration) {
        Some((state, name, reason)) => o.sample is None && o.assessment.is_single(state, name, reason),
        None => true,
    }
    &&& (o.sample is Some ==> o.assessment.state == ConditionState::Satisfied)
}

/// `p` is a probe `probe_for` makes of `binding`'s provider under a
/// required `declaration`, for `run` and `purpose`.
pub open spec fn probe_made(p: Probe, binding: TrackedBinding, run: Option<String>, purpose: ProbePurpose, declaration: Dependency) -> bool {
    &&& declaration matches Dependency::Required { provider_role, .. }
    &&& binding.provider matches Some(provider)
    &&& p.spec_id()@.len() == 36
    &&& p.spec_binding() == binding.id
    &&& p.spec_run() == run
    &&& p.spec_purpose() == purpose
    &&& p.spec_provider() == provider
    &&& p.spec_scope().operating_area == binding.operating_area
    &&& p.spec_scope().role == declaration->Required_provider_role
}

/// An observation of `binding` under `declaration`, for `run` and `purpose`,
/// through a source that was `before`: the standing assessment where one
/// stands, and otherwise the judgment of the reply the source, asked as it
/// was, gave to a probe made for it.
pub open spec fn observed_for<S: Source>(o: Observed, before: S, binding: TrackedBinding, run: Option<String>,
    purpose: ProbePurpose, declaration: Dependency) -> bool {
    &&& observation_of(o, binding, declaration)
    &&& (standing(binding, declaration) is None ==> exists|p: Probe, reply: SourceReply, m: &mut S| #![auto]
        probe_made(p, binding, run, purpose, declaration) && mut_ref_current(m) == before
        && call_ensures(S::observe, (m, &p), reply) && judged_as(o, binding, p, reply))
}

/// Observes `binding`'s provider through `source` when its declaration
/// needs one; see `probe_for` and `judge`. Where an assessment stands
/// without a probe, the source is not asked.
pub fn observe<S: Source>(binding: &TrackedBinding, run: Option<&String>, declaration: &Dependency, purpose: ProbePurpose, source: &mut S) -> (r: Observed)
    ensures
        match probe_for_result(*binding, *declaration) {
            Some(a) => r.sample is None && r.assessment.state == a,
            None => true,
        },
        observed_for(r, *old(source), *binding, match run { Some(x) => Some(*x), None => None::<String> },
            purpose, *declaration),
        standing(*binding, *declaration) is None ==> exists|p: Probe, reply: SourceReply, m: &mut S| #![auto]
            mut_ref_current(m) == *old(source) && mut_ref_future(m) == *final(source)
            && call_ensures(S::observe, (m, &p), reply) && judged_as(r, *binding, p, reply),
        standing(*binding, *declaration) is Some ==> *final(source) == *old(source),
{
    match probe_for(binding, run, declaration, purpose) {
        Err(a) => Observed { assessment: a, sample: None },
        Ok(probe) => {
            let ask = S::observe;
            let m = &mut *source;
            let reply = ask(m, &probe);
            let ghost seen = reply;
            let r = judge(binding, &probe, reply);
            assert(exists|m2: &mut S| #[trigger] call_ensures(S::observe, (m2, &probe), seen)
                && mut_ref_current(m2) == *old(source) && mut_ref_future(m2) == *final(source)
                && probe_made(probe, *binding, match run { Some(x) => Some(*x), None => None::<String> }, purpose, *declaration)
                && judged_as(r, *binding, probe, seen));
            r
        },
    }
}

/// The summary state that stands without a probe, if one does.
pub open spec fn probe_for_result(binding: TrackedBinding, declaration: Dependency) -> Option<ConditionState> {
    match declaration {
        Dependency::Independent => Some(ConditionState::Satisfied),
        Dependency::Undeclared => Some(ConditionState::Unsupported),
        Dependency::Unknown { .. } => Some(ConditionState::NotEvaluated),
        Dependency::Required { .. } => if binding.provider is None { Some(ConditionState::NotEvaluated) } else { None },
    }
}

pub open spec fn window_of(d: Dependency) -> Option<Window> {
    match d {
        Dependency::Required { window, .. } => Some(window),
        _ => None,
    }
}

/// Whether a new assignment may proceed: a generation-window dependency
/// is met at assignment; otherwise the current observation decides.
pub fn assignment(dependency: &Dependency, current: &Observed) -> (r: Assessment)
    ensures
        window_of(*dependency) == Some(Window::ResultGeneration) ==> r.is_single(ConditionState::Satisfied,
            "dependency/generation-window"@, "provider input is required at result generation, not at diagnostic assignment"@),
        window_of(*dependency) != Some(Window::ResultGeneration) ==> r.copies(&current.assessment),
{
    if let Dependency::Required { window: Window::ResultGeneration, .. } = dependency {
        return met("dependency/generation-window", "provider input is required at result generation, not at diagnostic assignment");
    }
    current.assessment.duplicate()
}

/// Whether a selected run may go on.
pub fn ongoing(dependency: &Dependency, current: &Observed, active: Option<&Run>) -> (r: Assessment)
    ensures
        match active {
            None => r.is_single(ConditionState::NotEvaluated, "run/ongoing"@, "no diagnostic run selected"@),
            Some(run) => if run.phase != RunPhase::Running {
                r.is_single(ConditionState::NotEvaluated, "run/ongoing"@, "selected run is not in progress"@)
            } else if window_of(*dependency) == Some(Window::PreparationOnly) && run.samples@.len() > 0 {
                r.is_single(ConditionState::Satisfied, "dependency/preparation-captured"@,
                    "this run consumes its captured preparation input; provider loss alone does not stop it"@)
            } else {
                r.copies(&current.assessment)
            },
        },
{
    let active = match active {
        None => {
            return unassessed("run/ongoing", "no diagnostic run selected");
        },
        Some(a) => a,
    };
    if active.phase != RunPhase::Running {
        return unassessed("run/ongoing", "selected run is not in progress");
    }
    if let Dependency::Required { window: Window::PreparationOnly, .. } = dependency {
        if active.samples.len() > 0 {
            return met("dependency/preparation-captured",
                "this run consumes its captured preparation input; provider loss alone does not stop it");
        }
    }
    current.assessment.duplicate()
}

/// Whether a recorded result may be consumed now.
pub fn result_use(dependency: &Dependency, current: &Observed, binding: &TrackedBinding, value: Option<&DiagnosticResult>) -> (r: Assessment)
    ensures
        match value {
            None => r.is_single(ConditionState::NotEvaluated, "result/consumption"@, "no recorded result selected"@),
            Some(v) => if !(v.consumer.same(&binding.consumer) && v.profile@ == binding.profile@ && v.binding@ == binding.id@) {
                r.is_single(ConditionState::NotMet, "result/interpretation"@, "result belongs to another binding/catalog interpretation"@)
            } else {
                match *dependency {
                    Dependency::Required { window: Window::Continuous, .. } => if current.assessment.state != ConditionState::Satisfied {
                        r.copies(&current.assessment)
                    } else if current.sample is None {
                        r.is_single(ConditionState::NotEvaluated, "result/current-source"@, "no current provider evidence"@)
                    } else if !(v.last_report_digest matches Some(d) && d@ == current.sample->0.report_digest@) {
                        r.is_single(ConditionState::NotMet, "result/current-report"@,
                            "current report differs from the completed continuous collection; history is retained"@)
                    } else {
                        r.is_single(ConditionState::Satisfied, "result/current-report"@,
                            "current same-generation report matches the recorded diagnostic result; no work permission"@)
                    },
                    Dependency::Required { .. } | Dependency::Independent => r.is_single(ConditionState::Satisfied,
                        "result/historical-diagnostic"@,
                        "intact authored historical diagnostic is usable for diagnostic reading; provider lifetime does not invalidate it"@),
                    _ => r.copies(&current.assessment),
                }
            },
        },
{
    let value = match value {
        None => {
            return unassessed("result/consumption", "no recorded result selected");
        },
        Some(v) => v,
    };
    if !(value.consumer.matches(&binding.consumer) && value.profile == binding.profile && value.binding == binding.id) {
        return not_met("result/interpretation", "result belongs to another binding/catalog interpretation");
    }
    match dependency {
        Dependency::Required { window: Window::Continuous, .. } => {
            if current.assessment.state != ConditionState::Satisfied {
                return current.assessment.duplicate();
            }
            let sample = match &current.sample {
                None => {
                    return unassessed("result/current-source", "no current provider evidence");
                },
                Some(s) => s,
            };
            let same = match &value.last_report_digest {
                Some(d) => *d == sample.report_digest,
                None => false,
            };
            if !same {
                return not_met("result/current-report",
                    "current report differs from the completed continuous collection; history is retained");
            }
            met("result/current-report", "current same-generation report matches the recorded diagnostic result; no work permission")
        },
        Dependency::Required { .. } | Dependency::Independent => met("result/historical-diagnostic",
            "intact authored historical diagnostic is usable for diagnostic reading; provider lifetime does not invalidate it"),
        _ => current.assessment.duplicate(),
    }
}

/// The outcome of one explicit diagnostic step.
#[derive(Debug)]
pub struct Progress {
    pub assessment: Assessment,
    pub run: Option<Run>,
    pub result: Option<DiagnosticResult>,
}

/// Whether `declaration` needs a current provider observation for `purpose`:
/// a continuous dependency always does, a generation-window one at finish.
pub open spec fn spec_needs_source(declaration: Dependency, purpose: ProbePurpose) -> bool {
    window_of(declaration) == Some(Window::Continuous) || (purpose == ProbePurpose::Finish
        && window_of(declaration) == Some(Window::ResultGeneration))
}

pub fn needs_source(declaration: &Dependency, purpose: ProbePurpose) -> (r: bool)
    ensures
        r == spec_needs_source(*declaration, purpose),
{
    match declaration {
        Dependency::Required { window: Window::Continuous, .. } => true,
        Dependency::Required { window: Window::ResultGeneration, .. } => purpose == ProbePurpose::Finish,
        _ => false,
    }
}

/// The input `r` a step of `run` uses under `declaration` without a current
/// observation.
pub open spec fn local_as(r: Assessment, declaration: Dependency, run: Run) -> bool {
    if window_of(declaration) == Some(Window::PreparationOnly) && run.samples@.len() > 0 {
        r.is_single(ConditionState::Satisfied, "dependency/preparation-captured"@,
            "consume this run's captured diagnostic input without requiring a live provider"@)
    } else if window_of(declaration) == Some(Window::ResultGeneration) {
        r.is_single(ConditionState::Satisfied, "dependency/generation-window"@,
            "diagnostic operation is preparing its result envelope; provider input is required at finish"@)
    } else if declaration is Independent {
        r.is_single(ConditionState::Satisfied, "dependency/independent"@, "consume the authored local catalog description"@)
    } else {
        r.is_single(ConditionState::Unsupported, "dependency/unsupported"@, "no usable authored input declaration"@)
    }
}

/// The input a step uses when it needs no current observation.
pub fn local_input(declaration: &Dependency, run: &Run) -> (r: Assessment)
    ensures
        local_as(r, *declaration, *run),
{
    match declaration {
        Dependency::Required { window: Window::PreparationOnly, .. } => {
            if run.samples.len() > 0 {
                met("dependency/preparation-captured", "consume this run's captured diagnostic input without requiring a live provider")
            } else {
                unsupported("dependency/unsupported", "no usable authored input declaration")
            }
        },
        Dependency::Required { window: Window::ResultGeneration, .. } => met("dependency/generation-window",
            "diagnostic operation is preparing its result envelope; provider input is required at finish"),
        Dependency::Independent => met("dependency/independent", "consume the authored local catalog description"),
        _ => unsupported("dependency/unsupported", "no usable authored input declaration"),
    }
}

/// The phase a run must be in for `purpose`: begin moves an assigned run,
/// every other step a running one.
pub open spec fn expected_phase(purpose: ProbePurpose) -> RunPhase {
    if purpose == ProbePurpose::Begin {
        RunPhase::Assigned
    } else {
        RunPhase::Running
    }
}

/// Why a run cannot take the step `purpose` now, if it cannot: the consumer
/// is not eligible, or the run is not in the phase the step moves. There is
/// no implicit restart and no result overwrite.
pub fn transition_refusal(eligibility: &Assessment, purpose: ProbePurpose, run: &Run) -> (r: Option<Assessment>)
    ensures
        eligibility.state != ConditionState::Satisfied ==> (r matches Some(a) && a.copies(eligibility)),
        eligibility.state == ConditionState::Satisfied && run.phase != expected_phase(purpose) ==> (r matches Some(a)
            && a.is_single(ConditionState::NotMet, "run/phase"@,
            "requested transition does not match durable phase; no implicit restart or result overwrite"@)),
        eligibility.state == ConditionState::Satisfied && run.phase == expected_phase(purpose) ==> r is None,
{
    if eligibility.state != ConditionState::Satisfied {
        return Some(eligibility.duplicate());
    }
    let expected = if purpose == ProbePurpose::Begin { RunPhase::Assigned } else { RunPhase::Running };
    if run.phase != expected {
        return Some(not_met("run/phase", "requested transition does not match durable phase; no implicit restart or result overwrite"));
    }
    None
}

/// The outcome of a step that passed its transition check: its assessment,
/// the run as it now stands, and whether the run is to be committed.
#[derive(Debug)]
pub struct Advanced {
    pub assessment: Assessment,
    pub run: Run,
    pub commit: bool,
}

/// What taking the step `purpose` on `run` with input `current` gives.
pub open spec fn advanced_as(r: Advanced, purpose: ProbePurpose, run: Run, current: Observed) -> bool {
    &&& (current.assessment.state != ConditionState::Satisfied ==> !r.commit && r.assessment.copies(&current.assessment)
        && r.run == run)
    &&& (current.assessment.state == ConditionState::Satisfied && current.sample is Some
        && run.samples@.len() >= (if purpose == ProbePurpose::Finish { MAX_SAMPLES } else { (MAX_SAMPLES - 1) as usize })
        ==> !r.commit && r.run == run && r.assessment.is_single(ConditionState::NotMet, "run/sample-capacity"@,
            "bounded collection is full; finish before collecting further samples"@))
    &&& (r.commit ==> {
        &&& current.assessment.state == ConditionState::Satisfied
        &&& r.assessment.copies(&current.assessment)
        &&& r.run.id == run.id
        &&& r.run.binding == run.binding
        &&& r.run.purpose == run.purpose
        &&& r.run.samples@ == match current.sample {
            Some(s) => run.samples@.push(s),
            None => run.samples@,
        }
        &&& if purpose == ProbePurpose::Finish {
            r.run.phase == RunPhase::Completed && (r.run.result matches Some(id) && id@.len() == 36)
        } else {
            r.run.phase == RunPhase::Running && r.run.result == run.result
        }
    })
    &&& (current.assessment.state == ConditionState::Satisfied && !(current.sample is Some
        && run.samples@.len() >= (if purpose == ProbePurpose::Finish { MAX_SAMPLES } else { (MAX_SAMPLES - 1) as usize }))
        ==> r.commit)
    &&& (run.samples@.len() <= MAX_SAMPLES ==> r.run.samples@.len() <= MAX_SAMPLES)
}

/// Takes the step `purpose` on `run` with the input `current`. An input
/// that is not satisfied leaves the run as it was. A captured sample joins
/// the run while there is room: one place is kept free for finish. Finish
/// completes the run under a fresh result identity; begin and poll leave it
/// running.
pub fn advance(purpose: ProbePurpose, run: Run, current: Observed) -> (r: Advanced)
    ensures
        advanced_as(r, purpose, run, current),
{
    let mut run = run;
    if current.assessment.state != ConditionState::Satisfied {
        return Advanced { assessment: current.assessment, run, commit: false };
    }
    let assessment = current.assessment;
    if let Some(sample) = current.sample {
        let limit: usize = if purpose == ProbePurpose::Finish { MAX_SAMPLES } else { MAX_SAMPLES - 1 };
        if run.samples.len() >= limit {
            return Advanced {
                assessment: not_met("run/sample-capacity", "bounded collection is full; finish before collecting further samples"),
                run,
                commit: false,
            };
        }
        run.samples.push(sample);
    }
    if purpose == ProbePurpose::Finish {
        run.result = Some(fresh_id());
        run.phase = RunPhase::Completed;
    } else {
        run.phase = RunPhase::Running;
    }
    Advanced { assessment, run, commit: true }
}

/// One explicit diagnostic step `purpose` of `run` under `binding` and its
/// authored `declaration`, in order: the transition check (eligibility,
/// then the durable phase); then the input, observed through `source` only
/// where the declaration needs a current observation, else taken locally
/// without asking the source; then the step itself, as `advance` says.
pub fn step<S: Source>(eligibility: &Assessment, purpose: ProbePurpose, run: Run, binding: &TrackedBinding,
    declaration: &Dependency, source: &mut S) -> (r: Advanced)
    ensures
        eligibility.state != ConditionState::Satisfied ==> !r.commit && r.run == run && r.assessment.copies(eligibility)
            && *final(source) == *old(source),
        eligibility.state == ConditionState::Satisfied && run.phase != expected_phase(purpose) ==> !r.commit && r.run == run
            && r.assessment.is_single(ConditionState::NotMet, "run/phase"@,
                "requested transition does not match durable phase; no implicit restart or result overwrite"@)
            && *final(source) == *old(source),
        eligibility.state == ConditionState::Satisfied && run.phase == expected_phase(purpose) && !spec_needs_source(*declaration, purpose)
            ==> *final(source) == *old(source) && exists|a: Assessment| #![auto] local_as(a, *declaration, run)
                && advanced_as(r, purpose, run, Observed { assessment: a, sample: None }),
        eligibility.state == ConditionState::Satisfied && run.phase == expected_phase(purpose) && spec_needs_source(*declaration, purpose)
            ==> exists|o: Observed| #![auto] observed_for(o, *old(source), *binding, Some(run.id), purpose,
                *declaration)
                && advanced_as(r, purpose, run, o),
{
    if let Some(a) = transition_refusal(eligibility, purpose, &run) {
        return Advanced { assessment: a, run, commit: false };
    }
    let current = if needs_source(declaration, purpose) {
        observe(binding, Some(&run.id), declaration, purpose, source)
    } else {
        Observed { assessment: local_input(declaration, &run), sample: None }
    };
    let ghost input = current;
    let ghost before = run;
    let r = advance(purpose, run, current);
    assert(advanced_as(r, purpose, before, input));
    r
}

/// A completed run's result, whose body (`body`, canonical JSON) has the
/// digest `digest`. `last_report_digest` is the report digest of the run's
/// last sample.
pub fn diagnostic_result(run: &Run, consumer: &RegistrationRef, profile: &String, body: String, digest: String) -> (r: Option<DiagnosticResult>)
    ensures
        run.result is None ==> r is None,
        run.result matches Some(id) ==> (r matches Some(x) && {
            &&& x.id == id
            &&& x.run == run.id
            &&& x.binding == run.binding
            &&& x.consumer == *consumer
            &&& x.profile == *profile
            &&& x.purpose == Purpose::DiagnosticOnly
            &&& x.body == body
            &&& x.digest == digest
            &&& x.work_use == WorkUsePermission::Unsupported
            &&& x.last_report_digest == if run.samples@.len() == 0 { None } else { Some(run.samples@.last().report_digest) }
        }),
{
    let id = match &run.result {
        None => {
            return None;
        },
        Some(id) => id.clone(),
    };
    let last = if run.samples.len() == 0 { None } else { Some(run.samples[run.samples.len() - 1].report_digest.clone()) };
    Some(DiagnosticResult {
        last_report_digest: last,
        id,
        run: run.id.clone(),
        binding: run.binding.clone(),
        consumer: consumer.duplicate(),
        profile: profile.clone(),
        purpose: Purpose::DiagnosticOnly,
        body,
        digest,
        work_use: WorkUsePermission::Unsupported,
    })
}

/// A new run for `binding` under a fresh identity, assigned, with the sample
/// the assignment captured, if any.
pub fn assigned_run(binding_id: &String, sample: Option<Sample>) -> (r: Run)
    ensures
        r.id@.len() == 36,
        r.binding == *binding_id,
        r.phase == RunPhase::Assigned,
        r.purpose == Purpose::DiagnosticOnly,
        r.samples@ == match sample { Some(s) => seq![s], None => Seq::<Sample>::empty() },
        r.result is None,
{
    let mut samples: Vec<Sample> = Vec::new();
    if let Some(s) = sample {
        samples.push(s);
    }
    Run { id: fresh_id(), binding: binding_id.clone(), phase: RunPhase::Assigned, purpose: Purpose::DiagnosticOnly, samples, result: None }
}

/// Pins the provider generation of a binding to the first sample of `run`.
/// A pinned binding never silently moves to another generation.
pub fn pin_generation(binding: &mut TrackedBinding, run: &Run) -> (r: Result<(), StoreError>)
    ensures
        ({
            let observed = if run.samples@.len() == 0 { None } else { Some(run.samples@[0].generation) };
            if old(binding).generation is None {
                r is Ok && *final(binding) == (TrackedBinding { generation: observed, ..*old(binding) })
            } else if observed is Some && !observed->0.same(&old(binding).generation->0) {
                (r matches Err(e) && e@ == Refusal::Invalid("binding/provider-generation: no automatic succession"@))
                    && *final(binding) == *old(binding)
            } else {
                r is Ok && *final(binding) == *old(binding)
            }
        }),
{
    let observed = if run.samples.len() == 0 { None } else { Some(run.samples[0].generation.duplicate()) };
    if binding.generation.is_none() {
        binding.generation = observed;
        return Ok(());
    }
    let differs = match (&observed, &binding.generation) {
        (Some(g), Some(pinned)) => !g.matches(pinned),
        _ => false,
    };
    if differs {
        return Err(invalid("binding/provider-generation: no automatic succession"));
    }
    Ok(())
}

/// The repository checks of committing a run: the consumer is still
/// eligible, the binding row did not change during observation, a new run
/// is for the current route, and there is room for a new run.
pub fn commit_checks(
    eligibility: &Assessment,
    binding_revision: u64,
    current_binding_revision: u64,
    new_run: bool,
    assignment_current: bool,
    runs: usize,
) -> (r: Result<(), StoreError>)
    requires
        eligibility.state != ConditionState::Satisfied ==> eligibility.conditions@.len() >= 1,
    ensures
        eligibility.state != ConditionState::Satisfied ==> (r matches Err(e) && e@ == Refusal::Invalid(eligibility.conditions@[0].reason@)),
        eligibility.state == ConditionState::Satisfied && binding_revision != current_binding_revision ==> (r matches Err(e)
            && e@ == Refusal::RevisionConflict("diagnostic binding changed during observation"@)),
        eligibility.state == ConditionState::Satisfied && binding_revision == current_binding_revision && new_run && !assignment_current
            ==> (r matches Err(e) && e@ == Refusal::RevisionConflict(superseded())),
        eligibility.state == ConditionState::Satisfied && binding_revision == current_binding_revision && new_run && assignment_current
            && runs >= 512 ==> (r matches Err(e) && e@ == Refusal::Invalid("diagnostic run capacity reached; explicit archival policy required"@)),
        eligibility.state == ConditionState::Satisfied && binding_revision == current_binding_revision
            && (!new_run || (assignment_current && runs < 512)) ==> r is Ok,
{
    if eligibility.state != ConditionState::Satisfied {
        return Err(StoreError::Invalid(eligibility.conditions[0].reason.clone()));
    }
    if binding_revision != current_binding_revision {
        return Err(crate::registration::conflict("diagnostic binding changed during observation"));
    }
    if new_run {
        if let Err(e) = replacement::admit_assignment(assignment_current) {
            return Err(e);
        }
        if runs >= 512 {
            return Err(invalid("diagnostic run capacity reached; explicit archival policy required"));
        }
    }
    Ok(())
}

pub open spec fn superseded() -> Seq<char> {
    "replacement/superseded-binding; use assign_current(root) for a new run"@
}

/// Starts tracking a diagnostic relationship for `profile`, with a provider
/// exactly when the profile requires one, never the consumer itself. This
/// accepts neither an initial nor a replacement work binding.
pub fn track(
    consumer: &RegistrationRef,
    catalog: &Catalog,
    profile: String,
    operating_area: String,
    provider: Option<RegistrationRef>,
    eligibility: &Assessment,
    bindings: usize,
) -> (r: Result<TrackedBinding, StoreError>)
    requires
        eligibility.state != ConditionState::Satisfied ==> eligibility.conditions@.len() >= 1,
    ensures
        ({
            let found = profile_of(catalog.profiles@, profile@);
            match found {
                None => (r matches Err(e) && e@ == Refusal::Invalid("catalog/profile: unknown diagnostic operation"@)),
                Some(i) => {
                    let d = catalog.profiles@[i].1;
                    if (d is Independent && provider is Some) || (d is Required && provider is None) {
                        (r matches Err(e) && e@ == Refusal::Invalid("binding/provider: selection disagrees with authored dependency"@))
                    } else if provider matches Some(p) && p.registration@ == consumer.registration@ {
                        (r matches Err(e) && e@ == Refusal::Invalid("binding/provider: diagnostic self-dependency is unsupported"@))
                    } else if eligibility.state != ConditionState::Satisfied {
                        (r matches Err(e) && e@ == Refusal::Invalid(eligibility.conditions@[0].reason@))
                    } else if bindings >= 64 {
                        (r matches Err(e) && e@ == Refusal::Invalid("diagnostic binding capacity reached; explicit archival policy required"@))
                    } else {
                        (r matches Ok(b) && {
                            &&& b.id@.len() == 36
                            &&& b.consumer == *consumer
                            &&& b.profile == profile
                            &&& b.operating_area == operating_area
                            &&& b.provider == provider
                            &&& b.generation is None
                            &&& b.purpose == Purpose::DiagnosticOnly
                        })
                    }
                },
            }
        }),
{
    let i = match catalog.profile(&profile) {
        None => {
            return Err(invalid("catalog/profile: unknown diagnostic operation"));
        },
        Some(i) => i,
    };
    let disagrees = match (&catalog.profiles[i].1, &provider) {
        (Dependency::Independent, Some(_)) => true,
        (Dependency::Required { .. }, None) => true,
        _ => false,
    };
    if disagrees {
        return Err(invalid("binding/provider: selection disagrees with authored dependency"));
    }
    let own = match &provider {
        Some(p) => p.registration == consumer.registration,
        None => false,
    };
    if own {
        return Err(invalid("binding/provider: diagnostic self-dependency is unsupported"));
    }
    if eligibility.state != ConditionState::Satisfied {
        return Err(StoreError::Invalid(eligibility.conditions[0].reason.clone()));
    }
    if bindings >= 64 {
        return Err(invalid("diagnostic binding capacity reached; explicit archival policy required"));
    }
    Ok(TrackedBinding {
        id: fresh_id(),
        consumer: consumer.duplicate(),
        profile,
        operating_area,
        provider,
        generation: None,
        purpose: Purpose::DiagnosticOnly,
    })
}

#[derive(Clone, Copy, Debug, PartialEq, Eq, Structural)]
pub enum AcceptanceKind {
    Initial,
    Replacement,
}

/// A request for a consumer-side judgment on a binding. It carries the
/// sealed decision request when an external decision can be asked for.
#[derive(Debug)]
pub struct AcceptanceRequest {
    pub kind: AcceptanceKind,
    pub binding: TrackedBinding,
    pub proposed_provider: Option<RegistrationRef>,
    pub proposed_generation: Option<Generation>,
    /// Only a receiver makes a decision request.
    pub decision: Option<decision::Request>,
}

impl AcceptanceRequest {
    pub open spec fn spec_decision(&self) -> Option<decision::Request> {
        self.decision
    }

    pub fn new(
        kind: AcceptanceKind,
        binding: TrackedBinding,
        proposed_provider: Option<RegistrationRef>,
        proposed_generation: Option<Generation>,
        decision: Option<decision::Request>,
    ) -> (r: Self)
        ensures
            r.kind == kind,
            r.binding == binding,
            r.proposed_provider == proposed_provider,
            r.proposed_generation == proposed_generation,
            r.spec_decision() == decision,
    {
        AcceptanceRequest { kind, binding, proposed_provider, proposed_generation, decision }
    }

    pub fn decision_request(&self) -> (r: Option<&decision::Request>)
        ensures
            r == match self.spec_decision() { Some(q) => Some(&q), None => None::<&decision::Request> },
    {
        self.decision.as_ref()
    }
}

/// A positive reply carries a verified external decision, never a host
/// grant; tracking alone is not an accepted work binding.
#[derive(Debug)]
pub enum AcceptanceReply {
    Verified(decision::VerifiedDecision),
    NotEvaluated { condition: String, reason: String },
    Denied { condition: String, reason: String, decision_reference: String },
    Unsupported { condition: String, reason: String },
}

/// The consumer-side judgment of a binding. By default no provider is
/// connected and the host issues nothing.
pub trait BindingJudgment {
    fn assess(&self, request: &AcceptanceRequest) -> (r: AcceptanceReply)
        default_ensures
            r matches AcceptanceReply::Unsupported { condition, reason } && condition@ == "binding/consumer-judgment-provider"@
                && reason@ == "positive consumer-side binding acceptance provider is not connected; host is not an issuer"@,
    {
        AcceptanceReply::Unsupported {
            condition: String::from_str("binding/consumer-judgment-provider"),
            reason: String::from_str("positive consumer-side binding acceptance provider is not connected; host is not an issuer"),
        }
    }
}

pub struct NoBindingJudgment;

impl BindingJudgment for NoBindingJudgment {
}

/// The states a binding judgment can end in.
#[derive(Clone, Copy, Debug, PartialEq, Eq, Structural)]
pub enum AcceptanceState {
    NotEvaluated,
    Denied,
    Unsupported,
    Verified,
}

#[derive(Debug)]
pub struct AcceptanceAssessment {
    request: AcceptanceRequest,
    state: AcceptanceState,
    condition: String,
    reason: String,
    decision_reference: Option<String>,
    verified_decision: Option<decision::Reference>,
}

impl AcceptanceAssessment {
    pub closed spec fn spec_request(&self) -> AcceptanceRequest {
        self.request
    }

    pub closed spec fn spec_state(&self) -> AcceptanceState {
        self.state
    }

    pub closed spec fn spec_condition(&self) -> Seq<char> {
        self.condition@
    }

    pub closed spec fn spec_reason(&self) -> Seq<char> {
        self.reason@
    }

    pub closed spec fn spec_decision_reference(&self) -> Option<String> {
        self.decision_reference
    }

    pub closed spec fn spec_verified_decision(&self) -> Option<decision::Reference> {
        self.verified_decision
    }

    pub fn request(&self) -> (r: &AcceptanceRequest)
        ensures
            *r == self.spec_request(),
    {
        &self.request
    }

    pub fn state(&self) -> (r: AcceptanceState)
        ensures
            r == self.spec_state(),
    {
        self.state
    }

    pub fn condition(&self) -> (r: &String)
        ensures
            r@ == self.spec_condition(),
    {
        &self.condition
    }

    pub fn reason(&self) -> (r: &String)
        ensures
            r@ == self.spec_reason(),
    {
        &self.reason
    }

    pub fn decision_reference(&self) -> (r: Option<&String>)
        ensures
            r == match self.spec_decision_reference() { Some(x) => Some(&x), None => None::<&String> },
    {
        self.decision_reference.as_ref()
    }

    pub fn verified_decision(&self) -> (r: Option<&decision::Reference>)
        ensures
            r == match self.spec_verified_decision() { Some(x) => Some(&x), None => None::<&decision::Reference> },
    {
        self.verified_decision.as_ref()
    }

    /// The judgment is `state` under `condition` for `reason`, with no
    /// decision reference.
    pub open spec fn plain(&self, state: AcceptanceState, condition: Seq<char>, reason: Seq<char>) -> bool {
        &&& self.spec_state() == state
        &&& self.spec_condition() == condition
        &&& self.spec_reason() == reason
        &&& self.spec_verified_decision() is None
    }
}

/// An initial judgment names no proposal; a replacement judgment names the
/// proposed provider.
pub fn check_acceptance_kind(kind: AcceptanceKind, proposed_provider: &Option<RegistrationRef>, proposed_generation: &Option<Generation>) -> (r: Result<(), StoreError>)
    ensures
        r is Ok <==> !((kind == AcceptanceKind::Initial && (proposed_provider is Some || proposed_generation is Some))
            || (kind == AcceptanceKind::Replacement && proposed_provider is None)),
        r matches Err(e) ==> e@ == Refusal::Invalid("binding/decision-kind: initial and replacement judgments are distinct requests"@),
{
    if (kind == AcceptanceKind::Initial && (proposed_provider.is_some() || proposed_generation.is_some()))
        || (kind == AcceptanceKind::Replacement && proposed_provider.is_none()) {
        return Err(invalid("binding/decision-kind: initial and replacement judgments are distinct requests"));
    }
    Ok(())
}

/// An external decision can be asked for: the consumer is eligible, the
/// binding pinned its provider generation, a replacement names the proposed
/// generation, and the author configured a decision policy.
pub open spec fn spec_wants_decision(eligibility: ConditionState, binding: TrackedBinding, kind: AcceptanceKind, proposed_generation: Option<Generation>, policy: bool) -> bool {
    eligibility == ConditionState::Satisfied && binding.generation is Some
        && (kind == AcceptanceKind::Initial || proposed_generation is Some) && policy
}

pub fn wants_decision(eligibility: &Assessment, binding: &TrackedBinding, kind: AcceptanceKind, proposed_generation: &Option<Generation>, catalog: &Catalog) -> (r: bool)
    ensures
        r == spec_wants_decision(eligibility.state, *binding, kind, *proposed_generation, catalog.decision_policy is Some),
{
    eligibility.state == ConditionState::Satisfied && binding.generation.is_some() && (kind == AcceptanceKind::Initial
        || proposed_generation.is_some()) && catalog.decision_policy.is_some()
}

pub open spec fn verified_reason() -> Seq<char> {
    "external issuer key possession and exact binding target verified; not work-use permission, physical truth or automatic replacement"@
}

/// What judging `reply` to `request` at `receiver` gives.
pub open spec fn accepted_as(r: AcceptanceAssessment, request: AcceptanceRequest, reply: AcceptanceReply, receiver: decision::Receiver,
    now_ms: u64, later_ms: u64) -> bool {
    &&& r.spec_request() == request
    &&& match reply {
        AcceptanceReply::Verified(proof) => match request.spec_decision() {
            None => r.plain(AcceptanceState::Denied, "binding/external-decision"@, decision::failure_text(decision::Failure::Unconfigured))
                && r.spec_decision_reference() is None,
            Some(q) => match decision::request_check(q, proof, receiver, now_ms, later_ms) {
                Some(f) => r.plain(AcceptanceState::Denied, "binding/external-decision"@, decision::failure_text(f))
                    && r.spec_decision_reference() is None,
                None => {
                    &&& r.spec_state() == AcceptanceState::Verified
                    &&& r.spec_condition() == "binding/external-decision"@
                    &&& r.spec_reason() == verified_reason()
                    &&& r.spec_verified_decision() == Some(proof.spec_reference())
                    &&& r.spec_decision_reference() matches Some(d) && d@ == "decision/"@ + proof.spec_reference().decision@
                },
            },
        },
        AcceptanceReply::NotEvaluated { condition, reason } => if bounded(reason@, 1024) {
            r.plain(AcceptanceState::NotEvaluated, condition@, reason@) && r.spec_decision_reference() is None
        } else {
            r.plain(AcceptanceState::Unsupported, "binding/provider-response"@, "binding judgment lacks a bounded named explanation"@)
                && r.spec_decision_reference() is None
        },
        AcceptanceReply::Denied { condition, reason, decision_reference } => if bounded(reason@, 1024) {
            r.plain(AcceptanceState::Denied, condition@, reason@) && r.spec_decision_reference() == Some(decision_reference)
        } else {
            r.plain(AcceptanceState::Unsupported, "binding/provider-response"@, "binding judgment lacks a bounded named explanation"@)
                && r.spec_decision_reference() is None
        },
        AcceptanceReply::Unsupported { condition, reason } => if bounded(reason@, 1024) {
            r.plain(AcceptanceState::Unsupported, condition@, reason@) && r.spec_decision_reference() is None
        } else {
            r.plain(AcceptanceState::Unsupported, "binding/provider-response"@, "binding judgment lacks a bounded named explanation"@)
                && r.spec_decision_reference() is None
        },
    }
}

/// Judges a reply to `request`. A verified decision counts only if it
/// passes the request's own decision check at `receiver`; a reply without
/// a bounded reason is unsupported.
pub fn acceptance(request: AcceptanceRequest, reply: AcceptanceReply, receiver: &decision::Receiver, now_ms: u64, later_ms: u64) -> (r: AcceptanceAssessment)
    ensures
        r.spec_request() == request,
        accepted_as(r, request, reply, *receiver, now_ms, later_ms),
{
    let (state, condition, reason, reference) = match reply {
        AcceptanceReply::Verified(proof) => {
            let checked = match &request.decision {
                None => Err(decision::Failure::Unconfigured),
                Some(q) => q.check(&proof, receiver, now_ms, later_ms),
            };
            return match checked {
                Ok(reference) => {
                    let named = join("decision/", reference.decision.as_str());
                    AcceptanceAssessment {
                        request,
                        state: AcceptanceState::Verified,
                        condition: String::from_str("binding/external-decision"),
                        reason: String::from_str("external issuer key possession and exact binding target verified; not work-use permission, physical truth or automatic replacement"),
                        decision_reference: Some(named),
                        verified_decision: Some(reference),
                    }
                },
                Err(f) => AcceptanceAssessment {
                    request,
                    state: AcceptanceState::Denied,
                    condition: String::from_str("binding/external-decision"),
                    reason: f.message(),
                    decision_reference: None,
                    verified_decision: None,
                },
            };
        },
        AcceptanceReply::NotEvaluated { condition, reason } => (AcceptanceState::NotEvaluated, condition, reason, None),
        AcceptanceReply::Denied { condition, reason, decision_reference } => (AcceptanceState::Denied, condition, reason, Some(decision_reference)),
        AcceptanceReply::Unsupported { condition, reason } => (AcceptanceState::Unsupported, condition, reason, None),
    };
    if !is_bounded(&reason, 1024) {
        return AcceptanceAssessment {
            request,
            state: AcceptanceState::Unsupported,
            condition: String::from_str("binding/provider-response"),
            reason: String::from_str("binding judgment lacks a bounded named explanation"),
            decision_reference: None,
            verified_decision: None,
        };
    }
    AcceptanceAssessment { request, state, condition, reason, decision_reference: reference, verified_decision: None }
}

/// Asks `port` for its judgment of `request` and judges its reply.
pub fn assess_binding<J: BindingJudgment>(request: AcceptanceRequest, port: &J, receiver: &decision::Receiver, now_ms: u64, later_ms: u64) -> (r: AcceptanceAssessment)
    ensures
        r.spec_request() == request,
        r.spec_state() == AcceptanceState::Verified ==> (request.spec_decision() matches Some(q)
            && exists|proof: decision::VerifiedDecision| decision::request_check(q, proof, *receiver, now_ms, later_ms) is None
                && #[trigger] r.spec_verified_decision() == Some(proof.spec_reference())),
        exists|reply: AcceptanceReply| #![auto] call_ensures(J::assess, (port, &request), reply)
            && accepted_as(r, request, reply, *receiver, now_ms, later_ms),
{
    let ask = J::assess;
    let reply = ask(port, &request);
    let ghost seen = reply;
    let ghost asked = request;
    let r = acceptance(request, reply, receiver, now_ms, later_ms);
    assert(call_ensures(J::assess, (port, &asked), seen) && accepted_as(r, asked, seen, *receiver, now_ms, later_ms));
    r
}

/// What inspecting a binding found: whether a new assignment, the selected
/// run and the selected result may go on, none of it work permission.
#[derive(Debug)]
pub struct Inspection {
    pub binding: TrackedBinding,
    pub run: Option<Run>,
    pub result: Option<DiagnosticResult>,
    pub new_assignment: Assessment,
    pub ongoing: Assessment,
    pub result_consumption: Assessment,
    pub work_use: WorkUsePermission,
    pub checkpoints: replacement::CheckpointPolicy,
    pub limitations: Vec<String>,
}

/// A selected result must belong to the inspected binding.
pub fn check_result_binding(binding_id: &String, produced: &Option<DiagnosticResult>) -> (r: Result<(), StoreError>)
    ensures
        r is Ok <==> !(produced matches Some(p) && p.binding@ != binding_id@),
        r matches Err(e) ==> e@ == Refusal::Invalid("result/binding: result belongs to another relationship"@),
{
    if let Some(p) = produced {
        if p.binding != *binding_id {
            return Err(invalid("result/binding: result belongs to another relationship"));
        }
    }
    Ok(())
}

pub open spec fn superseded_reason() -> Seq<char> {
    "new assignment must resolve the active route; ongoing runs and results keep their immutable binding version"@
}

fn limitations() -> (r: Vec<String>)
    ensures
        r@.len() == 5,
{
    let mut v: Vec<String> = Vec::new();
    v.push(String::from_str("diagnostic tracking is not initial or replacement binding acceptance"));
    v.push(String::from_str("positive consumer-side binding and work-use providers unsupported"));
    v.push(String::from_str("explicit checkpoints do not prove continuous availability between samples"));
    v.push(String::from_str("actual device operations, collaborative resource binding, Linux resource enforcement and multi-host unsupported"));
    v.push(String::from_str("external recovery investigator and control-effect group-target signal race remain unsupported/unresolved"));
    v
}

/// Inspects a binding with the current observation `current`. An ineligible
/// consumer answers every question with its eligibility; a binding its
/// route no longer names takes no new assignment.
pub fn inspection(
    eligibility: Assessment,
    declaration: &Dependency,
    current: Observed,
    binding: TrackedBinding,
    active: Option<Run>,
    produced: Option<DiagnosticResult>,
    assignment_current: bool,
) -> (r: Inspection)
    ensures
        r.binding == binding,
        r.run == active,
        r.result == produced,
        r.work_use == WorkUsePermission::Unsupported,
        r.checkpoints.is_current(),
        r.limitations@.len() == 5,
        eligibility.state != ConditionState::Satisfied ==> r.ongoing.copies(&eligibility) && r.result_consumption.copies(&eligibility),
        eligibility.state != ConditionState::Satisfied && assignment_current ==> r.new_assignment.copies(&eligibility),
        eligibility.state == ConditionState::Satisfied && assignment_current ==> (
            if window_of(*declaration) == Some(Window::ResultGeneration) {
                r.new_assignment.is_single(ConditionState::Satisfied, "dependency/generation-window"@,
                    "provider input is required at result generation, not at diagnostic assignment"@)
            } else {
                r.new_assignment.copies(&current.assessment)
            }),
        !assignment_current ==> r.new_assignment.is_single(ConditionState::NotMet, "binding/superseded"@, superseded_reason()),
{
    let (mut new_assignment, ongoing_now, result_consumption) = if eligibility.state == ConditionState::Satisfied {
        (
            assignment(declaration, &current),
            ongoing(declaration, &current, active.as_ref()),
            result_use(declaration, &current, &binding, produced.as_ref()),
        )
    } else {
        (eligibility.duplicate(), eligibility.duplicate(), eligibility)
    };
    if !assignment_current {
        new_assignment = not_met("binding/superseded",
            "new assignment must resolve the active route; ongoing runs and results keep their immutable binding version");
    }
    Inspection {
        binding,
        run: active,
        result: produced,
        new_assignment,
        ongoing: ongoing_now,
        result_consumption,
        work_use: WorkUsePermission::Unsupported,
        checkpoints: replacement::CheckpointPolicy::current(),
        limitations: limitations(),
    }
}

/// A recorded result is handed out for consumption only when inspection
/// finds its consumption satisfied now.
pub fn consume_result(historical: DiagnosticResult, view: Inspection) -> (r: Progress)
    ensures
        r.assessment.copies(&view.result_consumption),
        r.run is None,
        view.result_consumption.state == ConditionState::Satisfied ==> r.result == Some(historical),
        view.result_consumption.state != ConditionState::Satisfied ==> r.result is None,
{
    let usable = view.result_consumption.state == ConditionState::Satisfied;
    Progress {
        result: if usable { Some(historical) } else { None },
        run: None,
        assessment: view.result_consumption,
    }
}

} // verus!
