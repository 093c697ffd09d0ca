//! Catalog predicates over component self-reports, kept apart from the
//! operating area's work-use judgment. Nothing here issues a grant.
use vstd::prelude::*;
use crate::ids::fresh_id;
use crate::registration::TimePoint;
use crate::text::{in_name_order, names_in_order, same_text, bounded, byte_len, decimal, decimal_string, fits, is_bounded};

verus! {

#[derive(Clone, Copy, Debug, PartialEq, Eq, Structural)]
pub enum StatusEndpoint {
    Health,
    SupportSummary,
}

impl StatusEndpoint {
    pub open spec fn spec_path(self) -> Seq<char> {
        match self {
            StatusEndpoint::Health => "/health"@,
            StatusEndpoint::SupportSummary => "/api/v1/solution/support"@,
        }
    }

    pub fn path(self) -> (r: &'static str)
        ensures
            r@ == self.spec_path(),
    {
        match self {
            StatusEndpoint::Health => "/health",
            StatusEndpoint::SupportSummary => "/api/v1/solution/support",
        }
    }
}

/// Provenance the author declared for a field; not an independent check of it.
#[derive(Clone, Copy, Debug, PartialEq, Eq, Structural)]
pub enum ReportOrigin {
    NotObserved,
    ReleaseDeclaration,
    StartupAuditDerived,
    StartupCatalogDerived,
    InstanceEnvironment,
    OperatingAreaReport,
    ProviderUnavailable,
}

#[derive(Clone, Debug)]
pub enum ExpectedValue {
    Text(String),
    Unsigned(u64),
}

#[derive(Clone, Debug)]
pub enum ReadinessCondition {
    InstanceMatches,
    Equals { field: String, expected: ExpectedValue, origin: ReportOrigin },
    Unsigned { field: String, origin: ReportOrigin },
    Unsupported { reason: String },
}

/// The named conditions of one intended use, in name order, each name once.
#[derive(Clone, Debug)]
pub struct ReadinessProfile {
    pub endpoint: StatusEndpoint,
    pub conditions: Vec<(String, ReadinessCondition)>,
}

/// Profiles keyed by intended-use or role name, in name order, each name
/// once; a caller cannot substitute a weaker profile for the requested role.
#[derive(Clone, Debug)]
pub struct ReadinessContract(pub Vec<(String, ReadinessProfile)>);

pub open spec fn instance_count(conditions: Seq<(String, ReadinessCondition)>) -> nat
    decreases conditions.len(),
{
    if conditions.len() == 0 {
        0
    } else {
        instance_count(conditions.drop_last()) + if conditions.last().1 is InstanceMatches {
            1nat
        } else {
            0nat
        }
    }
}

/// An author may only declare provenance that comes from the release or
/// from startup derivation.
pub open spec fn authored_origin(origin: ReportOrigin) -> bool {
    origin == ReportOrigin::ReleaseDeclaration || origin == ReportOrigin::StartupAuditDerived
        || origin == ReportOrigin::StartupCatalogDerived
}

pub open spec fn condition_refusal(c: ReadinessCondition) -> Option<Seq<char>> {
    match c {
        ReadinessCondition::Equals { origin, expected, .. } => if !authored_origin(origin) {
            Some("component field provenance cannot be operating-area authority or missing evidence"@)
        } else if expected matches ExpectedValue::Text(v) && (v@.len() == 0 || byte_len(v@) > 256) {
            Some("bounded nonempty readiness value required"@)
        } else {
            None
        },
        ReadinessCondition::Unsigned { origin, .. } => if !authored_origin(origin) {
            Some("component field provenance cannot be operating-area authority or missing evidence"@)
        } else {
            None
        },
        ReadinessCondition::Unsupported { reason } => if !bounded(reason@, 1024) {
            Some("named unsupported condition requires a reason"@)
        } else {
            None
        },
        ReadinessCondition::InstanceMatches => None,
    }
}

pub open spec fn conditions_refusal(conditions: Seq<(String, ReadinessCondition)>, k: int) -> Option<Seq<char>>
    decreases conditions.len() - k,
{
    if k < 0 || k >= conditions.len() {
        None
    } else if condition_refusal(conditions[k].1) is Some {
        condition_refusal(conditions[k].1)
    } else {
        conditions_refusal(conditions, k + 1)
    }
}

pub open spec fn profile_refusal(p: ReadinessProfile) -> Option<Seq<char>> {
    if p.conditions@.len() == 0 || p.conditions@.len() > 32 || instance_count(p.conditions@) != 1 {
        Some("readiness profile requires 1..32 named conditions and exactly one instance correlation"@)
    } else if !in_name_order(p.conditions@) {
        Some("readiness condition names must be in name order, each name once"@)
    } else {
        conditions_refusal(p.conditions@, 0)
    }
}

pub open spec fn profiles_refusal(profiles: Seq<(String, ReadinessProfile)>, k: int) -> Option<Seq<char>>
    decreases profiles.len() - k,
{
    if k < 0 || k >= profiles.len() {
        None
    } else if profile_refusal(profiles[k].1) is Some {
        profile_refusal(profiles[k].1)
    } else {
        profiles_refusal(profiles, k + 1)
    }
}

/// Why a readiness contract is unusable, if it is: the first failing check.
pub open spec fn contract_refusal(c: ReadinessContract) -> Option<Seq<char>> {
    if c.0@.len() == 0 || c.0@.len() > 8 {
        Some("readiness contract requires 1..8 named use profiles"@)
    } else if !in_name_order(c.0@) {
        Some("readiness use names must be in name order, each name once"@)
    } else {
        profiles_refusal(c.0@, 0)
    }
}

fn authored(origin: ReportOrigin) -> (r: bool)
    ensures
        r == authored_origin(origin),
{
    match origin {
        ReportOrigin::ReleaseDeclaration | ReportOrigin::StartupAuditDerived
        | ReportOrigin::StartupCatalogDerived => true,
        _ => false,
    }
}

fn check_condition(c: &ReadinessCondition) -> (r: Result<(), String>)
    ensures
        r is Ok <==> condition_refusal(*c) is None,
        r matches Err(m) ==> condition_refusal(*c) == Some(m@),
{
    match c {
        ReadinessCondition::Equals { origin, expected, .. } => {
            if !authored(*origin) {
                return Err(String::from_str("component field provenance cannot be operating-area authority or missing evidence"));
            }
            if let ExpectedValue::Text(v) = expected {
                if v.as_str().unicode_len() == 0 || !fits(v.as_str(), 256) {
                    return Err(String::from_str("bounded nonempty readiness value required"));
                }
            }
            Ok(())
        },
        ReadinessCondition::Unsigned { origin, .. } => {
            if !authored(*origin) {
                return Err(String::from_str("component field provenance cannot be operating-area authority or missing evidence"));
            }
            Ok(())
        },
        ReadinessCondition::Unsupported { reason } => {
            if !is_bounded(reason, 1024) {
                return Err(String::from_str("named unsupported condition requires a reason"));
            }
            Ok(())
        },
        ReadinessCondition::InstanceMatches => Ok(()),
    }
}

fn count_instance(conditions: &Vec<(String, ReadinessCondition)>) -> (r: usize)
    ensures
        r == instance_count(conditions@),
{
    let mut n: usize = 0;
    let mut i: usize = 0;
    while i < conditions.len()
        invariant
            i <= conditions@.len(),
            n == instance_count(conditions@.take(i as int)),
            n <= i,
        decreases conditions@.len() - i,
    {
        assert(conditions@.take(i + 1).drop_last() == conditions@.take(i as int));
        if let ReadinessCondition::InstanceMatches = conditions[i].1 {
            n = n + 1;
        }
        i = i + 1;
    }
    assert(conditions@.take(i as int) == conditions@);
    n
}

fn check_profile(p: &ReadinessProfile) -> (r: Result<(), String>)
    ensures
        r is Ok <==> profile_refusal(*p) is None,
        r matches Err(m) ==> profile_refusal(*p) == Some(m@),
{
    if p.conditions.len() == 0 || p.conditions.len() > 32 || count_instance(&p.conditions) != 1 {
        return Err(String::from_str("readiness profile requires 1..32 named conditions and exactly one instance correlation"));
    }
    if !names_in_order(&p.conditions) {
        return Err(String::from_str("readiness condition names must be in name order, each name once"));
    }
    let mut i: usize = 0;
    while i < p.conditions.len()
        invariant
            i <= p.conditions@.len(),
            1 <= p.conditions@.len() <= 32,
            instance_count(p.conditions@) == 1,
            in_name_order(p.conditions@),
            conditions_refusal(p.conditions@, 0) == conditions_refusal(p.conditions@, i as int),
        decreases p.conditions@.len() - i,
    {
        if let Err(m) = check_condition(&p.conditions[i].1) {
            return Err(m);
        }
        i = i + 1;
    }
    Ok(())
}

impl ReadinessContract {
    /// 1..=8 profiles, each with 1..=32 conditions of which exactly one
    /// correlates the instance, authored provenance only, bounded values and
    /// explained unsupported conditions.
    pub fn validate(&self) -> (r: Result<(), String>)
        ensures
            r is Ok <==> contract_refusal(*self) is None,
            r matches Err(m) ==> contract_refusal(*self) == Some(m@),
    {
        if self.0.len() == 0 || self.0.len() > 8 {
            return Err(String::from_str("readiness contract requires 1..8 named use profiles"));
        }
        if !names_in_order(&self.0) {
            return Err(String::from_str("readiness use names must be in name order, each name once"));
        }
        let mut i: usize = 0;
        while i < self.0.len()
            invariant
                i <= self.0@.len(),
                1 <= self.0@.len() <= 8,
                in_name_order(self.0@),
                profiles_refusal(self.0@, 0) == profiles_refusal(self.0@, i as int),
            decreases self.0@.len() - i,
        {
            if let Err(m) = check_profile(&self.0[i].1) {
                return Err(m);
            }
            i = i + 1;
        }
        Ok(())
    }
}

/// What `format!("{:?}", text)` writes for a string slice: the text in
/// double quotes, with the characters that `str`'s `Debug` escapes escaped.
pub uninterp spec fn debug_quoted(text: Seq<char>) -> Seq<char>;

/// std's `Debug` formatting of a string slice. The contract says only that
/// the result is `debug_quoted` of the text; which characters are escaped,
/// and how, is left to std.
#[verifier::external_body]
pub(crate) fn quoted(text: &str) -> (r: String)
    ensures
        r@ == debug_quoted(text@),
{
    format!("{:?}", text)
}

/// A reported JSON value, as the assessment reads it.
#[derive(Clone, Debug)]
pub enum Scalar {
    Text(String),
    /// A number that is a nonnegative integer within `u64`.
    Unsigned(u64),
    /// Any other JSON value, in canonical JSON.
    Other(String),
}

impl Scalar {
    pub fn duplicate(&self) -> (r: Self)
        ensures
            r == *self,
    {
        match self {
            Scalar::Text(t) => Scalar::Text(t.clone()),
            Scalar::Unsigned(n) => Scalar::Unsigned(*n),
            Scalar::Other(j) => Scalar::Other(j.clone()),
        }
    }
}

/// The top-level members of a component's status report, each name once. A
/// report that is not a JSON object has none.
#[derive(Clone, Debug)]
pub struct Reported {
    pub fields: Vec<(String, Scalar)>,
}

pub open spec fn field_from(fields: Seq<(String, Scalar)>, name: Seq<char>, k: int) -> Option<int>
    decreases fields.len() - k,
{
    if k < 0 || k >= fields.len() {
        None
    } else if fields[k].0@ == name {
        Some(k)
    } else {
        field_from(fields, name, k + 1)
    }
}

pub proof fn lemma_field_from(fields: Seq<(String, Scalar)>, name: Seq<char>, k: int)
    requires
        0 <= k,
    ensures
        field_from(fields, name, k) matches Some(i) ==> k <= i < fields.len() && fields[i].0@ == name,
    decreases fields.len() - k,
{
    if k < fields.len() {
        lemma_field_from(fields, name, k + 1);
    }
}

/// The reported member `name`, if there is one.
pub open spec fn field_of(r: Reported, name: Seq<char>) -> Option<Scalar> {
    match field_from(r.fields@, name, 0) {
        Some(i) => Some(r.fields@[i].1),
        None => None,
    }
}

impl Reported {
    pub fn field(&self, name: &str) -> (r: Option<Scalar>)
        ensures
            r == field_of(*self, name@),
    {
        let mut k: usize = 0;
        while k < self.fields.len()
            invariant
                k <= self.fields@.len(),
                field_from(self.fields@, name@, 0) == field_from(self.fields@, name@, k as int),
            decreases self.fields@.len() - k,
        {
            if same_text(self.fields[k].0.as_str(), name) {
                return Some(self.fields[k].1.duplicate());
            }
            k = k + 1;
        }
        None
    }
}

#[derive(Clone, Copy, Debug, PartialEq, Eq, Structural)]
pub enum ConditionState {
    NotEvaluated,
    NotMet,
    Unsupported,
    Satisfied,
}

#[derive(Clone, Debug)]
pub struct ConditionAssessment {
    pub name: String,
    pub state: ConditionState,
    pub reason: String,
    pub origin: ReportOrigin,
    pub observed: Option<Scalar>,
}

impl ConditionAssessment {
    pub fn duplicate(&self) -> (r: Self)
        ensures
            r == *self,
    {
        ConditionAssessment {
            name: self.name.clone(),
            state: self.state,
            reason: self.reason.clone(),
            origin: self.origin,
            observed: match &self.observed {
                Some(v) => Some(v.duplicate()),
                None => None,
            },
        }
    }
}

/// A copy of each condition, in order.
pub fn copy_conditions(conditions: &[ConditionAssessment]) -> (r: Vec<ConditionAssessment>)
    ensures
        r@ == conditions@,
{
    let mut out: Vec<ConditionAssessment> = Vec::new();
    let mut i: usize = 0;
    while i < conditions.len()
        invariant
            i <= conditions@.len(),
            out@ == conditions@.take(i as int),
        decreases conditions@.len() - i,
    {
        out.push(conditions[i].duplicate());
        proof {
            assert(conditions@.take(i + 1) == conditions@.take(i as int).push(conditions@[i as int]));
        }
        i = i + 1;
    }
    proof {
        assert(conditions@.take(i as int) == conditions@);
    }
    out
}

#[derive(Clone, Debug)]
pub struct UseScope {
    pub operating_area: String,
    pub role: String,
}

impl UseScope {
    pub open spec fn same(&self, other: &UseScope) -> bool {
        self.operating_area@ == other.operating_area@ && self.role@ == other.role@
    }

    pub fn matches(&self, other: &UseScope) -> (r: bool)
        ensures
            r == self.same(other),
    {
        self.operating_area == other.operating_area && self.role == other.role
    }

    pub fn duplicate(&self) -> (r: Self)
        ensures
            r == *self,
    {
        UseScope { operating_area: self.operating_area.clone(), role: self.role.clone() }
    }
}

/// The complete current subject of an assessment.
#[derive(Clone, Debug)]
pub struct UseSubject {
    pub registration: String,
    pub registration_revision: u64,
    pub program: String,
    pub catalog_digest: String,
    pub run: String,
    pub selection: String,
    pub instance: Option<String>,
    pub pid: Option<u32>,
}

impl UseSubject {
    pub open spec fn same(&self, other: &UseSubject) -> bool {
        &&& self.registration@ == other.registration@
        &&& self.registration_revision == other.registration_revision
        &&& self.program@ == other.program@
        &&& self.catalog_digest@ == other.catalog_digest@
        &&& self.run@ == other.run@
        &&& self.selection@ == other.selection@
        &&& match (self.instance, other.instance) {
            (Some(a), Some(b)) => a@ == b@,
            (None, None) => true,
            _ => false,
        }
        &&& self.pid == other.pid
    }

    pub fn matches(&self, other: &UseSubject) -> (r: bool)
        ensures
            r == self.same(other),
    {
        let instance = match (&self.instance, &other.instance) {
            (Some(a), Some(b)) => *a == *b,
            (None, None) => true,
            _ => false,
        };
        self.registration == other.registration && self.registration_revision
            == other.registration_revision && self.program == other.program && self.catalog_digest
            == other.catalog_digest && self.run == other.run && self.selection == other.selection
            && instance && self.pid == other.pid
    }

    pub fn duplicate(&self) -> (r: Self)
        ensures
            r == *self,
    {
        UseSubject {
            registration: self.registration.clone(),
            registration_revision: self.registration_revision,
            program: self.program.clone(),
            catalog_digest: self.catalog_digest.clone(),
            run: self.run.clone(),
            selection: self.selection.clone(),
            instance: match &self.instance {
                Some(i) => Some(i.clone()),
                None => None,
            },
            pid: self.pid,
        }
    }

    pub fn instance(&self) -> (r: Option<&String>)
        ensures
            r == match self.instance { Some(i) => Some(&i), None => None::<&String> },
    {
        self.instance.as_ref()
    }

    pub fn registration(&self) -> (r: &String)
        ensures
            *r == self.registration,
    {
        &self.registration
    }
}

/// A per-assessment nonce and the complete current subject, so that an old
/// response cannot be rebound to a new assessment.
#[derive(Clone, Debug)]
pub struct StatusObservationRequest {
    id: String,
    subject: UseSubject,
    scope: UseScope,
    endpoint: StatusEndpoint,
}

impl StatusObservationRequest {
    pub closed spec fn spec_id(&self) -> String {
        self.id
    }

    pub closed spec fn spec_subject(&self) -> UseSubject {
        self.subject
    }

    pub closed spec fn spec_scope(&self) -> UseScope {
        self.scope
    }

    pub closed spec fn spec_endpoint(&self) -> StatusEndpoint {
        self.endpoint
    }

    pub open spec fn same(&self, other: &StatusObservationRequest) -> bool {
        &&& self.spec_id()@ == other.spec_id()@
        &&& self.spec_subject().same(&other.spec_subject())
        &&& self.spec_scope().same(&other.spec_scope())
        &&& self.spec_endpoint() == other.spec_endpoint()
    }

    pub fn matches(&self, other: &StatusObservationRequest) -> (r: bool)
        ensures
            r == self.same(other),
    {
        self.id == other.id && self.subject.matches(&other.subject) && self.scope.matches(&other.scope)
            && self.endpoint == other.endpoint
    }

    pub fn duplicate(&self) -> (r: Self)
        ensures
            r == *self,
    {
        StatusObservationRequest {
            id: self.id.clone(),
            subject: self.subject.duplicate(),
            scope: self.scope.duplicate(),
            endpoint: self.endpoint,
        }
    }

    /// A request under a fresh nonce.
    pub fn new(subject: UseSubject, scope: UseScope, endpoint: StatusEndpoint) -> (r: Self)
        ensures
            r.spec_id()@.len() == 36,
            r.spec_subject() == subject,
            r.spec_scope() == scope,
            r.spec_endpoint() == endpoint,
    {
        StatusObservationRequest { id: fresh_id(), subject, scope, endpoint }
    }

    pub fn instance(&self) -> (r: Option<&String>)
        ensures
            r == match self.spec_subject().instance { Some(i) => Some(&i), None => None::<&String> },
    {
        self.subject.instance.as_ref()
    }

    pub fn pid(&self) -> (r: Option<u32>)
        ensures
            r == self.spec_subject().pid,
    {
        self.subject.pid
    }

    pub fn endpoint(&self) -> (r: StatusEndpoint)
        ensures
            r == self.spec_endpoint(),
    {
        self.endpoint
    }

    pub fn subject(&self) -> (r: &UseSubject)
        ensures
            *r == self.spec_subject(),
    {
        &self.subject
    }
}

/// A response read in an owned-child context: what the component reported,
/// when, and the digest of the payload. Not proof of physical truth.
#[derive(Debug)]
pub struct StatusObservation {
    request: StatusObservationRequest,
    reported: Reported,
    observed_at: TimePoint,
    digest: String,
}

impl StatusObservation {
    pub closed spec fn spec_request(&self) -> StatusObservationRequest {
        self.request
    }

    pub closed spec fn spec_reported(&self) -> Reported {
        self.reported
    }

    pub closed spec fn spec_observed_at(&self) -> TimePoint {
        self.observed_at
    }

    pub closed spec fn spec_digest(&self) -> String {
        self.digest
    }

    /// The response to `request`, read at `observed_at`, whose payload has
    /// the digest `digest`.
    pub fn captured(request: &StatusObservationRequest, reported: Reported, observed_at: TimePoint, digest: String) -> (r: Self)
        ensures
            r.spec_request() == *request,
            r.spec_reported() == reported,
            r.spec_observed_at() == observed_at,
            r.spec_digest() == digest,
    {
        StatusObservation { request: request.duplicate(), reported, observed_at, digest }
    }

    pub fn request(&self) -> (r: &StatusObservationRequest)
        ensures
            *r == self.spec_request(),
    {
        &self.request
    }
}

#[derive(Debug)]
pub enum StatusObservationResult {
    Observed(StatusObservation),
    NotEvaluated { condition: String, reason: String },
    NotMet { condition: String, reason: String },
    Unsupported { condition: String, reason: String },
}

/// Where an assessment's answer came from.
#[derive(Clone, Debug)]
pub struct ReportEvidence {
    pub request_id: String,
    pub endpoint: StatusEndpoint,
    pub observed_at: TimePoint,
    pub payload_digest: String,
    pub basis: String,
}

pub open spec fn unobserved_meaning() -> Seq<char> {
    "catalog conditions over a component self-report; not independent functional or physical qualification"@
}

pub open spec fn observed_meaning() -> Seq<char> {
    "assessment compares authored self-report conditions; even SATISFIED is not proof of functional operation, calibration, physical readiness or work-use permission"@
}

/// The summary state of a list of condition states: the first of not met,
/// unsupported and not evaluated that occurs, else satisfied.
pub open spec fn aggregate(states: Seq<ConditionState>) -> ConditionState {
    if states.contains(ConditionState::NotMet) {
        ConditionState::NotMet
    } else if states.contains(ConditionState::Unsupported) {
        ConditionState::Unsupported
    } else if states.contains(ConditionState::NotEvaluated) {
        ConditionState::NotEvaluated
    } else {
        ConditionState::Satisfied
    }
}

pub open spec fn states_of(conditions: Seq<ConditionAssessment>) -> Seq<ConditionState> {
    conditions.map_values(|c: ConditionAssessment| c.state)
}

fn summarize(conditions: &Vec<ConditionAssessment>) -> (r: ConditionState)
    ensures
        r == aggregate(states_of(conditions@)),
{
    let ghost states = states_of(conditions@);
    let mut not_met = false;
    let mut unsupported = false;
    let mut not_evaluated = false;
    let mut i: usize = 0;
    while i < conditions.len()
        invariant
            i <= conditions@.len(),
            states == states_of(conditions@),
            not_met == exists|k: int| 0 <= k < i && states[k] == ConditionState::NotMet,
            unsupported == exists|k: int| 0 <= k < i && states[k] == ConditionState::Unsupported,
            not_evaluated == exists|k: int| 0 <= k < i && states[k] == ConditionState::NotEvaluated,
        decreases conditions@.len() - i,
    {
        let s = conditions[i].state;
        assert(states[i as int] == s);
        match s {
            ConditionState::NotMet => {
                not_met = true;
            },
            ConditionState::Unsupported => {
                unsupported = true;
            },
            ConditionState::NotEvaluated => {
                not_evaluated = true;
            },
            ConditionState::Satisfied => {},
        }
        i = i + 1;
    }
    if not_met {
        ConditionState::NotMet
    } else if unsupported {
        ConditionState::Unsupported
    } else if not_evaluated {
        ConditionState::NotEvaluated
    } else {
        ConditionState::Satisfied
    }
}

pub open spec fn origin_name(o: ReportOrigin) -> Seq<char> {
    match o {
        ReportOrigin::NotObserved => "NotObserved"@,
        ReportOrigin::ReleaseDeclaration => "ReleaseDeclaration"@,
        ReportOrigin::StartupAuditDerived => "StartupAuditDerived"@,
        ReportOrigin::StartupCatalogDerived => "StartupCatalogDerived"@,
        ReportOrigin::InstanceEnvironment => "InstanceEnvironment"@,
        ReportOrigin::OperatingAreaReport => "OperatingAreaReport"@,
        ReportOrigin::ProviderUnavailable => "ProviderUnavailable"@,
    }
}

/// How `{:?}` writes an authored expected value.
pub open spec fn expected_text(e: ExpectedValue) -> Seq<char> {
    match e {
        ExpectedValue::Text(v) => "Text("@ + debug_quoted(v@) + ")"@,
        ExpectedValue::Unsigned(n) => "Unsigned("@ + decimal(n as nat) + ")"@,
    }
}

fn origin_text(o: ReportOrigin) -> (r: &'static str)
    ensures
        r@ == origin_name(o),
{
    match o {
        ReportOrigin::NotObserved => "NotObserved",
        ReportOrigin::ReleaseDeclaration => "ReleaseDeclaration",
        ReportOrigin::StartupAuditDerived => "StartupAuditDerived",
        ReportOrigin::StartupCatalogDerived => "StartupCatalogDerived",
        ReportOrigin::InstanceEnvironment => "InstanceEnvironment",
        ReportOrigin::OperatingAreaReport => "OperatingAreaReport",
        ReportOrigin::ProviderUnavailable => "ProviderUnavailable",
    }
}

fn describe_expected(e: &ExpectedValue) -> (r: String)
    ensures
        r@ == expected_text(*e),
{
    match e {
        ExpectedValue::Text(v) => String::from_str("Text(").concat(quoted(v.as_str()).as_str()).concat(")"),
        ExpectedValue::Unsigned(n) => String::from_str("Unsigned(").concat(decimal_string(*n).as_str()).concat(")"),
    }
}

pub open spec fn instance_field() -> Seq<char> {
    "supervisor_instance"@
}

/// The response names the current execution instance.
pub open spec fn instance_reported(r: Reported, instance: Option<String>) -> bool {
    &&& instance is Some
    &&& field_of(r, instance_field()) matches Some(Scalar::Text(t))
    &&& t@ == instance->0@
}

/// The state, reason, provenance and observed value of one authored
/// condition over a response.
pub open spec fn condition_outcome(instance_ok: bool, r: Reported, c: ReadinessCondition) -> (ConditionState, Seq<char>, ReportOrigin, Option<Scalar>) {
    match c {
        ReadinessCondition::InstanceMatches => (
            if instance_ok { ConditionState::Satisfied } else { ConditionState::NotMet },
            "compare reported RX_PROCESS_INSTANCE_ID with the current execution instance"@,
            ReportOrigin::InstanceEnvironment,
            field_of(r, instance_field()),
        ),
        _ => if !instance_ok {
            (
                ConditionState::NotEvaluated,
                "response instance differs; do not assess its other fields"@,
                ReportOrigin::NotObserved,
                None,
            )
        } else {
            match c {
                ReadinessCondition::Equals { field, expected, origin } => {
                    let actual = field_of(r, field@);
                    let met = match expected {
                        ExpectedValue::Text(v) => actual matches Some(Scalar::Text(a)) && a@ == v@,
                        ExpectedValue::Unsigned(v) => actual == Some(Scalar::Unsigned(v)),
                    };
                    (
                        if met { ConditionState::Satisfied } else { ConditionState::NotMet },
                        "component-reported "@ + field@ + " compared with authored "@ + expected_text(expected)
                            + "; provenance "@ + origin_name(origin),
                        origin,
                        actual,
                    )
                },
                ReadinessCondition::Unsigned { field, origin } => {
                    let actual = field_of(r, field@);
                    (
                        if actual matches Some(Scalar::Unsigned(_)) { ConditionState::Satisfied } else { ConditionState::NotMet },
                        "component-reported "@ + field@ + " must be a nonnegative count; not physical validation"@,
                        origin,
                        actual,
                    )
                },
                ReadinessCondition::Unsupported { reason } => (
                    ConditionState::Unsupported,
                    reason@,
                    ReportOrigin::NotObserved,
                    None,
                ),
                ReadinessCondition::InstanceMatches => (ConditionState::NotMet, Seq::empty(), ReportOrigin::NotObserved, None),
            }
        },
    }
}

/// `a` assesses the condition `named` with `outcome`.
pub open spec fn assesses(a: ConditionAssessment, named: String, outcome: (ConditionState, Seq<char>, ReportOrigin, Option<Scalar>)) -> bool {
    &&& a.name@ == named@
    &&& a.state == outcome.0
    &&& a.reason@ == outcome.1
    &&& a.origin == outcome.2
    &&& a.observed == outcome.3
}

fn assess_condition(instance_ok: bool, r: &Reported, name: &String, c: &ReadinessCondition) -> (a: ConditionAssessment)
    ensures
        assesses(a, *name, condition_outcome(instance_ok, *r, *c)),
{
    if let ReadinessCondition::InstanceMatches = c {
        return ConditionAssessment {
            name: name.clone(),
            state: if instance_ok { ConditionState::Satisfied } else { ConditionState::NotMet },
            reason: String::from_str("compare reported RX_PROCESS_INSTANCE_ID with the current execution instance"),
            origin: ReportOrigin::InstanceEnvironment,
            observed: r.field("supervisor_instance"),
        };
    }
    if !instance_ok {
        return ConditionAssessment {
            name: name.clone(),
            state: ConditionState::NotEvaluated,
            reason: String::from_str("response instance differs; do not assess its other fields"),
            origin: ReportOrigin::NotObserved,
            observed: None,
        };
    }
    match c {
        ReadinessCondition::Equals { field, expected, origin } => {
            let actual = r.field(field.as_str());
            let met = match (expected, &actual) {
                (ExpectedValue::Text(v), Some(Scalar::Text(a))) => *a == *v,
                (ExpectedValue::Unsigned(v), Some(Scalar::Unsigned(a))) => *a == *v,
                _ => false,
            };
            let reason = String::from_str("component-reported ").concat(field.as_str()).concat(
                " compared with authored ",
            ).concat(describe_expected(expected).as_str()).concat("; provenance ").concat(
                origin_text(*origin),
            );
            ConditionAssessment {
                name: name.clone(),
                state: if met { ConditionState::Satisfied } else { ConditionState::NotMet },
                reason,
                origin: *origin,
                observed: actual,
            }
        },
        ReadinessCondition::Unsigned { field, origin } => {
            let actual = r.field(field.as_str());
            let met = match &actual {
                Some(Scalar::Unsigned(_)) => true,
                _ => false,
            };
            ConditionAssessment {
                name: name.clone(),
                state: if met { ConditionState::Satisfied } else { ConditionState::NotMet },
                reason: String::from_str("component-reported ").concat(field.as_str()).concat(
                    " must be a nonnegative count; not physical validation",
                ),
                origin: *origin,
                observed: actual,
            }
        },
        ReadinessCondition::Unsupported { reason } => ConditionAssessment {
            name: name.clone(),
            state: ConditionState::Unsupported,
            reason: reason.clone(),
            origin: ReportOrigin::NotObserved,
            observed: None,
        },
        ReadinessCondition::InstanceMatches => ConditionAssessment {
            name: name.clone(),
            state: ConditionState::NotMet,
            reason: String::new(),
            origin: ReportOrigin::NotObserved,
            observed: None,
        },
    }
}

/// Catalog conditions over a component self-report. Even a satisfied
/// assessment is not proof of functional operation or work-use permission.
#[derive(Debug)]
pub struct ReadinessAssessment {
    state: ConditionState,
    scope: Option<UseScope>,
    subject: Option<UseSubject>,
    conditions: Vec<ConditionAssessment>,
    evidence: Option<ReportEvidence>,
    meaning: String,
}

/// The single condition of an assessment that observed nothing.
pub open spec fn unobserved_condition(a: ConditionAssessment, state: ConditionState, name: Seq<char>, reason: Seq<char>) -> bool {
    &&& a.name@ == name
    &&& a.state == state
    &&& a.reason@ == reason
    &&& a.origin == ReportOrigin::NotObserved
    &&& a.observed is None
}

/// The data of a readiness assessment, as history keeps it.
#[derive(Debug)]
pub struct AssessmentRecord {
    pub state: ConditionState,
    pub scope: Option<UseScope>,
    pub subject: Option<UseSubject>,
    pub conditions: Vec<ConditionAssessment>,
    pub evidence: Option<ReportEvidence>,
    pub meaning: String,
}

impl ReadinessAssessment {
    /// The assessment's data, for history.
    pub fn into_record(self) -> (r: AssessmentRecord)
        ensures
            r.state == self.spec_state(),
            r.scope == self.spec_scope(),
            r.subject == self.spec_subject(),
            r.conditions@ == self.spec_conditions(),
            r.evidence == self.spec_evidence(),
            r.meaning@ == self.spec_meaning(),
    {
        AssessmentRecord {
            state: self.state,
            scope: self.scope,
            subject: self.subject,
            conditions: self.conditions,
            evidence: self.evidence,
            meaning: self.meaning,
        }
    }

    pub closed spec fn spec_state(&self) -> ConditionState {
        self.state
    }

    pub closed spec fn spec_scope(&self) -> Option<UseScope> {
        self.scope
    }

    pub closed spec fn spec_subject(&self) -> Option<UseSubject> {
        self.subject
    }

    pub closed spec fn spec_conditions(&self) -> Seq<ConditionAssessment> {
        self.conditions@
    }

    pub closed spec fn spec_evidence(&self) -> Option<ReportEvidence> {
        self.evidence
    }

    pub closed spec fn spec_meaning(&self) -> Seq<char> {
        self.meaning@
    }

    /// An assessment in `state` that observed nothing: one condition `name`
    /// explains why.
    pub open spec fn is_unobserved(&self, scope: Option<UseScope>, subject: Option<UseSubject>, state: ConditionState, name: Seq<char>, reason: Seq<char>) -> bool {
        &&& self.spec_state() == state
        &&& self.spec_scope() == scope
        &&& self.spec_subject() == subject
        &&& self.spec_conditions().len() == 1
        &&& unobserved_condition(self.spec_conditions()[0], state, name, reason)
        &&& self.spec_evidence() is None
        &&& self.spec_meaning() == unobserved_meaning()
    }

    /// Without an applicable response: the reason first, then every
    /// authored condition, not evaluated.
    pub open spec fn left_unevaluated(&self, profile: ReadinessProfile, state: ConditionState, condition: Seq<char>, reason: Seq<char>) -> bool {
        &&& self.spec_state() == state
        &&& self.spec_conditions().len() == profile.conditions@.len() + 1
        &&& unobserved_condition(self.spec_conditions()[0], state, condition, reason)
        &&& forall|i: int| 0 <= i < profile.conditions@.len() ==> unobserved_condition(
            #[trigger] self.spec_conditions()[i + 1], ConditionState::NotEvaluated, profile.conditions@[i].0@,
            "no applicable response; authored condition not evaluated"@)
        &&& self.spec_evidence() is None
        &&& self.spec_meaning() == unobserved_meaning()
    }

    pub fn state(&self) -> (r: ConditionState)
        ensures
            r == self.spec_state(),
    {
        self.state
    }

    pub fn conditions(&self) -> (r: &[ConditionAssessment])
        ensures
            r@ == self.spec_conditions(),
    {
        self.conditions.as_slice()
    }

    /// The request nonce, payload digest and time of the response the
    /// assessment rests on, when it rests on one.
    pub fn diagnostic_basis(&self) -> (r: Option<(String, String, TimePoint)>)
        ensures
            match self.spec_evidence() {
                None => r is None,
                Some(e) => r == Some((e.request_id, e.payload_digest, e.observed_at)),
            },
    {
        match &self.evidence {
            None => None,
            Some(e) => Some((e.request_id.clone(), e.payload_digest.clone(), e.observed_at.duplicate())),
        }
    }

    pub fn not_evaluated() -> (r: Self)
        ensures
            r.is_unobserved(None, None, ConditionState::NotEvaluated, "readiness/assessment"@,
                "no current-owner assessment has been requested"@),
    {
        Self::unobserved(None, None, ConditionState::NotEvaluated, String::from_str("readiness/assessment"),
            String::from_str("no current-owner assessment has been requested"))
    }

    pub fn unobserved(scope: Option<UseScope>, subject: Option<UseSubject>, state: ConditionState, name: String, reason: String) -> (r: Self)
        ensures
            r.is_unobserved(scope, subject, state, name@, reason@),
    {
        let mut conditions: Vec<ConditionAssessment> = Vec::new();
        conditions.push(ConditionAssessment { name, state, reason, origin: ReportOrigin::NotObserved, observed: None });
        ReadinessAssessment {
            state,
            scope,
            subject,
            conditions,
            evidence: None,
            meaning: String::from_str("catalog conditions over a component self-report; not independent functional or physical qualification"),
        }
    }

    /// What assessing `profile` over the response `result` to `request` gives.
    pub open spec fn evaluated_as(&self, request: StatusObservationRequest, profile: ReadinessProfile, result: StatusObservationResult) -> bool {
        &&& (self.spec_scope() == Some(request.spec_scope()))
        &&& (self.spec_subject() == Some(request.spec_subject()))
        &&& (match result {
            StatusObservationResult::Observed(o) => if !o.spec_request().same(&request) {
                self.is_unobserved(Some(request.spec_scope()), Some(request.spec_subject()), ConditionState::NotMet,
                    "report/assessment-binding"@, "response belongs to another assessment request/instance/scope"@)
            } else {
                let ok = instance_reported(o.spec_reported(), request.spec_subject().instance);
                &&& self.spec_conditions().len() == profile.conditions@.len()
                &&& forall|i: int| 0 <= i < profile.conditions@.len() ==> assesses(
                    #[trigger] self.spec_conditions()[i], profile.conditions@[i].0,
                    condition_outcome(ok, o.spec_reported(), profile.conditions@[i].1))
                &&& self.spec_state() == aggregate(states_of(self.spec_conditions()))
                &&& self.spec_evidence() == Some(ReportEvidence {
                    request_id: request.spec_id(),
                    endpoint: request.spec_endpoint(),
                    observed_at: o.spec_observed_at(),
                    payload_digest: o.spec_digest(),
                    basis: self.spec_evidence()->0.basis,
                })
                &&& self.spec_evidence()->0.basis@ == "COMPONENT_SELF_REPORT"@
                &&& self.spec_meaning() == observed_meaning()
            },
            StatusObservationResult::NotEvaluated { condition, reason } =>
                self.left_unevaluated(profile, ConditionState::NotEvaluated, condition@, reason@),
            StatusObservationResult::NotMet { condition, reason } =>
                self.left_unevaluated(profile, ConditionState::NotMet, condition@, reason@),
            StatusObservationResult::Unsupported { condition, reason } =>
                self.left_unevaluated(profile, ConditionState::Unsupported, condition@, reason@),
        })
    }

    /// Assesses `profile` over the response to `request`. Without a response
    /// every authored condition is left not evaluated; a response to another
    /// request is not met; otherwise each condition is assessed, and the
    /// summary is the first of not met, unsupported and not evaluated that
    /// occurs, else satisfied.
    pub fn evaluate(request: &StatusObservationRequest, profile: &ReadinessProfile, result: StatusObservationResult) -> (r: Self)
        ensures
            r.evaluated_as(*request, *profile, result),
    {
        let scope = request.scope.duplicate();
        let subject = request.subject.duplicate();
        let observation = match result {
            StatusObservationResult::Observed(o) => o,
            StatusObservationResult::NotEvaluated { condition, reason } => {
                return Self::unevaluated(scope, subject, ConditionState::NotEvaluated, condition, reason, profile);
            },
            StatusObservationResult::NotMet { condition, reason } => {
                return Self::unevaluated(scope, subject, ConditionState::NotMet, condition, reason, profile);
            },
            StatusObservationResult::Unsupported { condition, reason } => {
                return Self::unevaluated(scope, subject, ConditionState::Unsupported, condition, reason, profile);
            },
        };
        if !observation.request.matches(request) {
            return Self::unobserved(Some(scope), Some(subject), ConditionState::NotMet,
                String::from_str("report/assessment-binding"),
                String::from_str("response belongs to another assessment request/instance/scope"));
        }
        let instance_ok = match (&request.subject.instance, observation.reported.field("supervisor_instance")) {
            (Some(i), Some(Scalar::Text(t))) => t == *i,
            _ => false,
        };
        let mut conditions: Vec<ConditionAssessment> = Vec::new();
        let mut i: usize = 0;
        while i < profile.conditions.len()
            invariant
                i <= profile.conditions@.len(),
                conditions@.len() == i,
                forall|k: int| 0 <= k < i ==> assesses(
                    #[trigger] conditions@[k], profile.conditions@[k].0,
                    condition_outcome(instance_ok, observation.spec_reported(), profile.conditions@[k].1)),
            decreases profile.conditions@.len() - i,
        {
            let a = assess_condition(instance_ok, &observation.reported, &profile.conditions[i].0, &profile.conditions[i].1);
            conditions.push(a);
            i = i + 1;
        }
        let state = summarize(&conditions);
        ReadinessAssessment {
            state,
            scope: Some(scope),
            subject: Some(subject),
            conditions,
            evidence: Some(ReportEvidence {
                request_id: request.id.clone(),
                endpoint: request.endpoint,
                observed_at: observation.observed_at,
                payload_digest: observation.digest,
                basis: String::from_str("COMPONENT_SELF_REPORT"),
            }),
            meaning: String::from_str("assessment compares authored self-report conditions; even SATISFIED is not proof of functional operation, calibration, physical readiness or work-use permission"),
        }
    }

    fn unevaluated(scope: UseScope, subject: UseSubject, state: ConditionState, condition: String, reason: String, profile: &ReadinessProfile) -> (r: Self)
        ensures
            r.spec_scope() == Some(scope),
            r.spec_subject() == Some(subject),
            r.left_unevaluated(*profile, state, condition@, reason@),
    {
        let mut report = Self::unobserved(Some(scope), Some(subject), state, condition, reason);
        let mut i: usize = 0;
        while i < profile.conditions.len()
            invariant
                i <= profile.conditions@.len(),
                report.conditions@.len() == i + 1,
                report.state == state,
                report.scope == Some(scope),
                report.subject == Some(subject),
                unobserved_condition(report.conditions@[0], state, condition@, reason@),
                forall|k: int| 0 <= k < i ==> unobserved_condition(
                    #[trigger] report.conditions@[k + 1], ConditionState::NotEvaluated, profile.conditions@[k].0@,
                    "no applicable response; authored condition not evaluated"@),
                report.evidence is None,
                report.meaning@ == unobserved_meaning(),
            decreases profile.conditions@.len() - i,
        {
            report.conditions.push(ConditionAssessment {
                name: profile.conditions[i].0.clone(),
                state: ConditionState::NotEvaluated,
                reason: String::from_str("no applicable response; authored condition not evaluated"),
                origin: ReportOrigin::NotObserved,
                observed: None,
            });
            i = i + 1;
        }
        report
    }
}


/// The summary of an assessment is satisfied exactly when every one of its
/// conditions is.
pub proof fn law_satisfied_only_when_every_condition_is(states: Seq<ConditionState>)
    ensures
        aggregate(states) == ConditionState::Satisfied <==> forall|i: int|
            0 <= i < states.len() ==> states[i] == ConditionState::Satisfied,
{
    if aggregate(states) == ConditionState::Satisfied {
        assert forall|i: int| 0 <= i < states.len() implies states[i] == ConditionState::Satisfied by {
            if states[i] == ConditionState::NotMet {
                assert(states.contains(ConditionState::NotMet));
            } else if states[i] == ConditionState::Unsupported {
                assert(states.contains(ConditionState::Unsupported));
            } else if states[i] == ConditionState::NotEvaluated {
                assert(states.contains(ConditionState::NotEvaluated));
            }
        }
    }
}

/// A response that does not name the current execution instance never
/// satisfies a profile that correlates the instance: the assessment of its
/// conditions is not met.
pub proof fn law_other_instance_is_not_met(
    reported: Reported,
    instance: Option<String>,
    conditions: Seq<(String, ReadinessCondition)>,
    assessed: Seq<ConditionAssessment>,
    j: int,
)
    requires
        !instance_reported(reported, instance),
        assessed.len() == conditions.len(),
        forall|i: int| 0 <= i < conditions.len() ==> assesses(#[trigger] assessed[i], conditions[i].0,
            condition_outcome(instance_reported(reported, instance), reported, conditions[i].1)),
        0 <= j < conditions.len(),
        conditions[j].1 is InstanceMatches,
    ensures
        aggregate(states_of(assessed)) == ConditionState::NotMet,
{
    assert(assesses(assessed[j], conditions[j].0, condition_outcome(false, reported, conditions[j].1)));
    assert(states_of(assessed)[j] == ConditionState::NotMet);
    assert(states_of(assessed).contains(ConditionState::NotMet));
}

/// The only work-use states the host knows: it has no granted state.
#[derive(Clone, Copy, Debug, PartialEq, Eq, Structural)]
pub enum WorkUseState {
    NotEvaluated,
    Denied,
    Unsupported,
}

#[derive(Debug)]
pub struct WorkUseRequest {
    scope: UseScope,
    subject: UseSubject,
    readiness: ReadinessAssessment,
}

impl WorkUseRequest {
    pub closed spec fn spec_scope(&self) -> UseScope {
        self.scope
    }

    pub closed spec fn spec_subject(&self) -> UseSubject {
        self.subject
    }

    pub closed spec fn spec_readiness(&self) -> ReadinessAssessment {
        self.readiness
    }

    pub fn new(scope: UseScope, subject: UseSubject, readiness: ReadinessAssessment) -> (r: Self)
        ensures
            r.spec_scope() == scope,
            r.spec_subject() == subject,
            r.spec_readiness() == readiness,
    {
        WorkUseRequest { scope, subject, readiness }
    }

    pub fn scope(&self) -> (r: &UseScope)
        ensures
            *r == self.spec_scope(),
    {
        &self.scope
    }

    pub fn subject(&self) -> (r: &UseSubject)
        ensures
            *r == self.spec_subject(),
    {
        &self.subject
    }

    pub fn readiness(&self) -> (r: &ReadinessAssessment)
        ensures
            *r == self.spec_readiness(),
    {
        &self.readiness
    }
}

/// A negative judgment an operating-area adapter reports, never a grant.
/// Conditions are named reasons, in name order, each name once.
#[derive(Debug)]
pub enum WorkUseReply {
    NotEvaluated { conditions: Vec<(String, String)> },
    Unsupported { conditions: Vec<(String, String)> },
    Denied { decision_reference: String, conditions: Vec<(String, String)> },
}

pub open spec fn unconnected_reason() -> Seq<char> {
    "operating-area positive work-use provider is not connected; the host is not an issuer"@
}

/// Work-use authority belongs to the operating area's task judgment. This
/// port cannot issue a grant; by default it reports that no provider is
/// connected.
pub trait WorkUsePort {
    fn assess(&self, request: &WorkUseRequest) -> (r: WorkUseReply)
        default_ensures
            r matches WorkUseReply::Unsupported { conditions } && conditions@.len() == 1
                && conditions@[0].0@ == "work-use/operating-area-provider"@ && conditions@[0].1@ == unconnected_reason(),
    {
        let mut conditions: Vec<(String, String)> = Vec::new();
        conditions.push((String::from_str("work-use/operating-area-provider"),
            String::from_str("operating-area positive work-use provider is not connected; the host is not an issuer")));
        WorkUseReply::Unsupported { conditions }
    }
}

pub struct NoWorkUseProvider;

impl WorkUsePort for NoWorkUseProvider {
}

#[derive(Debug)]
pub struct WorkUseAssessment {
    state: WorkUseState,
    scope: Option<UseScope>,
    subject: Option<UseSubject>,
    conditions: Vec<ConditionAssessment>,
    decision_reference: Option<String>,
    positive_provider: String,
}

pub open spec fn positive_provider_text() -> Seq<char> {
    "UNSUPPORTED: operating-area positive permission provider connection"@
}

/// A provider's reasons are usable: 1..=32 of them, each named and bounded.
pub open spec fn bounded_reasons(conditions: Seq<(String, String)>) -> bool {
    &&& 1 <= conditions.len() <= 32
    &&& forall|i: int| 0 <= i < conditions.len() ==> bounded((#[trigger] conditions[i]).1@, 1024)
}

pub open spec fn state_condition(state: WorkUseState) -> ConditionState {
    match state {
        WorkUseState::NotEvaluated => ConditionState::NotEvaluated,
        WorkUseState::Denied => ConditionState::NotMet,
        WorkUseState::Unsupported => ConditionState::Unsupported,
    }
}

/// The state, decision reference, reasons and provenance a reply carries.
pub open spec fn reply_parts(reply: WorkUseReply) -> (WorkUseState, Option<String>, Seq<(String, String)>, ReportOrigin) {
    match reply {
        WorkUseReply::NotEvaluated { conditions } => (WorkUseState::NotEvaluated, None, conditions@, ReportOrigin::NotObserved),
        WorkUseReply::Unsupported { conditions } => (WorkUseState::Unsupported, None, conditions@, ReportOrigin::ProviderUnavailable),
        WorkUseReply::Denied { decision_reference, conditions } => (WorkUseState::Denied, Some(decision_reference), conditions@, ReportOrigin::OperatingAreaReport),
    }
}

fn bounded_named(conditions: &Vec<(String, String)>) -> (r: bool)
    ensures
        r == bounded_reasons(conditions@),
{
    if conditions.len() == 0 || conditions.len() > 32 {
        return false;
    }
    let mut i: usize = 0;
    while i < conditions.len()
        invariant
            i <= conditions@.len(),
            forall|k: int| 0 <= k < i ==> bounded((#[trigger] conditions@[k]).1@, 1024),
        decreases conditions@.len() - i,
    {
        if !is_bounded(&conditions[i].1, 1024) {
            return false;
        }
        i = i + 1;
    }
    true
}

impl WorkUseAssessment {
    pub closed spec fn spec_state(&self) -> WorkUseState {
        self.state
    }

    pub closed spec fn spec_scope(&self) -> Option<UseScope> {
        self.scope
    }

    pub closed spec fn spec_subject(&self) -> Option<UseSubject> {
        self.subject
    }

    pub closed spec fn spec_conditions(&self) -> Seq<ConditionAssessment> {
        self.conditions@
    }

    pub closed spec fn spec_decision_reference(&self) -> Option<String> {
        self.decision_reference
    }

    pub closed spec fn spec_positive_provider(&self) -> Seq<char> {
        self.positive_provider@
    }

    pub fn state(&self) -> (r: WorkUseState)
        ensures
            r == self.spec_state(),
    {
        self.state
    }

    pub fn conditions(&self) -> (r: &[ConditionAssessment])
        ensures
            r@ == self.spec_conditions(),
    {
        self.conditions.as_slice()
    }

    pub fn not_evaluated() -> (r: Self)
        ensures
            r.spec_state() == WorkUseState::NotEvaluated,
            r.spec_scope() is None,
            r.spec_subject() is None,
            r.spec_conditions().len() == 1,
            unobserved_condition(r.spec_conditions()[0], ConditionState::NotEvaluated, "work-use/assessment"@,
                "no scoped operating-area work-use assessment requested"@),
            r.spec_decision_reference() is None,
            r.spec_positive_provider() == positive_provider_text(),
    {
        let mut conditions: Vec<ConditionAssessment> = Vec::new();
        conditions.push(ConditionAssessment {
            name: String::from_str("work-use/assessment"),
            state: ConditionState::NotEvaluated,
            reason: String::from_str("no scoped operating-area work-use assessment requested"),
            origin: ReportOrigin::NotObserved,
            observed: None,
        });
        WorkUseAssessment {
            state: WorkUseState::NotEvaluated,
            scope: None,
            subject: None,
            conditions,
            decision_reference: None,
            positive_provider: String::from_str("UNSUPPORTED: operating-area positive permission provider connection"),
        }
    }

    /// The assessment a provider's reply gives. A reply without 1..=32
    /// named, bounded reasons is unsupported: no permission is inferred
    /// from it and its decision reference is dropped.
    pub fn assessed(request: &WorkUseRequest, reply: WorkUseReply) -> (r: Self)
        ensures
            r.spec_scope() == Some(request.spec_scope()),
            r.spec_subject() == Some(request.spec_subject()),
            r.spec_positive_provider() == positive_provider_text(),
            ({
                let (state, decision, conditions, origin) = reply_parts(reply);
                if bounded_reasons(conditions) {
                    &&& r.spec_state() == state
                    &&& r.spec_decision_reference() == decision
                    &&& r.spec_conditions().len() == conditions.len()
                    &&& forall|i: int| 0 <= i < conditions.len() ==> {
                        let c = #[trigger] r.spec_conditions()[i];
                        &&& c.name == conditions[i].0
                        &&& c.reason == conditions[i].1
                        &&& c.state == state_condition(state)
                        &&& c.origin == origin
                        &&& c.observed is None
                    }
                } else {
                    &&& r.spec_state() == WorkUseState::Unsupported
                    &&& r.spec_decision_reference() is None
                    &&& r.spec_conditions().len() == 1
                    &&& r.spec_conditions()[0].name@ == "work-use/provider-response"@
                    &&& r.spec_conditions()[0].reason@ == "provider did not supply bounded named reasons; no permission is inferred"@
                    &&& r.spec_conditions()[0].state == ConditionState::Unsupported
                    &&& r.spec_conditions()[0].origin == ReportOrigin::ProviderUnavailable
                    &&& r.spec_conditions()[0].observed is None
                }
            }),
    {
        let (mut state, mut decision, mut conditions, mut origin) = match reply {
            WorkUseReply::NotEvaluated { conditions } => (WorkUseState::NotEvaluated, None, conditions, ReportOrigin::NotObserved),
            WorkUseReply::Unsupported { conditions } => (WorkUseState::Unsupported, None, conditions, ReportOrigin::ProviderUnavailable),
            WorkUseReply::Denied { decision_reference, conditions } => (WorkUseState::Denied, Some(decision_reference), conditions, ReportOrigin::OperatingAreaReport),
        };
        if !bounded_named(&conditions) {
            state = WorkUseState::Unsupported;
            decision = None;
            origin = ReportOrigin::ProviderUnavailable;
            conditions = Vec::new();
            conditions.push((String::from_str("work-use/provider-response"),
                String::from_str("provider did not supply bounded named reasons; no permission is inferred")));
        }
        let condition_state = match state {
            WorkUseState::NotEvaluated => ConditionState::NotEvaluated,
            WorkUseState::Denied => ConditionState::NotMet,
            WorkUseState::Unsupported => ConditionState::Unsupported,
        };
        let mut assessed: Vec<ConditionAssessment> = Vec::new();
        let mut i: usize = 0;
        while i < conditions.len()
            invariant
                i <= conditions@.len(),
                assessed@.len() == i,
                forall|k: int| 0 <= k < i ==> {
                    let c = #[trigger] assessed@[k];
                    &&& c.name == conditions@[k].0
                    &&& c.reason == conditions@[k].1
                    &&& c.state == condition_state
                    &&& c.origin == origin
                    &&& c.observed is None
                },
            decreases conditions@.len() - i,
        {
            assessed.push(ConditionAssessment {
                name: conditions[i].0.clone(),
                state: condition_state,
                reason: conditions[i].1.clone(),
                origin,
                observed: None,
            });
            i = i + 1;
        }
        WorkUseAssessment {
            state,
            scope: Some(request.scope.duplicate()),
            subject: Some(request.subject.duplicate()),
            conditions: assessed,
            decision_reference: decision,
            positive_provider: String::from_str("UNSUPPORTED: operating-area positive permission provider connection"),
        }
    }
}

/// An authored unsigned value is met only by exactly that value: in a
/// report of the current instance, an `Equals` condition expecting
/// `Unsigned(v)` is satisfied when the field reads `Unsigned(v)` and not met
/// when it reads any other unsigned `n`.
pub proof fn law_unsigned_condition_needs_the_exact_value(r: Reported, field: String, v: u64, origin: ReportOrigin, n: u64)
    requires
        field_of(r, field@) == Some(Scalar::Unsigned(n)),
    ensures
        condition_outcome(true, r, ReadinessCondition::Equals { field, expected: ExpectedValue::Unsigned(v), origin }).0
            == if n == v { ConditionState::Satisfied } else { ConditionState::NotMet },
{
}

/// A report that misses one authored unsigned value is not met as a
/// whole: where a response to this very request names the current
/// instance, and condition `i` expects `Unsigned(v)` of a field the report
/// gives as `Unsigned(n)` with `n != v`, that condition and the assessment
/// are `NotMet`.
pub proof fn law_a_wrong_unsigned_value_fails_the_assessment(a: ReadinessAssessment, request: StatusObservationRequest,
    profile: ReadinessProfile, o: StatusObservation, i: int, field: String, v: u64, origin: ReportOrigin, n: u64)
    requires
        a.evaluated_as(request, profile, StatusObservationResult::Observed(o)),
        o.spec_request().same(&request),
        instance_reported(o.spec_reported(), request.spec_subject().instance),
        0 <= i < profile.conditions@.len(),
        profile.conditions@[i].1 == (ReadinessCondition::Equals { field, expected: ExpectedValue::Unsigned(v), origin }),
        field_of(o.spec_reported(), field@) == Some(Scalar::Unsigned(n)),
        n != v,
    ensures
        a.spec_conditions()[i].state == ConditionState::NotMet,
        a.spec_state() == ConditionState::NotMet,
{
    let ok = instance_reported(o.spec_reported(), request.spec_subject().instance);
    assert(assesses(a.spec_conditions()[i], profile.conditions@[i].0,
        condition_outcome(ok, o.spec_reported(), profile.conditions@[i].1)));
    assert(states_of(a.spec_conditions())[i] == ConditionState::NotMet);
    assert(states_of(a.spec_conditions()).contains(ConditionState::NotMet));
}

/// An authored text value is met only by exactly that text, and the
/// instance condition only by the current instance: in a report of the
/// current instance an `Equals` condition expecting `Text(v)` is satisfied
/// exactly when the field reads that text; the instance correlation is not
/// met when the report names another instance, and then no other field is
/// taken as met.
pub proof fn law_text_condition_needs_the_exact_text(r: Reported, field: String, v: String, origin: ReportOrigin,
    c: ReadinessCondition)
    ensures
        condition_outcome(true, r, ReadinessCondition::Equals { field, expected: ExpectedValue::Text(v), origin }).0
            == if field_of(r, field@) matches Some(Scalar::Text(a)) && a@ == v@ {
                ConditionState::Satisfied
            } else {
                ConditionState::NotMet
            },
        condition_outcome(false, r, ReadinessCondition::InstanceMatches).0 == ConditionState::NotMet,
        condition_outcome(false, r, c).0 != ConditionState::Satisfied,
{
}

} // verus!
