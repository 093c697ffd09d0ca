//! Bounded non-actuating support-gap work. A committed report is inert
//! history, never a current authorization.
use vstd::prelude::*;
use crate::decision::{Reference, VerifiedDecision};
use crate::registration::TimePoint;
use crate::text::join;
use crate::use_assessment::UseSubject;
use crate::Error;

verus! {

/// The role a support-gap report is made under.
pub const ROLE: &'static str = "work/support-gap-report";

/// The role whose readiness a support-gap report rests on.
pub const READINESS_ROLE: &'static str = "diagnostics/support-summary";

/// `work-use/<reason>` as an invalid-input failure.
pub fn invalid(reason: &str) -> (r: Error)
    ensures
        r matches Error::Invalid(m) && m@ == "work-use/"@ + reason@,
{
    Error::Invalid(join("work-use/", reason))
}

/// Task data only: it cannot supply a policy, readiness or permission.
#[derive(Clone, Debug)]
pub struct Task {
    pub operation: String,
    pub selection: String,
    pub operating_area: String,
    pub required_native_packages: u64,
    pub required_support_profiles: u64,
}

impl Task {
    pub fn duplicate(&self) -> (r: Self)
        ensures
            r == *self,
    {
        Task {
            operation: self.operation.clone(),
            selection: self.selection.clone(),
            operating_area: self.operating_area.clone(),
            required_native_packages: self.required_native_packages,
            required_support_profiles: self.required_support_profiles,
        }
    }
}

/// What was observed against what is required, and how much is missing.
#[derive(Clone, Copy, Debug, PartialEq, Eq, Structural)]
pub struct Comparison {
    pub observed: u64,
    pub required: u64,
    pub shortfall: u64,
}

impl Comparison {
    /// The shortfall is what is required beyond what was observed, or 0.
    pub fn compute(observed: u64, required: u64) -> (r: Self)
        ensures
            r.observed == observed,
            r.required == required,
            r.shortfall == if required > observed { (required - observed) as u64 } else { 0 },
    {
        Comparison { observed, required, shortfall: required.saturating_sub(observed) }
    }
}

pub open spec fn signature_note() -> Seq<char> {
    "EXTERNAL_SIGNATURE_AND_CONTEXT_VERIFIED_AT_LOGICAL_CUT"@
}

pub open spec fn policy_note() -> Seq<char> {
    "NOT_EVALUATED_BY_HOST; PRODUCTION_PROVIDER_NOT_CONNECTED"@
}

pub open spec fn permission_note() -> Seq<char> {
    "NONE; HISTORICAL_WORK_RESULT_ONLY"@
}

pub open spec fn qualification_note() -> Seq<char> {
    "NOT_PERFORMED"@
}

/// Unauthoritative stored output. Nothing accepts it as permission.
#[derive(Clone, Debug)]
pub struct Report {
    pub task: Task,
    pub registration: String,
    pub registration_revision: u64,
    pub instance: String,
    pub run: String,
    pub observed_at: TimePoint,
    pub source_digest: String,
    pub input_digest: String,
    pub readiness_semantics: String,
    pub native_packages: Comparison,
    pub support_profiles: Comparison,
    pub decision: Reference,
    pub signature_verification: String,
    pub operating_area_policy: String,
    pub current_permission: String,
    pub physical_qualification: String,
    /// Where each observed value came from, in canonical JSON.
    pub observation_origin: String,
}

/// Ephemeral prepared work: a task, its context digest and the decision
/// that approves it. Only the supervisor makes one.
#[derive(Debug)]
pub struct Prepared {
    task: Task,
    context: String,
    proof: VerifiedDecision,
}

impl Prepared {
    pub closed spec fn spec_task(&self) -> Task {
        self.task
    }

    pub closed spec fn spec_context(&self) -> String {
        self.context
    }

    pub closed spec fn spec_decision(&self) -> VerifiedDecision {
        self.proof
    }

    pub fn prepared(task: Task, context: String, proof: VerifiedDecision) -> (r: Self)
        ensures
            r.spec_task() == task,
            r.spec_context() == context,
            r.spec_decision() == proof,
    {
        Prepared { task, context, proof }
    }

    pub fn decision(&self) -> (r: &VerifiedDecision)
        ensures
            *r == self.spec_decision(),
    {
        &self.proof
    }

    pub fn task(&self) -> (r: &Task)
        ensures
            *r == self.spec_task(),
    {
        &self.task
    }
}

/// What a support-gap report is made from.
#[derive(Clone, Debug)]
pub struct Input {
    pub subject: UseSubject,
    pub configuration: String,
    pub native_packages: u64,
    pub support_profiles: u64,
    pub observed_at: TimePoint,
    pub source_digest: String,
    pub readiness_semantics: String,
    /// Where each observed value came from, in canonical JSON.
    pub origins: String,
}

impl Input {
    /// The report of `task` over this input under `decision`. `input_digest`
    /// is the digest of the task, the two counts and the source digest. The
    /// subject must name its execution instance.
    pub fn report(&self, task: &Task, decision: Reference, input_digest: String) -> (r: Result<Report, Error>)
        ensures
            self.subject.instance is None ==> (r matches Err(Error::Invalid(m)) && m@ == "work-use/instance-missing"@),
            self.subject.instance matches Some(instance) ==> (r matches Ok(x) && {
                &&& x.task == *task
                &&& x.registration == self.subject.registration
                &&& x.registration_revision == self.subject.registration_revision
                &&& x.instance == instance
                &&& x.run == self.subject.run
                &&& x.observed_at == self.observed_at
                &&& x.source_digest == self.source_digest
                &&& x.input_digest == input_digest
                &&& x.readiness_semantics == self.readiness_semantics
                &&& x.native_packages.observed == self.native_packages
                &&& x.native_packages.required == task.required_native_packages
                &&& x.native_packages.shortfall == if task.required_native_packages > self.native_packages {
                    (task.required_native_packages - self.native_packages) as u64 } else { 0 }
                &&& x.support_profiles.observed == self.support_profiles
                &&& x.support_profiles.required == task.required_support_profiles
                &&& x.support_profiles.shortfall == if task.required_support_profiles > self.support_profiles {
                    (task.required_support_profiles - self.support_profiles) as u64 } else { 0 }
                &&& x.decision == decision
                &&& x.signature_verification@ == signature_note()
                &&& x.operating_area_policy@ == policy_note()
                &&& x.current_permission@ == permission_note()
                &&& x.physical_qualification@ == qualification_note()
                &&& x.observation_origin == self.origins
            }),
    {
        let instance = match &self.subject.instance {
            None => {
                proof {
                    reveal_strlit("work-use/");
                    reveal_strlit("instance-missing");
                    reveal_strlit("work-use/instance-missing");
                }
                return Err(invalid("instance-missing"));
            },
            Some(i) => i.clone(),
        };
        Ok(Report {
            task: task.duplicate(),
            registration: self.subject.registration.clone(),
            registration_revision: self.subject.registration_revision,
            instance,
            run: self.subject.run.clone(),
            observed_at: self.observed_at.duplicate(),
            source_digest: self.source_digest.clone(),
            input_digest,
            readiness_semantics: self.readiness_semantics.clone(),
            native_packages: Comparison::compute(self.native_packages, task.required_native_packages),
            support_profiles: Comparison::compute(self.support_profiles, task.required_support_profiles),
            decision,
            signature_verification: String::from_str("EXTERNAL_SIGNATURE_AND_CONTEXT_VERIFIED_AT_LOGICAL_CUT"),
            operating_area_policy: String::from_str("NOT_EVALUATED_BY_HOST; PRODUCTION_PROVIDER_NOT_CONNECTED"),
            current_permission: String::from_str("NONE; HISTORICAL_WORK_RESULT_ONLY"),
            physical_qualification: String::from_str("NOT_PERFORMED"),
            observation_origin: self.origins.clone(),
        })
    }
}

} // verus!
