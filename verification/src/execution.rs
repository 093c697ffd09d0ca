//! Catalog-owned host requirements. An admission receipt covers one whole
//! launch, never a partly applied subset; the OS backend enforces.
use vstd::prelude::*;
use crate::text::{bounded, is_bounded, join};
use crate::Error;

verus! {

#[derive(Clone, Copy, Debug, PartialEq, Eq, Structural)]
pub enum Capacity {
    CpuMillicores,
    MemoryBytes,
    /// A per-process virtual address-space ceiling: not resident memory,
    /// physical memory, a reservation or a guarantee.
    AddressSpaceBytes,
}

#[derive(Clone, Debug)]
pub enum Requirement {
    NotRequired,
    Unknown,
    UpperBound { resource: Capacity, amount: u64 },
    ReservedCapacity { resource: Capacity, amount: u64 },
    ExclusiveAccess { resource: String },
    SharedAccess { resource: String },
}

pub open spec fn same_requirement(a: Requirement, b: Requirement) -> bool {
    match (a, b) {
        (Requirement::NotRequired, Requirement::NotRequired) => true,
        (Requirement::Unknown, Requirement::Unknown) => true,
        (Requirement::UpperBound { resource: r1, amount: a1 }, Requirement::UpperBound { resource: r2, amount: a2 }) => r1 == r2 && a1 == a2,
        (Requirement::ReservedCapacity { resource: r1, amount: a1 }, Requirement::ReservedCapacity { resource: r2, amount: a2 }) => r1 == r2 && a1 == a2,
        (Requirement::ExclusiveAccess { resource: r1 }, Requirement::ExclusiveAccess { resource: r2 }) => r1@ == r2@,
        (Requirement::SharedAccess { resource: r1 }, Requirement::SharedAccess { resource: r2 }) => r1@ == r2@,
        _ => false,
    }
}

impl Requirement {
    pub fn duplicate(&self) -> (r: Self)
        ensures
            r == *self,
    {
        match self {
            Requirement::NotRequired => Requirement::NotRequired,
            Requirement::Unknown => Requirement::Unknown,
            Requirement::UpperBound { resource, amount } => Requirement::UpperBound { resource: *resource, amount: *amount },
            Requirement::ReservedCapacity { resource, amount } => Requirement::ReservedCapacity { resource: *resource, amount: *amount },
            Requirement::ExclusiveAccess { resource } => Requirement::ExclusiveAccess { resource: resource.clone() },
            Requirement::SharedAccess { resource } => Requirement::SharedAccess { resource: resource.clone() },
        }
    }

    pub fn matches(&self, other: &Requirement) -> (r: bool)
        ensures
            r == same_requirement(*self, *other),
    {
        match (self, other) {
            (Requirement::NotRequired, Requirement::NotRequired) => true,
            (Requirement::Unknown, Requirement::Unknown) => true,
            (Requirement::UpperBound { resource: r1, amount: a1 }, Requirement::UpperBound { resource: r2, amount: a2 }) => *r1 == *r2 && *a1 == *a2,
            (Requirement::ReservedCapacity { resource: r1, amount: a1 }, Requirement::ReservedCapacity { resource: r2, amount: a2 }) => *r1 == *r2 && *a1 == *a2,
            (Requirement::ExclusiveAccess { resource: r1 }, Requirement::ExclusiveAccess { resource: r2 }) => *r1 == *r2,
            (Requirement::SharedAccess { resource: r1 }, Requirement::SharedAccess { resource: r2 }) => *r1 == *r2,
            _ => false,
        }
    }
}

/// Requirements by name, in name order, each name once. Names identify a
/// requirement in rejections and observations.
#[derive(Clone, Debug)]
pub struct Requirements(pub Vec<(String, Requirement)>);

pub open spec fn same_requirements(a: Seq<(String, Requirement)>, b: Seq<(String, Requirement)>) -> bool {
    &&& a.len() == b.len()
    &&& forall|i: int| 0 <= i < a.len() ==> (#[trigger] a[i]).0@ == b[i].0@ && same_requirement(a[i].1, b[i].1)
}

/// A capacity requirement of zero: zero is never a way to say "not required".
pub open spec fn zero_capacity(r: Requirement) -> bool {
    match r {
        Requirement::UpperBound { amount, .. } => amount == 0,
        Requirement::ReservedCapacity { amount, .. } => amount == 0,
        _ => false,
    }
}

pub open spec fn first_zero(rs: Seq<(String, Requirement)>, k: int) -> Option<int>
    decreases rs.len() - k,
{
    if k < 0 || k >= rs.len() {
        None
    } else if zero_capacity(rs[k].1) {
        Some(k)
    } else {
        first_zero(rs, k + 1)
    }
}

/// Why a set of requirements is refused, if it is.
pub open spec fn requirements_refusal(rs: Seq<(String, Requirement)>) -> Option<Seq<char>> {
    if rs.len() > 32 {
        Some("at most 32 execution requirements"@)
    } else {
        match first_zero(rs, 0) {
            Some(i) => Some("execution requirement "@ + rs[i].0@ + ": zero capacity is not NotRequired"@),
            None => None,
        }
    }
}

pub open spec fn enforced(r: Requirement) -> bool {
    !(r is NotRequired)
}

/// The names of the requirements that `keep` selects, in order.
pub open spec fn names_where(rs: Seq<(String, Requirement)>, keep: spec_fn(Requirement) -> bool) -> Seq<Seq<char>>
    decreases rs.len(),
{
    if rs.len() == 0 {
        Seq::empty()
    } else if keep(rs.last().1) {
        names_where(rs.drop_last(), keep).push(rs.last().0@)
    } else {
        names_where(rs.drop_last(), keep)
    }
}

impl Requirements {
    /// At most 32 requirements, none of them a zero capacity.
    pub fn validate(&self) -> (r: Result<(), Error>)
        ensures
            r is Ok <==> requirements_refusal(self.0@) is None,
            r matches Err(Error::Invalid(m)) ==> requirements_refusal(self.0@) == Some(m@),
            r matches Err(e) ==> e is Invalid,
    {
        if self.0.len() > 32 {
            return Err(Error::Invalid(String::from_str("at most 32 execution requirements")));
        }
        let mut i: usize = 0;
        while i < self.0.len()
            invariant
                i <= self.0@.len(),
                self.0@.len() <= 32,
                first_zero(self.0@, 0) == first_zero(self.0@, i as int),
            decreases self.0@.len() - i,
        {
            let zero = match &self.0[i].1 {
                Requirement::UpperBound { amount, .. } => *amount == 0,
                Requirement::ReservedCapacity { amount, .. } => *amount == 0,
                _ => false,
            };
            if zero {
                return Err(Error::Invalid(join("execution requirement ", self.0[i].0.as_str()).concat(
                    ": zero capacity is not NotRequired")));
            }
            i = i + 1;
        }
        Ok(())
    }

    /// Some requirement is more than "not required".
    pub fn needs_enforcement(&self) -> (r: bool)
        ensures
            r == exists|i: int| 0 <= i < self.0@.len() && enforced(#[trigger] self.0@[i].1),
    {
        let mut i: usize = 0;
        while i < self.0.len()
            invariant
                i <= self.0@.len(),
                forall|k: int| 0 <= k < i ==> !enforced(#[trigger] self.0@[k].1),
            decreases self.0@.len() - i,
        {
            if let Requirement::NotRequired = self.0[i].1 {
            } else {
                return true;
            }
            i = i + 1;
        }
        false
    }

    pub fn duplicate(&self) -> (r: Self)
        ensures
            r.0@ == self.0@,
    {
        let mut out: Vec<(String, Requirement)> = Vec::new();
        let mut i: usize = 0;
        while i < self.0.len()
            invariant
                i <= self.0@.len(),
                out@ == self.0@.take(i as int),
            decreases self.0@.len() - i,
        {
            out.push((self.0[i].0.clone(), self.0[i].1.duplicate()));
            proof {
                assert(self.0@.take(i + 1) == self.0@.take(i as int).push(self.0@[i as int]));
            }
            i = i + 1;
        }
        proof {
            assert(self.0@.take(i as int) == self.0@);
        }
        Requirements(out)
    }

    pub fn matches(&self, other: &Requirements) -> (r: bool)
        ensures
            r == same_requirements(self.0@, other.0@),
    {
        if self.0.len() != other.0.len() {
            return false;
        }
        let mut i: usize = 0;
        while i < self.0.len()
            invariant
                i <= self.0@.len(),
                self.0@.len() == other.0@.len(),
                forall|k: int| 0 <= k < i ==> (#[trigger] self.0@[k]).0@ == other.0@[k].0@ && same_requirement(self.0@[k].1, other.0@[k].1),
            decreases self.0@.len() - i,
        {
            if !(self.0[i].0 == other.0[i].0 && self.0[i].1.matches(&other.0[i].1)) {
                return false;
            }
            i = i + 1;
        }
        true
    }
}

/// One requirement that was not met, and why.
#[derive(Clone, Debug)]
pub struct Unmet {
    pub requirement: String,
    pub reason: String,
}

/// The requirements of one launch: made only from the selected catalog and
/// the current saved plan and instance.
#[derive(Clone, Debug)]
pub struct Request {
    program: String,
    process: String,
    instance: String,
    plan_digest: String,
    requirements: Requirements,
}

/// Each unmet entry names, in order, one of `names`, all for `reason`.
pub open spec fn unmet_for(r: Seq<Unmet>, names: Seq<Seq<char>>, reason: Seq<char>) -> bool {
    &&& r.len() == names.len()
    &&& forall|k: int| 0 <= k < r.len() ==> (#[trigger] r[k]).requirement@ == names[k] && r[k].reason@ == reason
}

impl Request {
    pub closed spec fn spec_program(&self) -> String {
        self.program
    }

    pub closed spec fn spec_process(&self) -> String {
        self.process
    }

    pub closed spec fn spec_instance(&self) -> String {
        self.instance
    }

    pub closed spec fn spec_plan_digest(&self) -> String {
        self.plan_digest
    }

    pub closed spec fn spec_requirements(&self) -> Requirements {
        self.requirements
    }

    pub open spec fn same(&self, other: &Request) -> bool {
        &&& self.spec_program()@ == other.spec_program()@
        &&& self.spec_process()@ == other.spec_process()@
        &&& self.spec_instance()@ == other.spec_instance()@
        &&& self.spec_plan_digest()@ == other.spec_plan_digest()@
        &&& same_requirements(self.spec_requirements().0@, other.spec_requirements().0@)
    }

    pub fn matches(&self, other: &Request) -> (r: bool)
        ensures
            r == self.same(other),
    {
        self.program == other.program && self.process == other.process && self.instance == other.instance
            && self.plan_digest == other.plan_digest && self.requirements.matches(&other.requirements)
    }

    pub fn duplicate(&self) -> (r: Self)
        ensures
            r.same(self),
            r.spec_requirements().0@ == self.spec_requirements().0@,
    {
        Request {
            program: self.program.clone(),
            process: self.process.clone(),
            instance: self.instance.clone(),
            plan_digest: self.plan_digest.clone(),
            requirements: self.requirements.duplicate(),
        }
    }

    pub fn new(program: String, process: String, instance: String, plan_digest: String, requirements: Requirements) -> (r: Self)
        ensures
            r.spec_program() == program,
            r.spec_process() == process,
            r.spec_instance() == instance,
            r.spec_plan_digest() == plan_digest,
            r.spec_requirements() == requirements,
    {
        Request { program, process, instance, plan_digest, requirements }
    }

    pub fn requirements(&self) -> (r: &Requirements)
        ensures
            *r == self.spec_requirements(),
    {
        &self.requirements
    }

    pub fn instance(&self) -> (r: &String)
        ensures
            *r == self.spec_instance(),
    {
        &self.instance
    }

    pub fn program(&self) -> (r: &String)
        ensures
            *r == self.spec_program(),
    {
        &self.program
    }

    pub fn process(&self) -> (r: &String)
        ensures
            *r == self.spec_process(),
    {
        &self.process
    }

    /// Every requirement that needs enforcement, rejected for `reason`.
    pub fn reject(&self, reason: &str) -> (r: Vec<Unmet>)
        ensures
            unmet_for(r@, names_where(self.spec_requirements().0@, |x: Requirement| enforced(x)), reason@),
    {
        let rs = &self.requirements.0;
        let mut out: Vec<Unmet> = Vec::new();
        let mut i: usize = 0;
        while i < rs.len()
            invariant
                i <= rs@.len(),
                unmet_for(out@, names_where(rs@.take(i as int), |x: Requirement| enforced(x)), reason@),
            decreases rs@.len() - i,
        {
            proof {
                assert(rs@.take(i + 1).drop_last() == rs@.take(i as int));
            }
            if let Requirement::NotRequired = rs[i].1 {
            } else {
                out.push(Unmet { requirement: rs[i].0.clone(), reason: String::from_str(reason) });
            }
            i = i + 1;
        }
        proof {
            assert(rs@.take(i as int) == rs@);
        }
        out
    }

    /// Every unknown requirement: unknown is never "not required".
    pub fn unknown(&self) -> (r: Vec<Unmet>)
        ensures
            unmet_for(r@, names_where(self.spec_requirements().0@, |x: Requirement| x is Unknown),
                "requirement is unknown, not NotRequired"@),
    {
        let rs = &self.requirements.0;
        let mut out: Vec<Unmet> = Vec::new();
        let mut i: usize = 0;
        while i < rs.len()
            invariant
                i <= rs@.len(),
                unmet_for(out@, names_where(rs@.take(i as int), |x: Requirement| x is Unknown),
                    "requirement is unknown, not NotRequired"@),
            decreases rs@.len() - i,
        {
            proof {
                assert(rs@.take(i + 1).drop_last() == rs@.take(i as int));
            }
            if let Requirement::Unknown = rs[i].1 {
                out.push(Unmet { requirement: rs[i].0.clone(), reason: String::from_str("requirement is unknown, not NotRequired") });
            }
            i = i + 1;
        }
        proof {
            assert(rs@.take(i as int) == rs@);
        }
        out
    }
}

/// What the owning backend observed through procfs after the target's exec:
/// history, not policy correctness or handover.
#[derive(Clone, Debug)]
pub struct KernelObservation {
    request: Request,
    pid: u32,
    instance: String,
    requirement: String,
    resource: Capacity,
    soft_bytes: u64,
    hard_bytes: u64,
    previous_soft_bytes: Option<u64>,
    previous_hard_bytes: Option<u64>,
    observer: String,
    scope: String,
    capacity_reservation: String,
    physical_handover: String,
}

/// Inert history of an observed limit; it is never application evidence.
#[derive(Clone, Debug)]
pub struct StoredLimit {
    pub pid: u32,
    pub instance: String,
    pub requirement: String,
    pub soft_bytes: u64,
    pub hard_bytes: u64,
    pub scope: String,
    pub capacity_reservation: String,
    pub physical_handover: String,
}

impl KernelObservation {
    pub closed spec fn spec_request(&self) -> Request {
        self.request
    }

    pub closed spec fn spec_pid(&self) -> u32 {
        self.pid
    }

    /// The address-space limit the owning parent observed on `pid`, set to
    /// `amount`, after `previous` (soft, hard).
    pub fn observed(request: &Request, pid: u32, requirement: String, amount: u64, previous: (Option<u64>, Option<u64>)) -> (r: Self)
        ensures
            r.spec_request().same(request),
            r.spec_pid() == pid,
    {
        KernelObservation {
            request: request.duplicate(),
            pid,
            instance: request.instance.clone(),
            requirement,
            resource: Capacity::AddressSpaceBytes,
            soft_bytes: amount,
            hard_bytes: amount,
            previous_soft_bytes: previous.0,
            previous_hard_bytes: previous.1,
            observer: String::from_str("OWNING_PARENT_PROCFS_AFTER_EXEC"),
            scope: String::from_str("PER_PROCESS_VIRTUAL_ADDRESS_SPACE_UPPER_BOUND"),
            capacity_reservation: String::from_str("NONE_CREATED"),
            physical_handover: String::from_str("NOT_ASSESSED"),
        }
    }

    pub fn stored(&self) -> (r: StoredLimit)
        ensures
            r.pid == self.spec_pid(),
    {
        StoredLimit {
            pid: self.pid,
            instance: self.instance.clone(),
            requirement: self.requirement.clone(),
            soft_bytes: self.soft_bytes,
            hard_bytes: self.hard_bytes,
            scope: self.scope.clone(),
            capacity_reservation: self.capacity_reservation.clone(),
            physical_handover: self.physical_handover.clone(),
        }
    }
}

#[derive(Clone, Debug)]
pub enum Evidence {
    /// A test double's result, never evidence of OS policy.
    Simulation { provider: String, reference: String },
    /// A trusted backend's report; it proves neither timing nor safety.
    HostReport { provider: String, reference: String },
    NoRequirements,
    /// Observed by the owning backend through procfs after exec.
    LinuxRlimit { observation: KernelObservation },
}

/// Why `evidence` cannot attest `request`, if it cannot.
pub open spec fn receipt_refusal(request: Request, evidence: Evidence) -> Option<Seq<char>> {
    let rs = request.spec_requirements().0@;
    if requirements_refusal(rs) is Some {
        requirements_refusal(rs)
    } else if names_where(rs, |x: Requirement| x is Unknown).len() > 0 {
        Some("unknown requirements cannot be admitted"@)
    } else {
        match evidence {
            Evidence::LinuxRlimit { observation } => if !observation.spec_request().same(&request) || observation.spec_pid() == 0 {
                Some("kernel observation belongs to another complete request"@)
            } else {
                None
            },
            Evidence::NoRequirements => if exists|i: int| 0 <= i < rs.len() && enforced(#[trigger] rs[i].1) {
                Some("required policy cannot be reported as no requirements"@)
            } else {
                None
            },
            Evidence::Simulation { reference, .. } => if !bounded(reference@, 1024) {
                Some("bounded application evidence reference required"@)
            } else {
                None
            },
            Evidence::HostReport { reference, .. } => if !bounded(reference@, 1024) {
                Some("bounded application evidence reference required"@)
            } else {
                None
            },
        }
    }
}

/// An attestation that a whole request was enforced.
#[derive(Clone, Debug)]
pub struct Receipt {
    request: Request,
    evidence: Evidence,
}

impl Receipt {
    pub closed spec fn spec_request(&self) -> Request {
        self.request
    }

    pub closed spec fn spec_evidence(&self) -> Evidence {
        self.evidence
    }

    /// A backend attests the entire request only after enforcing it. This
    /// binds identity and meaning; it cannot check an outside report's truth.
    pub fn reported(request: &Request, evidence: Evidence) -> (r: Result<Self, Error>)
        ensures
            receipt_refusal(*request, evidence) is None ==> (r matches Ok(x) && x.spec_request().same(request)
                && x.spec_evidence() == evidence),
            receipt_refusal(*request, evidence) matches Some(m) ==> (r matches Err(Error::Invalid(x)) && x@ == m),
    {
        if let Err(e) = request.requirements.validate() {
            return Err(e);
        }
        if request.unknown().len() > 0 {
            return Err(Error::Invalid(String::from_str("unknown requirements cannot be admitted")));
        }
        let refused = match &evidence {
            Evidence::LinuxRlimit { observation } => !observation.request.matches(request) || observation.pid == 0,
            _ => false,
        };
        if refused {
            return Err(Error::Invalid(String::from_str("kernel observation belongs to another complete request")));
        }
        let empty = match &evidence {
            Evidence::NoRequirements => request.requirements.needs_enforcement(),
            _ => false,
        };
        if empty {
            return Err(Error::Invalid(String::from_str("required policy cannot be reported as no requirements")));
        }
        let unbounded = match &evidence {
            Evidence::Simulation { reference, .. } => !is_bounded(reference, 1024),
            Evidence::HostReport { reference, .. } => !is_bounded(reference, 1024),
            _ => false,
        };
        if unbounded {
            return Err(Error::Invalid(String::from_str("bounded application evidence reference required")));
        }
        Ok(Receipt { request: request.duplicate(), evidence })
    }

    /// The receipt attests exactly this request.
    pub fn matches(&self, request: &Request) -> (r: bool)
        ensures
            r == self.spec_request().same(request),
    {
        self.request.matches(request)
    }

    pub fn stored_limit(&self) -> (r: Option<StoredLimit>)
        ensures
            r is Some <==> self.spec_evidence() is LinuxRlimit,
    {
        match &self.evidence {
            Evidence::LinuxRlimit { observation } => Some(observation.stored()),
            _ => None,
        }
    }
}

#[derive(Clone, Copy, Debug, PartialEq, Eq, Structural)]
pub enum ResourceLifetime {
    /// Application may have begun; no current policy or absence is inferred.
    Unconfirmed,
    ObservedAtStart,
    NoPolicyRemainingAfterRejectedStart,
    DirectChildExitedDescendantsUnassessed,
}

#[derive(Clone, Debug)]
pub struct ResourceHistory {
    pub lifetime: ResourceLifetime,
    pub last_observed: Option<StoredLimit>,
    pub current_enforcement: String,
    pub capacity_reservation: String,
    pub physical_handover: String,
}

impl ResourceHistory {
    pub fn unconfirmed() -> (r: Self)
        ensures
            r.lifetime == ResourceLifetime::Unconfirmed,
            r.last_observed is None,
            r.current_enforcement@ == "NOT_ESTABLISHED_BY_HISTORY"@,
            r.capacity_reservation@ == "NOT_ESTABLISHED"@,
            r.physical_handover@ == "NOT_ASSESSED"@,
    {
        ResourceHistory {
            lifetime: ResourceLifetime::Unconfirmed,
            last_observed: None,
            current_enforcement: String::from_str("NOT_ESTABLISHED_BY_HISTORY"),
            capacity_reservation: String::from_str("NOT_ESTABLISHED"),
            physical_handover: String::from_str("NOT_ASSESSED"),
        }
    }
}

/// The resource and exec boundary either admits the whole launch or
/// applies none of it.
#[derive(Debug)]
pub enum Decision {
    Admitted { pid: u32, receipt: Receipt },
    Rejected { unmet: Vec<Unmet> },
}

#[derive(Clone, Debug)]
pub enum Application {
    LegacyNotDeclared,
    NotApplied,
    /// A historical observation bound to one launch.
    ReportedAtStart { receipt: Receipt },
    Unconfirmed { reason: String },
}

#[derive(Clone, Debug)]
pub struct Status {
    /// `None` is legacy non-participation; an empty set declares none.
    pub requested: Option<Requirements>,
    pub application: Application,
    pub not_applied_reasons: Vec<Unmet>,
}

} // verus!
