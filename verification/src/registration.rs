//! Persistent component identity: registrations, execution assignments and
//! their observations. The decisions here are the repository's rules; the
//! repository itself only stores what they produce.
use vstd::prelude::*;
use crate::text::{join, join3};

pub mod decisions;
pub mod diagnostic;
pub mod work;
pub mod recovery;
pub mod resident;

verus! {

/// Why a repository operation was refused.
#[derive(Debug)]
pub enum StoreError {
    Invalid(String),
    Integrity(String),
    RevisionConflict(String),
    KeyConflict,
}

/// The variant and message of a refusal.
pub enum Refusal {
    Invalid(Seq<char>),
    Integrity(Seq<char>),
    RevisionConflict(Seq<char>),
    KeyConflict,
}

impl View for StoreError {
    type V = Refusal;

    open spec fn view(&self) -> Refusal {
        match *self {
            StoreError::Invalid(m) => Refusal::Invalid(m@),
            StoreError::Integrity(m) => Refusal::Integrity(m@),
            StoreError::RevisionConflict(m) => Refusal::RevisionConflict(m@),
            StoreError::KeyConflict => Refusal::KeyConflict,
        }
    }
}

/// The message a refusal carries; a key conflict carries none of its own.
pub open spec fn refusal_text(e: StoreError) -> Seq<char> {
    match e {
        StoreError::Invalid(m) => m@,
        StoreError::Integrity(m) => m@,
        StoreError::RevisionConflict(m) => m@,
        StoreError::KeyConflict => "key conflict"@,
    }
}

impl StoreError {
    pub fn text(&self) -> (r: String)
        ensures
            r@ == refusal_text(*self),
    {
        match self {
            StoreError::Invalid(m) => m.clone(),
            StoreError::Integrity(m) => m.clone(),
            StoreError::RevisionConflict(m) => m.clone(),
            StoreError::KeyConflict => String::from_str("key conflict"),
        }
    }
}

pub fn invalid(message: &str) -> (r: StoreError)
    ensures
        r@ == Refusal::Invalid(message@),
{
    StoreError::Invalid(String::from_str(message))
}

pub fn integrity(message: &str) -> (r: StoreError)
    ensures
        r@ == Refusal::Integrity(message@),
{
    StoreError::Integrity(String::from_str(message))
}

pub fn conflict(message: &str) -> (r: StoreError)
    ensures
        r@ == Refusal::RevisionConflict(message@),
{
    StoreError::RevisionConflict(String::from_str(message))
}

/// A clock-tagged instant.
#[derive(Clone, Debug)]
pub struct TimePoint {
    pub clock_id: String,
    pub ticks_ns: u64,
}

impl TimePoint {
    pub fn duplicate(&self) -> (r: Self)
        ensures
            r == *self,
    {
        TimePoint { clock_id: self.clock_id.clone(), ticks_ns: self.ticks_ns }
    }
}

/// A reference to accepted author content, never an editable policy snapshot.
#[derive(Clone, Debug)]
pub struct CatalogReference {
    pub program: String,
    pub digest: String,
}

impl CatalogReference {
    pub open spec fn same(&self, other: &CatalogReference) -> bool {
        self.program@ == other.program@ && self.digest@ == other.digest@
    }

    pub fn matches(&self, other: &CatalogReference) -> (r: bool)
        ensures
            r == self.same(other),
    {
        self.program == other.program && self.digest == other.digest
    }
}

#[derive(Clone, Debug)]
pub struct Declaration {
    pub label: String,
    pub catalog: CatalogReference,
}

#[derive(Clone, Copy, Debug, PartialEq, Eq, Structural)]
pub enum RegistrationState {
    Accepted,
    Retired,
}

#[derive(Clone, Debug)]
pub struct Registration {
    pub id: String,
    pub declaration: Declaration,
    pub state: RegistrationState,
}

impl CatalogReference {
    pub fn duplicate(&self) -> (r: Self)
        ensures
            r == *self,
    {
        CatalogReference { program: self.program.clone(), digest: self.digest.clone() }
    }
}

impl Declaration {
    pub fn duplicate(&self) -> (r: Self)
        ensures
            r == *self,
    {
        Declaration { label: self.label.clone(), catalog: self.catalog.duplicate() }
    }
}

impl Registration {
    pub fn duplicate(&self) -> (r: Self)
        ensures
            r == *self,
    {
        Registration { id: self.id.clone(), declaration: self.declaration.duplicate(), state: self.state }
    }
}

#[derive(Clone, Debug)]
pub struct VersionedRegistration {
    pub revision: u64,
    pub registration: Registration,
}

/// One execution assignment: which registration revision and catalog, and the
/// opaque run, selection and instance identities of the consumer.
#[derive(Clone, Debug)]
pub struct Binding {
    pub registration: String,
    pub registration_revision: u64,
    pub catalog: CatalogReference,
    pub run: String,
    pub selection: String,
    pub instance: String,
}

impl Binding {
    pub open spec fn same(&self, other: &Binding) -> bool {
        &&& self.registration@ == other.registration@
        &&& self.registration_revision == other.registration_revision
        &&& self.catalog.same(&other.catalog)
        &&& self.run@ == other.run@
        &&& self.selection@ == other.selection@
        &&& self.instance@ == other.instance@
    }

    pub fn matches(&self, other: &Binding) -> (r: bool)
        ensures
            r == self.same(other),
    {
        self.registration == other.registration && self.registration_revision
            == other.registration_revision && self.catalog.matches(&other.catalog) && self.run
            == other.run && self.selection == other.selection && self.instance == other.instance
    }
}

impl Binding {
    pub fn duplicate(&self) -> (r: Self)
        ensures
            r == *self,
    {
        Binding {
            registration: self.registration.clone(),
            registration_revision: self.registration_revision,
            catalog: self.catalog.duplicate(),
            run: self.run.clone(),
            selection: self.selection.clone(),
            instance: self.instance.clone(),
        }
    }
}

#[derive(Clone, Copy, Debug, PartialEq, Eq, Structural)]
pub enum ExecutionState {
    Assigned,
    Running,
    Exited,
    NotStarted,
    Unknown,
}

/// A historical report of an execution, not current process ownership.
#[derive(Clone, Debug)]
pub struct Observation {
    pub state: ExecutionState,
    pub pid: Option<u32>,
    pub exit_code: Option<i32>,
    pub detail: String,
}

impl Observation {
    pub open spec fn same(&self, other: &Observation) -> bool {
        &&& self.state == other.state
        &&& self.pid == other.pid
        &&& self.exit_code == other.exit_code
        &&& self.detail@ == other.detail@
    }

    pub fn matches(&self, other: &Observation) -> (r: bool)
        ensures
            r == self.same(other),
    {
        self.state == other.state && self.pid == other.pid && self.exit_code == other.exit_code
            && self.detail == other.detail
    }
}

#[derive(Clone, Debug)]
pub struct Execution {
    pub binding: Binding,
    pub last_observed: Observation,
}

/// `components/registration/<id>`
pub fn key(id: &String) -> (r: String)
    ensures
        r@ == "components/registration/"@ + id@,
{
    join("components/registration/", id.as_str())
}

/// `components/execution/<id>/`
pub fn execution_prefix(id: &String) -> (r: String)
    ensures
        r@ == "components/execution/"@ + id@ + "/"@,
{
    join("components/execution/", id.as_str()).concat("/")
}

/// `components/execution/<component>/<instance>`
pub fn execution_key(component: &String, instance: &String) -> (r: String)
    ensures
        r@ == "components/execution/"@ + component@ + "/"@ + instance@,
{
    join3("components/execution/", component.as_str(), instance.as_str())
}

/// A stored registration row must name the registration it is filed under.
pub fn check_registration(id: &String, stored: &Registration) -> (r: Result<(), StoreError>)
    ensures
        r is Ok <==> stored.id@ == id@,
        r matches Err(e) ==> e@ == Refusal::Integrity("component identity differs"@),
{
    if stored.id != *id {
        return Err(integrity("component identity differs"));
    }
    Ok(())
}

/// A stored execution row must belong to the component and sit under the key
/// of its own instance.
pub fn check_execution(id: &String, row_key: &String, execution: &Execution) -> (r: Result<
    (),
    StoreError,
>)
    ensures
        r is Ok <==> (execution.binding.registration@ == id@ && row_key@
            == "components/execution/"@ + id@ + "/"@ + execution.binding.instance@),
        r matches Err(e) ==> e@ == Refusal::Integrity("execution identity differs"@),
{
    if execution.binding.registration != *id || *row_key != execution_key(
        id,
        &execution.binding.instance,
    ) {
        return Err(integrity("execution identity differs"));
    }
    Ok(())
}

/// The refusal, if any, of assigning `binding` against the current
/// registration.
pub open spec fn eligibility(current: VersionedRegistration, binding: Binding) -> Option<Refusal> {
    if current.registration.state != RegistrationState::Accepted {
        Some(
            Refusal::Invalid(
                "retired component: new execution assignment prohibited; history retained"@,
            ),
        )
    } else if current.revision != binding.registration_revision {
        Some(Refusal::RevisionConflict("component declaration revision changed"@))
    } else if !current.registration.declaration.catalog.same(&binding.catalog) {
        Some(
            Refusal::Invalid("accepted catalog differs; explicit declaration review required"@),
        )
    } else {
        None
    }
}

/// New executions are assigned only to an accepted registration, at its
/// current revision and accepted catalog.
pub fn eligible(current: &VersionedRegistration, binding: &Binding) -> (r: Result<(), StoreError>)
    ensures
        r is Ok <==> eligibility(*current, *binding) is None,
        r matches Err(e) ==> eligibility(*current, *binding) == Some(e@),
{
    if current.registration.state != RegistrationState::Accepted {
        return Err(
            invalid("retired component: new execution assignment prohibited; history retained"),
        );
    }
    if current.revision != binding.registration_revision {
        return Err(conflict("component declaration revision changed"));
    }
    if !current.registration.declaration.catalog.matches(&binding.catalog) {
        return Err(invalid("accepted catalog differs; explicit declaration review required"));
    }
    Ok(())
}

/// A fresh registration is accepted under the given identity.
pub fn new_registration(id: String, declaration: Declaration) -> (r: Registration)
    ensures
        r.id == id,
        r.declaration == declaration,
        r.state == RegistrationState::Accepted,
{
    Registration { id, declaration, state: RegistrationState::Accepted }
}

/// Updating or retiring a registration: the caller must hold its current
/// revision, and a retired registration is never rewritten or reactivated.
/// Returns the registration to store and the history action.
pub fn modify(current: &VersionedRegistration, expected: u64, declaration: Option<Declaration>) -> (r:
    Result<(Registration, String), StoreError>)
    ensures
        current.revision != expected ==> (r matches Err(e) && e@ == Refusal::RevisionConflict(
            "component revision changed"@,
        )),
        current.revision == expected && current.registration.state == RegistrationState::Retired
            ==> (r matches Err(e) && e@ == Refusal::Invalid(
            "retired registration cannot be reactivated or rewritten"@,
        )),
        current.revision == expected && current.registration.state == RegistrationState::Accepted
            ==> (r matches Ok((next, action)) && next.id == current.registration.id && match declaration {
            Some(d) => next.declaration == d && next.state == RegistrationState::Accepted
                && action@ == "declaration-changed"@,
            None => next.declaration == current.registration.declaration && next.state
                == RegistrationState::Retired && action@ == "retired-new-assignments-prohibited"@,
        }),
{
    if current.revision != expected {
        return Err(conflict("component revision changed"));
    }
    if current.registration.state == RegistrationState::Retired {
        return Err(invalid("retired registration cannot be reactivated or rewritten"));
    }
    let mut next = current.registration.duplicate();
    match declaration {
        Some(d) => {
            next.declaration = d;
            Ok((next, String::from_str("declaration-changed")))
        },
        None => {
            next.state = RegistrationState::Retired;
            Ok((next, String::from_str("retired-new-assignments-prohibited")))
        },
    }
}


/// The execution recorded when a binding is assigned, before any external
/// effect; a registration is never its own execution instance.
pub fn assignment(binding: &Binding) -> (r: Result<Execution, StoreError>)
    ensures
        binding.registration@ == binding.instance@ ==> (r matches Err(e) && e@ == Refusal::Invalid(
            "registration is not an execution instance"@,
        )),
        binding.registration@ != binding.instance@ ==> (r matches Ok(e) && e.binding == *binding
            && e.last_observed.state == ExecutionState::Assigned && e.last_observed.pid is None
            && e.last_observed.exit_code is None),
{
    if binding.registration == binding.instance {
        return Err(invalid("registration is not an execution instance"));
    }
    Ok(
        Execution {
            binding: binding.duplicate(),
            last_observed: Observation {
                state: ExecutionState::Assigned,
                pid: None,
                exit_code: None,
                detail: String::from_str(
                    "assignment recorded before external effects; execution outcome not confirmed",
                ),
            },
        },
    )
}

/// Recording a new observation of an assigned execution. `Ok(None)` means the
/// same observation is already recorded and nothing is written; an observation
/// that already has a disposition (`frozen`) is never rewritten.
pub fn observe(stored: Option<&Execution>, binding: &Binding, observation: Observation, frozen: bool) -> (r:
    Result<Option<Execution>, StoreError>)
    ensures
        stored is None ==> (r matches Err(e) && e@ == Refusal::Integrity(
            "execution assignment absent"@,
        )),
        stored matches Some(s) ==> {
            &&& !s.binding.same(binding) ==> (r matches Err(e) && e@ == Refusal::Integrity(
                "execution report binding differs"@,
            ))
            &&& s.binding.same(binding) && s.last_observed.same(&observation) ==> (r matches Ok(
                None,
            ))
            &&& s.binding.same(binding) && !s.last_observed.same(&observation) && frozen ==> (
            r matches Err(e) && e@ == Refusal::Invalid(
                "original observation has a disposition; append separate evidence instead of rewriting history"@,
            ))
            &&& s.binding.same(binding) && !s.last_observed.same(&observation) && !frozen ==> (
            r matches Ok(Some(next)) && next.binding == s.binding && next.last_observed
                == observation)
        },
{
    let s = match stored {
        None => {
            return Err(integrity("execution assignment absent"));
        },
        Some(s) => s,
    };
    if !s.binding.matches(binding) {
        return Err(integrity("execution report binding differs"));
    }
    if s.last_observed.matches(&observation) {
        return Ok(None);
    }
    if frozen {
        return Err(
            invalid(
                "original observation has a disposition; append separate evidence instead of rewriting history",
            ),
        );
    }
    Ok(Some(Execution { binding: s.binding.duplicate(), last_observed: observation }))
}

/// A retired registration takes no new execution assignment, whatever the
/// binding names.
pub proof fn law_retired_registration_stays_retired(current: VersionedRegistration, binding: Binding)
    requires
        current.registration.state == RegistrationState::Retired,
    ensures
        eligibility(current, binding) == Some(Refusal::Invalid(
            "retired component: new execution assignment prohibited; history retained"@)),
{
}

} // verus!
