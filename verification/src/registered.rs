//! Registration connected to one execution owner: how plan selections are
//! bound to accepted registrations, when a start may be assigned, what the
//! supervisor's records report to the registry, and what an explicit
//! resume needs. Durable assignment precedes OS effects.
use vstd::prelude::*;
use crate::decision::policy_refusal;
use crate::execution::{requirements_refusal, Request};
use crate::model::{Effect, Launch, Phase, Plan, Program, Record, State};
use crate::plan::{find_key, key_of};
use crate::process::SpawnFailure;
use crate::process_identity::InvestigationOutcome;
use crate::registration::{Binding, CatalogReference, Execution, ExecutionState, Observation, RegistrationState, VersionedRegistration};
use crate::registration::diagnostic::{Generation, Probe, ProviderObservation, RegistrationRef, SourceReply};
use crate::use_assessment::{contract_refusal, debug_quoted, quoted, ConditionState, ReadinessAssessment, ReadinessContract, ReadinessProfile,
    StatusObservationRequest, StatusObservationResult, UseScope, UseSubject};
use crate::{error_text, Error};

verus! {

/// Why a program's authored content cannot be referenced by a registration.
pub open spec fn catalog_refusal(p: Program) -> Option<Seq<char>> {
    let policy = match p.decision_policy {
        Some(q) => policy_refusal(q),
        None => None,
    };
    let requirements = match p.execution_requirements {
        Some(rs) => requirements_refusal(rs.0@),
        None => None,
    };
    let readiness = match p.functional_readiness {
        Some(c) => contract_refusal(c),
        None => None,
    };
    if policy is Some {
        policy
    } else if requirements is Some {
        requirements
    } else {
        readiness
    }
}

/// The reference a registration holds of `program`'s authored content,
/// whose digest is `digest`, once its policy, requirements and readiness
/// contract are each sound.
pub fn catalog_reference(program: &Program, digest: String) -> (r: Result<CatalogReference, Error>)
    ensures
        match catalog_refusal(*program) {
            Some(m) => r matches Err(Error::Invalid(x)) && x@ == m,
            None => r matches Ok(c) && c.program == program.id && c.digest == digest,
        },
{
    if let Some(policy) = &program.decision_policy {
        if let Err(m) = policy.validate() {
            return Err(Error::Invalid(m));
        }
    }
    if let Some(requirements) = &program.execution_requirements {
        match requirements.validate() {
            Err(Error::Invalid(m)) => {
                return Err(Error::Invalid(m));
            },
            Err(e) => {
                return Err(e);
            },
            Ok(()) => {},
        }
    }
    if let Some(contract) = &program.functional_readiness {
        if let Err(m) = contract.validate() {
            return Err(Error::Invalid(m));
        }
    }
    Ok(CatalogReference { program: program.id.clone(), digest })
}

/// The binding of a launch's selection, for the launch's own instance.
pub fn launch_binding(bindings: &Vec<(String, Binding)>, launch: &Launch) -> (r: Result<Binding, SpawnFailure>)
    ensures
        match key_of(bindings@, launch.selection@) {
            None => r matches Err(SpawnFailure::NotStarted(Error::Reconciliation(m))) && m@ == "launch selection has no registration binding"@,
            Some(i) => r matches Ok(b) && b == (Binding { instance: launch.instance, ..bindings@[i].1 }),
        },
{
    match find_key(bindings, &launch.selection) {
        None => Err(SpawnFailure::NotStarted(Error::Reconciliation(String::from_str("launch selection has no registration binding")))),
        Some(i) => {
            let b = bindings[i].1.duplicate();
            Ok(Binding { instance: launch.instance.clone(), ..b })
        },
    }
}

/// A start under requirements must be this launch's own request, for the
/// program its selection is registered with.
pub fn check_registered_request(bindings: &Vec<(String, Binding)>, launch: &Launch, request: &Request) -> (r: Result<(), SpawnFailure>)
    ensures
        r is Ok <==> (request.spec_instance()@ == launch.instance@ && request.spec_process()@ == launch.selection@
            && (key_of(bindings@, launch.selection@) matches Some(i) && bindings@[i].1.catalog.program@ == request.spec_program()@)),
        r matches Err(f) ==> (f matches SpawnFailure::NotStarted(Error::Reconciliation(m))
            && m@ == "execution request differs from registered launch selection/program"@),
{
    let registered = match find_key(bindings, &launch.selection) {
        Some(i) => bindings[i].1.catalog.program == *request.program(),
        None => false,
    };
    if *request.instance() != launch.instance || *request.process() != launch.selection || !registered {
        return Err(SpawnFailure::NotStarted(Error::Reconciliation(String::from_str(
            "execution request differs from registered launch selection/program"))));
    }
    Ok(())
}

/// A start without declared requirements is allowed only on the resident
/// composition, which keeps the legacy start path.
pub fn check_plain_start(legacy: bool) -> (r: Result<(), SpawnFailure>)
    ensures
        r is Ok <==> legacy,
        r matches Err(f) ==> (f matches SpawnFailure::NotStarted(Error::Invalid(m))
            && m@ == "registered execution requires explicit catalog execution requirements"@),
{
    if !legacy {
        return Err(SpawnFailure::NotStarted(Error::Invalid(String::from_str(
            "registered execution requires explicit catalog execution requirements"))));
    }
    Ok(())
}

/// The outcome of a registered start: where the registry refused the start
/// at the OS boundary, and so nothing started, its refusal is the reason.
pub fn start_result<T>(outcome: Result<T, SpawnFailure>, denial: Option<Error>) -> (r: Result<T, SpawnFailure>)
    ensures
        (outcome matches Err(SpawnFailure::NotStarted(_)) && denial is Some) ==> r == Err::<T, SpawnFailure>(SpawnFailure::NotStarted(denial->0)),
        !(outcome matches Err(SpawnFailure::NotStarted(_)) && denial is Some) ==> r == outcome,
{
    match (outcome, denial) {
        (Err(SpawnFailure::NotStarted(_)), Some(e)) => Err(SpawnFailure::NotStarted(e)),
        (outcome, _) => outcome,
    }
}

/// The index in `programs` of the one program a single-component
/// registered supervisor runs: exactly one process, a program the catalog
/// holds, non-actuating and with declared requirements.
pub fn single_program(plan: &Plan, programs: &Vec<(String, Program)>) -> (r: Result<usize, Error>)
    ensures
        plan.processes@.len() != 1 ==> (r matches Err(Error::Invalid(m)) && m@ == "registered execution supports one component per supervisor store"@),
        plan.processes@.len() == 1 ==> match key_of(programs@, plan.processes@[0].program@) {
            None => r matches Err(Error::Invalid(m)) && m@ == "registered program missing from catalog"@,
            Some(i) => if programs@[i].1.effect != Effect::NonActuating || programs@[i].1.execution_requirements is None {
                r matches Err(Error::Invalid(m))
                    && m@ == "registered execution requires non-actuating effect and explicit catalog requirements"@
            } else {
                r == Ok::<usize, Error>(i as usize)
            },
        },
{
    if plan.processes.len() != 1 {
        return Err(Error::Invalid(String::from_str("registered execution supports one component per supervisor store")));
    }
    let i = match find_key(programs, &plan.processes[0].program) {
        None => {
            return Err(Error::Invalid(String::from_str("registered program missing from catalog")));
        },
        Some(i) => i,
    };
    if programs[i].1.effect != Effect::NonActuating || programs[i].1.execution_requirements.is_none() {
        return Err(Error::Invalid(String::from_str("registered execution requires non-actuating effect and explicit catalog requirements")));
    }
    Ok(i)
}

/// The binding of the one selection of run `run` to the accepted
/// registration `component`, whose declared catalog must be `catalog`. Its
/// instance is replaced by each launch's own before assignment.
pub fn single_binding(run: &String, selection: &String, component: &String, accepted: &VersionedRegistration, catalog: &CatalogReference) -> (r: Result<Binding, Error>)
    ensures
        !accepted.registration.declaration.catalog.same(catalog) ==> (r matches Err(Error::Invalid(m))
            && m@ == "program/catalog declaration differs from accepted registration; review an explicit revision, preserve prior records"@),
        accepted.registration.declaration.catalog.same(catalog) ==> r == Ok::<Binding, Error>(Binding {
            registration: *component,
            registration_revision: accepted.revision,
            catalog: *catalog,
            run: *run,
            selection: *selection,
            instance: *component,
        }),
{
    if !accepted.registration.declaration.catalog.matches(catalog) {
        return Err(Error::Invalid(String::from_str(
            "program/catalog declaration differs from accepted registration; review an explicit revision, preserve prior records")));
    }
    Ok(Binding {
        registration: component.clone(),
        registration_revision: accepted.revision,
        catalog: catalog.duplicate(),
        run: run.clone(),
        selection: selection.clone(),
        instance: component.clone(),
    })
}

/// An explicit recovery runs in a fresh execution store, and never restarts
/// on its own.
pub fn check_resume_store(fresh: bool, plan: &Plan) -> (r: Result<(), Error>)
    ensures
        !fresh ==> (r matches Err(Error::Invalid(m))
            && m@ == "recovery requires a fresh execution store; never overwrite or reuse prior instance state"@),
        fresh && (exists|i: int| 0 <= i < plan.processes@.len() && (#[trigger] plan.processes@[i]).restart_limit != 0)
            ==> (r matches Err(Error::Invalid(m)) && m@ == "recovery starts are explicit; automatic restart budget must be zero"@),
        fresh && (forall|i: int| 0 <= i < plan.processes@.len() ==> (#[trigger] plan.processes@[i]).restart_limit == 0) ==> r is Ok,
{
    if !fresh {
        return Err(Error::Invalid(String::from_str("recovery requires a fresh execution store; never overwrite or reuse prior instance state")));
    }
    let mut i: usize = 0;
    while i < plan.processes.len()
        invariant
            fresh,
            i <= plan.processes@.len(),
            forall|k: int| 0 <= k < i ==> (#[trigger] plan.processes@[k]).restart_limit == 0,
        decreases plan.processes@.len() - i,
    {
        if plan.processes[i].restart_limit != 0 {
            return Err(Error::Invalid(String::from_str("recovery starts are explicit; automatic restart budget must be zero")));
        }
        i = i + 1;
    }
    Ok(())
}

/// The binding of a resident selection to the registration accepted for it.
pub fn resident_binding(run: &String, selection: &String, accepted: &VersionedRegistration) -> (r: Binding)
    ensures
        r == (Binding {
            registration: accepted.registration.id,
            registration_revision: accepted.revision,
            catalog: accepted.registration.declaration.catalog,
            run: *run,
            selection: *selection,
            instance: accepted.registration.id,
        }),
{
    Binding {
        registration: accepted.registration.id.clone(),
        registration_revision: accepted.revision,
        catalog: accepted.registration.declaration.catalog.duplicate(),
        run: run.clone(),
        selection: selection.clone(),
        instance: accepted.registration.id.clone(),
    }
}

/// The index in `programs` of the program of a resident resume's one
/// selection.
pub fn resume_program(plan: &Plan, programs: &Vec<(String, Program)>) -> (r: Result<usize, Error>)
    ensures
        plan.processes@.len() != 1 ==> (r matches Err(Error::Invalid(m)) && m@ == "resident resume supports one non-actuating selection"@),
        plan.processes@.len() == 1 ==> match key_of(programs@, plan.processes@[0].program@) {
            None => r matches Err(Error::Invalid(m)) && m@ == "resume program absent"@,
            Some(i) => r == Ok::<usize, Error>(i as usize),
        },
{
    if plan.processes.len() != 1 {
        return Err(Error::Invalid(String::from_str("resident resume supports one non-actuating selection")));
    }
    match find_key(programs, &plan.processes[0].program) {
        None => Err(Error::Invalid(String::from_str("resume program absent"))),
        Some(i) => Ok(i),
    }
}

/// What a cold investigation of `selection` looks at: its registration and
/// the instance of its original record, which must be of unknown ownership.
pub fn investigation_target(bindings: &Vec<(String, Binding)>, state: &State, selection: &String) -> (r: Result<(String, String), Error>)
    requires
        key_of(bindings@, selection@) is Some ==> key_of(state.records@, selection@) is Some,
    ensures
        match key_of(bindings@, selection@) {
            None => r matches Err(Error::Invalid(m)) && m@ == "investigation selection absent"@,
            Some(b) => {
                let record = state.records@[key_of(state.records@, selection@)->0].1;
                if record.phase != Phase::Unknown {
                    r matches Err(Error::Reconciliation(m)) && m@ == "cold investigation requires an UNKNOWN original record"@
                } else {
                    match record.instance {
                        None => r matches Err(Error::Reconciliation(m)) && m@ == "original instance missing"@,
                        Some(i) => r == Ok::<(String, String), Error>((bindings@[b].1.registration, i)),
                    }
                }
            },
        },
{
    let b = match find_key(bindings, selection) {
        None => {
            return Err(Error::Invalid(String::from_str("investigation selection absent")));
        },
        Some(b) => b,
    };
    let x = match find_key(&state.records, selection) {
        Some(x) => x,
        None => {
            return Err(Error::Invalid(String::from_str("investigation selection absent")));
        },
    };
    let record = &state.records[x].1;
    if record.phase != Phase::Unknown {
        return Err(Error::Reconciliation(String::from_str("cold investigation requires an UNKNOWN original record")));
    }
    match &record.instance {
        None => Err(Error::Reconciliation(String::from_str("original instance missing"))),
        Some(i) => Ok((bindings[b].1.registration.clone(), i.clone())),
    }
}

/// How an investigation outcome is written in a refusal.
pub open spec fn outcome_text(o: InvestigationOutcome) -> Seq<char> {
    match o {
        InvestigationOutcome::MatchingProcessPresent => "MatchingProcessPresent"@,
        InvestigationOutcome::OriginalNotRunning { reason } => "OriginalNotRunning { reason: "@ + debug_quoted(reason@) + " }"@,
        InvestigationOutcome::Unverifiable { reason } => "Unverifiable { reason: "@ + debug_quoted(reason@) + " }"@,
    }
}

/// An explicit resume names one selection and a new run, and needs an
/// investigation that found the original not running.
pub fn check_resume(selections: usize, next_run: &String, run: &String, outcome: &InvestigationOutcome) -> (r: Result<(), Error>)
    ensures
        (selections != 1 || next_run@ == run@) ==> (r matches Err(Error::Invalid(m)) && m@ == "resume requires one selection and a new run"@),
        !(selections != 1 || next_run@ == run@) && !(*outcome is OriginalNotRunning) ==> (r matches Err(Error::Reconciliation(m))
            && m@ == "investigation-blocks-resume: "@ + outcome_text(*outcome)),
        !(selections != 1 || next_run@ == run@) && *outcome is OriginalNotRunning ==> r is Ok,
{
    if selections != 1 || *next_run == *run {
        return Err(Error::Invalid(String::from_str("resume requires one selection and a new run")));
    }
    let head = String::from_str("investigation-blocks-resume: ");
    match outcome {
        InvestigationOutcome::OriginalNotRunning { .. } => Ok(()),
        InvestigationOutcome::MatchingProcessPresent => Err(Error::Reconciliation(head.concat("MatchingProcessPresent"))),
        InvestigationOutcome::Unverifiable { reason } => {
            let q = quoted(reason.as_str());
            let text = head.concat("Unverifiable { reason: ").concat(q.as_str()).concat(" }");
            assert(text@ =~= "investigation-blocks-resume: "@ + ("Unverifiable { reason: "@ + q@ + " }"@));
            Err(Error::Reconciliation(text))
        },
    }
}

/// A resume request already on record must name the same run and actor.
pub fn check_resume_request(request_run: &String, request_actor: &String, next_run: &String, actor: &String) -> (r: Result<(), Error>)
    ensures
        r is Ok <==> (request_run@ == next_run@ && request_actor@ == actor@),
        r matches Err(e) ==> (e matches Error::Reconciliation(m) && m@ == "existing explicit resume names another run/actor"@),
{
    if *request_run != *next_run || *request_actor != *actor {
        return Err(Error::Reconciliation(String::from_str("existing explicit resume names another run/actor")));
    }
    Ok(())
}

/// Who a use is assessed for: the selection's registration at `revision`,
/// its catalog, the run, and the record's current instance and PID.
pub fn use_subject(binding: &Binding, revision: u64, run: &String, selection: &String, record: &Record) -> (r: UseSubject)
    ensures
        r == (UseSubject {
            registration: binding.registration,
            registration_revision: revision,
            program: binding.catalog.program,
            catalog_digest: binding.catalog.digest,
            run: *run,
            selection: *selection,
            instance: record.instance,
            pid: record.pid,
        }),
{
    UseSubject {
        registration: binding.registration.clone(),
        registration_revision: revision,
        program: binding.catalog.program.clone(),
        catalog_digest: binding.catalog.digest.clone(),
        run: run.clone(),
        selection: selection.clone(),
        instance: match &record.instance {
            Some(i) => Some(i.clone()),
            None => None,
        },
        pid: record.pid,
    }
}

/// The index of the profile the author declared for `role`, if one is.
pub fn use_profile(contract: &Option<ReadinessContract>, role: &String) -> (r: Option<usize>)
    ensures
        match *contract {
            None => r is None,
            Some(c) => match key_of(c.0@, role@) {
                None => r is None,
                Some(i) => r == Some(i as usize),
            },
        },
{
    match contract {
        None => None,
        Some(c) => find_key(&c.0, role),
    }
}

/// A use without an authored profile for its role: unsupported, never
/// supplied by metadata or process liveness.
pub fn unprofiled_readiness(scope: &UseScope, subject: &UseSubject) -> (r: ReadinessAssessment)
    ensures
        r.is_unobserved(Some(*scope), Some(*subject), ConditionState::Unsupported, "catalog/readiness-profile"@,
            "author has not declared supported readiness conditions for this intended use; metadata or process liveness cannot supply them"@),
{
    ReadinessAssessment::unobserved(Some(scope.duplicate()), Some(subject.duplicate()), ConditionState::Unsupported,
        String::from_str("catalog/readiness-profile"),
        String::from_str("author has not declared supported readiness conditions for this intended use; metadata or process liveness cannot supply them"))
}

/// The message a failed status observation leaves the profile with.
pub open spec fn observation_error(e: Error) -> Seq<char> {
    "observation unavailable: "@ + error_text(e) + "; no condition is inferred satisfied"@
}

/// Assesses `profile` over what observing the status for `request` gave:
/// an observation that failed leaves every condition unevaluated, and no
/// condition is inferred satisfied.
pub fn observed_readiness(request: &StatusObservationRequest, profile: &ReadinessProfile,
    observed: Result<StatusObservationResult, Error>) -> (r: ReadinessAssessment)
    ensures
        match observed {
            Ok(result) => r.evaluated_as(*request, *profile, result),
            Err(e) => r.spec_scope() == Some(request.spec_scope()) && r.spec_subject() == Some(request.spec_subject())
                && r.left_unevaluated(*profile, ConditionState::NotEvaluated, "readiness/observation-error"@, observation_error(e)),
        },
{
    let result = match observed {
        Ok(result) => result,
        Err(e) => {
            let m = e.message();
            let reason = String::from_str("observation unavailable: ").concat(m.as_str()).concat("; no condition is inferred satisfied");
            StatusObservationResult::NotEvaluated { condition: String::from_str("readiness/observation-error"), reason }
        },
    };
    ReadinessAssessment::evaluate(request, profile, result)
}

/// What the supervisor replies as a provider source to `probe`: nothing of
/// a retired registration, of another registration, revision or catalog
/// than the probe names, or of an execution that ended or never started;
/// otherwise the readiness `assessment` of its current generation (`run`,
/// the record's instance and PID, and `configuration`).
pub fn provider_reply(probe: &Probe, current: &VersionedRegistration, record: &Record, run: &String, configuration: &String,
    assessment: ReadinessAssessment) -> (r: SourceReply)
    ensures
        current.registration.state != RegistrationState::Accepted ==> (r matches SourceReply::Missing { known_lost, reason }
            && known_lost && reason@ == "provider registration is retired"@),
        current.registration.state == RegistrationState::Accepted && !(RegistrationRef {
            registration: current.registration.id, revision: current.revision, catalog: current.registration.declaration.catalog,
        }).same(&probe.spec_provider()) ==> (r matches SourceReply::Missing { known_lost, reason } && known_lost
            && reason@ == "provider registration/revision/catalog differs; replacement requires separate consumer-side judgment"@),
        current.registration.state == RegistrationState::Accepted && (RegistrationRef {
            registration: current.registration.id, revision: current.revision, catalog: current.registration.declaration.catalog,
        }).same(&probe.spec_provider()) ==> if record.phase == Phase::Exited || record.phase == Phase::Skipped
            || record.phase == Phase::StartFailed {
            r matches SourceReply::Missing { known_lost, reason } && known_lost
                && reason@ == "owned provider execution has terminated or did not start"@
        } else {
            r matches SourceReply::Observed(o) && o.spec_request() == *probe && o.spec_assessment() == assessment
                && o.spec_provider().same(&probe.spec_provider())
                && o.spec_generation() == match (record.instance, record.pid) {
                    (Some(instance), Some(pid)) => Some(Generation { run: *run, instance, pid, configuration: *configuration }),
                    _ => None::<Generation>,
                }
        },
{
    if current.registration.state != RegistrationState::Accepted {
        return SourceReply::Missing { known_lost: true, reason: String::from_str("provider registration is retired") };
    }
    let provider = RegistrationRef::from_registration(current);
    if !provider.matches(probe.provider()) {
        return SourceReply::Missing {
            known_lost: true,
            reason: String::from_str("provider registration/revision/catalog differs; replacement requires separate consumer-side judgment"),
        };
    }
    if record.phase == Phase::Exited || record.phase == Phase::Skipped || record.phase == Phase::StartFailed {
        return SourceReply::Missing {
            known_lost: true,
            reason: String::from_str("owned provider execution has terminated or did not start"),
        };
    }
    let generation = match (&record.instance, record.pid) {
        (Some(instance), Some(pid)) => Some(Generation {
            run: run.clone(),
            instance: instance.clone(),
            pid,
            configuration: configuration.clone(),
        }),
        _ => None,
    };
    SourceReply::Observed(ProviderObservation::captured(probe, provider, generation, assessment))
}

/// What the supervisor replies when it could not observe itself: unknown,
/// not lost.
pub fn unavailable_reply(e: &Error) -> (r: SourceReply)
    ensures
        r matches SourceReply::Missing { known_lost, reason } && !known_lost
            && reason@ == "provider observation unavailable: "@ + error_text(*e),
{
    SourceReply::Missing {
        known_lost: false,
        reason: String::from_str("provider observation unavailable: ").concat(e.message().as_str()),
    }
}

/// How a supervisor phase is written in a report.
pub open spec fn phase_text(p: Phase) -> Seq<char> {
    match p {
        Phase::Pending => "Pending"@,
        Phase::Prepared => "Prepared"@,
        Phase::SpawnEntered => "SpawnEntered"@,
        Phase::Starting => "Starting"@,
        Phase::ProcessReady => "ProcessReady"@,
        Phase::Unready => "Unready"@,
        Phase::StopRequested => "StopRequested"@,
        Phase::Exited => "Exited"@,
        Phase::Skipped => "Skipped"@,
        Phase::StartFailed => "StartFailed"@,
        Phase::Unknown => "Unknown"@,
    }
}

fn phase_name(p: Phase) -> (r: &'static str)
    ensures
        r@ == phase_text(p),
{
    match p {
        Phase::Pending => "Pending",
        Phase::Prepared => "Prepared",
        Phase::SpawnEntered => "SpawnEntered",
        Phase::Starting => "Starting",
        Phase::ProcessReady => "ProcessReady",
        Phase::Unready => "Unready",
        Phase::StopRequested => "StopRequested",
        Phase::Exited => "Exited",
        Phase::Skipped => "Skipped",
        Phase::StartFailed => "StartFailed",
        Phase::Unknown => "Unknown",
    }
}

/// The execution state the registry is told for a supervisor phase.
pub open spec fn reported_state(p: Phase) -> ExecutionState {
    match p {
        Phase::Exited => ExecutionState::Exited,
        Phase::StartFailed | Phase::Skipped => ExecutionState::NotStarted,
        Phase::Starting | Phase::ProcessReady | Phase::Unready | Phase::StopRequested => ExecutionState::Running,
        _ => ExecutionState::Unknown,
    }
}

fn find_execution(executions: &Vec<Execution>, instance: &String) -> (r: Option<usize>)
    ensures
        match r {
            Some(k) => k < executions@.len() && executions@[k as int].binding.instance@ == instance@
                && forall|j: int| 0 <= j < k ==> (#[trigger] executions@[j]).binding.instance@ != instance@,
            None => forall|j: int| 0 <= j < executions@.len() ==> (#[trigger] executions@[j]).binding.instance@ != instance@,
        },
{
    let mut k: usize = 0;
    while k < executions.len()
        invariant
            k <= executions@.len(),
            forall|j: int| 0 <= j < k ==> (#[trigger] executions@[j]).binding.instance@ != instance@,
        decreases executions@.len() - k,
    {
        if executions[k].binding.instance == *instance {
            return Some(k);
        }
        k = k + 1;
    }
    None
}

/// What the supervisor's record of `selection` reports to the registry:
/// nothing without an instance; for an instance, the execution assigned to
/// it, which must exist unless the process never ran, and must be this
/// run's, this selection's, under `binding`'s catalog and registration. No
/// association is inferred and nothing is adopted.
pub fn execution_report(selection: &String, record: &Record, executions: &Vec<Execution>, binding: &Binding, run: &String)
    -> (r: Result<Option<(Binding, Observation)>, Error>)
    ensures
        record.instance is None ==> r == Ok::<Option<(Binding, Observation)>, Error>(None),
        record.instance matches Some(instance) ==> {
            if forall|j: int| 0 <= j < executions@.len() ==> (#[trigger] executions@[j]).binding.instance@ != instance@ {
                if record.phase == Phase::Prepared || record.phase == Phase::StartFailed || record.phase == Phase::Skipped {
                    r == Ok::<Option<(Binding, Observation)>, Error>(None)
                } else {
                    r matches Err(Error::Reconciliation(m)) && m@ == selection@
                        + ": saved execution has no registration assignment; no adoption or inferred association"@
                }
            } else {
                exists|k: int| 0 <= k < executions@.len() && (#[trigger] executions@[k]).binding.instance@ == instance@
                    && (forall|j: int| 0 <= j < k ==> (#[trigger] executions@[j]).binding.instance@ != instance@)
                    && {
                        let e = executions@[k].binding;
                        if e.run@ != run@ || e.selection@ != selection@ || !e.catalog.same(&binding.catalog)
                            || e.registration@ != binding.registration@ {
                            r matches Err(Error::Reconciliation(m)) && m@ == selection@
                                + ": saved execution belongs to another run/selection/catalog/registration"@
                        } else {
                            r matches Ok(Some((b, o))) && b == e && reported(o, *record)
                        }
                    }
            }
        },
{
    let instance = match &record.instance {
        None => {
            return Ok(None);
        },
        Some(i) => i,
    };
    let k = match find_execution(executions, instance) {
        None => {
            if record.phase == Phase::Prepared || record.phase == Phase::StartFailed || record.phase == Phase::Skipped {
                return Ok(None);
            }
            return Err(Error::Reconciliation(selection.clone().concat(
                ": saved execution has no registration assignment; no adoption or inferred association")));
        },
        Some(k) => k,
    };
    let e = &executions[k].binding;
    if e.run != *run || e.selection != *selection || !e.catalog.matches(&binding.catalog) || e.registration != binding.registration {
        return Err(Error::Reconciliation(selection.clone().concat(
            ": saved execution belongs to another run/selection/catalog/registration")));
    }
    Ok(Some((e.duplicate(), record_observation(record))))
}

/// What `o` reports of `record`: its phase's execution state, PID and exit
/// code, and a detail naming the phase and lifecycle error, never readiness
/// or work-use permission.
pub open spec fn reported(o: Observation, record: Record) -> bool {
    &&& o.state == reported_state(record.phase)
    &&& o.pid == record.pid
    &&& o.exit_code == record.exit_code
    &&& o.detail@ == "supervisor phase "@ + phase_text(record.phase) + "; "@ + match record.error {
        Some(x) => x@,
        None => "no additional lifecycle error"@,
    } + "; functional readiness and work-use permission are not assessed"@
}

fn record_observation(record: &Record) -> (o: Observation)
    ensures
        reported(o, *record),
{
    let state = match record.phase {
        Phase::Exited => ExecutionState::Exited,
        Phase::StartFailed | Phase::Skipped => ExecutionState::NotStarted,
        Phase::Starting | Phase::ProcessReady | Phase::Unready | Phase::StopRequested => ExecutionState::Running,
        _ => ExecutionState::Unknown,
    };
    let error: &str = match &record.error {
        Some(x) => x.as_str(),
        None => "no additional lifecycle error",
    };
    let detail = String::from_str("supervisor phase ").concat(phase_name(record.phase)).concat("; ").concat(error)
        .concat("; functional readiness and work-use permission are not assessed");
    Observation { state, pid: record.pid, exit_code: record.exit_code, detail }
}

} // verus!
