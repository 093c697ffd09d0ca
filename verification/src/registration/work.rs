//! A work result and the consumption of its decision are written in one
//! registration transaction: both or neither.
use vstd::prelude::*;
use crate::decision::{failure_text, Reference, Receiver, Request, VerifiedDecision};
use crate::registration::{
    conflict, integrity, Execution, ExecutionState, Refusal, RegistrationState, StoreError,
    VersionedRegistration,
};
use crate::text::join;
use crate::use_assessment::UseSubject;
use crate::work_use::{Input, Report, Task};

verus! {

/// `work/result/<operation>`
pub fn result_key(operation: &String) -> (r: String)
    ensures
        r@ == "work/result/"@ + operation@,
{
    join("work/result/", operation.as_str())
}

/// `work/consumed/<component>/<decision>`
pub fn consumption_key(component: &String, decision: &String) -> (r: String)
    ensures
        r@ == "work/consumed/"@ + component@ + "/"@ + decision@,
{
    join("work/consumed/", component.as_str()).concat("/").concat(decision.as_str())
}

/// `work-use/<reason>` as an invalid request.
pub fn invalid(reason: &str) -> (r: StoreError)
    ensures
        r@ == Refusal::Invalid("work-use/"@ + reason@),
{
    StoreError::Invalid(join("work-use/", reason))
}

/// An operation is committed at most once; its history is queried, never
/// replayed. `committed` says whether a result is stored for it.
pub fn ensure_new_work(committed: bool) -> (r: Result<(), StoreError>)
    ensures
        r is Ok <==> !committed,
        r matches Err(e) ==> e@ == Refusal::RevisionConflict(
            "work-use/operation-already-committed; query history, never replay"@),
{
    if committed {
        return Err(conflict("work-use/operation-already-committed; query history, never replay"));
    }
    Ok(())
}

/// The record that a decision was spent on an operation.
#[derive(Clone, Debug)]
pub struct Consumption {
    pub operation: String,
    pub reference: Reference,
}

/// What one commit writes: the report under its result key and the
/// consumption under its consumption key, both only where nothing is yet.
#[derive(Debug)]
pub struct WorkCommit {
    pub report: Report,
    pub result_key: String,
    pub consumption_key: String,
    pub consumption: Consumption,
}

/// The registration is still the accepted revision and author content the
/// subject names.
pub open spec fn registration_current(current: VersionedRegistration, subject: UseSubject) -> bool {
    &&& current.registration.state == RegistrationState::Accepted
    &&& current.revision == subject.registration_revision
    &&& current.registration.declaration.catalog.program@ == subject.program@
    &&& current.registration.declaration.catalog.digest@ == subject.catalog_digest@
}

/// The stored execution is still the running one the subject names.
pub open spec fn execution_current(current: VersionedRegistration, execution: Execution, subject: UseSubject, task: Task) -> bool {
    &&& execution.binding.run@ == subject.run@
    &&& execution.binding.selection@ == task.selection@
    &&& execution.binding.registration_revision == subject.registration_revision
    &&& execution.binding.catalog.same(&current.registration.declaration.catalog)
    &&& execution.last_observed.state == ExecutionState::Running
    &&& execution.last_observed.pid == subject.pid
}

/// Why committing `task` is refused, if it is, in the order of the checks.
pub open spec fn commit_refusal(
    task: Task,
    input: Input,
    guard: Option<crate::decision::Failure>,
    current: VersionedRegistration,
    execution: Option<Execution>,
    later: Option<crate::decision::Failure>,
) -> Option<Refusal> {
    if guard is Some {
        Some(Refusal::Invalid("work-use/"@ + failure_text(guard->0)))
    } else if current.registration.id@ != input.subject.registration@ {
        Some(Refusal::Integrity("component identity differs"@))
    } else if !registration_current(current, input.subject) {
        Some(Refusal::Invalid("work-use/current-registration-changed"@))
    } else if input.subject.instance is None {
        Some(Refusal::Invalid("work-use/instance-missing"@))
    } else if execution is None {
        Some(Refusal::Invalid("work-use/execution-missing"@))
    } else if !execution_current(current, execution->0, input.subject, task) {
        Some(Refusal::Invalid("work-use/current-execution-changed"@))
    } else if later is Some {
        Some(Refusal::Invalid("work-use/"@ + failure_text(later->0)))
    } else {
        None
    }
}

/// Commits a support-gap result and spends its decision. The decision must
/// pass `request`'s check at `receiver` at `now_ms` and again at `later_ms`,
/// the registration must still be the accepted one the input names, and
/// `execution`, the row stored for the input's instance, must still be the
/// running execution it names. `input_digest` is the digest of the input.
pub fn commit_work(
    task: &Task,
    input: &Input,
    request: &Request,
    proof: &VerifiedDecision,
    receiver: &Receiver,
    now_ms: u64,
    later_ms: u64,
    current: &VersionedRegistration,
    execution: Option<&Execution>,
    input_digest: String,
) -> (r: Result<WorkCommit, StoreError>)
    ensures
        ({
            let refusal = commit_refusal(*task, *input,
                crate::decision::request_check(*request, *proof, *receiver, now_ms, now_ms), *current,
                match execution { Some(e) => Some(*e), None => None },
                crate::decision::request_check(*request, *proof, *receiver, later_ms, later_ms));
            match r {
                Err(e) => refusal == Some(e@),
                Ok(c) => refusal is None && {
                    &&& c.report.task == *task
                    &&& c.report.registration == input.subject.registration
                    &&& c.report.instance == input.subject.instance->0
                    &&& c.report.decision == proof.spec_reference()
                    &&& c.report.input_digest == input_digest
                    &&& c.result_key@ == "work/result/"@ + task.operation@
                    &&& c.consumption_key@ == "work/consumed/"@ + input.subject.registration@ + "/"@ + proof.spec_reference().decision@
                    &&& c.consumption.operation == task.operation
                    &&& c.consumption.reference == proof.spec_reference()
                },
            }
        }),
{
    let reference = match request.check(proof, receiver, now_ms, now_ms) {
        Err(f) => {
            return Err(StoreError::Invalid(join("work-use/", f.message().as_str())));
        },
        Ok(r) => r,
    };
    let subject = &input.subject;
    if current.registration.id != subject.registration {
        return Err(integrity("component identity differs"));
    }
    if current.registration.state != RegistrationState::Accepted || current.revision != subject.registration_revision
        || current.registration.declaration.catalog.program != subject.program
        || current.registration.declaration.catalog.digest != subject.catalog_digest {
        proof {
            reveal_strlit("current-registration-changed");
            reveal_strlit("work-use/");
            reveal_strlit("work-use/current-registration-changed");
            assert("work-use/"@ + "current-registration-changed"@ =~= "work-use/current-registration-changed"@);
        }
        return Err(invalid("current-registration-changed"));
    }
    if subject.instance.is_none() {
        proof {
            reveal_strlit("instance-missing");
            reveal_strlit("work-use/");
            reveal_strlit("work-use/instance-missing");
            assert("work-use/"@ + "instance-missing"@ =~= "work-use/instance-missing"@);
        }
        return Err(invalid("instance-missing"));
    }
    let execution = match execution {
        None => {
            proof {
                reveal_strlit("execution-missing");
                reveal_strlit("work-use/");
                reveal_strlit("work-use/execution-missing");
                assert("work-use/"@ + "execution-missing"@ =~= "work-use/execution-missing"@);
            }
            return Err(invalid("execution-missing"));
        },
        Some(e) => e,
    };
    if execution.binding.run != subject.run || execution.binding.selection != task.selection
        || execution.binding.registration_revision != subject.registration_revision
        || !execution.binding.catalog.matches(&current.registration.declaration.catalog)
        || execution.last_observed.state != ExecutionState::Running || execution.last_observed.pid != subject.pid {
        proof {
            reveal_strlit("current-execution-changed");
            reveal_strlit("work-use/");
            reveal_strlit("work-use/current-execution-changed");
            assert("work-use/"@ + "current-execution-changed"@ =~= "work-use/current-execution-changed"@);
        }
        return Err(invalid("current-execution-changed"));
    }
    let report = match input.report(task, reference, input_digest) {
        Err(e) => {
            return Err(StoreError::Invalid(join("work-use/", e.message().as_str())));
        },
        Ok(report) => report,
    };
    let result_key = result_key(&task.operation);
    let consumption_key = consumption_key(&report.registration, &report.decision.decision);
    let consumption = Consumption { operation: task.operation.clone(), reference: report.decision.duplicate() };
    if let Err(f) = request.check(proof, receiver, later_ms, later_ms) {
        return Err(StoreError::Invalid(join("work-use/", f.message().as_str())));
    }
    Ok(WorkCommit { report, result_key, consumption_key, consumption })
}

/// A stored work result, found under the key of `operation`, must be the
/// result of that operation for `component`. History only, never permission.
pub fn recorded_work(component: &String, operation: &String, row: Option<Report>) -> (r: Result<Report, StoreError>)
    ensures
        row is None ==> (r matches Err(e) && e@ == Refusal::Invalid("work-use/result-not-found"@)),
        row matches Some(v) ==> if v.registration@ == component@ && v.task.operation@ == operation@ {
            (r matches Ok(x) && x == v)
        } else {
            (r matches Err(e) && e@ == Refusal::Integrity("work result identity differs"@))
        },
{
    match row {
        None => {
            proof {
                reveal_strlit("result-not-found");
                reveal_strlit("work-use/");
                reveal_strlit("work-use/result-not-found");
                assert("work-use/"@ + "result-not-found"@ =~= "work-use/result-not-found"@);
            }
            Err(invalid("result-not-found"))
        },
        Some(value) => {
            if value.registration != *component || value.task.operation != *operation {
                return Err(integrity("work result identity differs"));
            }
            Ok(value)
        },
    }
}

} // verus!
