//! One execution journal per explicitly resumed run. Registration stays in
//! the resident root, and ordinary run selection never invents a journal.
//! These are the choices; the files are the backend's.
use vstd::prelude::*;
use crate::model::State;
use crate::text::same_text;
use crate::Error;

verus! {

/// The plan a stored supervisor state runs. `row` is the stored state's
/// schema and decoded state, if the store holds one.
pub fn store_plan(row: Option<(String, State)>) -> (r: Result<String, Error>)
    ensures
        row is None ==> (r matches Err(Error::Reconciliation(m)) && m@ == "existing-execution-store-has-no-plan"@),
        row matches Some((schema, state)) ==> if schema@ == "rx.supervisor-state.v1"@ {
            r == Ok::<String, Error>(state.plan)
        } else {
            r matches Err(Error::Invalid(m)) && m@ == "execution-store-schema"@
        },
{
    match row {
        None => Err(Error::Reconciliation(String::from_str("existing-execution-store-has-no-plan"))),
        Some((schema, state)) => {
            if !same_text(schema.as_str(), "rx.supervisor-state.v1") {
                return Err(Error::Invalid(String::from_str("execution-store-schema")));
            }
            Ok(state.plan)
        },
    }
}

/// Where a run's state is kept.
#[derive(Clone, Copy, Debug, PartialEq, Eq, Structural)]
pub enum Location {
    /// The original store at the root.
    Root,
    /// The run's own store under `runs/<run>`, which must exist already.
    Run,
}

/// The original store holds run `run` when it runs that plan, or when it
/// holds none, an initial run is allowed and no run stores exist; any
/// other run is looked up among the run stores.
pub fn locate(original_plan: Option<&String>, run: &String, allow_initial: bool, runs_exist: bool) -> (r: Location)
    ensures
        r == Location::Root <==> (original_plan matches Some(p) && p@ == run@)
            || (original_plan is None && allow_initial && !runs_exist),
{
    match original_plan {
        Some(p) => {
            if *p == *run {
                return Location::Root;
            }
            Location::Run
        },
        None => {
            if allow_initial && !runs_exist {
                return Location::Root;
            }
            Location::Run
        },
    }
}

/// A run store is used only when it exists and runs that very plan: an
/// unknown run never gets a store made for it. `found` is whether the run's
/// directory could be opened and, if so, the plan of its store.
pub fn check_run_store(found: Option<Option<String>>, run: &String) -> (r: Result<(), Error>)
    ensures
        r is Ok <==> (found matches Some(Some(p)) && p@ == run@),
        r matches Err(e) ==> (e matches Error::Reconciliation(m) && m@ == "unknown-run-id-no-store-created"@),
{
    match found {
        Some(Some(p)) => {
            if p == *run {
                return Ok(());
            }
            Err(Error::Reconciliation(String::from_str("unknown-run-id-no-store-created")))
        },
        _ => Err(Error::Reconciliation(String::from_str("unknown-run-id-no-store-created"))),
    }
}

/// A resumed run needs the original store, and a run store that does not
/// exist yet. `original_plan` is the original store's plan, if it has one;
/// `run_store_exists` whether the run's store file is there.
pub fn check_resume(original_plan: Option<&String>, run_store_exists: bool) -> (r: Result<(), Error>)
    ensures
        original_plan is None ==> (r matches Err(Error::Reconciliation(m)) && m@ == "original-execution-store-required"@),
        original_plan is Some && run_store_exists ==> (r matches Err(Error::Reconciliation(m))
            && m@ == "resume-requires-fresh-execution-store"@),
        original_plan is Some && !run_store_exists ==> r is Ok,
{
    if original_plan.is_none() {
        return Err(Error::Reconciliation(String::from_str("original-execution-store-required")));
    }
    if run_store_exists {
        return Err(Error::Reconciliation(String::from_str("resume-requires-fresh-execution-store")));
    }
    Ok(())
}

} // verus!
