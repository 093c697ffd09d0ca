//! The durable lookup from resident selections to their registrations: not
//! execution ownership or permission. Labels and pids never repair a gap.
use vstd::prelude::*;
use crate::ids::fresh_id;
use crate::registration::{
    integrity, invalid, Declaration, Refusal, Registration, RegistrationState, StoreError, VersionedRegistration,
};

verus! {

/// One resident selection and the registration it resolves to.
#[derive(Clone, Debug)]
pub struct Selection {
    pub selection: String,
    pub registration: String,
}

/// The mapping may be created only together with a new, empty pair of
/// stores: a fresh execution store, a control journal at its start and an
/// empty registry.
pub fn may_bootstrap(fresh_execution_store: bool, control_head: u64, empty_registry: bool) -> (r: Result<(), StoreError>)
    ensures
        r is Ok <==> fresh_execution_store && control_head == 0 && empty_registry,
        r matches Err(e) ==> e@ == Refusal::Integrity("resident selection mapping missing; no automatic registration or adoption"@),
{
    if !fresh_execution_store || control_head != 0 || !empty_registry {
        return Err(integrity("resident selection mapping missing; no automatic registration or adoption"));
    }
    Ok(())
}

/// The first mapping: one new accepted registration per declared
/// selection, in order, each under a fresh identity.
pub fn bootstrap(declarations: &Vec<(String, Declaration)>) -> (r: (Vec<Registration>, Vec<Selection>))
    ensures
        r.0@.len() == declarations@.len(),
        r.1@.len() == declarations@.len(),
        forall|i: int| 0 <= i < declarations@.len() ==> {
            let g = #[trigger] r.0@[i];
            &&& g.id@.len() == 36
            &&& g.declaration == declarations@[i].1
            &&& g.state == RegistrationState::Accepted
            &&& r.1@[i].selection == declarations@[i].0
            &&& r.1@[i].registration == g.id
        },
{
    let mut registrations: Vec<Registration> = Vec::new();
    let mut index: Vec<Selection> = Vec::new();
    let mut i: usize = 0;
    while i < declarations.len()
        invariant
            i <= declarations@.len(),
            registrations@.len() == i,
            index@.len() == i,
            forall|k: int| 0 <= k < i ==> {
                let g = #[trigger] registrations@[k];
                &&& g.id@.len() == 36
                &&& g.declaration == declarations@[k].1
                &&& g.state == RegistrationState::Accepted
                &&& index@[k].selection == declarations@[k].0
                &&& index@[k].registration == g.id
            },
        decreases declarations@.len() - i,
    {
        let id = fresh_id();
        index.push(Selection { selection: declarations[i].0.clone(), registration: id.clone() });
        registrations.push(Registration { id, declaration: declarations[i].1.duplicate(), state: RegistrationState::Accepted });
        i = i + 1;
    }
    (registrations, index)
}

/// Why the saved mapping is refused, if it is: looking at its entries in
/// order, one repeats an earlier selection or registration; or its
/// selections are not the declared ones.
pub open spec fn index_refusal(index: Seq<Selection>, declarations: Seq<(String, Declaration)>) -> Option<Seq<char>> {
    if exists|b: int| 0 <= b < index.len() && repeats(index, b) {
        let b = choose|b: int| 0 <= b < index.len() && repeats(index, b) && forall|c: int| 0 <= c < b ==> !repeats(index, c);
        if exists|a: int| 0 <= a < b && (#[trigger] index[a]).selection@ == index[b].selection@ {
            Some("duplicate resident selection mapping"@)
        } else {
            Some("duplicate resident registration mapping"@)
        }
    } else if !same_selections(index, declarations) {
        Some("resident selection mapping missing or selection set changed; explicit review required"@)
    } else {
        None
    }
}

/// Entry `b` repeats the selection or the registration of an earlier one.
pub open spec fn repeats(index: Seq<Selection>, b: int) -> bool {
    exists|a: int| 0 <= a < b && ((#[trigger] index[a]).selection@ == index[b].selection@
        || index[a].registration@ == index[b].registration@)
}

/// The first `n` entries of the mapping name declared selections.
pub open spec fn entries_declared(index: Seq<Selection>, declarations: Seq<(String, Declaration)>, n: int) -> bool {
    forall|i: int| 0 <= i < n ==> exists|j: int| 0 <= j < declarations.len()
        && (#[trigger] declarations[j]).0@ == (#[trigger] index[i]).selection@
}

/// The first `n` declared selections are in the mapping.
pub open spec fn declarations_mapped(index: Seq<Selection>, declarations: Seq<(String, Declaration)>, n: int) -> bool {
    forall|j: int| 0 <= j < n ==> exists|i: int| 0 <= i < index.len()
        && (#[trigger] index[i]).selection@ == (#[trigger] declarations[j]).0@
}

/// The mapping names exactly the declared selections.
pub open spec fn same_selections(index: Seq<Selection>, declarations: Seq<(String, Declaration)>) -> bool {
    &&& entries_declared(index, declarations, index.len() as int)
    &&& declarations_mapped(index, declarations, declarations.len() as int)
}

fn repeated(index: &Vec<Selection>, b: usize) -> (r: Option<bool>)
    requires
        b < index@.len(),
    ensures
        r is None <==> !repeats(index@, b as int),
        r == Some(true) ==> exists|a: int| 0 <= a < b && (#[trigger] index@[a]).selection@ == index@[b as int].selection@,
        r == Some(false) ==> !exists|a: int| 0 <= a < b && (#[trigger] index@[a]).selection@ == index@[b as int].selection@,
{
    let mut a: usize = 0;
    while a < b
        invariant
            b < index@.len(),
            a <= b,
            forall|x: int| 0 <= x < a ==> (#[trigger] index@[x]).selection@ != index@[b as int].selection@,
        decreases b - a,
    {
        if index[a].selection == index[b].selection {
            return Some(true);
        }
        a = a + 1;
    }
    let mut a: usize = 0;
    while a < b
        invariant
            b < index@.len(),
            a <= b,
            forall|x: int| 0 <= x < b ==> (#[trigger] index@[x]).selection@ != index@[b as int].selection@,
            forall|x: int| 0 <= x < a ==> (#[trigger] index@[x]).registration@ != index@[b as int].registration@,
        decreases b - a,
    {
        if index[a].registration == index[b].registration {
            return Some(false);
        }
        a = a + 1;
    }
    None
}

fn declared(declarations: &Vec<(String, Declaration)>, name: &String) -> (r: bool)
    ensures
        r == exists|j: int| 0 <= j < declarations@.len() && (#[trigger] declarations@[j]).0@ == name@,
{
    let mut j: usize = 0;
    while j < declarations.len()
        invariant
            j <= declarations@.len(),
            forall|x: int| 0 <= x < j ==> (#[trigger] declarations@[x]).0@ != name@,
        decreases declarations@.len() - j,
    {
        if declarations[j].0 == *name {
            return true;
        }
        j = j + 1;
    }
    false
}

fn mapped(index: &Vec<Selection>, name: &String) -> (r: bool)
    ensures
        r == exists|i: int| 0 <= i < index@.len() && (#[trigger] index@[i]).selection@ == name@,
{
    let mut i: usize = 0;
    while i < index.len()
        invariant
            i <= index@.len(),
            forall|x: int| 0 <= x < i ==> (#[trigger] index@[x]).selection@ != name@,
        decreases index@.len() - i,
    {
        if index[i].selection == *name {
            return true;
        }
        i = i + 1;
    }
    false
}

/// The saved mapping resolves each declared selection once, and nothing
/// else.
pub fn check_index(index: &Vec<Selection>, declarations: &Vec<(String, Declaration)>) -> (r: Result<(), StoreError>)
    ensures
        match index_refusal(index@, declarations@) {
            None => r is Ok,
            Some(m) => r matches Err(e) && e@ == Refusal::Integrity(m),
        },
{
    let mut b: usize = 0;
    while b < index.len()
        invariant
            b <= index@.len(),
            forall|c: int| 0 <= c < b ==> !repeats(index@, c),
        decreases index@.len() - b,
    {
        match repeated(index, b) {
            Some(selection) => {
                proof {
                    let s = index@;
                    assert(repeats(s, b as int));
                    let w = choose|x: int| 0 <= x < s.len() && repeats(s, x) && forall|c: int| 0 <= c < x ==> !repeats(s, c);
                    assert(repeats(s, b as int) && forall|c: int| 0 <= c < b ==> !repeats(s, c));
                    if w < b {
                        assert(!repeats(s, w));
                    } else if w > b {
                        assert(!repeats(s, b as int));
                    }
                    assert(w == b);
                }
                if selection {
                    return Err(integrity("duplicate resident selection mapping"));
                }
                return Err(integrity("duplicate resident registration mapping"));
            },
            None => {},
        }
        b = b + 1;
    }
    let mut i: usize = 0;
    while i < index.len()
        invariant
            i <= index@.len(),
            forall|c: int| 0 <= c < index@.len() ==> !repeats(index@, c),
            entries_declared(index@, declarations@, i as int),
        decreases index@.len() - i,
    {
        if !declared(declarations, &index[i].selection) {
            return Err(integrity("resident selection mapping missing or selection set changed; explicit review required"));
        }
        i = i + 1;
    }
    let mut j: usize = 0;
    while j < declarations.len()
        invariant
            j <= declarations@.len(),
            forall|c: int| 0 <= c < index@.len() ==> !repeats(index@, c),
            entries_declared(index@, declarations@, index@.len() as int),
            declarations_mapped(index@, declarations@, j as int),
        decreases declarations@.len() - j,
    {
        if !mapped(index, &declarations[j].0) {
            return Err(integrity("resident selection mapping missing or selection set changed; explicit review required"));
        }
        j = j + 1;
    }
    Ok(())
}

/// A resident registration stays usable only while it is accepted with the
/// declared catalog.
pub fn check_resident(accepted: &VersionedRegistration, declaration: &Declaration) -> (r: Result<(), StoreError>)
    ensures
        accepted.registration.state == RegistrationState::Retired ==> (r matches Err(e)
            && e@ == Refusal::Invalid("resident registration retired; no replacement or reactivation"@)),
        accepted.registration.state == RegistrationState::Accepted && !accepted.registration.declaration.catalog.same(&declaration.catalog)
            ==> (r matches Err(e) && e@ == Refusal::Integrity("resident catalog digest changed; explicit declaration review required"@)),
        accepted.registration.state == RegistrationState::Accepted && accepted.registration.declaration.catalog.same(&declaration.catalog)
            ==> r is Ok,
{
    if accepted.registration.state == RegistrationState::Retired {
        return Err(invalid("resident registration retired; no replacement or reactivation"));
    }
    if !accepted.registration.declaration.catalog.matches(&declaration.catalog) {
        return Err(integrity("resident catalog digest changed; explicit declaration review required"));
    }
    Ok(())
}

/// The resident mapping to use: a saved one must be exactly the declared
/// selections, each once; without one, a first mapping is made only beside
/// a new, empty pair of stores, and it is returned with the registrations
/// to store. A missing mapping is never repaired from labels or PIDs.
pub fn resident_mapping(saved: Option<Vec<Selection>>, declarations: &Vec<(String, Declaration)>, fresh_execution_store: bool,
    control_head: u64, empty_registry: bool) -> (r: Result<(Vec<Registration>, Vec<Selection>), StoreError>)
    ensures
        match saved {
            Some(index) => match index_refusal(index@, declarations@) {
                Some(m) => r matches Err(e) && e@ == Refusal::Integrity(m),
                None => r matches Ok((registrations, kept)) && registrations@.len() == 0 && kept == index,
            },
            None => if !(fresh_execution_store && control_head == 0 && empty_registry) {
                r matches Err(e) && e@ == Refusal::Integrity("resident selection mapping missing; no automatic registration or adoption"@)
            } else {
                r matches Ok((registrations, index)) && registrations@.len() == declarations@.len()
                    && index@.len() == declarations@.len()
                    && forall|i: int| 0 <= i < declarations@.len() ==> {
                        let g = #[trigger] registrations@[i];
                        &&& g.id@.len() == 36
                        &&& g.declaration == declarations@[i].1
                        &&& g.state == RegistrationState::Accepted
                        &&& index@[i].selection == declarations@[i].0
                        &&& index@[i].registration == g.id
                    }
            },
        },
{
    match saved {
        Some(index) => {
            if let Err(e) = check_index(&index, declarations) {
                return Err(e);
            }
            Ok((Vec::new(), index))
        },
        None => {
            if let Err(e) = may_bootstrap(fresh_execution_store, control_head, empty_registry) {
                return Err(e);
            }
            Ok(bootstrap(declarations))
        },
    }
}

} // verus!
