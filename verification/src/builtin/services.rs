//! Guarded RX services: their configuration pins, their initializers, and
//! which of them a plan may select together.
use vstd::prelude::*;
use crate::builtin::{digest_of, lookup, Inventory};
use crate::model::{Effect, GuardedStatusBinding, Plan, Process, Program, ReadyProbe};
use crate::plan::{path_join, path_joined, texts};
use crate::plan::{find_key, id_marked, is_ready, key_of, lemma_count_bound, lemma_count_mark, marked_count, ready_in};
use crate::text::same_text;
use crate::Error;

verus! {

/// A configuration file and the digest it must have.
#[derive(Clone, Debug)]
pub struct ConfigurationPin {
    pub path: String,
    pub sha256: String,
}

/// The scope a guarded service's configuration must declare.
#[derive(Clone, Debug)]
pub enum GuardedScope {
    Host { installation: String, host: String, installation_identity: String },
    Executor { installation: String, cell: String, service_journal: String, configuration_digest: String },
}

#[derive(Clone, Debug)]
pub struct ServiceInput {
    pub configuration: ConfigurationPin,
    pub scope: GuardedScope,
}

#[derive(Clone, Copy, Debug, PartialEq, Eq, Structural)]
pub enum ServiceRole {
    Host,
    Executor,
}

/// Made from a named deployment input and a fixed release binary, never
/// from site arguments. Files and cells are keyed, each key once.
#[derive(Clone, Debug)]
pub struct Initializer {
    pub id: String,
    pub role: ServiceRole,
    pub executable: String,
    pub executable_sha256: String,
    pub files: Vec<(String, String)>,
    pub arguments: Vec<String>,
    pub data_directory: String,
    pub runtime_directory: Option<String>,
    pub installation: String,
    pub principal: String,
    pub cells: Vec<(String, String)>,
}

/// 1..=32 service configurations.
pub fn check_service_count(count: usize) -> (r: Result<(), Error>)
    ensures
        r is Ok <==> 1 <= count <= 32,
        r matches Err(e) ==> (e matches Error::Invalid(m) && m@ == "service configuration count must be 1..32"@),
{
    if count == 0 || count > 32 {
        return Err(Error::Invalid(String::from_str("service configuration count must be 1..32")));
    }
    Ok(())
}

pub open spec fn label_char(c: char) -> bool {
    ('a' <= c <= 'z') || ('A' <= c <= 'Z') || ('0' <= c <= '9') || c == '_' || c == '-'
}

/// A flat service label: at most 64 bytes of ASCII letters, digits,
/// underscores and hyphens.
pub open spec fn service_label(name: Seq<char>) -> bool {
    name.len() <= 64 && forall|i: int| 0 <= i < name.len() ==> label_char(#[trigger] name[i])
}

pub fn check_service_name(name: &String) -> (r: Result<(), Error>)
    ensures
        r is Ok <==> service_label(name@),
        r matches Err(e) ==> (e matches Error::Invalid(m) && m@ == "service name must be a flat alphanumeric, underscore or hyphen label"@),
{
    let v = crate::text::chars_of(name.as_str());
    let mut ok = v.len() <= 64;
    let mut i: usize = 0;
    while ok && i < v.len()
        invariant
            v@ == name@,
            i <= v@.len(),
            ok ==> v@.len() <= 64 && forall|k: int| 0 <= k < i ==> label_char(#[trigger] v@[k]),
            !ok ==> !service_label(name@),
        decreases v@.len() - i,
    {
        let c = v[i];
        if !(('a' <= c && c <= 'z') || ('A' <= c && c <= 'Z') || ('0' <= c && c <= '9') || c == '_' || c == '-') {
            ok = false;
            assert(!label_char(name@[i as int]));
        }
        i = i + 1;
    }
    if !ok {
        return Err(Error::Invalid(String::from_str("service name must be a flat alphanumeric, underscore or hyphen label")));
    }
    Ok(())
}

/// What `Path::starts_with` gives: `path` begins with the components of
/// `base`.
pub uninterp spec fn path_prefixed(path: Seq<char>, base: Seq<char>) -> bool;

/// std's `Path::starts_with`, which compares whole components. The
/// contract names the result and states no more.
#[verifier::external_body]
fn path_starts_with(path: &str, base: &str) -> (r: bool)
    ensures
        r == path_prefixed(path@, base@),
{
    std::path::Path::new(path).starts_with(base)
}

/// How many processes of the plan run program `id`.
pub open spec fn runs_of(ps: Seq<Process>, id: Seq<char>) -> nat
    decreases ps.len(),
{
    if ps.len() == 0 {
        0
    } else {
        runs_of(ps.drop_last(), id) + if ps.last().program@ == id { 1nat } else { 0nat }
    }
}

/// `(installation, principal)` already has an owner.
pub open spec fn owned(owners: Seq<(String, String)>, installation: Seq<char>, principal: Seq<char>) -> bool {
    exists|i: int| 0 <= i < owners.len() && (#[trigger] owners[i]).0@ == installation && owners[i].1@ == principal
}

/// Claims the Executor cells `cs[k..]` of `installation`; `None` when one
/// is already claimed.
pub open spec fn claim_cells(claimed: Seq<(String, String)>, installation: String, cs: Seq<(String, String)>, k: int) -> Option<Seq<(String, String)>>
    decreases cs.len() - k,
{
    if k < 0 || k >= cs.len() {
        Some(claimed)
    } else if owned(claimed, installation@, cs[k].0@) {
        None
    } else {
        claim_cells(claimed.push((installation, cs[k].0)), installation, cs, k + 1)
    }
}

/// Some root lies inside `path`, or `path` inside it.
pub open spec fn overlaps(roots: Seq<String>, path: Seq<char>) -> bool {
    exists|i: int| 0 <= i < roots.len() && (path_prefixed(path, (#[trigger] roots[i])@) || path_prefixed(roots[i]@, path))
}

/// Claims the roots `paths[k..]`; `None` when one overlaps a claimed root.
pub open spec fn claim_roots(roots: Seq<String>, paths: Seq<String>, k: int) -> Option<Seq<String>>
    decreases paths.len() - k,
{
    if k < 0 || k >= paths.len() {
        Some(roots)
    } else if overlaps(roots, paths[k]@) {
        None
    } else {
        claim_roots(roots.push(paths[k]), paths, k + 1)
    }
}

/// The data directory of a service, then its runtime directory if it has one.
pub open spec fn roots_of(c: Initializer) -> Seq<String> {
    match c.runtime_directory {
        Some(r) => seq![c.data_directory, r],
        None => seq![c.data_directory],
    }
}

pub open spec fn owner_message() -> Seq<char> {
    "each selected service/principal has one process owner"@
}

pub open spec fn cell_message() -> Seq<char> {
    "each installation/cell has one selected Executor service"@
}

pub open spec fn roots_message() -> Seq<char> {
    "selected service data/runtime roots overlap"@
}

/// The selection pass over `cs[k..]`: a service is selected when the plan
/// runs its program; then it must be the one process of its program, the
/// only owner of its installation and principal, the only Executor of each
/// of its cells, and its roots must not overlap any selected root. The
/// result is what was claimed and the positions of the selected services.
pub open spec fn select_from(
    ps: Seq<Process>,
    cs: Seq<Initializer>,
    k: int,
    owners: Seq<(String, String)>,
    cells: Seq<(String, String)>,
    roots: Seq<String>,
    chosen: Seq<int>,
) -> Result<(Seq<(String, String)>, Seq<(String, String)>, Seq<String>, Seq<int>), Seq<char>>
    decreases cs.len() - k,
{
    if k < 0 || k >= cs.len() {
        Ok((owners, cells, roots, chosen))
    } else {
        let c = cs[k];
        let n = runs_of(ps, c.id@);
        if n == 0 {
            select_from(ps, cs, k + 1, owners, cells, roots, chosen)
        } else if n != 1 || owned(owners, c.installation@, c.principal@) {
            Err(owner_message())
        } else {
            let next_cells = if c.role == ServiceRole::Executor { claim_cells(cells, c.installation, c.cells@, 0) } else { Some(cells) };
            match next_cells {
                None => Err(cell_message()),
                Some(cl) => match claim_roots(roots, roots_of(c), 0) {
                    None => Err(roots_message()),
                    Some(rl) => select_from(ps, cs, k + 1, owners.push((c.installation, c.principal)), cl, rl, chosen.push(k)),
                },
            }
        }
    }
}

fn count_runs(ps: &Vec<Process>, id: &String) -> (r: usize)
    ensures
        r == runs_of(ps@, id@),
{
    let mut n: usize = 0;
    let mut i: usize = 0;
    while i < ps.len()
        invariant
            i <= ps@.len(),
            n == runs_of(ps@.take(i as int), id@),
            n <= i,
        decreases ps@.len() - i,
    {
        proof {
            assert(ps@.take(i + 1).drop_last() == ps@.take(i as int));
        }
        if ps[i].program == *id {
            n = n + 1;
        }
        i = i + 1;
    }
    proof {
        assert(ps@.take(i as int) == ps@);
    }
    n
}

fn is_owned(owners: &Vec<(String, String)>, installation: &String, principal: &String) -> (r: bool)
    ensures
        r == owned(owners@, installation@, principal@),
{
    let mut i: usize = 0;
    while i < owners.len()
        invariant
            i <= owners@.len(),
            forall|k: int| 0 <= k < i ==> !((#[trigger] owners@[k]).0@ == installation@ && owners@[k].1@ == principal@),
        decreases owners@.len() - i,
    {
        if owners[i].0 == *installation && owners[i].1 == *principal {
            return true;
        }
        i = i + 1;
    }
    false
}

fn overlapping(roots: &Vec<String>, path: &String) -> (r: bool)
    ensures
        r == overlaps(roots@, path@),
{
    let mut i: usize = 0;
    while i < roots.len()
        invariant
            i <= roots@.len(),
            forall|k: int| 0 <= k < i ==> !(path_prefixed(path@, (#[trigger] roots@[k])@) || path_prefixed(roots@[k]@, path@)),
        decreases roots@.len() - i,
    {
        if path_starts_with(path.as_str(), roots[i].as_str()) || path_starts_with(roots[i].as_str(), path.as_str()) {
            return true;
        }
        i = i + 1;
    }
    false
}

fn claim_cells_exec(claimed: &mut Vec<(String, String)>, installation: &String, cs: &Vec<(String, String)>) -> (r: bool)
    ensures
        match claim_cells(old(claimed)@, *installation, cs@, 0) {
            Some(x) => r && final(claimed)@ == x,
            None => !r,
        },
{
    let ghost start = claimed@;
    let mut k: usize = 0;
    while k < cs.len()
        invariant
            k <= cs@.len(),
            start == old(claimed)@,
            claim_cells(start, *installation, cs@, 0) == claim_cells(claimed@, *installation, cs@, k as int),
        decreases cs@.len() - k,
    {
        if is_owned(claimed, installation, &cs[k].0) {
            assert(owned(claimed@, installation@, cs@[k as int].0@));
            assert(claim_cells(claimed@, *installation, cs@, k as int) is None);
            return false;
        }
        claimed.push((installation.clone(), cs[k].0.clone()));
        k = k + 1;
    }
    true
}

fn claim_roots_exec(roots: &mut Vec<String>, paths: &Vec<String>) -> (r: bool)
    ensures
        match claim_roots(old(roots)@, paths@, 0) {
            Some(x) => r && final(roots)@ == x,
            None => !r,
        },
{
    let ghost start = roots@;
    let mut k: usize = 0;
    while k < paths.len()
        invariant
            k <= paths@.len(),
            start == old(roots)@,
            claim_roots(start, paths@, 0) == claim_roots(roots@, paths@, k as int),
        decreases paths@.len() - k,
    {
        if overlapping(roots, &paths[k]) {
            return false;
        }
        roots.push(paths[k].clone());
        k = k + 1;
    }
    true
}

fn roots_vec(c: &Initializer) -> (r: Vec<String>)
    ensures
        r@ == roots_of(*c),
{
    let mut v: Vec<String> = Vec::new();
    v.push(c.data_directory.clone());
    if let Some(rt) = &c.runtime_directory {
        v.push(rt.clone());
    }
    proof {
        assert(v@ =~= roots_of(*c));
    }
    v
}

/// The first process of the plan that runs program `id`.
pub open spec fn run_from(ps: Seq<Process>, id: Seq<char>, k: int) -> Option<int>
    decreases ps.len() - k,
{
    if k < 0 || k >= ps.len() {
        None
    } else if ps[k].program@ == id {
        Some(k)
    } else {
        run_from(ps, id, k + 1)
    }
}

pub proof fn lemma_run_from(ps: Seq<Process>, id: Seq<char>, k: int)
    requires
        0 <= k,
    ensures
        run_from(ps, id, k) matches Some(i) ==> k <= i < ps.len() && ps[i].program@ == id,
        run_from(ps, id, k) is None ==> forall|i: int| k <= i < ps.len() ==> (#[trigger] ps[i]).program@ != id,
    decreases ps.len() - k,
{
    if k < ps.len() {
        lemma_run_from(ps, id, k + 1);
    }
}

proof fn lemma_runs_positive(ps: Seq<Process>, id: Seq<char>)
    ensures
        runs_of(ps, id) > 0 <==> run_from(ps, id, 0) is Some,
    decreases ps.len(),
{
    lemma_run_from(ps, id, 0);
    if ps.len() > 0 {
        lemma_runs_positive(ps.drop_last(), id);
        lemma_run_from(ps.drop_last(), id, 0);
        if runs_of(ps, id) > 0 {
            if ps.last().program@ != id {
                let i = run_from(ps.drop_last(), id, 0)->0;
                assert(ps[i] == ps.drop_last()[i]);
            } else {
                assert(ps[ps.len() - 1].program@ == id);
            }
        } else {
            assert forall|i: int| 0 <= i < ps.len() implies (#[trigger] ps[i]).program@ != id by {
                if i < ps.len() - 1 {
                    assert(ps[i] == ps.drop_last()[i]);
                }
            }
        }
    }
}

/// `p` depends on the process `id`.
pub open spec fn depends(p: Process, id: Seq<char>) -> bool {
    exists|t: int| 0 <= t < p.depends_on@.len() && (#[trigger] p.depends_on@[t])@ == id
}

/// `c` is a Host of `e`'s installation that manages `cell`.
pub open spec fn hosts_for(c: Initializer, e: Initializer, cell: Seq<char>) -> bool {
    c.role == ServiceRole::Host && c.installation@ == e.installation@ && key_of(c.cells@, cell) is Some
}

pub open spec fn host_message() -> Seq<char> {
    "Executor must depend on every matching Host with the same cell definition"@
}

/// The Hosts among `chosen[h..]` that manage `cell` for `e` all define it as
/// `definition`, and `pe`, the process of `e`, depends on each of their
/// processes.
pub open spec fn hosts_agree(ps: Seq<Process>, cs: Seq<Initializer>, chosen: Seq<int>, e: Initializer, pe: Process,
    cell: Seq<char>, definition: Seq<char>, h: int) -> bool
    decreases chosen.len() - h,
{
    if h < 0 || h >= chosen.len() {
        true
    } else {
        let c = cs[chosen[h]];
        if hosts_for(c, e, cell) && (c.cells@[key_of(c.cells@, cell)->0].1@ != definition
            || !depends(pe, ps[run_from(ps, c.id@, 0)->0].id@)) {
            false
        } else {
            hosts_agree(ps, cs, chosen, e, pe, cell, definition, h + 1)
        }
    }
}

/// Why the cells `e.cells[j..]` of Executor `e` (run by `pe`) are refused.
pub open spec fn cells_refusal(ps: Seq<Process>, cs: Seq<Initializer>, chosen: Seq<int>, e: Initializer, pe: Process, j: int) -> Option<Seq<char>>
    decreases e.cells@.len() - j,
{
    if j < 0 || j >= e.cells@.len() {
        None
    } else {
        let cell = e.cells@[j].0@;
        if !(exists|h: int| 0 <= h < chosen.len() && hosts_for(cs[#[trigger] chosen[h]], e, cell)) {
            Some("selected Executor requires its managed Host providers"@)
        } else if !hosts_agree(ps, cs, chosen, e, pe, cell, e.cells@[j].1@, 0) {
            Some(host_message())
        } else {
            cells_refusal(ps, cs, chosen, e, pe, j + 1)
        }
    }
}

/// Why the selected Executors `chosen[k..]` are refused.
pub open spec fn executors_refusal(ps: Seq<Process>, cs: Seq<Initializer>, chosen: Seq<int>, k: int) -> Option<Seq<char>>
    decreases chosen.len() - k,
{
    if k < 0 || k >= chosen.len() {
        None
    } else {
        let e = cs[chosen[k]];
        if e.role == ServiceRole::Executor && cells_refusal(ps, cs, chosen, e, ps[run_from(ps, e.id@, 0)->0], 0) is Some {
            cells_refusal(ps, cs, chosen, e, ps[run_from(ps, e.id@, 0)->0], 0)
        } else {
            executors_refusal(ps, cs, chosen, k + 1)
        }
    }
}

pub open spec fn status_program() -> Seq<char> {
    "rx/status-http"@
}

/// Some selected Host does not depend on every diagnostics process.
pub open spec fn diagnostics_refused(ps: Seq<Process>, cs: Seq<Initializer>, chosen: Seq<int>) -> bool {
    exists|h: int, d: int| 0 <= h < chosen.len() && 0 <= d < ps.len() && cs[chosen[h]].role == ServiceRole::Host
        && (#[trigger] ps[d]).program@ == status_program()
        && !depends(ps[run_from(ps, (#[trigger] cs[chosen[h]]).id@, 0)->0], ps[d].id@)
}

/// Why a plan's selection of `commands` is refused before the order of the
/// selected initializers is looked at, if it is.
pub open spec fn service_plan_refusal(plan: Plan, commands: Seq<Initializer>) -> Option<Seq<char>> {
    let ps = plan.processes@;
    match select_from(ps, commands, 0, Seq::empty(), Seq::empty(), Seq::empty(), Seq::empty()) {
        Err(m) => Some(m),
        Ok((_, _, _, chosen)) => if chosen.len() == 0 {
            Some("no configured service selected"@)
        } else if executors_refusal(ps, commands, chosen, 0) is Some {
            executors_refusal(ps, commands, chosen, 0)
        } else if diagnostics_refused(ps, commands, chosen) {
            Some("diagnostics must remain available until managed Hosts stop"@)
        } else {
            None
        },
    }
}

/// The positions of the selected services.
pub open spec fn selection(plan: Plan, commands: Seq<Initializer>) -> Seq<int> {
    match select_from(plan.processes@, commands, 0, Seq::empty(), Seq::empty(), Seq::empty(), Seq::empty()) {
        Ok((_, _, _, chosen)) => chosen,
        Err(_) => Seq::empty(),
    }
}

/// Process `ps[i]` runs one of the selected services.
pub open spec fn selected_process(ps: Seq<Process>, cs: Seq<Initializer>, chosen: Seq<int>, i: int) -> bool {
    exists|h: int| 0 <= h < chosen.len() && (#[trigger] cs[chosen[h]]).id@ == ps[i].program@
}

pub open spec fn ints(v: Seq<usize>) -> Seq<int> {
    v.map_values(|x: usize| x as int)
}

/// Every selected position names a service whose program the plan runs
/// exactly once.
pub open spec fn chosen_ok(ps: Seq<Process>, cs: Seq<Initializer>, chosen: Seq<int>) -> bool {
    forall|h: int| 0 <= h < chosen.len() ==> 0 <= #[trigger] chosen[h] < cs.len() && runs_of(ps, cs[chosen[h]].id@) == 1
}

fn first_run(ps: &Vec<Process>, id: &String) -> (r: Option<usize>)
    ensures
        r matches Some(i) ==> run_from(ps@, id@, 0) == Some(i as int) && i < ps@.len(),
        r is None ==> run_from(ps@, id@, 0) is None,
{
    let mut k: usize = 0;
    while k < ps.len()
        invariant
            k <= ps@.len(),
            run_from(ps@, id@, 0) == run_from(ps@, id@, k as int),
        decreases ps@.len() - k,
    {
        if ps[k].program == *id {
            return Some(k);
        }
        k = k + 1;
    }
    None
}

fn depends_on(p: &Process, id: &String) -> (r: bool)
    ensures
        r == depends(*p, id@),
{
    let mut t: usize = 0;
    while t < p.depends_on.len()
        invariant
            t <= p.depends_on@.len(),
            forall|u: int| 0 <= u < t ==> (#[trigger] p.depends_on@[u])@ != id@,
        decreases p.depends_on@.len() - t,
    {
        if p.depends_on[t] == *id {
            return true;
        }
        t = t + 1;
    }
    false
}

/// The run of a selected service.
fn run_of(ps: &Vec<Process>, cs: &Vec<Initializer>, c: usize) -> (r: usize)
    requires
        c < cs@.len(),
        runs_of(ps@, cs@[c as int].id@) == 1,
    ensures
        run_from(ps@, cs@[c as int].id@, 0) == Some(r as int),
        r < ps@.len(),
{
    proof {
        lemma_runs_positive(ps@, cs@[c as int].id@);
    }
    match first_run(ps, &cs[c].id) {
        Some(i) => i,
        None => {
            assert(false);
            0
        },
    }
}

fn is_host_for(c: &Initializer, e: &Initializer, cell: &String) -> (r: bool)
    ensures
        r == hosts_for(*c, *e, cell@),
{
    c.role == ServiceRole::Host && c.installation == e.installation && find_key(&c.cells, cell).is_some()
}

fn agree(ps: &Vec<Process>, cs: &Vec<Initializer>, chosen: &Vec<usize>, e: &Initializer, pe: &Process, cell: &String, definition: &String) -> (r: bool)
    requires
        chosen_ok(ps@, cs@, ints(chosen@)),
    ensures
        r == hosts_agree(ps@, cs@, ints(chosen@), *e, *pe, cell@, definition@, 0),
{
    let mut h: usize = 0;
    while h < chosen.len()
        invariant
            h <= chosen@.len(),
            chosen_ok(ps@, cs@, ints(chosen@)),
            hosts_agree(ps@, cs@, ints(chosen@), *e, *pe, cell@, definition@, 0)
                == hosts_agree(ps@, cs@, ints(chosen@), *e, *pe, cell@, definition@, h as int),
        decreases chosen@.len() - h,
    {
        let x = chosen[h];
        assert(ints(chosen@)[h as int] == x as int);
        let c = &cs[x];
        if is_host_for(c, e, cell) {
            let j = match find_key(&c.cells, cell) {
                Some(j) => j,
                None => {
                    assert(false);
                    0
                },
            };
            let provider = run_of(ps, cs, x);
            if c.cells[j].1 != *definition || !depends_on(pe, &ps[provider].id) {
                return false;
            }
        }
        h = h + 1;
    }
    true
}

fn some_host(cs: &Vec<Initializer>, chosen: &Vec<usize>, e: &Initializer, cell: &String) -> (r: bool)
    requires
        forall|h: int| 0 <= h < chosen@.len() ==> (#[trigger] chosen@[h]) < cs@.len(),
    ensures
        r == exists|h: int| 0 <= h < ints(chosen@).len() && hosts_for(cs@[#[trigger] ints(chosen@)[h]], *e, cell@),
{
    let mut h: usize = 0;
    while h < chosen.len()
        invariant
            h <= chosen@.len(),
            forall|q: int| 0 <= q < chosen@.len() ==> (#[trigger] chosen@[q]) < cs@.len(),
            forall|q: int| 0 <= q < h ==> !hosts_for(cs@[#[trigger] ints(chosen@)[q]], *e, cell@),
        decreases chosen@.len() - h,
    {
        assert(ints(chosen@)[h as int] == chosen@[h as int] as int);
        if is_host_for(&cs[chosen[h]], e, cell) {
            return true;
        }
        h = h + 1;
    }
    false
}

fn cells_ok(ps: &Vec<Process>, cs: &Vec<Initializer>, chosen: &Vec<usize>, e: &Initializer, pe: &Process) -> (r: Result<(), Error>)
    requires
        chosen_ok(ps@, cs@, ints(chosen@)),
    ensures
        match cells_refusal(ps@, cs@, ints(chosen@), *e, *pe, 0) {
            None => r is Ok,
            Some(m) => r matches Err(Error::Invalid(x)) && x@ == m,
        },
{
    proof {
        assert forall|h: int| 0 <= h < chosen@.len() implies (#[trigger] chosen@[h]) < cs@.len() by {
            assert(ints(chosen@)[h] == chosen@[h] as int);
        }
    }
    let mut j: usize = 0;
    while j < e.cells.len()
        invariant
            j <= e.cells@.len(),
            chosen_ok(ps@, cs@, ints(chosen@)),
            forall|h: int| 0 <= h < chosen@.len() ==> (#[trigger] chosen@[h]) < cs@.len(),
            cells_refusal(ps@, cs@, ints(chosen@), *e, *pe, 0) == cells_refusal(ps@, cs@, ints(chosen@), *e, *pe, j as int),
        decreases e.cells@.len() - j,
    {
        if !some_host(cs, chosen, e, &e.cells[j].0) {
            return Err(Error::Invalid(String::from_str("selected Executor requires its managed Host providers")));
        }
        if !agree(ps, cs, chosen, e, pe, &e.cells[j].0, &e.cells[j].1) {
            return Err(Error::Invalid(String::from_str("Executor must depend on every matching Host with the same cell definition")));
        }
        j = j + 1;
    }
    Ok(())
}

fn executors_ok(ps: &Vec<Process>, cs: &Vec<Initializer>, chosen: &Vec<usize>) -> (r: Result<(), Error>)
    requires
        chosen_ok(ps@, cs@, ints(chosen@)),
    ensures
        match executors_refusal(ps@, cs@, ints(chosen@), 0) {
            None => r is Ok,
            Some(m) => r matches Err(Error::Invalid(x)) && x@ == m,
        },
{
    let mut k: usize = 0;
    while k < chosen.len()
        invariant
            k <= chosen@.len(),
            chosen_ok(ps@, cs@, ints(chosen@)),
            executors_refusal(ps@, cs@, ints(chosen@), 0) == executors_refusal(ps@, cs@, ints(chosen@), k as int),
        decreases chosen@.len() - k,
    {
        let x = chosen[k];
        assert(ints(chosen@)[k as int] == x as int);
        if cs[x].role == ServiceRole::Executor {
            let pe = run_of(ps, cs, x);
            if let Err(e) = cells_ok(ps, cs, chosen, &cs[x], &ps[pe]) {
                return Err(e);
            }
        }
        k = k + 1;
    }
    Ok(())
}

fn diagnostics_ok(ps: &Vec<Process>, cs: &Vec<Initializer>, chosen: &Vec<usize>) -> (r: bool)
    requires
        chosen_ok(ps@, cs@, ints(chosen@)),
    ensures
        r == !diagnostics_refused(ps@, cs@, ints(chosen@)),
{
    let mut h: usize = 0;
    while h < chosen.len()
        invariant
            h <= chosen@.len(),
            chosen_ok(ps@, cs@, ints(chosen@)),
            forall|a: int, d: int| 0 <= a < h && 0 <= d < ps@.len() && cs@[ints(chosen@)[a]].role == ServiceRole::Host
                && (#[trigger] ps@[d]).program@ == status_program()
                ==> depends(ps@[run_from(ps@, (#[trigger] cs@[ints(chosen@)[a]]).id@, 0)->0], ps@[d].id@),
        decreases chosen@.len() - h,
    {
        let x = chosen[h];
        assert(ints(chosen@)[h as int] == x as int);
        if cs[x].role == ServiceRole::Host {
            let px = run_of(ps, cs, x);
            let mut d: usize = 0;
            while d < ps.len()
                invariant
                    d <= ps@.len(),
                    h < chosen@.len(),
                    x == chosen@[h as int],
                    x < cs@.len(),
                    cs@[x as int].role == ServiceRole::Host,
                    ints(chosen@)[h as int] == x as int,
                    run_from(ps@, cs@[x as int].id@, 0) == Some(px as int),
                    px < ps@.len(),
                    forall|q: int| 0 <= q < d && (#[trigger] ps@[q]).program@ == status_program() ==> depends(ps@[px as int], ps@[q].id@),
                decreases ps@.len() - d,
            {
                if same_text(ps[d].program.as_str(), "rx/status-http") && !depends_on(&ps[px], &ps[d].id) {
                    proof {
                        reveal_strlit("rx/status-http");
                        let c = cs@[ints(chosen@)[h as int]];
                        assert(c == cs@[x as int]);
                        assert(ps@[d as int].program@ == status_program());
                        assert(!depends(ps@[run_from(ps@, c.id@, 0)->0], ps@[d as int].id@));
                        assert(cs@[ints(chosen@)[h as int]].role == ServiceRole::Host);
                    }
                    return false;
                }
                proof {
                    reveal_strlit("rx/status-http");
                }
                d = d + 1;
            }
        }
        h = h + 1;
    }
    true
}

impl Initializer {
    /// A copy with the same fields.
    pub fn duplicate(&self) -> (r: Self)
        ensures
            r.copies(self),
    {
        Initializer {
            id: self.id.clone(),
            role: self.role,
            executable: self.executable.clone(),
            executable_sha256: self.executable_sha256.clone(),
            files: crate::plan::copy_pairs(&self.files),
            arguments: crate::text::copy_texts(&self.arguments),
            data_directory: self.data_directory.clone(),
            runtime_directory: match &self.runtime_directory {
                Some(d) => Some(d.clone()),
                None => None,
            },
            installation: self.installation.clone(),
            principal: self.principal.clone(),
            cells: crate::plan::copy_pairs(&self.cells),
        }
    }

    pub open spec fn copies(&self, other: &Initializer) -> bool {
        &&& self.id == other.id
        &&& self.role == other.role
        &&& self.executable == other.executable
        &&& self.executable_sha256 == other.executable_sha256
        &&& self.files@ == other.files@
        &&& self.arguments@ == other.arguments@
        &&& self.data_directory == other.data_directory
        &&& self.runtime_directory == other.runtime_directory
        &&& self.installation == other.installation
        &&& self.principal == other.principal
        &&& self.cells@ == other.cells@
    }
}

/// The first selected service that runs program `id`.
pub open spec fn chosen_for(cs: Seq<Initializer>, chosen: Seq<int>, id: Seq<char>, h: int) -> Option<int>
    decreases chosen.len() - h,
{
    if h < 0 || h >= chosen.len() {
        None
    } else if cs[chosen[h]].id@ == id {
        Some(h)
    } else {
        chosen_for(cs, chosen, id, h + 1)
    }
}

proof fn lemma_chosen_for(cs: Seq<Initializer>, chosen: Seq<int>, id: Seq<char>, h: int)
    requires
        0 <= h,
    ensures
        chosen_for(cs, chosen, id, h) matches Some(x) ==> h <= x < chosen.len() && cs[chosen[x]].id@ == id,
        chosen_for(cs, chosen, id, h) is None ==> forall|x: int| h <= x < chosen.len() ==> cs[#[trigger] chosen[x]].id@ != id,
    decreases chosen.len() - h,
{
    if h < chosen.len() {
        lemma_chosen_for(cs, chosen, id, h + 1);
    }
}

fn find_chosen(cs: &Vec<Initializer>, chosen: &Vec<usize>, id: &String) -> (r: Option<usize>)
    requires
        forall|h: int| 0 <= h < chosen@.len() ==> (#[trigger] chosen@[h]) < cs@.len(),
    ensures
        r matches Some(h) ==> chosen_for(cs@, ints(chosen@), id@, 0) == Some(h as int) && h < chosen@.len(),
        r is None ==> chosen_for(cs@, ints(chosen@), id@, 0) is None,
{
    let mut h: usize = 0;
    while h < chosen.len()
        invariant
            h <= chosen@.len(),
            forall|q: int| 0 <= q < chosen@.len() ==> (#[trigger] chosen@[q]) < cs@.len(),
            chosen_for(cs@, ints(chosen@), id@, 0) == chosen_for(cs@, ints(chosen@), id@, h as int),
        decreases chosen@.len() - h,
    {
        assert(ints(chosen@)[h as int] == chosen@[h as int] as int);
        if cs[chosen[h]].id == *id {
            proof {
                lemma_chosen_for(cs@, ints(chosen@), id@, h as int);
            }
            return Some(h);
        }
        h = h + 1;
    }
    None
}

/// `ordered` lists the selected services to initialize in an order in which
/// each selected process comes after the selected processes it depends on.
/// `pos` gives the plan process of each listed service.
pub open spec fn initialization_ordered(ps: Seq<Process>, cs: Seq<Initializer>, chosen: Seq<int>, ordered: Seq<Initializer>, pos: Seq<usize>) -> bool {
    &&& pos.len() == ordered.len()
    &&& forall|a: int, b: int| 0 <= a < b < pos.len() ==> pos[a] != pos[b]
    &&& forall|k: int| 0 <= k < pos.len() ==> (#[trigger] pos[k]) < ps.len() && selected_process(ps, cs, chosen, pos[k] as int)
        && chosen_for(cs, chosen, ps[pos[k] as int].program@, 0) is Some
        && ordered[k].copies(&cs[chosen[chosen_for(cs, chosen, ps[pos[k] as int].program@, 0)->0]])
    &&& forall|k: int, t: int| 0 <= k < pos.len() && 0 <= t < ps[pos[k] as int].depends_on@.len() ==> #[trigger] started_before(ps, cs, chosen, pos, k, t)
}

/// The `t`-th dependency of the `k`-th listed process is a process that is
/// not selected, or one listed before it.
pub open spec fn started_before(ps: Seq<Process>, cs: Seq<Initializer>, chosen: Seq<int>, pos: Seq<usize>, k: int, t: int) -> bool {
    exists|j: int| 0 <= j < ps.len() && (#[trigger] ps[j]).id@ == ps[pos[k] as int].depends_on@[t]@
        && (!selected_process(ps, cs, chosen, j) || exists|q: int| 0 <= q < k && pos[q] == j)
}

/// What is left when no further selected process can be initialized:
/// every unselected process is marked, and no unmarked process has all its
/// dependencies marked.
pub open spec fn initialization_stuck(ps: Seq<Process>, cs: Seq<Initializer>, chosen: Seq<int>) -> bool {
    exists|marks: Seq<bool>| #![trigger marks.len()] marks.len() == ps.len()
        && (forall|i: int| 0 <= i < ps.len() && !selected_process(ps, cs, chosen, i) ==> marks[i])
        && (exists|i: int| 0 <= i < ps.len() && selected_process(ps, cs, chosen, i) && !marks[i])
        && forall|i: int| 0 <= i < ps.len() && !marks[i] ==> !ready_in(ps, marks, #[trigger] ps[i])
}

/// The selected services have distinct ids.
pub open spec fn chosen_distinct(cs: Seq<Initializer>, chosen: Seq<int>) -> bool {
    forall|a: int, b: int| 0 <= a < b < chosen.len() ==> (#[trigger] cs[chosen[a]]).id@ != (#[trigger] cs[chosen[b]]).id@
}

/// Distinct values below `b` number at most `b`.
proof fn lemma_distinct_below(f: Seq<int>, b: int)
    requires
        0 <= b,
        forall|k: int| 0 <= k < f.len() ==> 0 <= #[trigger] f[k] < b,
        forall|a: int, c: int| 0 <= a < c < f.len() ==> f[a] != f[c],
    ensures
        f.len() <= b,
{
    assert forall|a: int, c: int| 0 <= a < f.len() && 0 <= c < f.len() && a != c implies f[a] != f[c] by {
        if a < c {
            assert(f[a] != f[c]);
        } else {
            assert(f[c] != f[a]);
        }
    }
    assert(f.no_duplicates());
    f.unique_seq_to_set();
    vstd::set_lib::lemma_int_range(0, b);
    let range = vstd::set_lib::set_int_range(0, b);
    assert forall|x: int| f.to_set().contains(x) implies range.contains(x) by {
        let k = choose|k: int| 0 <= k < f.len() && f[k] == x;
        assert(0 <= f[k] < b);
    }
    vstd::set_lib::lemma_len_subset(f.to_set(), range);
}

/// A program that the plan runs once runs in one process.
proof fn lemma_runs_unique(ps: Seq<Process>, id: Seq<char>, x: int, y: int)
    requires
        runs_of(ps, id) == 1,
        0 <= x < ps.len(),
        0 <= y < ps.len(),
        ps[x].program@ == id,
        ps[y].program@ == id,
    ensures
        x == y,
    decreases ps.len(),
{
    let last = ps.len() - 1;
    if x != y {
        if x == last || y == last {
            let other = if x == last { y } else { x };
            assert(ps.drop_last()[other].program@ == id);
            lemma_runs_positive(ps.drop_last(), id);
            lemma_run_from(ps.drop_last(), id, 0);
            assert(runs_of(ps.drop_last(), id) == 0);
            assert(false);
        } else {
            assert(ps.drop_last()[x].program@ == id);
            assert(ps.drop_last()[y].program@ == id);
            if ps.last().program@ == id {
                lemma_runs_positive(ps.drop_last(), id);
                lemma_run_from(ps.drop_last(), id, 0);
                assert(false);
            }
            lemma_runs_unique(ps.drop_last(), id, x, y);
        }
    }
}

/// Distinct selected processes number at most the selected services.
proof fn lemma_pos_bound(ps: Seq<Process>, cs: Seq<Initializer>, chosen: Seq<int>, pos: Seq<usize>)
    requires
        chosen_ok(ps, cs, chosen),
        forall|a: int, b: int| 0 <= a < b < pos.len() ==> pos[a] != pos[b],
        forall|k: int| 0 <= k < pos.len() ==> (#[trigger] pos[k]) < ps.len() && selected_process(ps, cs, chosen, pos[k] as int),
    ensures
        pos.len() <= chosen.len(),
{
    let f = Seq::new(pos.len(), |k: int| choose|h: int| 0 <= h < chosen.len() && (#[trigger] cs[chosen[h]]).id@ == ps[pos[k] as int].program@);
    assert forall|k: int| 0 <= k < f.len() implies 0 <= #[trigger] f[k] < chosen.len() && cs[chosen[f[k]]].id@ == ps[pos[k] as int].program@ by {
        assert(selected_process(ps, cs, chosen, pos[k] as int));
    }
    assert forall|a: int, b: int| 0 <= a < b < f.len() implies f[a] != f[b] by {
        if f[a] == f[b] {
            let id = cs[chosen[f[a]]].id@;
            assert(runs_of(ps, id) == 1);
            lemma_runs_unique(ps, id, pos[a] as int, pos[b] as int);
            assert(pos[a] != pos[b]);
        }
    }
    lemma_distinct_below(f, chosen.len() as int);
}

/// A list that holds every selected process holds at least as many entries
/// as there are selected services with distinct ids.
proof fn lemma_cover_bound(ps: Seq<Process>, cs: Seq<Initializer>, chosen: Seq<int>, pos: Seq<usize>)
    requires
        chosen_ok(ps, cs, chosen),
        chosen_distinct(cs, chosen),
        forall|i: int| 0 <= i < ps.len() && selected_process(ps, cs, chosen, i) ==> exists|k: int| 0 <= k < pos.len() && #[trigger] pos[k] == i,
    ensures
        chosen.len() <= pos.len(),
{
    let runner = |h: int| run_from(ps, cs[chosen[h]].id@, 0)->0;
    assert forall|h: int| 0 <= h < chosen.len() implies 0 <= #[trigger] runner(h) < ps.len()
        && ps[runner(h)].program@ == cs[chosen[h]].id@ && selected_process(ps, cs, chosen, runner(h)) by {
        lemma_runs_positive(ps, cs[chosen[h]].id@);
        lemma_run_from(ps, cs[chosen[h]].id@, 0);
    }
    let f = Seq::new(chosen.len(), |h: int| choose|k: int| 0 <= k < pos.len() && pos[k] == runner(h));
    assert forall|h: int| 0 <= h < f.len() implies 0 <= #[trigger] f[h] < pos.len() && pos[f[h]] == runner(h) by {
        assert(selected_process(ps, cs, chosen, runner(h)));
        assert(exists|k: int| 0 <= k < pos.len() && #[trigger] pos[k] == runner(h));
    }
    assert forall|a: int, c: int| 0 <= a < c < f.len() implies f[a] != f[c] by {
        assert(pos[f[a]] == runner(a));
        assert(pos[f[c]] == runner(c));
        assert(cs[chosen[a]].id@ != cs[chosen[c]].id@);
    }
    lemma_distinct_below(f, pos.len() as int);
}

/// A dependency cycle among the selected services leaves no order to
/// initialize them in: once no further selected service can start, every
/// order that puts each selected service after the selected services it
/// depends on leaves some selected service out.
pub proof fn law_stuck_services_have_no_order(ps: Seq<Process>, cs: Seq<Initializer>, chosen: Seq<int>, ordered: Seq<Initializer>, pos: Seq<usize>)
    requires
        initialization_stuck(ps, cs, chosen),
        initialization_ordered(ps, cs, chosen, ordered, pos),
    ensures
        exists|i: int| 0 <= i < ps.len() && selected_process(ps, cs, chosen, i) && forall|k: int| 0 <= k < pos.len() ==> pos[k] != i,
{
    let marks = choose|marks: Seq<bool>| #![trigger marks.len()] marks.len() == ps.len()
        && (forall|i: int| 0 <= i < ps.len() && !selected_process(ps, cs, chosen, i) ==> marks[i])
        && (exists|i: int| 0 <= i < ps.len() && selected_process(ps, cs, chosen, i) && !marks[i])
        && forall|i: int| 0 <= i < ps.len() && !marks[i] ==> !ready_in(ps, marks, #[trigger] ps[i]);
    let i0 = choose|i: int| 0 <= i < ps.len() && selected_process(ps, cs, chosen, i) && !marks[i];
    if exists|p: int| 0 <= p < pos.len() && pos[p] == i0 {
        let p = choose|p: int| 0 <= p < pos.len() && pos[p] == i0;
        let k = crate::plan::lemma_first_unmarked(pos, marks, p);
        let x = pos[k] as int;
        assert forall|t: int| 0 <= t < ps[x].depends_on@.len() implies id_marked(ps, marks, (#[trigger] ps[x].depends_on@[t])@) by {
            assert(started_before(ps, cs, chosen, pos, k, t));
            let j = choose|j: int| 0 <= j < ps.len() && (#[trigger] ps[j]).id@ == ps[pos[k] as int].depends_on@[t]@
                && (!selected_process(ps, cs, chosen, j) || exists|q: int| 0 <= q < k && pos[q] == j);
            if selected_process(ps, cs, chosen, j) {
                let q = choose|q: int| 0 <= q < k && pos[q] == j;
                assert(marks[pos[q] as int]);
            }
            assert(marks[j]);
        }
        assert(ready_in(ps, marks, ps[x]));
        assert(false);
    }
    assert(forall|k: int| 0 <= k < pos.len() ==> pos[k] != i0);
}

/// Returns only the selected services, in initialization dependency order.
/// The plan must select at least one service; each selected program runs
/// in exactly one process, each installation and principal and each
/// Executor cell has one owner, data and runtime roots never nest, every
/// selected Executor depends on each selected Host of its installation that
/// manages one of its cells, with the same definition, and every selected
/// Host depends on each diagnostics process.
pub fn validate_service_plan(plan: &Plan, commands: &Vec<Initializer>) -> (r: Result<Vec<Initializer>, Error>)
    ensures
        service_plan_refusal(*plan, commands@) matches Some(m) ==> (r matches Err(Error::Invalid(x)) && x@ == m),
        service_plan_refusal(*plan, commands@) is None ==> (r matches Ok(ordered)
            && ordered@.len() == selection(*plan, commands@).len()
            && exists|pos: Seq<usize>| #![trigger pos.len()] initialization_ordered(plan.processes@, commands@, selection(*plan, commands@), ordered@, pos))
            || (r matches Err(Error::Invalid(x)) && x@ == "managed initializer dependency cycle"@
                && (initialization_stuck(plan.processes@, commands@, selection(*plan, commands@))
                || !chosen_distinct(commands@, selection(*plan, commands@)))),
{
    let ps = &plan.processes;
    let ghost start = select_from(ps@, commands@, 0, Seq::empty(), Seq::empty(), Seq::empty(), Seq::empty());
    let mut owners: Vec<(String, String)> = Vec::new();
    let mut cells: Vec<(String, String)> = Vec::new();
    let mut roots: Vec<String> = Vec::new();
    let mut chosen: Vec<usize> = Vec::new();
    proof {
        assert(ints(chosen@) =~= Seq::<int>::empty());
    }
    let mut k: usize = 0;
    while k < commands.len()
        invariant
            k <= commands@.len(),
            ps == &plan.processes,
            start == select_from(ps@, commands@, 0, Seq::empty(), Seq::empty(), Seq::empty(), Seq::empty()),
            start == select_from(ps@, commands@, k as int, owners@, cells@, roots@, ints(chosen@)),
            chosen_ok(ps@, commands@, ints(chosen@)),
        decreases commands@.len() - k,
    {
        let c = &commands[k];
        let n = count_runs(ps, &c.id);
        if n != 0 {
            if n != 1 || is_owned(&owners, &c.installation, &c.principal) {
                return Err(Error::Invalid(String::from_str("each selected service/principal has one process owner")));
            }
            if c.role == ServiceRole::Executor {
                if !claim_cells_exec(&mut cells, &c.installation, &c.cells) {
                    return Err(Error::Invalid(String::from_str("each installation/cell has one selected Executor service")));
                }
            }
            let paths = roots_vec(c);
            if !claim_roots_exec(&mut roots, &paths) {
                return Err(Error::Invalid(String::from_str("selected service data/runtime roots overlap")));
            }
            owners.push((c.installation.clone(), c.principal.clone()));
            let ghost before = ints(chosen@);
            chosen.push(k);
            proof {
                assert(ints(chosen@) =~= before.push(k as int));
            }
        }
        k = k + 1;
    }
    if chosen.len() == 0 {
        return Err(Error::Invalid(String::from_str("no configured service selected")));
    }
    if let Err(e) = executors_ok(ps, commands, &chosen) {
        return Err(e);
    }
    if !diagnostics_ok(ps, commands, &chosen) {
        return Err(Error::Invalid(String::from_str("diagnostics must remain available until managed Hosts stop")));
    }
    assert(selection(*plan, commands@) == ints(chosen@));
    order_initializers(ps, commands, &chosen)
}

fn order_initializers(ps: &Vec<Process>, cs: &Vec<Initializer>, chosen: &Vec<usize>) -> (r: Result<Vec<Initializer>, Error>)
    requires
        chosen_ok(ps@, cs@, ints(chosen@)),
    ensures
        (r matches Ok(ordered) && ordered@.len() == chosen@.len()
            && exists|pos: Seq<usize>| #![trigger pos.len()] initialization_ordered(ps@, cs@, ints(chosen@), ordered@, pos))
            || (r matches Err(Error::Invalid(x)) && x@ == "managed initializer dependency cycle"@
                && (initialization_stuck(ps@, cs@, ints(chosen@)) || !chosen_distinct(cs@, ints(chosen@)))),
{
    let ghost g = ints(chosen@);
    proof {
        assert forall|h: int| 0 <= h < chosen@.len() implies (#[trigger] chosen@[h]) < cs@.len() by {
            assert(g[h] == chosen@[h] as int);
        }
    }
    let n = ps.len();
    let mut marks: Vec<bool> = Vec::new();
    let mut z: usize = 0;
    while z < n
        invariant
            z <= n,
            n == ps@.len(),
            g == ints(chosen@),
            forall|h: int| 0 <= h < chosen@.len() ==> (#[trigger] chosen@[h]) < cs@.len(),
            marks@.len() == z,
            forall|i: int| 0 <= i < z ==> marks@[i] == !selected_process(ps@, cs@, g, i),
        decreases n - z,
    {
        let found = find_chosen(cs, chosen, &ps[z].program);
        proof {
            lemma_chosen_for(cs@, g, ps@[z as int].program@, 0);
            if found is None {
                assert forall|h: int| 0 <= h < g.len() implies (#[trigger] cs@[g[h]]).id@ != ps@[z as int].program@ by {}
            }
        }
        marks.push(found.is_none());
        z = z + 1;
    }
    let ghost initial = marked_count(marks@);
    let mut ordered: Vec<Initializer> = Vec::new();
    let mut pos: Vec<usize> = Vec::new();
    loop
        invariant
            n == ps@.len(),
            g == ints(chosen@),
            chosen_ok(ps@, cs@, g),
            forall|h: int| 0 <= h < chosen@.len() ==> (#[trigger] chosen@[h]) < cs@.len(),
            marks@.len() == n,
            forall|i: int| 0 <= i < n && !selected_process(ps@, cs@, g, i) ==> marks@[i],
            pos@.len() + initial == marked_count(marks@),
            initialization_ordered(ps@, cs@, g, ordered@, pos@),
            forall|k: int| 0 <= k < pos@.len() ==> marks@[#[trigger] pos@[k] as int],
            forall|i: int| 0 <= i < n && marks@[i] && selected_process(ps@, cs@, g, i) ==> exists|k: int| 0 <= k < pos@.len() && #[trigger] pos@[k] == i,
        decreases n - marked_count(marks@),
    {
        proof {
            lemma_count_bound(marks@);
        }
        if ordered.len() == chosen.len() {
            return Ok(ordered);
        }
        let before = ordered.len();
        let ghost round = marks@;
        let mut i: usize = 0;
        while i < n
            invariant
                n == ps@.len(),
                i <= n,
                g == ints(chosen@),
                chosen_ok(ps@, cs@, g),
                forall|h: int| 0 <= h < chosen@.len() ==> (#[trigger] chosen@[h]) < cs@.len(),
                marks@.len() == n,
                forall|x: int| 0 <= x < n && !selected_process(ps@, cs@, g, x) ==> marks@[x],
                before <= ordered@.len(),
                pos@.len() + initial == marked_count(marks@),
                initialization_ordered(ps@, cs@, g, ordered@, pos@),
                forall|k: int| 0 <= k < pos@.len() ==> marks@[#[trigger] pos@[k] as int],
                forall|x: int| 0 <= x < n && marks@[x] && selected_process(ps@, cs@, g, x) ==> exists|k: int| 0 <= k < pos@.len() && #[trigger] pos@[k] == x,
                ordered@.len() == before ==> marks@ == round,
                ordered@.len() == before ==> forall|x: int| 0 <= x < i && !marks@[x] ==> !ready_in(ps@, marks@, #[trigger] ps@[x]),
            decreases n - i,
        {
            if !marks[i] && is_ready(ps, &marks, i) {
                let found = find_chosen(cs, chosen, &ps[i].program);
                proof {
                    lemma_chosen_for(cs@, g, ps@[i as int].program@, 0);
                }
                match found {
                    None => {
                        assert(!selected_process(ps@, cs@, g, i as int));
                    },
                    Some(h) => {
                        let ghost old_pos = pos@;
                        let ghost old_ordered = ordered@;
                        let ghost old_marks = marks@;
                        proof {
                            assert(g[h as int] == chosen@[h as int] as int);
                            lemma_count_mark(marks@, i as int);
                            assert(initialization_ordered(ps@, cs@, g, old_ordered, old_pos));
                        }
                        ordered.push(cs[chosen[h]].duplicate());
                        marks.set(i, true);
                        pos.push(i);
                        proof {
                            assert(selected_process(ps@, cs@, g, i as int));
                            assert forall|a: int, b: int| 0 <= a < b < pos@.len() implies pos@[a] != pos@[b] by {
                                if b == pos@.len() - 1 {
                                    assert(old_marks[old_pos[a] as int]);
                                }
                            }
                            assert forall|k: int| 0 <= k < pos@.len() implies (#[trigger] pos@[k]) < ps@.len() && selected_process(ps@, cs@, g, pos@[k] as int)
                                && chosen_for(cs@, g, ps@[pos@[k] as int].program@, 0) is Some
                                && ordered@[k].copies(&cs@[g[chosen_for(cs@, g, ps@[pos@[k] as int].program@, 0)->0]]) by {
                                if k < old_pos.len() {
                                    assert(pos@[k] == old_pos[k]);
                                    assert(ordered@[k] == old_ordered[k]);
                                }
                            }
                            assert forall|k: int, t: int| 0 <= k < pos@.len() && 0 <= t < ps@[pos@[k] as int].depends_on@.len() implies
                                #[trigger] started_before(ps@, cs@, g, pos@, k, t) by {
                                if k < old_pos.len() {
                                    assert(pos@[k] == old_pos[k]);
                                    assert(started_before(ps@, cs@, g, old_pos, k, t));
                                    let d = ps@[old_pos[k] as int].depends_on@[t]@;
                                    let j = choose|j: int| 0 <= j < ps@.len() && (#[trigger] ps@[j]).id@ == d
                                        && (!selected_process(ps@, cs@, g, j) || exists|q: int| 0 <= q < k && old_pos[q] == j);
                                    if selected_process(ps@, cs@, g, j) {
                                        let q = choose|q: int| 0 <= q < k && old_pos[q] == j;
                                        assert(pos@[q] == j);
                                    }
                                    assert(ps@[j].id@ == ps@[pos@[k] as int].depends_on@[t]@);
                                } else {
                                    assert(pos@[k] == i);
                                    let d = ps@[i as int].depends_on@[t];
                                    assert(id_marked(ps@, old_marks, d@));
                                    let j = choose|j: int| 0 <= j < ps@.len() && old_marks[j] && (#[trigger] ps@[j]).id@ == d@;
                                    if selected_process(ps@, cs@, g, j) {
                                        let q = choose|q: int| 0 <= q < old_pos.len() && #[trigger] old_pos[q] == j;
                                        assert(pos@[q] == j);
                                    }
                                    assert(ps@[j].id@ == ps@[pos@[k] as int].depends_on@[t]@);
                                }
                            }
                            assert forall|x: int| 0 <= x < n && marks@[x] && selected_process(ps@, cs@, g, x) implies exists|k: int| 0 <= k < pos@.len() && #[trigger] pos@[k] == x by {
                                if x == i {
                                    assert(pos@[pos@.len() - 1] == x);
                                } else {
                                    let k = choose|k: int| 0 <= k < old_pos.len() && #[trigger] old_pos[k] == x;
                                    assert(pos@[k] == x);
                                }
                            }
                        }
                    },
                }
            }
            i = i + 1;
        }
        proof {
            lemma_count_bound(marks@);
        }
        if ordered.len() == before {
            proof {
                assert(marks@.len() == ps@.len());
                if chosen_distinct(cs@, g) && forall|x: int| 0 <= x < n && selected_process(ps@, cs@, g, x) ==> marks@[x] {
                    lemma_cover_bound(ps@, cs@, g, pos@);
                    lemma_pos_bound(ps@, cs@, g, pos@);
                    assert(false);
                }
            }
            return Err(Error::Invalid(String::from_str("managed initializer dependency cycle")));
        }
    }
}

/// What a Host's pinned configuration holds, as read: its schema and scope,
/// the digest of its installation identity, the `(cell, definition)` rows of
/// its bindings file (`None` when that file holds no array), and its
/// normalized data and runtime directories.
#[derive(Clone, Debug)]
pub struct HostRead {
    pub schema: String,
    pub installation: String,
    pub host: String,
    pub identity: String,
    pub bindings: Option<Vec<(String, String)>>,
    pub data_directory: String,
    pub runtime_directory: String,
}

/// What an Executor's pinned configuration holds, as read: its schema, its
/// normalized service root, the service it expects, and the digest of the
/// configuration as it will run.
#[derive(Clone, Debug)]
pub struct ExecutorRead {
    pub schema: String,
    pub data_directory: String,
    pub journal: String,
    pub installation: String,
    pub cell: String,
    pub definition: String,
    pub principal: String,
    pub digest: String,
}

#[derive(Clone, Debug)]
pub enum ServiceRead {
    Host(HostRead),
    Executor(ExecutorRead),
}

/// A named guarded service: its deployment input and what its
/// configuration holds.
#[derive(Clone, Debug)]
pub struct ServiceRequest {
    pub name: String,
    pub input: ServiceInput,
    pub read: ServiceRead,
}

/// The cell definitions of a Host's bindings, each cell once: `Err` when
/// two rows define one cell differently.
pub open spec fn cells_from(rows: Seq<(String, String)>, k: int, acc: Seq<(String, String)>) -> Result<Seq<(String, String)>, ()>
    decreases rows.len() - k,
{
    if k < 0 || k >= rows.len() {
        Ok(acc)
    } else {
        match key_of(acc, rows[k].0@) {
            Some(j) => if acc[j].1@ != rows[k].1@ {
                Err(())
            } else {
                cells_from(rows, k + 1, acc)
            },
            None => cells_from(rows, k + 1, acc.push(rows[k])),
        }
    }
}

fn host_cells(rows: &Vec<(String, String)>) -> (r: Result<Vec<(String, String)>, Error>)
    ensures
        match cells_from(rows@, 0, Seq::empty()) {
            Ok(cells) => r matches Ok(x) && x@ == cells,
            Err(_) => r matches Err(Error::Invalid(m)) && m@ == "Host cell definitions disagree"@,
        },
{
    let mut cells: Vec<(String, String)> = Vec::new();
    let mut k: usize = 0;
    while k < rows.len()
        invariant
            k <= rows@.len(),
            cells_from(rows@, 0, Seq::empty()) == cells_from(rows@, k as int, cells@),
        decreases rows@.len() - k,
    {
        match find_key(&cells, &rows[k].0) {
            Some(j) => {
                if cells[j].1 != rows[k].1 {
                    return Err(Error::Invalid(String::from_str("Host cell definitions disagree")));
                }
            },
            None => {
                cells.push((rows[k].0.clone(), rows[k].1.clone()));
            },
        }
        k = k + 1;
    }
    Ok(cells)
}

/// Why the configuration of a guarded service is refused for its scope, if
/// it is: a Host must declare its scope and identity and bind 1..=64 cells
/// consistently; an Executor must have its schema and expect exactly its
/// scope, with the digest its scope pins.
pub open spec fn read_refusal(scope: GuardedScope, read: ServiceRead) -> Option<Seq<char>> {
    match scope {
        GuardedScope::Host { installation, host, installation_identity } => match read {
            ServiceRead::Host(r) => if r.schema@ != "rx.host-startup.v1"@ || r.installation@ != installation@
                || r.host@ != host@ || r.identity@ != installation_identity@ {
                Some("Host configuration scope differs"@)
            } else {
                match r.bindings {
                    None => Some("Host bindings array required"@),
                    Some(rows) => if rows@.len() == 0 || rows@.len() > 64 {
                        Some("Host bindings array required"@)
                    } else if cells_from(rows@, 0, Seq::empty()) is Err {
                        Some("Host cell definitions disagree"@)
                    } else {
                        None
                    },
                }
            },
            ServiceRead::Executor(_) => Some("Host configuration scope differs"@),
        },
        GuardedScope::Executor { installation, cell, service_journal, configuration_digest } => match read {
            ServiceRead::Executor(r) => if r.schema@ != "rx.executor-cell-service.v1"@ {
                Some("Executor configuration schema differs"@)
            } else if r.journal@ != service_journal@ || r.installation@ != installation@ || r.cell@ != cell@
                || r.digest@ != configuration_digest@ {
                Some("Executor configuration scope/digest differs"@)
            } else {
                None
            },
            ServiceRead::Host(_) => Some("Executor configuration schema differs"@),
        },
    }
}

/// The release daemon that runs a service of `role`.
pub open spec fn daemon(role: ServiceRole) -> Seq<char> {
    if role == ServiceRole::Host { "rx-hostd"@ } else { "rx-executor-service"@ }
}

pub open spec fn role_of(scope: GuardedScope) -> ServiceRole {
    if scope is Host { ServiceRole::Host } else { ServiceRole::Executor }
}

/// Why a guarded service gets no recipe, if it does not.
pub open spec fn service_refusal(req: ServiceRequest, inventory: Inventory) -> Option<Seq<char>> {
    if !service_label(req.name@) {
        Some("service name must be a flat alphanumeric, underscore or hyphen label"@)
    } else if read_refusal(req.input.scope, req.read) is Some {
        read_refusal(req.input.scope, req.read)
    } else if digest_of(inventory.files@, "bin/"@ + daemon(role_of(req.input.scope))) is None {
        Some("required release daemon absent"@)
    } else {
        None
    }
}

/// The initializer and program of an accepted guarded service: the release
/// daemon for its role, with its pinned configuration as its one file and
/// last argument, run for initialization and as a protocol-guarded service
/// whose status is `/run/rx-solutions/<name>.json` under its own scope.
pub open spec fn recipe_of(init: Initializer, program: Program, root: Seq<char>, req: ServiceRequest, inventory: Inventory) -> bool {
    let role = role_of(req.input.scope);
    let executable = path_joined(path_joined(root, "bin"@), daemon(role));
    let hash = digest_of(inventory.files@, "bin"@ + "/"@ + daemon(role))->0;
    let config = req.input.configuration.path@;
    let status = path_joined("/run/rx-solutions"@, req.name@ + ".json"@);
    &&& init.id@ == "rx/service/"@ + req.name@
    &&& init.role == role
    &&& init.executable@ == executable
    &&& init.executable_sha256@ == hash
    &&& init.files@.len() == 1 && init.files@[0] == (req.input.configuration.path, req.input.configuration.sha256)
    &&& program.id == init.id
    &&& program.effect == Effect::ProtocolGuardedService
    &&& program.executable == init.executable
    &&& program.executable_sha256 == init.executable_sha256
    &&& program.files@ == init.files@
    &&& program.arguments@.len() == 0
    &&& program.execution_requirements is None
    &&& program.functional_readiness is None
    &&& program.decision_policy is None
    &&& match (req.input.scope, req.read) {
        (GuardedScope::Host { installation, host, installation_identity }, ServiceRead::Host(r)) => {
            &&& texts(init.arguments@) == seq!["init"@, config]
            &&& texts(program.fixed_arguments@) == seq!["run"@, config]
            &&& init.data_directory == r.data_directory
            &&& init.runtime_directory == Some(r.runtime_directory)
            &&& init.installation == installation
            &&& init.principal == host
            &&& cells_from(r.bindings->0@, 0, Seq::empty()) == Ok::<Seq<(String, String)>, ()>(init.cells@)
            &&& program.ready matches ReadyProbe::GuardedStatus(GuardedStatusBinding::Host { path, installation: i, host: h,
                installation_identity: d }) && path@ == status && i == installation && h == host && d == installation_identity
        },
        (GuardedScope::Executor { installation, cell, service_journal, configuration_digest }, ServiceRead::Executor(r)) => {
            &&& texts(init.arguments@) == seq!["cell"@, "init"@, config]
            &&& texts(program.fixed_arguments@) == seq!["cell"@, "run"@, config]
            &&& init.data_directory == r.data_directory
            &&& init.runtime_directory is None
            &&& init.installation == installation
            &&& init.principal == r.principal
            &&& init.cells@ == seq![(cell, r.definition)]
            &&& program.ready matches ReadyProbe::GuardedStatus(GuardedStatusBinding::Executor { path, installation: i, cell: c,
                service_journal: j, configuration_digest: d }) && path@ == status && i == installation && c == cell
                && j == service_journal && d == configuration_digest
        },
        _ => false,
    }
}

/// The recipe of one guarded service under the release at `root`, and the
/// daemon file to check on disk before it is used.
pub fn guarded_service(root: &String, req: &ServiceRequest, inventory: &Inventory) -> (r: Result<(Initializer, Program, (String, String)), Error>)
    ensures
        service_refusal(*req, *inventory) matches Some(m) ==> (r matches Err(Error::Invalid(x)) && x@ == m),
        service_refusal(*req, *inventory) is None ==> (r matches Ok((init, program, pin)) && recipe_of(init, program, root@, *req, *inventory)
            && pin.0 == init.executable && pin.1 == init.executable_sha256),
{
    if let Err(e) = check_service_name(&req.name) {
        return Err(e);
    }
    let config = req.input.configuration.path.clone();
    let status = path_join("/run/rx-solutions", req.name.clone().concat(".json").as_str());
    let (role, binary, arguments, fixed, data_directory, runtime_directory, installation, principal, cells, binding) =
        match (&req.input.scope, &req.read) {
        (GuardedScope::Host { installation, host, installation_identity }, ServiceRead::Host(r)) => {
            if r.schema != String::from_str("rx.host-startup.v1") || r.installation != *installation || r.host != *host
                || r.identity != *installation_identity {
                return Err(Error::Invalid(String::from_str("Host configuration scope differs")));
            }
            let rows = match &r.bindings {
                None => {
                    return Err(Error::Invalid(String::from_str("Host bindings array required")));
                },
                Some(rows) => rows,
            };
            if rows.len() == 0 || rows.len() > 64 {
                return Err(Error::Invalid(String::from_str("Host bindings array required")));
            }
            let cells = match host_cells(rows) {
                Err(e) => {
                    return Err(e);
                },
                Ok(c) => c,
            };
            let mut arguments: Vec<String> = Vec::new();
            arguments.push(String::from_str("init"));
            arguments.push(config.clone());
            let mut fixed: Vec<String> = Vec::new();
            fixed.push(String::from_str("run"));
            fixed.push(config.clone());
            proof {
                assert(texts(arguments@) =~= seq!["init"@, config@]);
                assert(texts(fixed@) =~= seq!["run"@, config@]);
            }
            (ServiceRole::Host, "rx-hostd", arguments, fixed, r.data_directory.clone(), Some(r.runtime_directory.clone()),
                installation.clone(), host.clone(), cells, GuardedStatusBinding::Host {
                    path: status,
                    installation: installation.clone(),
                    host: host.clone(),
                    installation_identity: installation_identity.clone(),
                })
        },
        (GuardedScope::Host { .. }, ServiceRead::Executor(_)) => {
            return Err(Error::Invalid(String::from_str("Host configuration scope differs")));
        },
        (GuardedScope::Executor { installation, cell, service_journal, configuration_digest }, ServiceRead::Executor(r)) => {
            if r.schema != String::from_str("rx.executor-cell-service.v1") {
                return Err(Error::Invalid(String::from_str("Executor configuration schema differs")));
            }
            if r.journal != *service_journal || r.installation != *installation || r.cell != *cell
                || r.digest != *configuration_digest {
                return Err(Error::Invalid(String::from_str("Executor configuration scope/digest differs")));
            }
            let mut arguments: Vec<String> = Vec::new();
            arguments.push(String::from_str("cell"));
            arguments.push(String::from_str("init"));
            arguments.push(config.clone());
            let mut fixed: Vec<String> = Vec::new();
            fixed.push(String::from_str("cell"));
            fixed.push(String::from_str("run"));
            fixed.push(config.clone());
            let mut cells: Vec<(String, String)> = Vec::new();
            cells.push((cell.clone(), r.definition.clone()));
            proof {
                assert(texts(arguments@) =~= seq!["cell"@, "init"@, config@]);
                assert(texts(fixed@) =~= seq!["cell"@, "run"@, config@]);
            }
            (ServiceRole::Executor, "rx-executor-service", arguments, fixed, r.data_directory.clone(), None,
                installation.clone(), r.principal.clone(), cells, GuardedStatusBinding::Executor {
                    path: status,
                    installation: installation.clone(),
                    cell: cell.clone(),
                    service_journal: service_journal.clone(),
                    configuration_digest: configuration_digest.clone(),
                })
        },
        (GuardedScope::Executor { .. }, ServiceRead::Host(_)) => {
            return Err(Error::Invalid(String::from_str("Executor configuration schema differs")));
        },
    };
    let key = String::from_str("bin/").concat(binary);
    proof {
        reveal_strlit("bin/");
        reveal_strlit("bin");
        reveal_strlit("/");
        assert("bin/"@ =~= "bin"@ + "/"@);
    }
    let hash = match lookup(&inventory.files, key.as_str()) {
        None => {
            return Err(Error::Invalid(String::from_str("required release daemon absent")));
        },
        Some(h) => h,
    };
    let executable = path_join(path_join(root.as_str(), "bin").as_str(), binary);
    let mut files: Vec<(String, String)> = Vec::new();
    files.push((config, req.input.configuration.sha256.clone()));
    let id = String::from_str("rx/service/").concat(req.name.as_str());
    let init = Initializer {
        id: id.clone(),
        role,
        executable: executable.clone(),
        executable_sha256: hash.clone(),
        files: crate::plan::copy_pairs(&files),
        arguments,
        data_directory,
        runtime_directory,
        installation,
        principal,
        cells,
    };
    let program = Program {
        id,
        effect: Effect::ProtocolGuardedService,
        executable: executable.clone(),
        executable_sha256: hash.clone(),
        files,
        fixed_arguments: fixed,
        arguments: Vec::new(),
        ready: ReadyProbe::GuardedStatus(binding),
        execution_requirements: None,
        functional_readiness: None,
        decision_policy: None,
    };
    Ok((init, program, (executable, hash)))
}

pub open spec fn service_id(name: Seq<char>) -> Seq<char> {
    "rx/service/"@ + name
}

/// The ids of the recipes, as text.
pub open spec fn ids_of(programs: Seq<(String, Program)>) -> Seq<Seq<char>> {
    programs.map_values(|p: (String, Program)| p.0@)
}

/// Why the services `reqs[k..]` are refused, if they are, given the recipe
/// ids `ids` that exist already: the first refused service, or the first
/// whose id another recipe has.
pub open spec fn services_refusal(reqs: Seq<ServiceRequest>, inventory: Inventory, ids: Seq<Seq<char>>, k: int) -> Option<Seq<char>>
    decreases reqs.len() - k,
{
    if k < 0 || k >= reqs.len() {
        None
    } else if service_refusal(reqs[k], inventory) is Some {
        service_refusal(reqs[k], inventory)
    } else if ids.contains(service_id(reqs[k].name@)) {
        Some("duplicate release service recipe"@)
    } else {
        services_refusal(reqs, inventory, ids.push(service_id(reqs[k].name@)), k + 1)
    }
}

fn has_id(programs: &Vec<(String, Program)>, id: &String) -> (r: bool)
    ensures
        r == ids_of(programs@).contains(id@),
{
    let mut i: usize = 0;
    while i < programs.len()
        invariant
            i <= programs@.len(),
            forall|k: int| 0 <= k < i ==> (#[trigger] programs@[k]).0@ != id@,
        decreases programs@.len() - i,
    {
        if programs[i].0 == *id {
            assert(ids_of(programs@)[i as int] == id@);
            return true;
        }
        i = i + 1;
    }
    proof {
        if ids_of(programs@).contains(id@) {
            let k = choose|k: int| 0 <= k < ids_of(programs@).len() && ids_of(programs@)[k] == id@;
            assert(programs@[k].0@ == id@);
        }
    }
    false
}

/// Adds a recipe for each named guarded service under the release at
/// `root`, whose inventory is `inventory` under the schema
/// `inventory_schema`. There must be 1..=32 services; each gets a recipe
/// under its own id, which no recipe may have already. On success, the
/// initializers in order and the daemon files to check on disk; on failure
/// the recipes are unchanged.
pub fn add_guarded_services(
    root: &String,
    inventory_schema: &String,
    inventory: &Inventory,
    requests: &Vec<ServiceRequest>,
    programs: &mut Vec<(String, Program)>,
) -> (r: Result<(Vec<Initializer>, Vec<(String, String)>), Error>)
    ensures
        !(1 <= requests@.len() <= 32) ==> (r matches Err(Error::Invalid(m)) && m@ == "service configuration count must be 1..32"@),
        1 <= requests@.len() <= 32 && inventory_schema@ != "rx.solutions-runtime-files.v1"@ ==> (r matches Err(Error::Invalid(m))
            && m@ == "release inventory schema"@),
        1 <= requests@.len() <= 32 && inventory_schema@ == "rx.solutions-runtime-files.v1"@ ==> match services_refusal(requests@,
            *inventory, ids_of(old(programs)@), 0) {
            Some(m) => r matches Err(Error::Invalid(x)) && x@ == m,
            None => r is Ok,
        },
        r is Err ==> final(programs)@ == old(programs)@,
        r matches Ok((inits, pins)) ==> {
            let n = old(programs)@.len();
            &&& inits@.len() == requests@.len()
            &&& pins@.len() == requests@.len()
            &&& final(programs)@.len() == n + requests@.len()
            &&& final(programs)@.take(n as int) == old(programs)@
            &&& forall|i: int| 0 <= i < requests@.len() ==> {
                let (key, program) = #[trigger] final(programs)@[n + i];
                &&& key == program.id
                &&& recipe_of(inits@[i], program, root@, requests@[i], *inventory)
                &&& pins@[i].0 == inits@[i].executable && pins@[i].1 == inits@[i].executable_sha256
            }
        },
{
    if let Err(e) = check_service_count(requests.len()) {
        return Err(e);
    }
    if !same_text(inventory_schema.as_str(), "rx.solutions-runtime-files.v1") {
        return Err(Error::Invalid(String::from_str("release inventory schema")));
    }
    let ghost n = programs@.len();
    let mut added: Vec<(String, Program)> = Vec::new();
    let mut inits: Vec<Initializer> = Vec::new();
    let mut pins: Vec<(String, String)> = Vec::new();
    let mut k: usize = 0;
    while k < requests.len()
        invariant
            1 <= requests@.len() <= 32,
            inventory_schema@ == "rx.solutions-runtime-files.v1"@,
            k <= requests@.len(),
            programs@ == old(programs)@,
            programs@.len() == n,
            inits@.len() == k,
            pins@.len() == k,
            added@.len() == k,
            services_refusal(requests@, *inventory, ids_of(programs@), 0)
                == services_refusal(requests@, *inventory, ids_of(programs@) + ids_of(added@), k as int),
            forall|i: int| 0 <= i < k ==> {
                let (key, program) = #[trigger] added@[i];
                &&& key == program.id
                &&& recipe_of(inits@[i], program, root@, requests@[i], *inventory)
                &&& pins@[i].0 == inits@[i].executable && pins@[i].1 == inits@[i].executable_sha256
            },
        decreases requests@.len() - k,
    {
        let (init, program, pin) = match guarded_service(root, &requests[k], inventory) {
            Err(e) => {
                return Err(e);
            },
            Ok(x) => x,
        };
        let ghost ids = ids_of(programs@) + ids_of(added@);
        if has_id(programs, &program.id) || has_id(&added, &program.id) {
            proof {
                if ids_of(programs@).contains(program.id@) {
                    let j = choose|j: int| 0 <= j < ids_of(programs@).len() && ids_of(programs@)[j] == program.id@;
                    assert(ids[j] == program.id@);
                } else {
                    let j = choose|j: int| 0 <= j < ids_of(added@).len() && ids_of(added@)[j] == program.id@;
                    assert(ids[ids_of(programs@).len() + j] == program.id@);
                }
            }
            return Err(Error::Invalid(String::from_str("duplicate release service recipe")));
        }
        proof {
            if ids.contains(program.id@) {
                let j = choose|j: int| 0 <= j < ids.len() && ids[j] == program.id@;
                if j < ids_of(programs@).len() {
                    assert(ids_of(programs@)[j] == program.id@);
                } else {
                    assert(ids_of(added@)[j - ids_of(programs@).len()] == program.id@);
                }
            }
        }
        let ghost before = added@;
        added.push((program.id.clone(), program));
        inits.push(init);
        pins.push(pin);
        proof {
            assert(ids_of(added@) =~= ids_of(before).push(service_id(requests@[k as int].name@)));
            assert(ids_of(programs@) + ids_of(added@) =~= ids.push(service_id(requests@[k as int].name@)));
        }
        k = k + 1;
    }
    let mut j: usize = 0;
    let ghost start = programs@;
    let ghost listed = added@;
    while added.len() > 0
        invariant
            j <= listed.len(),
            listed.len() <= usize::MAX,
            start.len() == n,
            added@ == listed.subrange(j as int, listed.len() as int),
            programs@ == start + listed.take(j as int),
        decreases added@.len(),
    {
        let next = added.remove(0);
        proof {
            assert(start + listed.take(j + 1) =~= (start + listed.take(j as int)).push(listed[j as int]));
            assert(added@ =~= listed.subrange(j + 1, listed.len() as int));
        }
        programs.push(next);
        j = j + 1;
    }
    assert(j == listed.len());
    proof {
        assert(listed.take(listed.len() as int) =~= listed);
        assert(programs@.take(n as int) =~= start);
        assert forall|i: int| 0 <= i < requests@.len() implies #[trigger] programs@[n + i] == listed[i] by {
            assert(programs@[n + i] == (start + listed)[n + i]);
        }
    }
    Ok((inits, pins))
}

} // verus!
