//! Release-owned launch recipes. A site plan selects parameters, never
//! executable paths or effect classes.
use vstd::prelude::*;
use crate::execution::{Capacity, Requirement, Requirements};
use crate::decision::{Authority, Kind, Policy};
use crate::model::{Argument, Effect, Program, ReadyProbe};
use crate::plan::{find_key, key_of, path_join, path_joined, texts};
use crate::text::{byte_len, has_prefix, in_name_order, is_space, lemma_before_at, lemma_byte_len_bound, lemma_chain_in_order, neighbours_before, prefixed, text_before};
use crate::Error;
use crate::use_assessment::{
    contract_refusal, conditions_refusal, instance_count, profile_refusal, profiles_refusal, ExpectedValue,
    ReadinessCondition, ReadinessContract, ReadinessProfile, ReportOrigin, StatusEndpoint,
};

pub mod ai_sapiens;
pub mod boundary;
pub use boundary::release_boundary;
pub mod ai_worker;
pub mod dhi;
pub mod open_manipulator;
pub mod services;

verus! {

/// `c` compares the reported text `field` with `value`.
pub open spec fn equals_text(c: ReadinessCondition, field: Seq<char>, value: Seq<char>, origin: ReportOrigin) -> bool {
    c matches ReadinessCondition::Equals { field: f, expected: ExpectedValue::Text(v), origin: o }
        && f@ == field && v@ == value && o == origin
}

/// `c` requires the reported `field` to be a count.
pub open spec fn counts(c: ReadinessCondition, field: Seq<char>, origin: ReportOrigin) -> bool {
    c matches ReadinessCondition::Unsigned { field: f, origin: o } && f@ == field && o == origin
}

/// The support summary's conditions, in name order: the report is of the
/// current instance and of this schema, and its package and profile counts
/// are counts. Counts are derived at startup; the schema is declared by the
/// release.
pub open spec fn summary_conditions(cs: Seq<(String, ReadinessCondition)>) -> bool {
    &&& cs.len() == 5
    &&& cs[0].0@ == "report/current-instance"@ && cs[0].1 is InstanceMatches
    &&& cs[1].0@ == "report/native-package-count"@ && counts(cs[1].1, "native_packages"@, ReportOrigin::StartupAuditDerived)
    &&& cs[2].0@ == "report/schema"@ && equals_text(cs[2].1, "schema"@, "rx.solutions-status.v1"@, ReportOrigin::ReleaseDeclaration)
    &&& cs[3].0@ == "report/simulation-profile-count"@ && counts(cs[3].1, "simulation_profiles"@, ReportOrigin::StartupCatalogDerived)
    &&& cs[4].0@ == "report/support-profile-count"@ && counts(cs[4].1, "support_profiles"@, ReportOrigin::StartupCatalogDerived)
}

/// The operator-connected use: the summary's conditions and, first by
/// name, the declared operator API delegation.
pub open spec fn connected_conditions(cs: Seq<(String, ReadinessCondition)>) -> bool {
    &&& cs.len() == 6
    &&& cs[0].0@ == "operator/api-delegation"@
    &&& equals_text(cs[0].1, "operator_api_delegation"@, "CONNECTED"@, ReportOrigin::ReleaseDeclaration)
    &&& summary_conditions(cs.subrange(1, 6))
}

fn unsigned(field: &str, origin: ReportOrigin) -> (r: ReadinessCondition)
    ensures
        counts(r, field@, origin),
{
    ReadinessCondition::Unsigned { field: String::from_str(field), origin }
}

fn text_equals(field: &str, value: &str) -> (r: ReadinessCondition)
    ensures
        equals_text(r, field@, value@, ReportOrigin::ReleaseDeclaration),
{
    ReadinessCondition::Equals {
        field: String::from_str(field),
        expected: ExpectedValue::Text(String::from_str(value)),
        origin: ReportOrigin::ReleaseDeclaration,
    }
}

/// Appends the support summary's conditions.
fn push_summary(cs: &mut Vec<(String, ReadinessCondition)>)
    ensures
        final(cs)@.len() == old(cs)@.len() + 5,
        final(cs)@.subrange(0, old(cs)@.len() as int) == old(cs)@,
        summary_conditions(final(cs)@.subrange(old(cs)@.len() as int, old(cs)@.len() + 5int)),
{
    let ghost start = cs@;
    cs.push((String::from_str("report/current-instance"), ReadinessCondition::InstanceMatches));
    cs.push((String::from_str("report/native-package-count"), unsigned("native_packages", ReportOrigin::StartupAuditDerived)));
    cs.push((String::from_str("report/schema"), text_equals("schema", "rx.solutions-status.v1")));
    cs.push((String::from_str("report/simulation-profile-count"), unsigned("simulation_profiles", ReportOrigin::StartupCatalogDerived)));
    cs.push((String::from_str("report/support-profile-count"), unsigned("support_profiles", ReportOrigin::StartupCatalogDerived)));
    proof {
        assert(cs@.subrange(0, start.len() as int) =~= start);
    }
}

/// A short authored text value is usable as an expected value.
proof fn lemma_short_value(v: Seq<char>)
    requires
        1 <= v.len() <= 64,
        !is_space(v[0]),
    ensures
        !(v.len() == 0 || byte_len(v) > 256),
{
    lemma_byte_len_bound(v);
}

/// The support summary's condition names are in name order.
proof fn lemma_summary_order(cs: Seq<(String, ReadinessCondition)>)
    requires
        summary_conditions(cs),
    ensures
        in_name_order(cs),
{
    reveal_strlit("report/current-instance");
    reveal_strlit("report/native-package-count");
    reveal_strlit("report/schema");
    reveal_strlit("report/simulation-profile-count");
    reveal_strlit("report/support-profile-count");
    let (a, b, c, d, e) = (cs[0].0@, cs[1].0@, cs[2].0@, cs[3].0@, cs[4].0@);
    assert(a.subrange(0, 7) =~= b.subrange(0, 7));
    lemma_before_at(a, b, 7);
    assert(b.subrange(0, 7) =~= c.subrange(0, 7));
    lemma_before_at(b, c, 7);
    assert(c.subrange(0, 8) =~= d.subrange(0, 8));
    lemma_before_at(c, d, 8);
    assert(d.subrange(0, 8) =~= e.subrange(0, 8));
    lemma_before_at(d, e, 8);
    assert forall|i: int| 0 <= i < cs.len() - 1 implies #[trigger] neighbours_before(cs, i) by {
        if i == 0 {
        } else if i == 1 {
        } else if i == 2 {
        } else {
        }
    }
    lemma_chain_in_order(cs);
}

/// The connected profile's condition names are in name order.
proof fn lemma_connected_order(cs: Seq<(String, ReadinessCondition)>)
    requires
        connected_conditions(cs),
    ensures
        in_name_order(cs),
{
    let rest = cs.subrange(1, 6);
    lemma_summary_order(rest);
    reveal_strlit("operator/api-delegation");
    reveal_strlit("report/current-instance");
    assert(rest[0] == cs[1]);
    assert(cs[0].0@.subrange(0, 0) =~= cs[1].0@.subrange(0, 0));
    lemma_before_at(cs[0].0@, cs[1].0@, 0);
    assert forall|i: int| 0 <= i < cs.len() - 1 implies #[trigger] neighbours_before(cs, i) by {
        if i > 0 {
            assert(text_before(rest[i - 1].0@, rest[i].0@));
        }
    }
    lemma_chain_in_order(cs);
}

proof fn lemma_summary_sound(cs: Seq<(String, ReadinessCondition)>)
    requires
        summary_conditions(cs),
    ensures
        instance_count(cs) == 1,
        conditions_refusal(cs, 0) is None,
{
    reveal_strlit("rx.solutions-status.v1");
    lemma_short_value("rx.solutions-status.v1"@);
    reveal_with_fuel(instance_count, 6);
    assert(cs.drop_last().drop_last().drop_last().drop_last().drop_last() =~= Seq::<(String, ReadinessCondition)>::empty());
    reveal_with_fuel(conditions_refusal, 6);
}

proof fn lemma_connected_sound(cs: Seq<(String, ReadinessCondition)>)
    requires
        connected_conditions(cs),
    ensures
        instance_count(cs) == 1,
        conditions_refusal(cs, 0) is None,
{
    let rest = cs.subrange(1, 6);
    lemma_summary_sound(rest);
    reveal_strlit("CONNECTED");
    reveal_strlit("rx.solutions-status.v1");
    lemma_short_value("CONNECTED"@);
    lemma_short_value("rx.solutions-status.v1"@);
    reveal_with_fuel(instance_count, 7);
    assert(cs.drop_last() =~= cs.subrange(0, 5));
    assert(cs.drop_last().drop_last() =~= cs.subrange(0, 4));
    assert(cs.drop_last().drop_last().drop_last() =~= cs.subrange(0, 3));
    assert(cs.drop_last().drop_last().drop_last().drop_last() =~= cs.subrange(0, 2));
    assert(cs.drop_last().drop_last().drop_last().drop_last().drop_last() =~= cs.subrange(0, 1));
    assert(cs.subrange(0, 1).drop_last() =~= Seq::<(String, ReadinessCondition)>::empty());
    reveal_with_fuel(conditions_refusal, 7);
    assert(rest[1] == cs[2] && rest[2] == cs[3] && rest[3] == cs[4] && rest[4] == cs[5] && rest[0] == cs[1]);
}

/// Two intended uses of the one diagnostic publisher, in name order: the
/// support summary, and the same summary with the operator connected. Both
/// read the support summary endpoint. The contract passes validation.
pub fn status_readiness() -> (r: ReadinessContract)
    ensures
        r.0@.len() == 2,
        r.0@[0].0@ == "diagnostics/operator-connected"@,
        r.0@[0].1.endpoint == StatusEndpoint::SupportSummary,
        connected_conditions(r.0@[0].1.conditions@),
        r.0@[1].0@ == "diagnostics/support-summary"@,
        r.0@[1].1.endpoint == StatusEndpoint::SupportSummary,
        summary_conditions(r.0@[1].1.conditions@),
        contract_refusal(r) is None,
{
    let mut conditions: Vec<(String, ReadinessCondition)> = Vec::new();
    push_summary(&mut conditions);
    proof {
        assert(conditions@.subrange(0, 5) =~= conditions@);
    }
    let mut connected: Vec<(String, ReadinessCondition)> = Vec::new();
    connected.push((String::from_str("operator/api-delegation"), text_equals("operator_api_delegation", "CONNECTED")));
    let ghost first = connected@;
    push_summary(&mut connected);
    proof {
        assert(connected@[0] == connected@.subrange(0, 1)[0]);
        assert(connected@[0] == first[0]);
    }
    let mut profiles: Vec<(String, ReadinessProfile)> = Vec::new();
    profiles.push((String::from_str("diagnostics/operator-connected"),
        ReadinessProfile { endpoint: StatusEndpoint::SupportSummary, conditions: connected }));
    profiles.push((String::from_str("diagnostics/support-summary"),
        ReadinessProfile { endpoint: StatusEndpoint::SupportSummary, conditions }));
    let r = ReadinessContract(profiles);
    proof {
        lemma_connected_sound(r.0@[0].1.conditions@);
        lemma_summary_sound(r.0@[1].1.conditions@);
        lemma_connected_order(r.0@[0].1.conditions@);
        lemma_summary_order(r.0@[1].1.conditions@);
        reveal_strlit("diagnostics/operator-connected");
        reveal_strlit("diagnostics/support-summary");
        assert(r.0@[0].0@.subrange(0, 12) =~= r.0@[1].0@.subrange(0, 12));
        lemma_before_at(r.0@[0].0@, r.0@[1].0@, 12);
        assert(in_name_order(r.0@));
        assert(profile_refusal(r.0@[0].1) is None);
        assert(profile_refusal(r.0@[1].1) is None);
        reveal_with_fuel(profiles_refusal, 3);
    }
    r
}

/// A release's file inventory, as the recipes read it: digests by path
/// relative to the release root, and by absolute path for files outside it.
#[derive(Clone, Debug)]
pub struct Inventory {
    pub files: Vec<(String, String)>,
    pub external_files: Vec<(String, String)>,
}

/// The digest listed for `path`, if it is listed.
pub open spec fn digest_of(entries: Seq<(String, String)>, path: Seq<char>) -> Option<Seq<char>> {
    match key_of(entries, path) {
        Some(j) => Some(entries[j].1@),
        None => None,
    }
}

pub fn lookup(entries: &Vec<(String, String)>, path: &str) -> (r: Option<String>)
    ensures
        match digest_of(entries@, path@) {
            Some(d) => r matches Some(x) && x@ == d,
            None => r is None,
        },
{
    match find_key(entries, &String::from_str(path)) {
        Some(j) => Some(entries[j].1.clone()),
        None => None,
    }
}

/// Some listed path begins with `prefix`.
pub open spec fn any_prefixed(entries: Seq<(String, String)>, prefix: Seq<char>) -> bool {
    exists|i: int| 0 <= i < entries.len() && prefixed((#[trigger] entries[i]).0@, prefix)
}

pub fn has_prefixed(entries: &Vec<(String, String)>, prefix: &str) -> (r: bool)
    ensures
        r == any_prefixed(entries@, prefix@),
{
    let mut i: usize = 0;
    while i < entries.len()
        invariant
            i <= entries@.len(),
            forall|k: int| 0 <= k < i ==> !prefixed((#[trigger] entries@[k]).0@, prefix@),
        decreases entries@.len() - i,
    {
        if has_prefix(entries[i].0.as_str(), prefix) {
            return true;
        }
        i = i + 1;
    }
    false
}

/// Every source compiled into the supervisor is listed with the digest of
/// its compiled content.
pub open spec fn pins_match(files: Seq<(String, String)>, compiled: Seq<(String, String)>) -> bool {
    forall|i: int| 0 <= i < compiled.len() ==> digest_of(files, (#[trigger] compiled[i]).0@) == Some(compiled[i].1@)
}

/// The files a recipe needs checked on disk before its program is used:
/// each compiled source under `root`, with its compiled digest.
pub open spec fn pinned_sources(pins: Seq<(String, String)>, root: Seq<char>, compiled: Seq<(String, String)>) -> bool {
    &&& pins.len() == compiled.len()
    &&& forall|i: int| 0 <= i < compiled.len() ==> (#[trigger] pins[i]).0@ == path_joined(root, compiled[i].0@)
        && pins[i].1@ == compiled[i].1@
}

/// Whether a recipe's sources are in the release: not at all when
/// `present` is false; refused when a compiled source is not listed with
/// its compiled digest, under `message`; otherwise the sources to check.
pub fn check_sources(root: &String, files: &Vec<(String, String)>, present: bool, compiled: &Vec<(String, String)>, message: &str)
    -> (r: Result<Option<Vec<(String, String)>>, Error>)
    ensures
        !present ==> r matches Ok(None),
        present && !pins_match(files@, compiled@) ==> (r matches Err(Error::Invalid(m)) && m@ == message@),
        present && pins_match(files@, compiled@) ==> (r matches Ok(Some(pins)) && pinned_sources(pins@, root@, compiled@)),
{
    if !present {
        return Ok(None);
    }
    let mut pins: Vec<(String, String)> = Vec::new();
    let mut i: usize = 0;
    while i < compiled.len()
        invariant
            present,
            i <= compiled@.len(),
            pins@.len() == i,
            forall|k: int| 0 <= k < i ==> digest_of(files@, (#[trigger] compiled@[k]).0@) == Some(compiled@[k].1@),
            forall|k: int| 0 <= k < i ==> (#[trigger] pins@[k]).0@ == path_joined(root@, compiled@[k].0@)
                && pins@[k].1@ == compiled@[k].1@,
        decreases compiled@.len() - i,
    {
        let listed = lookup(files, compiled[i].0.as_str());
        let same = match &listed {
            Some(d) => *d == compiled[i].1,
            None => false,
        };
        if !same {
            return Err(Error::Invalid(String::from_str(message)));
        }
        pins.push((path_join(root.as_str(), compiled[i].0.as_str()), compiled[i].1.clone()));
        i = i + 1;
    }
    Ok(Some(pins))
}

/// A program recipe and the files to check on disk before it is used.
#[derive(Debug)]
pub struct Recipe {
    pub program: Program,
    pub pins: Vec<(String, String)>,
}

/// The one `port` argument, set with `--port`.
pub open spec fn port_argument(args: Seq<(String, Argument)>) -> bool {
    args.len() == 1 && args[0].0@ == "port"@ && (args[0].1 matches Argument::Port { flag } && flag@ == "--port"@)
}

pub fn port_only() -> (r: Vec<(String, Argument)>)
    ensures
        port_argument(r@),
{
    let mut args: Vec<(String, Argument)> = Vec::new();
    args.push((String::from_str("port"), Argument::Port { flag: String::from_str("--port") }));
    args
}

/// Readiness is read over HTTP on the `port` parameter.
pub open spec fn http_on_port(ready: ReadyProbe) -> bool {
    ready matches ReadyProbe::HttpStatus { port_parameter } && port_parameter@ == "port"@
}

pub fn http_port() -> (r: ReadyProbe)
    ensures
        http_on_port(r),
{
    ReadyProbe::HttpStatus { port_parameter: String::from_str("port") }
}

/// No execution requirement is declared, and that is declared explicitly.
pub open spec fn declared_empty(r: Option<Requirements>) -> bool {
    r matches Some(x) && x.0@.len() == 0
}

pub open spec fn python() -> Seq<char> {
    "/usr/bin/python3"@
}

/// The status publisher: the release's status script served by the pinned
/// Python, bound to a loopback or any address and a port, with a bounded
/// address space and the diagnostic readiness contract.
pub open spec fn status_program(p: Program, root: Seq<char>, script_hash: Seq<char>, python_hash: Seq<char>) -> bool {
    &&& p.id@ == "rx/status-http"@
    &&& status_shape(p, root, script_hash, python_hash)
    &&& p.decision_policy is None
}

/// Everything of the status publisher but its id and decision policy.
pub open spec fn status_shape(p: Program, root: Seq<char>, script_hash: Seq<char>, python_hash: Seq<char>) -> bool {
    let script = path_joined(root, "tools/solutions_status.py"@);
    &&& p.effect == Effect::NonActuating
    &&& p.executable@ == python()
    &&& p.executable_sha256@ == python_hash
    &&& p.files@.len() == 1 && p.files@[0].0@ == script && p.files@[0].1@ == script_hash
    &&& texts(p.fixed_arguments@) == seq![script, "serve"@]
    &&& p.arguments@.len() == 2
    &&& p.arguments@[0].0@ == "bind"@ && (p.arguments@[0].1 matches Argument::Choice { flag, values }
        && flag@ == "--bind"@ && texts(values@) == seq!["127.0.0.1"@, "0.0.0.0"@])
    &&& p.arguments@[1].0@ == "port"@ && (p.arguments@[1].1 matches Argument::Port { flag } && flag@ == "--port"@)
    &&& http_on_port(p.ready)
    &&& (p.execution_requirements matches Some(x) && x.0@.len() == 1 && x.0@[0].0@ == "status/address-space"@
        && x.0@[0].1 == Requirement::UpperBound { resource: Capacity::AddressSpaceBytes, amount: 268_435_456u64 })
    &&& (p.functional_readiness matches Some(c) && c.0@.len() == 2 && contract_refusal(c) is None
        && connected_conditions(c.0@[0].1.conditions@) && summary_conditions(c.0@[1].1.conditions@))
}

fn status_recipe(root: &String, script_hash: String, python_hash: String) -> (r: Program)
    ensures
        status_program(r, root@, script_hash@, python_hash@),
{
    let script = path_join(root.as_str(), "tools/solutions_status.py");
    let mut files: Vec<(String, String)> = Vec::new();
    files.push((script.clone(), script_hash));
    let mut fixed: Vec<String> = Vec::new();
    fixed.push(script);
    fixed.push(String::from_str("serve"));
    let mut values: Vec<String> = Vec::new();
    values.push(String::from_str("127.0.0.1"));
    values.push(String::from_str("0.0.0.0"));
    proof {
        assert(texts(values@) =~= seq!["127.0.0.1"@, "0.0.0.0"@]);
    }
    let mut arguments: Vec<(String, Argument)> = Vec::new();
    arguments.push((String::from_str("bind"), Argument::Choice { flag: String::from_str("--bind"), values }));
    arguments.push((String::from_str("port"), Argument::Port { flag: String::from_str("--port") }));
    let mut requirements: Vec<(String, Requirement)> = Vec::new();
    requirements.push((String::from_str("status/address-space"),
        Requirement::UpperBound { resource: Capacity::AddressSpaceBytes, amount: 268_435_456 }));
    let p = Program {
        id: String::from_str("rx/status-http"),
        effect: Effect::NonActuating,
        executable: String::from_str("/usr/bin/python3"),
        executable_sha256: python_hash,
        files,
        fixed_arguments: fixed,
        arguments,
        ready: http_port(),
        execution_requirements: Some(Requirements(requirements)),
        functional_readiness: Some(status_readiness()),
        decision_policy: None,
    };
    proof {
        assert(texts(p.fixed_arguments@) =~= seq![path_joined(root@, "tools/solutions_status.py"@), "serve"@]);
    }
    p
}

/// The digest listed for `path`, which the recipe requires.
pub fn required(entries: &Vec<(String, String)>, path: &str, message: &str) -> (r: Result<String, Error>)
    ensures
        match digest_of(entries@, path@) {
            Some(d) => r matches Ok(x) && x@ == d,
            None => r matches Err(Error::Invalid(m)) && m@ == message@,
        },
{
    match lookup(entries, path) {
        Some(d) => Ok(d),
        None => Err(Error::Invalid(String::from_str(message))),
    }
}

/// The sources checked, then the pinned Python.
pub open spec fn sources_then_python(pins: Seq<(String, String)>, root: Seq<char>, compiled: Seq<(String, String)>,
    python_hash: Seq<char>) -> bool {
    &&& pins.len() == compiled.len() + 1
    &&& pinned_sources(pins.take(compiled.len() as int), root, compiled)
    &&& pins[compiled.len() as int].0@ == python() && pins[compiled.len() as int].1@ == python_hash
}

pub fn push_python(pins: &mut Vec<(String, String)>, python_hash: &String)
    ensures
        final(pins)@ == old(pins)@.push((final(pins)@.last().0, final(pins)@.last().1)),
        final(pins)@.last().0@ == python(),
        final(pins)@.last().1@ == python_hash@,
{
    pins.push((String::from_str("/usr/bin/python3"), python_hash.clone()));
}

pub proof fn lemma_sources_then_python(pins: Seq<(String, String)>, before: Seq<(String, String)>, root: Seq<char>,
    compiled: Seq<(String, String)>, python_hash: Seq<char>)
    requires
        pinned_sources(before, root, compiled),
        pins == before.push((pins.last().0, pins.last().1)),
        pins.last().0@ == python(),
        pins.last().1@ == python_hash,
    ensures
        sources_then_python(pins, root, compiled, python_hash),
{
    assert(pins.take(compiled.len() as int) =~= before);
}

/// The digests of the sources compiled into the supervisor, by recipe.
#[derive(Clone, Debug)]
pub struct Compiled {
    pub status_script: String,
    pub device_catalog: String,
    pub dhi: Vec<(String, String)>,
    pub ai_worker: Vec<(String, String)>,
    pub ai_sapiens: Vec<(String, String)>,
    pub open_manipulator: Vec<(String, String)>,
}

/// The release's programs by id, each once, and the files to check on disk
/// before any of them is used.
#[derive(Debug)]
pub struct Release {
    pub programs: Vec<(String, Program)>,
    pub pins: Vec<(String, String)>,
}

pub open spec fn source_mismatch() -> Seq<char> {
    "release/source-pin-mismatch; inventory cannot authorize changed source assets"@
}

pub open spec fn absent() -> Seq<char> {
    "required release file absent"@
}

/// Why the status recipe is refused, if it is: the release must list the
/// status script and device catalog with the digests compiled into the
/// supervisor, and pin the Python that serves them.
pub open spec fn status_refusal(inventory: Inventory, compiled: Compiled) -> Option<Seq<char>> {
    let files = inventory.files@;
    match digest_of(files, "tools/solutions_status.py"@) {
        None => Some(absent()),
        Some(d) => if d != compiled.status_script@ {
            Some(source_mismatch())
        } else {
            match digest_of(files, "catalogs/device-support.v1.json"@) {
                None => Some(absent()),
                Some(c) => if c != compiled.device_catalog@ {
                    Some(source_mismatch())
                } else if digest_of(inventory.external_files@, python()) is None {
                    Some(absent())
                } else {
                    None
                },
            }
        },
    }
}

/// Why the release's programs are refused, if they are: the status recipe
/// first, then each recipe the release carries.
pub open spec fn release_refusal(inventory: Inventory, compiled: Compiled) -> Option<Seq<char>> {
    if status_refusal(inventory, compiled) is Some {
        status_refusal(inventory, compiled)
    } else if dhi::refusal(inventory, compiled.dhi@) is Some {
        dhi::refusal(inventory, compiled.dhi@)
    } else if ai_worker::refusal(inventory, compiled.ai_worker@) is Some {
        ai_worker::refusal(inventory, compiled.ai_worker@)
    } else if ai_sapiens::refusal(inventory, compiled.ai_sapiens@) is Some {
        ai_sapiens::refusal(inventory, compiled.ai_sapiens@)
    } else {
        open_manipulator::refusal(inventory, compiled.open_manipulator@)
    }
}

pub open spec fn one_if(b: bool) -> int {
    if b { 1 } else { 0 }
}

/// `(path, digest)` is among the files to check.
pub open spec fn checks(pins: Seq<(String, String)>, path: Seq<char>, digest: Seq<char>) -> bool {
    exists|i: int| 0 <= i < pins.len() && (#[trigger] pins[i]).0@ == path && pins[i].1@ == digest
}

/// Every compiled source is checked under `root` with its compiled digest.
pub open spec fn checks_sources(pins: Seq<(String, String)>, root: Seq<char>, compiled: Seq<(String, String)>) -> bool {
    forall|i: int| 0 <= i < compiled.len() ==> checks(pins, path_joined(root, (#[trigger] compiled[i]).0@), compiled[i].1@)
}

/// The programs of an accepted release: the status publisher, then the DHI,
/// AI Worker, AI Sapiens and OpenMANIPULATOR recipes that it carries, in
/// that order; the status files and the Python are checked first, and every
/// source of each recipe, and every file of the DHI program, is checked.
pub open spec fn released(rel: Release, root: Seq<char>, inventory: Inventory, compiled: Compiled) -> bool {
    let files = inventory.files@;
    let d = dhi::present(inventory);
    let w = any_prefixed(files, "tools/ai-worker/"@);
    let s = any_prefixed(files, "tools/ai-sapiens/"@);
    let o = any_prefixed(files, "tools/open-manipulator/"@);
    let ps = rel.programs@;
    let python_hash = digest_of(inventory.external_files@, python())->0;
    &&& ps.len() == 1 + one_if(d) + one_if(w) + one_if(s) + one_if(o)
    &&& ps[0].0@ == "rx/status-http"@ && status_program(ps[0].1, root, compiled.status_script@, python_hash)
    &&& d ==> ps[1].0@ == "rx/dhi-pty-simulation"@ && dhi::program_of(ps[1].1, root, inventory, compiled.dhi@)
        && forall|i: int| 0 <= i < ps[1].1.files@.len() ==> checks(rel.pins@, (#[trigger] ps[1].1.files@[i]).0@, ps[1].1.files@[i].1@)
    &&& w ==> ps[1 + one_if(d)].0@ == "rx/ai-worker-l3-simulation"@
        && ai_worker::program_of(ps[1 + one_if(d)].1, root, inventory)
    &&& s ==> ps[1 + one_if(d) + one_if(w)].0@ == "rx/ai-sapiens-asset-simulation"@
        && ai_sapiens::program_of(ps[1 + one_if(d) + one_if(w)].1, root, inventory, compiled.ai_sapiens@)
    &&& o ==> ps[1 + one_if(d) + one_if(w) + one_if(s)].0@ == "rx/open-manipulator-l3-simulation"@
        && open_manipulator::program_of(ps[1 + one_if(d) + one_if(w) + one_if(s)].1, root, inventory)
    &&& rel.pins@.len() >= 3
    &&& rel.pins@[0].0@ == path_joined(root, "catalogs/device-support.v1.json"@) && rel.pins@[0].1@ == compiled.device_catalog@
    &&& rel.pins@[1].0@ == path_joined(root, "tools/solutions_status.py"@) && rel.pins@[1].1@ == compiled.status_script@
    &&& rel.pins@[2].0@ == python() && rel.pins@[2].1@ == python_hash
    &&& d ==> checks_sources(rel.pins@, root, compiled.dhi@)
    &&& w ==> checks_sources(rel.pins@, root, compiled.ai_worker@)
    &&& s ==> checks_sources(rel.pins@, root, compiled.ai_sapiens@)
    &&& o ==> checks_sources(rel.pins@, root, compiled.open_manipulator@)
}

/// Adds a recipe: its program under its id, and its files to check.
fn add_recipe(rel: &mut Release, recipe: Recipe)
    ensures
        final(rel).programs@ == old(rel).programs@.push((final(rel).programs@.last().0, recipe.program)),
        final(rel).programs@.last().0 == recipe.program.id,
        final(rel).pins@ == old(rel).pins@ + recipe.pins@,
{
    let Recipe { program, pins } = recipe;
    let ghost before = rel.pins@;
    let ghost listed = rel.programs@;
    let mut k: usize = 0;
    while k < pins.len()
        invariant
            k <= pins@.len(),
            rel.programs@ == listed,
            rel.pins@ == before + pins@.take(k as int),
        decreases pins@.len() - k,
    {
        rel.pins.push((pins[k].0.clone(), pins[k].1.clone()));
        proof {
            assert(before + pins@.take(k + 1) =~= (before + pins@.take(k as int)).push(pins@[k as int]));
        }
        k = k + 1;
    }
    proof {
        assert(pins@.take(k as int) =~= pins@);
    }
    rel.programs.push((program.id.clone(), program));
}

/// Checks kept through later additions.
proof fn lemma_checks_kept(pins: Seq<(String, String)>, more: Seq<(String, String)>, path: Seq<char>, digest: Seq<char>)
    requires
        checks(pins, path, digest),
    ensures
        checks(pins + more, path, digest),
{
    let i = choose|i: int| 0 <= i < pins.len() && (#[trigger] pins[i]).0@ == path && pins[i].1@ == digest;
    assert((pins + more)[i] == pins[i]);
}

/// Every pin of a recipe whose leading pins are its sources checks them.
proof fn lemma_sources_checked(before: Seq<(String, String)>, pins: Seq<(String, String)>, root: Seq<char>,
    compiled: Seq<(String, String)>)
    requires
        pins.len() >= compiled.len(),
        pinned_sources(pins.take(compiled.len() as int), root, compiled),
    ensures
        checks_sources(before + pins, root, compiled),
{
    assert forall|i: int| 0 <= i < compiled.len() implies checks(before + pins, path_joined(root, (#[trigger] compiled[i]).0@),
        compiled[i].1@) by {
        assert((before + pins)[before.len() + i] == pins.take(compiled.len() as int)[i]);
    }
}

proof fn lemma_sources_kept(pins: Seq<(String, String)>, more: Seq<(String, String)>, root: Seq<char>,
    compiled: Seq<(String, String)>)
    requires
        checks_sources(pins, root, compiled),
    ensures
        checks_sources(pins + more, root, compiled),
{
    assert forall|i: int| 0 <= i < compiled.len() implies checks(pins + more, path_joined(root, (#[trigger] compiled[i]).0@),
        compiled[i].1@) by {
        lemma_checks_kept(pins, more, path_joined(root, compiled[i].0@), compiled[i].1@);
    }
}

proof fn lemma_files_kept(pins: Seq<(String, String)>, more: Seq<(String, String)>, files: Seq<(String, String)>)
    requires
        forall|i: int| 0 <= i < files.len() ==> checks(pins, (#[trigger] files[i]).0@, files[i].1@),
    ensures
        forall|i: int| 0 <= i < files.len() ==> checks(pins + more, (#[trigger] files[i]).0@, files[i].1@),
{
    assert forall|i: int| 0 <= i < files.len() implies checks(pins + more, (#[trigger] files[i]).0@, files[i].1@) by {
        lemma_checks_kept(pins, more, files[i].0@, files[i].1@);
    }
}

/// Every file of the DHI program is among its pins, after its sources.
proof fn lemma_files_checked(before: Seq<(String, String)>, pins: Seq<(String, String)>, n: int, files: Seq<(String, String)>)
    requires
        0 <= n <= pins.len(),
        pins.skip(n) == files,
    ensures
        forall|i: int| 0 <= i < files.len() ==> checks(before + pins, (#[trigger] files[i]).0@, files[i].1@),
{
    assert forall|i: int| 0 <= i < files.len() implies checks(before + pins, (#[trigger] files[i]).0@, files[i].1@) by {
        assert((before + pins)[before.len() + n + i] == pins.skip(n)[i]);
    }
}

/// The programs of the release under `root`: the status publisher and each
/// recipe the release carries, once its sources match what was compiled in.
/// The caller checks every returned pin on disk before using a program.
pub fn programs_from_release(root: &String, inventory: &Inventory, compiled: &Compiled) -> (r: Result<Release, Error>)
    ensures
        match release_refusal(*inventory, *compiled) {
            Some(m) => r matches Err(Error::Invalid(x)) && x@ == m,
            None => r matches Ok(rel) && released(rel, root@, *inventory, *compiled),
        },
{
    let script = match lookup(&inventory.files, "tools/solutions_status.py") {
        None => {
            return Err(Error::Invalid(String::from_str("required release file absent")));
        },
        Some(d) => d,
    };
    if script != compiled.status_script {
        return Err(Error::Invalid(String::from_str("release/source-pin-mismatch; inventory cannot authorize changed source assets")));
    }
    let catalog = match lookup(&inventory.files, "catalogs/device-support.v1.json") {
        None => {
            return Err(Error::Invalid(String::from_str("required release file absent")));
        },
        Some(d) => d,
    };
    if catalog != compiled.device_catalog {
        return Err(Error::Invalid(String::from_str("release/source-pin-mismatch; inventory cannot authorize changed source assets")));
    }
    let python_hash = match required(&inventory.external_files, "/usr/bin/python3", "required release file absent") {
        Err(e) => {
            return Err(e);
        },
        Ok(h) => h,
    };
    let mut pins: Vec<(String, String)> = Vec::new();
    pins.push((path_join(root.as_str(), "catalogs/device-support.v1.json"), compiled.device_catalog.clone()));
    pins.push((path_join(root.as_str(), "tools/solutions_status.py"), compiled.status_script.clone()));
    pins.push((String::from_str("/usr/bin/python3"), python_hash.clone()));
    let mut programs: Vec<(String, Program)> = Vec::new();
    programs.push((String::from_str("rx/status-http"), status_recipe(root, compiled.status_script.clone(), python_hash)));
    let mut rel = Release { programs, pins };
    let ghost head = rel.pins@;
    let ghost d = dhi::present(*inventory);
    let ghost w = any_prefixed(inventory.files@, "tools/ai-worker/"@);
    let ghost s = any_prefixed(inventory.files@, "tools/ai-sapiens/"@);
    let ghost o = any_prefixed(inventory.files@, "tools/open-manipulator/"@);
    match dhi::program(root, inventory, &compiled.dhi) {
        Err(e) => {
            return Err(e);
        },
        Ok(None) => {},
        Ok(Some(x)) => {
            let ghost before = rel.pins@;
            let ghost xp = x.pins@;
            proof {
                lemma_sources_checked(before, xp, root@, compiled.dhi@);
                lemma_files_checked(before, xp, compiled.dhi@.len() as int, x.program.files@);
            }
            add_recipe(&mut rel, x);
        },
    }
    assert(rel.programs@.len() == 1 + one_if(d));
    match ai_worker::program(root, inventory, &compiled.ai_worker) {
        Err(e) => {
            return Err(e);
        },
        Ok(None) => {},
        Ok(Some(x)) => {
            let ghost before = rel.pins@;
            proof {
                lemma_sources_checked(before, x.pins@, root@, compiled.ai_worker@);
                if d {
                    lemma_sources_kept(before, x.pins@, root@, compiled.dhi@);
                    lemma_files_kept(before, x.pins@, rel.programs@[1].1.files@);
                }
            }
            add_recipe(&mut rel, x);
        },
    }
    assert(rel.programs@.len() == 1 + one_if(d) + one_if(w));
    match ai_sapiens::program(root, inventory, &compiled.ai_sapiens) {
        Err(e) => {
            return Err(e);
        },
        Ok(None) => {},
        Ok(Some(x)) => {
            let ghost before = rel.pins@;
            proof {
                lemma_sources_checked(before, x.pins@, root@, compiled.ai_sapiens@);
                if d {
                    lemma_sources_kept(before, x.pins@, root@, compiled.dhi@);
                    lemma_files_kept(before, x.pins@, rel.programs@[1].1.files@);
                }
                if w {
                    lemma_sources_kept(before, x.pins@, root@, compiled.ai_worker@);
                }
            }
            add_recipe(&mut rel, x);
        },
    }
    assert(rel.programs@.len() == 1 + one_if(d) + one_if(w) + one_if(s));
    match open_manipulator::program(root, inventory, &compiled.open_manipulator) {
        Err(e) => {
            return Err(e);
        },
        Ok(None) => {},
        Ok(Some(x)) => {
            let ghost before = rel.pins@;
            proof {
                lemma_sources_checked(before, x.pins@, root@, compiled.open_manipulator@);
                if d {
                    lemma_sources_kept(before, x.pins@, root@, compiled.dhi@);
                    lemma_files_kept(before, x.pins@, rel.programs@[1].1.files@);
                }
                if w {
                    lemma_sources_kept(before, x.pins@, root@, compiled.ai_worker@);
                }
                if s {
                    lemma_sources_kept(before, x.pins@, root@, compiled.ai_sapiens@);
                }
            }
            add_recipe(&mut rel, x);
        },
    }
    Ok(rel)
}

/// An operating area compiled into the supervisor, as a recipe reads it.
#[derive(Clone, Debug)]
pub struct AreaDeclaration {
    pub program: String,
    pub key_id: String,
    pub issuer: String,
    pub public_key: [u8; 32],
    pub area: String,
    pub role: String,
    pub max_ttl_ms: u64,
}

/// The one authority of an area: its key, issuing work-use decisions for
/// its role in its operating area.
pub open spec fn area_policy(policy: Option<Policy>, a: AreaDeclaration) -> bool {
    policy matches Some(p) && p.authorities@.len() == 1 && {
        let (key, x) = p.authorities@[0];
        &&& key == a.key_id
        &&& x.issuer == a.issuer
        &&& x.public_key == a.public_key
        &&& x.operating_area == a.area
        &&& x.roles@.len() == 1 && x.roles@[0] == a.role
        &&& x.kinds@ == seq![Kind::WorkUse]
        &&& x.max_ttl_ms == a.max_ttl_ms
    }
}

/// The development work program of an authored operating area: the status
/// publisher under the area's program name, with the area's one authority
/// as its decision policy. `area` is what looking the program up in the
/// compiled area catalog found. No key or policy comes from site input.
pub fn development_area_program(root: &String, inventory: &Inventory, compiled: &Compiled,
    area: Result<Option<AreaDeclaration>, String>) -> (r: Result<Recipe, Error>)
    ensures
        match area {
            Err(m) => r matches Err(Error::Invalid(x)) && x == m,
            Ok(None) => r matches Err(Error::Invalid(x)) && x@ == "area-catalog/program-not-authored"@,
            Ok(Some(a)) => match release_refusal(*inventory, *compiled) {
                Some(m) => r matches Err(Error::Invalid(x)) && x@ == m,
                None => r matches Ok(x) && x.program.id == a.program
                    && status_shape(x.program, root@, compiled.status_script@, digest_of(inventory.external_files@, python())->0)
                    && area_policy(x.program.decision_policy, a)
                    && x.pins@.len() >= 3
                    && x.pins@[0].0@ == path_joined(root@, "catalogs/device-support.v1.json"@)
                    && x.pins@[1].0@ == path_joined(root@, "tools/solutions_status.py"@)
                    && x.pins@[2].0@ == python(),
            },
        },
{
    let a = match area {
        Err(m) => {
            return Err(Error::Invalid(m));
        },
        Ok(None) => {
            return Err(Error::Invalid(String::from_str("area-catalog/program-not-authored")));
        },
        Ok(Some(a)) => a,
    };
    let rel = match programs_from_release(root, inventory, compiled) {
        Err(e) => {
            return Err(e);
        },
        Ok(rel) => rel,
    };
    let Release { mut programs, pins } = rel;
    let (_, work) = programs.remove(0);
    let mut roles: Vec<String> = Vec::new();
    roles.push(a.role);
    let mut kinds: Vec<Kind> = Vec::new();
    kinds.push(Kind::WorkUse);
    let mut authorities: Vec<(String, Authority)> = Vec::new();
    authorities.push((a.key_id, Authority {
        issuer: a.issuer,
        public_key: a.public_key,
        operating_area: a.area,
        roles,
        kinds,
        max_ttl_ms: a.max_ttl_ms,
    }));
    let program = Program { id: a.program, decision_policy: Some(Policy { authorities }), ..work };
    proof {
        assert(program.decision_policy->0.authorities@[0].1.kinds@ =~= seq![Kind::WorkUse]);
    }
    Ok(Recipe { program, pins })
}

} // verus!
