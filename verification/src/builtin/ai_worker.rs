//! AI Worker 2.2.7 L3 service-generation ownership, simulation only.
use vstd::prelude::*;
use crate::builtin::{
    any_prefixed, declared_empty, digest_of, has_prefixed, check_sources, http_on_port, http_port, lemma_sources_then_python,
    pins_match, pinned_sources, port_argument, port_only, push_python, python, required, sources_then_python,
    Inventory, Recipe,
};
use crate::execution::Requirements;
use crate::model::{Effect, Program};
use crate::plan::{path_join, path_joined, texts};
use crate::Error;

verus! {

pub open spec fn mismatch() -> Seq<char> {
    "release/source-pin-mismatch; AI Worker L3 inventory cannot authorize changed source"@
}

/// Why the release's AI Worker recipe is refused, if it is present and is.
pub open spec fn refusal(inventory: Inventory, compiled: Seq<(String, String)>) -> Option<Seq<char>> {
    if !any_prefixed(inventory.files@, "tools/ai-worker/"@) {
        None
    } else if !pins_match(inventory.files@, compiled) {
        Some(mismatch())
    } else if digest_of(inventory.external_files@, python()) is None {
        Some("AI_WORKER_PYTHON_RELEASE_PIN_REQUIRED"@)
    } else if digest_of(inventory.files@, "tools/ai-worker/l3_guard.py"@) is None {
        Some("AI_WORKER_RELEASE_CONTENT_REQUIRED: tools/ai-worker/l3_guard.py"@)
    } else if digest_of(inventory.files@, "tools/ai-worker/dependencies.json"@) is None {
        Some("AI_WORKER_RELEASE_CONTENT_REQUIRED: tools/ai-worker/dependencies.json"@)
    } else {
        None
    }
}

/// The L3 guard served by the pinned Python under its own state directory
/// and owner, on a port; it does not actuate.
pub open spec fn program_of(p: Program, root: Seq<char>, inventory: Inventory) -> bool {
    let script = path_joined(root, "tools/ai-worker/l3_guard.py"@);
    &&& p.id@ == "rx/ai-worker-l3-simulation"@
    &&& p.effect == Effect::NonActuating
    &&& p.executable@ == python()
    &&& Some(p.executable_sha256@) == digest_of(inventory.external_files@, python())
    &&& p.files@.len() == 2
    &&& p.files@[0].0@ == script && Some(p.files@[0].1@) == digest_of(inventory.files@, "tools/ai-worker/l3_guard.py"@)
    &&& p.files@[1].0@ == path_joined(root, "tools/ai-worker/dependencies.json"@)
        && Some(p.files@[1].1@) == digest_of(inventory.files@, "tools/ai-worker/dependencies.json"@)
    &&& texts(p.fixed_arguments@) == seq![script, "serve"@, "--state"@, "/var/lib/rx-solutions/ai-worker-l3"@, "--owner"@, "rx"@]
    &&& port_argument(p.arguments@)
    &&& http_on_port(p.ready)
    &&& declared_empty(p.execution_requirements)
    &&& p.functional_readiness is None
    &&& p.decision_policy is None
}

/// The sources this recipe needs checked on disk, when the release
/// carries the recipe: refused when a compiled source is not listed with
/// its compiled digest.
pub fn source_pins(root: &String, inventory: &Inventory, compiled: &Vec<(String, String)>) -> (r: Result<Option<Vec<(String, String)>>, Error>)
    ensures
        !any_prefixed(inventory.files@, "tools/ai-worker/"@) ==> r matches Ok(None),
        any_prefixed(inventory.files@, "tools/ai-worker/"@) && !pins_match(inventory.files@, compiled@) ==> (r matches Err(Error::Invalid(m)) && m@ == mismatch()),
        any_prefixed(inventory.files@, "tools/ai-worker/"@) && pins_match(inventory.files@, compiled@) ==> (r matches Ok(Some(pins))
            && pinned_sources(pins@, root@, compiled@)),
{
    let present = has_prefixed(&inventory.files, "tools/ai-worker/");
    check_sources(root, &inventory.files, present, compiled, "release/source-pin-mismatch; AI Worker L3 inventory cannot authorize changed source")
}

/// The AI Worker recipe, when the release carries it. `compiled` are the
/// sources compiled into the supervisor with their digests.
pub fn program(root: &String, inventory: &Inventory, compiled: &Vec<(String, String)>) -> (r: Result<Option<Recipe>, Error>)
    ensures
        !any_prefixed(inventory.files@, "tools/ai-worker/"@) ==> r matches Ok(None),
        refusal(*inventory, compiled@) matches Some(m) ==> (r matches Err(Error::Invalid(x)) && x@ == m),
        any_prefixed(inventory.files@, "tools/ai-worker/"@) && refusal(*inventory, compiled@) is None ==> (r matches Ok(Some(x))
            && program_of(x.program, root@, *inventory)
            && sources_then_python(x.pins@, root@, compiled@, x.program.executable_sha256@)),
{
    let mut pins = match source_pins(root, inventory, compiled) {
        Err(e) => {
            return Err(e);
        },
        Ok(None) => {
            return Ok(None);
        },
        Ok(Some(p)) => p,
    };
    let python_hash = match required(&inventory.external_files, "/usr/bin/python3", "AI_WORKER_PYTHON_RELEASE_PIN_REQUIRED") {
        Err(e) => {
            return Err(e);
        },
        Ok(h) => h,
    };
    let ghost before = pins@;
    push_python(&mut pins, &python_hash);
    proof {
        lemma_sources_then_python(pins@, before, root@, compiled@, python_hash@);
    }
    let guard = match required(&inventory.files, "tools/ai-worker/l3_guard.py",
        "AI_WORKER_RELEASE_CONTENT_REQUIRED: tools/ai-worker/l3_guard.py") {
        Err(e) => {
            return Err(e);
        },
        Ok(d) => d,
    };
    let dependencies = match required(&inventory.files, "tools/ai-worker/dependencies.json",
        "AI_WORKER_RELEASE_CONTENT_REQUIRED: tools/ai-worker/dependencies.json") {
        Err(e) => {
            return Err(e);
        },
        Ok(d) => d,
    };
    let script = path_join(root.as_str(), "tools/ai-worker/l3_guard.py");
    let mut files: Vec<(String, String)> = Vec::new();
    files.push((script.clone(), guard));
    files.push((path_join(root.as_str(), "tools/ai-worker/dependencies.json"), dependencies));
    let mut fixed: Vec<String> = Vec::new();
    fixed.push(script);
    fixed.push(String::from_str("serve"));
    fixed.push(String::from_str("--state"));
    fixed.push(String::from_str("/var/lib/rx-solutions/ai-worker-l3"));
    fixed.push(String::from_str("--owner"));
    fixed.push(String::from_str("rx"));
    let p = Program {
        id: String::from_str("rx/ai-worker-l3-simulation"),
        effect: Effect::NonActuating,
        executable: String::from_str("/usr/bin/python3"),
        executable_sha256: python_hash,
        files,
        fixed_arguments: fixed,
        arguments: port_only(),
        ready: http_port(),
        execution_requirements: Some(Requirements(Vec::new())),
        functional_readiness: None,
        decision_policy: None,
    };
    proof {
        assert(texts(p.fixed_arguments@) =~= seq![path_joined(root@, "tools/ai-worker/l3_guard.py"@), "serve"@, "--state"@,
            "/var/lib/rx-solutions/ai-worker-l3"@, "--owner"@, "rx"@]);
    }
    Ok(Some(Recipe { program: p, pins }))
}

} // verus!
