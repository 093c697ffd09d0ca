//! AI Sapiens 0.2.2 asset gate, simulation only.
use vstd::prelude::*;
use crate::builtin::{
    any_prefixed, declared_empty, digest_of, has_prefixed, check_sources, lemma_sources_then_python, pinned_sources, pins_match,
    push_python, python, required, sources_then_python, Inventory, Recipe,
};
use crate::execution::Requirements;
use crate::model::{Effect, Program, ReadyProbe};
use crate::plan::{copy_pairs, path_join, path_joined, texts};
use crate::Error;

verus! {

pub open spec fn mismatch() -> Seq<char> {
    "release/source-pin-mismatch; AI Sapiens asset gate changed"@
}

/// Why the release's AI Sapiens recipe is refused, if it is present and is.
pub open spec fn refusal(inventory: Inventory, compiled: Seq<(String, String)>) -> Option<Seq<char>> {
    if !any_prefixed(inventory.files@, "tools/ai-sapiens/"@) {
        None
    } else if !pins_match(inventory.files@, compiled) {
        Some(mismatch())
    } else if digest_of(inventory.external_files@, python()) is None {
        Some("AI_SAPIENS_PYTHON_PIN_REQUIRED"@)
    } else {
        None
    }
}

/// The asset gate probe, run once by the pinned Python over the installed
/// assets; alive is all its readiness says, and it does not actuate.
pub open spec fn program_of(p: Program, root: Seq<char>, inventory: Inventory, compiled: Seq<(String, String)>) -> bool {
    &&& p.id@ == "rx/ai-sapiens-asset-simulation"@
    &&& p.effect == Effect::NonActuating
    &&& p.executable@ == python()
    &&& Some(p.executable_sha256@) == digest_of(inventory.external_files@, python())
    &&& pinned_sources(p.files@, root, compiled)
    &&& texts(p.fixed_arguments@) == seq![path_joined(root, "tools/ai-sapiens/asset_gate.py"@), "probe"@, "--asset-root"@,
        "/opt/rx/ai-sapiens/assets"@]
    &&& p.arguments@.len() == 0
    &&& p.ready is AliveOnly
    &&& declared_empty(p.execution_requirements)
    &&& p.functional_readiness is None
    &&& p.decision_policy is None
}

/// The sources this recipe needs checked on disk, when the release
/// carries the recipe: refused when a compiled source is not listed with
/// its compiled digest.
pub fn source_pins(root: &String, inventory: &Inventory, compiled: &Vec<(String, String)>) -> (r: Result<Option<Vec<(String, String)>>, Error>)
    ensures
        !any_prefixed(inventory.files@, "tools/ai-sapiens/"@) ==> r matches Ok(None),
        any_prefixed(inventory.files@, "tools/ai-sapiens/"@) && !pins_match(inventory.files@, compiled@) ==> (r matches Err(Error::Invalid(m)) && m@ == mismatch()),
        any_prefixed(inventory.files@, "tools/ai-sapiens/"@) && pins_match(inventory.files@, compiled@) ==> (r matches Ok(Some(pins))
            && pinned_sources(pins@, root@, compiled@)),
{
    let present = has_prefixed(&inventory.files, "tools/ai-sapiens/");
    check_sources(root, &inventory.files, present, compiled, "release/source-pin-mismatch; AI Sapiens asset gate changed")
}

/// The AI Sapiens recipe, when the release carries it. `compiled` are the
/// sources compiled into the supervisor with their digests.
pub fn program(root: &String, inventory: &Inventory, compiled: &Vec<(String, String)>) -> (r: Result<Option<Recipe>, Error>)
    ensures
        !any_prefixed(inventory.files@, "tools/ai-sapiens/"@) ==> r matches Ok(None),
        refusal(*inventory, compiled@) matches Some(m) ==> (r matches Err(Error::Invalid(x)) && x@ == m),
        any_prefixed(inventory.files@, "tools/ai-sapiens/"@) && refusal(*inventory, compiled@) is None ==> (r matches Ok(Some(x))
            && program_of(x.program, root@, *inventory, compiled@)
            && sources_then_python(x.pins@, root@, compiled@, x.program.executable_sha256@)),
{
    let mut pins = match source_pins(root, inventory, compiled) {
        Err(e) => {
            return Err(e);
        },
        Ok(None) => {
            return Ok(None);
        },
        Ok(Some(p)) => p,
    };
    let python_hash = match required(&inventory.external_files, "/usr/bin/python3", "AI_SAPIENS_PYTHON_PIN_REQUIRED") {
        Err(e) => {
            return Err(e);
        },
        Ok(h) => h,
    };
    let files = copy_pairs(&pins);
    let ghost before = pins@;
    push_python(&mut pins, &python_hash);
    proof {
        lemma_sources_then_python(pins@, before, root@, compiled@, python_hash@);
    }
    let mut fixed: Vec<String> = Vec::new();
    fixed.push(path_join(root.as_str(), "tools/ai-sapiens/asset_gate.py"));
    fixed.push(String::from_str("probe"));
    fixed.push(String::from_str("--asset-root"));
    fixed.push(String::from_str("/opt/rx/ai-sapiens/assets"));
    let p = Program {
        id: String::from_str("rx/ai-sapiens-asset-simulation"),
        effect: Effect::NonActuating,
        executable: String::from_str("/usr/bin/python3"),
        executable_sha256: python_hash,
        files,
        fixed_arguments: fixed,
        arguments: Vec::new(),
        ready: ReadyProbe::AliveOnly,
        execution_requirements: Some(Requirements(Vec::new())),
        functional_readiness: None,
        decision_policy: None,
    };
    proof {
        assert(texts(p.fixed_arguments@) =~= seq![path_joined(root@, "tools/ai-sapiens/asset_gate.py"@), "probe"@,
            "--asset-root"@, "/opt/rx/ai-sapiens/assets"@]);
    }
    Ok(Some(Recipe { program: p, pins }))
}

} // verus!
