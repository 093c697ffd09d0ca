//! Fresh-PTY investigation only. Registered release admission stays
//! withheld.
use vstd::prelude::*;
use crate::builtin::{
    any_prefixed, digest_of, has_prefixed, check_sources, http_on_port, http_port, lookup, pinned_sources, pins_match,
    port_argument, port_only, python, required, Inventory, Recipe,
};
use crate::model::{Effect, Program};
use crate::plan::{copy_pairs, path_join, path_joined, texts};
use crate::text::{has_prefix, prefixed};
use crate::Error;

verus! {

pub open spec fn guardian() -> Seq<char> {
    "bin/rx-dhi-custody"@
}

pub open spec fn manager() -> Seq<char> {
    "bin/rx-dhi-controller-manager"@
}

pub open spec fn mismatch() -> Seq<char> {
    "release/source-pin-mismatch; DHI inventory cannot authorize changed source"@
}

/// Older releases carry no DHI recipe at all.
pub open spec fn present(inventory: Inventory) -> bool {
    any_prefixed(inventory.files@, "dhi/"@) || any_prefixed(inventory.files@, "tools/dhi/"@)
        || digest_of(inventory.files@, guardian()) is Some
}

/// Why the release's DHI recipe is refused, if it is present and is.
pub open spec fn refusal(inventory: Inventory, compiled: Seq<(String, String)>) -> Option<Seq<char>> {
    let files = inventory.files@;
    if !present(inventory) {
        None
    } else if !pins_match(files, compiled) {
        Some(mismatch())
    } else if digest_of(files, guardian()) is None {
        Some("DHI_RELEASE_CONTENT_REQUIRED: bin/rx-dhi-custody"@)
    } else if digest_of(files, manager()) is None {
        Some("DHI_MANAGER_RELEASE_PIN_REQUIRED"@)
    } else if digest_of(files, "dhi/lib/libdynamixel_hardware_interface.so"@) is None {
        Some("DHI_RELEASE_CONTENT_REQUIRED: dhi/lib/libdynamixel_hardware_interface.so"@)
    } else if digest_of(files, "dhi/lib/libdynamixel_sdk.so"@) is None {
        Some("DHI_RELEASE_CONTENT_REQUIRED: dhi/lib/libdynamixel_sdk.so"@)
    } else if digest_of(files, "dhi/share/dynamixel_hardware_interface/param/dxl_model/dynamixel.model"@) is None {
        Some("DHI_RELEASE_CONTENT_REQUIRED: dhi/share/dynamixel_hardware_interface/param/dxl_model/dynamixel.model"@)
    } else if digest_of(files, "dhi/share/dynamixel_hardware_interface/param/dxl_model/xl430_w250.model"@) is None {
        Some("DHI_RELEASE_CONTENT_REQUIRED: dhi/share/dynamixel_hardware_interface/param/dxl_model/xl430_w250.model"@)
    } else if digest_of(inventory.external_files@, python()) is None {
        Some("DHI_PYTHON_RELEASE_PIN_REQUIRED"@)
    } else {
        None
    }
}

/// Paths and digests, as text.
pub open spec fn pair_views(v: Seq<(String, String)>) -> Seq<(Seq<char>, Seq<char>)> {
    v.map_values(|p: (String, String)| (p.0@, p.1@))
}

/// The listed entries under `prefix`, in order, each placed under `root`.
pub open spec fn placed_under(entries: Seq<(String, String)>, prefix: Seq<char>, root: Seq<char>) -> Seq<(Seq<char>, Seq<char>)>
    decreases entries.len(),
{
    if entries.len() == 0 {
        Seq::empty()
    } else {
        let rest = placed_under(entries.drop_last(), prefix, root);
        if prefixed(entries.last().0@, prefix) {
            rest.push((path_joined(root, entries.last().0@), entries.last().1@))
        } else {
            rest
        }
    }
}

/// The files the DHI program runs with: its compiled sources, the custody
/// guardian and the controller manager, then every listed `dhi/` file.
pub open spec fn files_of(files: Seq<(String, String)>, root: Seq<char>, inventory: Inventory, compiled: Seq<(String, String)>) -> bool {
    let n = compiled.len() as int;
    &&& files.len() >= n + 2
    &&& pinned_sources(files.take(n), root, compiled)
    &&& files[n].0@ == path_joined(root, guardian()) && Some(files[n].1@) == digest_of(inventory.files@, guardian())
    &&& files[n + 1].0@ == path_joined(root, manager()) && Some(files[n + 1].1@) == digest_of(inventory.files@, manager())
    &&& pair_views(files.skip(n + 2)) == placed_under(inventory.files@, "dhi/"@, root)
}

/// The fresh-PTY session served by the pinned Python on a port. Resident
/// launch stays denied: it needs platform authority.
pub open spec fn program_of(p: Program, root: Seq<char>, inventory: Inventory, compiled: Seq<(String, String)>) -> bool {
    &&& p.id@ == "rx/dhi-pty-simulation"@
    &&& p.effect == Effect::RequiresPlatformAuthority
    &&& p.executable@ == python()
    &&& Some(p.executable_sha256@) == digest_of(inventory.external_files@, python())
    &&& files_of(p.files@, root, inventory, compiled)
    &&& texts(p.fixed_arguments@) == seq![path_joined(root, "tools/dhi/session.py"@), "serve"@]
    &&& port_argument(p.arguments@)
    &&& http_on_port(p.ready)
    &&& p.execution_requirements is None
    &&& p.functional_readiness is None
    &&& p.decision_policy is None
}

/// Appends every listed `dhi/` file, placed under `root`.
fn push_placed(files: &mut Vec<(String, String)>, entries: &Vec<(String, String)>, root: &String)
    ensures
        final(files)@.len() >= old(files)@.len(),
        final(files)@.take(old(files)@.len() as int) == old(files)@,
        pair_views(final(files)@.skip(old(files)@.len() as int)) == placed_under(entries@, "dhi/"@, root@),
{
    let ghost start = files@;
    let mut i: usize = 0;
    while i < entries.len()
        invariant
            i <= entries@.len(),
            files@.len() >= start.len(),
            files@.take(start.len() as int) == start,
            pair_views(files@.skip(start.len() as int)) == placed_under(entries@.take(i as int), "dhi/"@, root@),
        decreases entries@.len() - i,
    {
        proof {
            assert(entries@.take(i + 1).drop_last() =~= entries@.take(i as int));
            assert(entries@.take(i + 1).last() == entries@[i as int]);
        }
        if has_prefix(entries[i].0.as_str(), "dhi/") {
            let ghost before = files@;
            files.push((path_join(root.as_str(), entries[i].0.as_str()), entries[i].1.clone()));
            proof {
                assert(files@.take(start.len() as int) =~= before.take(start.len() as int));
                assert(files@.skip(start.len() as int) =~= before.skip(start.len() as int).push(files@.last()));
                assert(pair_views(files@.skip(start.len() as int)) =~= pair_views(before.skip(start.len() as int)).push(
                    (files@.last().0@, files@.last().1@)));
            }
        }
        i = i + 1;
    }
    proof {
        assert(entries@.take(i as int) =~= entries@);
    }
}

/// The sources this recipe needs checked on disk, when the release
/// carries the recipe: refused when a compiled source is not listed with
/// its compiled digest.
pub fn source_pins(root: &String, inventory: &Inventory, compiled: &Vec<(String, String)>) -> (r: Result<Option<Vec<(String, String)>>, Error>)
    ensures
        !present(*inventory) ==> r matches Ok(None),
        present(*inventory) && !pins_match(inventory.files@, compiled@) ==> (r matches Err(Error::Invalid(m)) && m@ == mismatch()),
        present(*inventory) && pins_match(inventory.files@, compiled@) ==> (r matches Ok(Some(pins))
            && pinned_sources(pins@, root@, compiled@)),
{
    let present = has_prefixed(&inventory.files, "dhi/") || has_prefixed(&inventory.files, "tools/dhi/")
        || lookup(&inventory.files, "bin/rx-dhi-custody").is_some();
    check_sources(root, &inventory.files, present, compiled, "release/source-pin-mismatch; DHI inventory cannot authorize changed source")
}

/// The DHI recipe, when the release carries it. `compiled` are the sources
/// compiled into the supervisor with their digests. The files to check are
/// the sources, then every file of the program.
pub fn program(root: &String, inventory: &Inventory, compiled: &Vec<(String, String)>) -> (r: Result<Option<Recipe>, Error>)
    ensures
        !present(*inventory) ==> r matches Ok(None),
        refusal(*inventory, compiled@) matches Some(m) ==> (r matches Err(Error::Invalid(x)) && x@ == m),
        present(*inventory) && refusal(*inventory, compiled@) is None ==> (r matches Ok(Some(x))
            && program_of(x.program, root@, *inventory, compiled@)
            && x.pins@.len() == compiled@.len() + x.program.files@.len()
            && pinned_sources(x.pins@.take(compiled@.len() as int), root@, compiled@)
            && x.pins@.skip(compiled@.len() as int) == x.program.files@),
{
    let sources = match source_pins(root, inventory, compiled) {
        Err(e) => {
            return Err(e);
        },
        Ok(None) => {
            return Ok(None);
        },
        Ok(Some(p)) => p,
    };
    let guard = match required(&inventory.files, "bin/rx-dhi-custody", "DHI_RELEASE_CONTENT_REQUIRED: bin/rx-dhi-custody") {
        Err(e) => {
            return Err(e);
        },
        Ok(d) => d,
    };
    let controller = match required(&inventory.files, "bin/rx-dhi-controller-manager", "DHI_MANAGER_RELEASE_PIN_REQUIRED") {
        Err(e) => {
            return Err(e);
        },
        Ok(d) => d,
    };
    let mut files = copy_pairs(&sources);
    files.push((path_join(root.as_str(), "bin/rx-dhi-custody"), guard));
    files.push((path_join(root.as_str(), "bin/rx-dhi-controller-manager"), controller));
    let ghost fixed_part = files@;
    push_placed(&mut files, &inventory.files, root);
    if let Err(e) = required(&inventory.files, "dhi/lib/libdynamixel_hardware_interface.so",
        "DHI_RELEASE_CONTENT_REQUIRED: dhi/lib/libdynamixel_hardware_interface.so") {
        return Err(e);
    }
    if let Err(e) = required(&inventory.files, "dhi/lib/libdynamixel_sdk.so",
        "DHI_RELEASE_CONTENT_REQUIRED: dhi/lib/libdynamixel_sdk.so") {
        return Err(e);
    }
    if let Err(e) = required(&inventory.files, "dhi/share/dynamixel_hardware_interface/param/dxl_model/dynamixel.model",
        "DHI_RELEASE_CONTENT_REQUIRED: dhi/share/dynamixel_hardware_interface/param/dxl_model/dynamixel.model") {
        return Err(e);
    }
    if let Err(e) = required(&inventory.files, "dhi/share/dynamixel_hardware_interface/param/dxl_model/xl430_w250.model",
        "DHI_RELEASE_CONTENT_REQUIRED: dhi/share/dynamixel_hardware_interface/param/dxl_model/xl430_w250.model") {
        return Err(e);
    }
    let python_hash = match required(&inventory.external_files, "/usr/bin/python3", "DHI_PYTHON_RELEASE_PIN_REQUIRED") {
        Err(e) => {
            return Err(e);
        },
        Ok(h) => h,
    };
    let mut pins = copy_pairs(&sources);
    let checked = copy_pairs(&files);
    let mut k: usize = 0;
    while k < checked.len()
        invariant
            k <= checked@.len(),
            pins@.len() == sources@.len() + k,
            pins@.take(sources@.len() as int) == sources@,
            forall|j: int| 0 <= j < k ==> #[trigger] pins@[sources@.len() + j] == checked@[j],
        decreases checked@.len() - k,
    {
        let ghost before = pins@;
        pins.push((checked[k].0.clone(), checked[k].1.clone()));
        proof {
            assert(pins@.take(sources@.len() as int) =~= before.take(sources@.len() as int));
        }
        k = k + 1;
    }
    let mut fixed: Vec<String> = Vec::new();
    fixed.push(path_join(root.as_str(), "tools/dhi/session.py"));
    fixed.push(String::from_str("serve"));
    let p = Program {
        id: String::from_str("rx/dhi-pty-simulation"),
        effect: Effect::RequiresPlatformAuthority,
        executable: String::from_str("/usr/bin/python3"),
        executable_sha256: python_hash,
        files,
        fixed_arguments: fixed,
        arguments: port_only(),
        ready: http_port(),
        execution_requirements: None,
        functional_readiness: None,
        decision_policy: None,
    };
    proof {
        let n = compiled@.len() as int;
        assert(texts(p.fixed_arguments@) =~= seq![path_joined(root@, "tools/dhi/session.py"@), "serve"@]);
        assert(fixed_part.take(n) =~= sources@);
        assert(p.files@.take(n) =~= fixed_part.take(n));
        assert(p.files@[n] == fixed_part[n]);
        assert(p.files@[n + 1] == fixed_part[n + 1]);
        assert(p.files@.skip(n + 2) =~= p.files@.skip(fixed_part.len() as int));
        assert(pins@.take(n) == sources@);
        assert(sources@.len() == n);
        assert forall|j: int| 0 <= j < p.files@.len() implies #[trigger] pins@.skip(n)[j] == p.files@[j] by {
            assert(pins@[sources@.len() + j] == checked@[j]);
        }
        assert(pins@.skip(n) =~= p.files@);
    }
    Ok(Some(Recipe { program: p, pins }))
}

} // verus!
