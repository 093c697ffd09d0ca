//! Validation of a site's plan against the release catalog, and the launch
//! of one process.
use vstd::prelude::*;
use crate::model::{Argument, Effect, Environment, Launch, Plan, Process, Program, ReadyProbe};
use crate::text::{byte_len, chars_of, decimal, decimal_string, fits, parse_u64, parse_u64_at, same_text};
use crate::Error;

verus! {

/// On Unix, a path is absolute when it begins at the root.
pub open spec fn absolute(path: Seq<char>) -> bool {
    path.len() > 0 && path[0] == '/'
}

/// A `..` component starts at `i`.
pub open spec fn dotdot_at(path: Seq<char>, i: int) -> bool {
    &&& 0 <= i && i + 1 < path.len()
    &&& path[i] == '.' && path[i + 1] == '.'
    &&& (i == 0 || path[i - 1] == '/')
    &&& (i + 2 == path.len() || path[i + 2] == '/')
}

/// The path climbs to a parent directory somewhere.
pub open spec fn climbs(path: Seq<char>) -> bool {
    exists|i: int| dotdot_at(path, i)
}

fn has_parent_dir(path: &String) -> (r: bool)
    ensures
        r == climbs(path@),
{
    let v = chars_of(path.as_str());
    let n = v.len();
    let mut i: usize = 0;
    while i < n
        invariant
            v@ == path@,
            n == v@.len(),
            i <= n,
            forall|k: int| 0 <= k < i ==> !dotdot_at(path@, k),
        decreases n - i,
    {
        if i + 1 < n && v[i] == '.' && v[i + 1] == '.' && (i == 0 || v[i - 1] == '/') && (i + 2 == n || v[i + 2] == '/') {
            assert(dotdot_at(path@, i as int));
            return true;
        }
        i = i + 1;
    }
    proof {
        assert forall|k: int| !dotdot_at(path@, k) by {
            if 0 <= k < i {
            }
        }
    }
    false
}

/// What `Path::parent` gives for a path, as text.
pub uninterp spec fn path_parent_of(path: Seq<char>) -> Option<Seq<char>>;

/// What `Path::file_stem` gives for a path, as text when it is UTF-8.
pub uninterp spec fn path_stem_of(path: Seq<char>) -> Option<Seq<char>>;

/// What `Path::join` gives for a base and a relative name, as text.
pub uninterp spec fn path_joined(base: Seq<char>, name: Seq<char>) -> Seq<char>;

/// std's `Path::parent`. The contract names the result; what the parent
/// of a given path is, is left to std.
#[verifier::external_body]
fn path_parent(path: &str) -> (r: Option<String>)
    ensures
        r matches Some(p) ==> path_parent_of(path@) == Some(p@),
        r is None ==> path_parent_of(path@) is None,
{
    std::path::Path::new(path).parent().map(|p| p.to_string_lossy().into_owned())
}

/// std's `Path::file_stem`, when the stem is UTF-8. The contract names the
/// result and states no more.
#[verifier::external_body]
fn path_stem(path: &str) -> (r: Option<String>)
    ensures
        r matches Some(s) ==> path_stem_of(path@) == Some(s@),
        r is None ==> path_stem_of(path@) is None,
{
    std::path::Path::new(path).file_stem().and_then(|s| s.to_str()).map(|s| s.to_owned())
}

/// std's `Path::join`. The contract names the result and states no more.
#[verifier::external_body]
pub(crate) fn path_join(base: &str, name: &str) -> (r: String)
    ensures
        r@ == path_joined(base@, name@),
{
    std::path::Path::new(base).join(name).to_string_lossy().into_owned()
}

/// A port parameter: the canonical decimal of a port from 1024 up.
pub open spec fn port_value(value: Seq<char>) -> Option<u16> {
    match parse_u64(value) {
        Some(n) => if 1024 <= n <= 65535 && decimal(n as nat) == value {
            Some(n as u16)
        } else {
            None
        },
        None => None,
    }
}

fn parse_port(value: &String) -> (r: Option<u16>)
    ensures
        r == port_value(value@),
{
    let v = chars_of(value.as_str());
    proof {
        assert(v@.subrange(0, v@.len() as int) == value@);
    }
    let n = match parse_u64_at(&v, 0, v.len()) {
        None => {
            return None;
        },
        Some(n) => n,
    };
    if n < 1024 || n > 65535 {
        return None;
    }
    if decimal_string(n) != *value {
        return None;
    }
    Some(n as u16)
}

/// A usable parameter value: nonempty, at most 256 bytes, no NUL.
pub open spec fn parameter_ok(value: Seq<char>) -> bool {
    value.len() > 0 && byte_len(value) <= 256 && !value.contains('\0')
}

fn check_parameter(value: &String) -> (r: bool)
    ensures
        r == parameter_ok(value@),
{
    let v = chars_of(value.as_str());
    if v.len() == 0 || !fits(value.as_str(), 256) {
        return false;
    }
    let mut i: usize = 0;
    while i < v.len()
        invariant
            v@ == value@,
            i <= v@.len(),
            forall|k: int| 0 <= k < i ==> v@[k] != '\0',
        decreases v@.len() - i,
    {
        if v[i] == '\0' {
            assert(value@.contains('\0')) by {
                assert(value@[i as int] == '\0');
            }
            return false;
        }
        i = i + 1;
    }
    true
}

pub open spec fn key_from<T>(entries: Seq<(String, T)>, key: Seq<char>, k: int) -> Option<int>
    decreases entries.len() - k,
{
    if k < 0 || k >= entries.len() {
        None
    } else if entries[k].0@ == key {
        Some(k)
    } else {
        key_from(entries, key, k + 1)
    }
}

/// The position of `key` among the entries of a map kept as a list.
pub open spec fn key_of<T>(entries: Seq<(String, T)>, key: Seq<char>) -> Option<int> {
    key_from(entries, key, 0)
}

pub proof fn lemma_key_from<T>(entries: Seq<(String, T)>, key: Seq<char>, k: int)
    requires
        0 <= k,
    ensures
        key_from(entries, key, k) matches Some(i) ==> k <= i < entries.len() && entries[i].0@ == key,
        key_from(entries, key, k) is None ==> forall|i: int| k <= i < entries.len() ==> (#[trigger] entries[i]).0@ != key,
    decreases entries.len() - k,
{
    if k < entries.len() {
        lemma_key_from(entries, key, k + 1);
    }
}

pub fn find_key<T>(entries: &Vec<(String, T)>, key: &String) -> (r: Option<usize>)
    ensures
        r matches Some(i) ==> key_of(entries@, key@) == Some(i as int) && i < entries@.len(),
        r is None ==> key_of(entries@, key@) is None,
{
    let mut k: usize = 0;
    while k < entries.len()
        invariant
            k <= entries@.len(),
            key_of(entries@, key@) == key_from(entries@, key@, k as int),
        decreases entries@.len() - k,
    {
        if entries[k].0 == *key {
            proof {
                lemma_key_from(entries@, key@, k as int);
            }
            return Some(k);
        }
        k = k + 1;
    }
    None
}

/// Every key of `a` is a key of `b`.
pub open spec fn keys_within<S, T>(a: Seq<(String, S)>, b: Seq<(String, T)>) -> bool {
    forall|i: int| 0 <= i < a.len() ==> key_of(b, (#[trigger] a[i]).0@) is Some
}

fn all_keys_within<S, T>(a: &Vec<(String, S)>, b: &Vec<(String, T)>) -> (r: bool)
    ensures
        r == keys_within(a@, b@),
{
    let mut i: usize = 0;
    while i < a.len()
        invariant
            i <= a@.len(),
            forall|k: int| 0 <= k < i ==> key_of(b@, (#[trigger] a@[k]).0@) is Some,
        decreases a@.len() - i,
    {
        if find_key(b, &a[i].0).is_none() {
            return false;
        }
        i = i + 1;
    }
    true
}

/// The choice list offers `value`.
pub open spec fn offers(values: Seq<String>, value: Seq<char>) -> bool {
    exists|i: int| 0 <= i < values.len() && (#[trigger] values[i])@ == value
}

fn offered(values: &Vec<String>, value: &String) -> (r: bool)
    ensures
        r == offers(values@, value@),
{
    let mut i: usize = 0;
    while i < values.len()
        invariant
            i <= values@.len(),
            forall|k: int| 0 <= k < i ==> (#[trigger] values@[k])@ != value@,
        decreases values@.len() - i,
    {
        if values[i] == *value {
            return true;
        }
        i = i + 1;
    }
    false
}

/// Why the program's arguments refuse the process's parameters, looking at
/// arguments from `k` on, if they do.
pub open spec fn arguments_refusal(args: Seq<(String, Argument)>, params: Seq<(String, String)>, k: int) -> Option<Seq<char>>
    decreases args.len() - k,
{
    if k < 0 || k >= args.len() {
        None
    } else {
        let value = match key_of(params, args[k].0@) { Some(j) => params[j].1@, None => Seq::empty() };
        if !parameter_ok(value) {
            Some("parameter value"@)
        } else {
            match args[k].1 {
                Argument::Choice { values, .. } => if !offers(values@, value) {
                    Some("parameter choice"@)
                } else {
                    arguments_refusal(args, params, k + 1)
                },
                Argument::Port { .. } => if port_value(value) is None {
                    Some("port"@)
                } else {
                    arguments_refusal(args, params, k + 1)
                },
            }
        }
    }
}

/// The command line the arguments from `k` on add to the fixed ones.
pub open spec fn added_arguments(args: Seq<(String, Argument)>, params: Seq<(String, String)>, k: int) -> Seq<Seq<char>>
    decreases args.len() - k,
{
    if k < 0 || k >= args.len() {
        Seq::empty()
    } else {
        let value = match key_of(params, args[k].0@) { Some(j) => params[j].1@, None => Seq::empty() };
        let flag = match args[k].1 { Argument::Choice { flag, .. } => flag@, Argument::Port { flag } => flag@ };
        seq![flag, value] + added_arguments(args, params, k + 1)
    }
}

pub open spec fn ports(args: Seq<(String, Argument)>, params: Seq<(String, String)>, k: int) -> Option<u16>
    decreases args.len() - k,
{
    if k < 0 || k >= args.len() {
        None
    } else {
        let value = match key_of(params, args[k].0@) { Some(j) => params[j].1@, None => Seq::empty() };
        match ports(args, params, k + 1) {
            Some(p) => Some(p),
            None => if args[k].1 is Port { port_value(value) } else { None },
        }
    }
}

pub open spec fn texts(v: Seq<String>) -> Seq<Seq<char>> {
    v.map_values(|s: String| s@)
}

/// Why `process` cannot be launched with `program`, if it cannot, up to
/// the status binding.
pub open spec fn launch_refusal(process: Process, program: Program) -> Option<Seq<char>> {
    if program.id@ != process.program@ || !keys_within(process.parameters@, program.arguments@)
        || !keys_within(program.arguments@, process.parameters@) {
        Some("program parameters differ"@)
    } else if arguments_refusal(program.arguments@, process.parameters@, 0) is Some {
        arguments_refusal(program.arguments@, process.parameters@, 0)
    } else if program.ready matches ReadyProbe::HttpStatus { port_parameter }
        && !(key_of(program.arguments@, port_parameter@) matches Some(j) && program.arguments@[j].1 is Port) {
        Some("readiness port binding"@)
    } else if (program.effect == Effect::ProtocolGuardedService) != (program.ready is GuardedStatus) {
        Some("protocol-guarded effect requires its typed status binding"@)
    } else {
        match program.ready {
            ReadyProbe::GuardedStatus(binding) => {
                let path = binding.spec_path()@;
                if !absolute(path) || climbs(path) {
                    Some("absolute release-owned status path required"@)
                } else if path_parent_of(path) is None {
                    Some("status parent required"@)
                } else if path_stem_of(path) is None {
                    Some("status filename required"@)
                } else {
                    None
                }
            },
            _ => None,
        }
    }
}

impl Process {
    /// The launch of this process with `program` under `instance`: the
    /// program's fixed arguments, then each argument's flag and value; a
    /// guarded status is read from `<stem>.<instance>.json` beside the
    /// authored status path.
    pub fn launch(&self, p: &Program, instance: String) -> (r: Result<Launch, Error>)
        ensures
            launch_refusal(*self, *p) matches Some(m) ==> (r matches Err(Error::Invalid(x)) && x@ == m),
            launch_refusal(*self, *p) is None ==> (r matches Ok(l) && {
                &&& l.selection == self.id
                &&& l.instance == instance
                &&& l.effect == p.effect
                &&& l.executable == p.executable
                &&& l.executable_sha256 == p.executable_sha256
                &&& l.files@ == p.files@
                &&& texts(l.arguments@) == texts(p.fixed_arguments@) + added_arguments(p.arguments@, self.parameters@, 0)
                &&& l.port == ports(p.arguments@, self.parameters@, 0)
                &&& match p.ready {
                    ReadyProbe::GuardedStatus(b) => l.ready matches ReadyProbe::GuardedStatus(nb) && {
                        let path = b.spec_path()@;
                        &&& nb.spec_path()@ == path_joined(path_parent_of(path)->0,
                            path_stem_of(path)->0 + "."@ + instance@ + ".json"@)
                    },
                    _ => l.ready == p.ready,
                }
            }),
    {
        if p.id != self.program || !all_keys_within(&self.parameters, &p.arguments) || !all_keys_within(&p.arguments, &self.parameters) {
            return Err(Error::Invalid(String::from_str("program parameters differ")));
        }
        let mut arguments: Vec<String> = Vec::new();
        let mut i: usize = 0;
        while i < p.fixed_arguments.len()
            invariant
                i <= p.fixed_arguments@.len(),
                p.id@ == self.program@,
                keys_within(self.parameters@, p.arguments@),
                keys_within(p.arguments@, self.parameters@),
                arguments@.len() == i,
                forall|j: int| 0 <= j < i ==> (#[trigger] arguments@[j])@ == p.fixed_arguments@[j]@,
            decreases p.fixed_arguments@.len() - i,
        {
            arguments.push(p.fixed_arguments[i].clone());
            i = i + 1;
        }
        proof {
            assert(texts(arguments@) =~= texts(p.fixed_arguments@));
        }
        let ghost fixed = texts(p.fixed_arguments@);
        let mut port: Option<u16> = None;
        let mut k: usize = 0;
        while k < p.arguments.len()
            invariant
                k <= p.arguments@.len(),
                p.id@ == self.program@,
                fixed == texts(p.fixed_arguments@),
                keys_within(self.parameters@, p.arguments@),
                keys_within(p.arguments@, self.parameters@),
                arguments_refusal(p.arguments@, self.parameters@, 0) == arguments_refusal(p.arguments@, self.parameters@, k as int),
                fixed + added_arguments(p.arguments@, self.parameters@, 0) == texts(arguments@) + added_arguments(p.arguments@, self.parameters@, k as int),
                ports(p.arguments@, self.parameters@, 0) == match ports(p.arguments@, self.parameters@, k as int) {
                    Some(q) => Some(q),
                    None => port,
                },
            decreases p.arguments@.len() - k,
        {
            let j = match find_key(&self.parameters, &p.arguments[k].0) {
                Some(j) => j,
                None => {
                    proof {
                        let a = p.arguments@[k as int];
                        assert(key_of(self.parameters@, a.0@) is Some);
                    }
                    return Err(Error::Invalid(String::from_str("parameter value")));
                },
            };
            let value = &self.parameters[j].1;
            if !check_parameter(value) {
                return Err(Error::Invalid(String::from_str("parameter value")));
            }
            let ghost rest = added_arguments(p.arguments@, self.parameters@, k + 1);
            let ghost before = texts(arguments@);
            match &p.arguments[k].1 {
                Argument::Choice { flag, values } => {
                    if !offered(values, value) {
                        return Err(Error::Invalid(String::from_str("parameter choice")));
                    }
                    arguments.push(flag.clone());
                    arguments.push(value.clone());
                    proof {
                        assert(texts(arguments@) =~= before + seq![flag@, value@]);
                        assert((before + seq![flag@, value@]) + rest =~= before + (seq![flag@, value@] + rest));
                    }
                },
                Argument::Port { flag } => {
                    let number = match parse_port(value) {
                        None => {
                            return Err(Error::Invalid(String::from_str("port")));
                        },
                        Some(n) => n,
                    };
                    port = Some(number);
                    arguments.push(flag.clone());
                    arguments.push(value.clone());
                    proof {
                        assert(texts(arguments@) =~= before + seq![flag@, value@]);
                        assert((before + seq![flag@, value@]) + rest =~= before + (seq![flag@, value@] + rest));
                    }
                },
            }
            k = k + 1;
        }
        proof {
            assert(texts(arguments@) + added_arguments(p.arguments@, self.parameters@, k as int) =~= texts(arguments@));
        }
        if let ReadyProbe::HttpStatus { port_parameter } = &p.ready {
            let bound = match find_key(&p.arguments, port_parameter) {
                Some(j) => match &p.arguments[j].1 {
                    Argument::Port { .. } => true,
                    _ => false,
                },
                None => false,
            };
            if !bound {
                return Err(Error::Invalid(String::from_str("readiness port binding")));
            }
        }
        let guarded_ready = match &p.ready {
            ReadyProbe::GuardedStatus(_) => true,
            _ => false,
        };
        if (p.effect == Effect::ProtocolGuardedService) != guarded_ready {
            return Err(Error::Invalid(String::from_str("protocol-guarded effect requires its typed status binding")));
        }
        let ready = match &p.ready {
            ReadyProbe::GuardedStatus(binding) => {
                let path = binding.path();
                if !(path.as_str().unicode_len() > 0 && path.as_str().get_char(0) == '/') || has_parent_dir(path) {
                    return Err(Error::Invalid(String::from_str("absolute release-owned status path required")));
                }
                let parent = match path_parent(path.as_str()) {
                    None => {
                        return Err(Error::Invalid(String::from_str("status parent required")));
                    },
                    Some(x) => x,
                };
                let stem = match path_stem(path.as_str()) {
                    None => {
                        return Err(Error::Invalid(String::from_str("status filename required")));
                    },
                    Some(x) => x,
                };
                let name = stem.concat(".").concat(instance.as_str()).concat(".json");
                ReadyProbe::GuardedStatus(binding.with_path(path_join(parent.as_str(), name.as_str())))
            },
            _ => p.ready.duplicate(),
        };
        Ok(Launch {
            selection: self.id.clone(),
            instance,
            effect: p.effect,
            executable: p.executable.clone(),
            executable_sha256: p.executable_sha256.clone(),
            files: copy_pairs(&p.files),
            arguments,
            ready,
            port,
        })
    }
}

/// A copy of a list of text pairs.
pub fn copy_pairs(v: &Vec<(String, String)>) -> (r: Vec<(String, String)>)
    ensures
        r@ == v@,
{
    let mut out: Vec<(String, String)> = Vec::new();
    let mut i: usize = 0;
    while i < v.len()
        invariant
            i <= v@.len(),
            out@ == v@.take(i as int),
        decreases v@.len() - i,
    {
        out.push((v[i].0.clone(), v[i].1.clone()));
        proof {
            assert(v@.take(i + 1) == v@.take(i as int).push(v@[i as int]));
        }
        i = i + 1;
    }
    proof {
        assert(v@.take(i as int) == v@);
    }
    out
}

/// Some marked process has the identity `d`.
pub open spec fn id_marked(ps: Seq<Process>, marks: Seq<bool>, d: Seq<char>) -> bool {
    exists|j: int| 0 <= j < ps.len() && marks[j] && (#[trigger] ps[j]).id@ == d
}

/// Every dependency of `p` is a marked process.
pub open spec fn ready_in(ps: Seq<Process>, marks: Seq<bool>, p: Process) -> bool {
    forall|t: int| 0 <= t < p.depends_on@.len() ==> id_marked(ps, marks, (#[trigger] p.depends_on@[t])@)
}

/// `order` lists processes of `ps` each at most once, every dependency of a
/// listed process listed before it.
pub open spec fn dependency_ordered(ps: Seq<Process>, order: Seq<usize>) -> bool {
    &&& forall|k: int| 0 <= k < order.len() ==> (#[trigger] order[k]) < ps.len()
    &&& forall|a: int, b: int| 0 <= a < b < order.len() ==> order[a] != order[b]
    &&& forall|k: int, t: int| 0 <= k < order.len() && 0 <= t < ps[order[k] as int].depends_on@.len() ==> #[trigger] listed_before(ps, order, k, t)
}

/// The `t`-th dependency of the `k`-th listed process is listed before it.
pub open spec fn listed_before(ps: Seq<Process>, order: Seq<usize>, k: int, t: int) -> bool {
    exists|j: int| 0 <= j < k && (#[trigger] ps[order[j] as int]).id@ == ps[order[k] as int].depends_on@[t]@
}

/// Some processes wait only on one another: every unmarked process has a
/// dependency that is no marked process, and some process is unmarked.
pub open spec fn waits_in_circle(ps: Seq<Process>) -> bool {
    exists|marks: Seq<bool>| #![trigger marks.len()] marks.len() == ps.len()
        && (exists|i: int| 0 <= i < ps.len() && !marks[i])
        && forall|i: int| 0 <= i < ps.len() && !marks[i] ==> !ready_in(ps, marks, #[trigger] ps[i])
}

/// The processes can be started in some order after their dependencies.
pub open spec fn orderable(ps: Seq<Process>) -> bool {
    exists|order: Seq<usize>| #![trigger order.len()] order.len() == ps.len() && dependency_ordered(ps, order)
}

/// The number of marked positions.
pub open spec fn marked_count(marks: Seq<bool>) -> nat
    decreases marks.len(),
{
    if marks.len() == 0 {
        0
    } else {
        marked_count(marks.drop_last()) + if marks.last() { 1nat } else { 0nat }
    }
}

pub proof fn lemma_count_bound(marks: Seq<bool>)
    ensures
        marked_count(marks) <= marks.len(),
        marked_count(marks) < marks.len() ==> exists|i: int| 0 <= i < marks.len() && !marks[i],
    decreases marks.len(),
{
    if marks.len() > 0 {
        lemma_count_bound(marks.drop_last());
        if marked_count(marks) < marks.len() && marks.last() {
            let i = choose|i: int| 0 <= i < marks.drop_last().len() && !marks.drop_last()[i];
            assert(!marks[i]);
        }
        if !marks.last() {
            assert(!marks[marks.len() - 1]);
        }
    }
}

pub proof fn lemma_count_mark(marks: Seq<bool>, i: int)
    requires
        0 <= i < marks.len(),
        !marks[i],
    ensures
        marked_count(marks.update(i, true)) == marked_count(marks) + 1,
    decreases marks.len(),
{
    if i < marks.len() - 1 {
        assert(marks.update(i, true).drop_last() == marks.drop_last().update(i, true));
        lemma_count_mark(marks.drop_last(), i);
    } else {
        assert(marks.update(i, true).drop_last() == marks.drop_last());
    }
}

fn is_marked(ps: &Vec<Process>, marks: &Vec<bool>, d: &String) -> (r: bool)
    requires
        marks@.len() == ps@.len(),
    ensures
        r == id_marked(ps@, marks@, d@),
{
    let mut j: usize = 0;
    while j < ps.len()
        invariant
            j <= ps@.len(),
            marks@.len() == ps@.len(),
            forall|k: int| 0 <= k < j ==> !(marks@[k] && (#[trigger] ps@[k]).id@ == d@),
        decreases ps@.len() - j,
    {
        if marks[j] && ps[j].id == *d {
            assert(marks@[j as int] && ps@[j as int].id@ == d@);
            return true;
        }
        j = j + 1;
    }
    false
}

pub fn is_ready(ps: &Vec<Process>, marks: &Vec<bool>, i: usize) -> (r: bool)
    requires
        marks@.len() == ps@.len(),
        i < ps@.len(),
    ensures
        r == ready_in(ps@, marks@, ps@[i as int]),
{
    let deps = &ps[i].depends_on;
    let mut t: usize = 0;
    while t < deps.len()
        invariant
            t <= deps@.len(),
            marks@.len() == ps@.len(),
            *deps == ps@[i as int].depends_on,
            forall|u: int| 0 <= u < t ==> id_marked(ps@, marks@, (#[trigger] deps@[u])@),
        decreases deps@.len() - t,
    {
        if !is_marked(ps, marks, &deps[t]) {
            return false;
        }
        t = t + 1;
    }
    true
}

/// An order that starts every process after its dependencies, found by
/// repeated passes. A pass that starts nothing new means some processes all
/// wait on one another: then every process left waits on one that is left.
pub fn dependency_order(ps: &Vec<Process>) -> (r: Result<Vec<usize>, Error>)
    ensures
        r matches Ok(order) ==> order@.len() == ps@.len() && dependency_ordered(ps@, order@),
        r matches Err(e) ==> (e matches Error::Invalid(m) && m@ == "process dependency cycle"@) && waits_in_circle(ps@),
{
    let n = ps.len();
    let mut marks: Vec<bool> = Vec::new();
    let mut z: usize = 0;
    while z < n
        invariant
            z <= n,
            n == ps@.len(),
            marks@.len() == z,
            forall|k: int| 0 <= k < z ==> !marks@[k],
        decreases n - z,
    {
        marks.push(false);
        z = z + 1;
    }
    proof {
        assert(marked_count(marks@) == 0) by {
            lemma_zero_count(marks@);
        }
    }
    let mut order: Vec<usize> = Vec::new();
    loop
        invariant
            n == ps@.len(),
            marks@.len() == n,
            order@.len() == marked_count(marks@),
            dependency_ordered(ps@, order@),
            forall|k: int| 0 <= k < order@.len() ==> marks@[#[trigger] order@[k] as int],
            forall|i: int| 0 <= i < n && marks@[i] ==> exists|k: int| 0 <= k < order@.len() && #[trigger] order@[k] == i,
        decreases n - order@.len(),
    {
        proof {
            lemma_count_bound(marks@);
        }
        if order.len() == n {
            return Ok(order);
        }
        let before = order.len();
        let ghost start = marks@;
        let mut i: usize = 0;
        while i < n
            invariant
                n == ps@.len(),
                i <= n,
                marks@.len() == n,
                before <= order@.len(),
                order@.len() == marked_count(marks@),
                dependency_ordered(ps@, order@),
                forall|k: int| 0 <= k < order@.len() ==> marks@[#[trigger] order@[k] as int],
                forall|x: int| 0 <= x < n && marks@[x] ==> exists|k: int| 0 <= k < order@.len() && #[trigger] order@[k] == x,
                order@.len() == before ==> marks@ == start,
                order@.len() == before ==> forall|x: int| 0 <= x < i && !marks@[x] ==> !ready_in(ps@, marks@, #[trigger] ps@[x]),
            decreases n - i,
        {
            if !marks[i] && is_ready(ps, &marks, i) {
                let ghost old_order = order@;
                let ghost old_marks = marks@;
                proof {
                    assert(dependency_ordered(ps@, old_order));
                    lemma_count_mark(marks@, i as int);
                    assert forall|t: int| 0 <= t < ps@[i as int].depends_on@.len() implies exists|j: int|
                        0 <= j < old_order.len() && (#[trigger] ps@[old_order[j] as int]).id@ == (#[trigger] ps@[i as int].depends_on@[t])@ by {
                        let d = ps@[i as int].depends_on@[t]@;
                        assert(id_marked(ps@, old_marks, d));
                        let x = choose|x: int| 0 <= x < ps@.len() && old_marks[x] && (#[trigger] ps@[x]).id@ == d;
                        let k = choose|k: int| 0 <= k < old_order.len() && #[trigger] old_order[k] == x;
                        assert(ps@[old_order[k] as int].id@ == d);
                    }
                }
                marks.set(i, true);
                order.push(i);
                proof {
                    assert forall|a: int, b: int| 0 <= a < b < order@.len() implies order@[a] != order@[b] by {
                        if b == order@.len() - 1 {
                            assert(old_marks[old_order[a] as int]);
                        }
                    }
                    assert forall|k: int, t: int| 0 <= k < order@.len() && 0 <= t < ps@[order@[k] as int].depends_on@.len() implies
                        #[trigger] listed_before(ps@, order@, k, t) by {
                        if k < old_order.len() {
                            assert(order@[k] == old_order[k]);
                            assert(listed_before(ps@, old_order, k, t));
                            let dk = ps@[old_order[k] as int].depends_on@[t];
                            let j = choose|j: int| 0 <= j < k && (#[trigger] ps@[old_order[j] as int]).id@ == dk@;
                            assert(order@[j] == old_order[j]);
                            assert(ps@[order@[j] as int].id@ == ps@[order@[k] as int].depends_on@[t]@);
                        } else {
                            assert(order@[k] == i);
                            let di = ps@[i as int].depends_on@[t];
                            assert(exists|j: int| 0 <= j < old_order.len() && (#[trigger] ps@[old_order[j] as int]).id@ == di@);
                            let j = choose|j: int| 0 <= j < old_order.len() && (#[trigger] ps@[old_order[j] as int]).id@ == di@;
                            assert(order@[j] == old_order[j]);
                            assert(ps@[order@[j] as int].id@ == ps@[order@[k] as int].depends_on@[t]@);
                        }
                    }
                    assert(forall|k: int| 0 <= k < order@.len() ==> (#[trigger] order@[k]) < ps@.len());
                    assert(forall|a: int, b: int| 0 <= a < b < order@.len() ==> order@[a] != order@[b]);
                    assert(dependency_ordered(ps@, order@));
                    assert forall|x: int| 0 <= x < n && marks@[x] implies exists|k: int| 0 <= k < order@.len() && #[trigger] order@[k] == x by {
                        if x == i {
                            assert(order@[order@.len() - 1] == x);
                        } else {
                            let k = choose|k: int| 0 <= k < old_order.len() && #[trigger] old_order[k] == x;
                            assert(order@[k] == x);
                        }
                    }
                }
            }
            i = i + 1;
        }
        proof {
            lemma_count_bound(marks@);
        }
        if order.len() == before {
            return Err(Error::Invalid(String::from_str("process dependency cycle")));
        }
    }
}

proof fn lemma_zero_count(marks: Seq<bool>)
    requires
        forall|k: int| 0 <= k < marks.len() ==> !marks[k],
    ensures
        marked_count(marks) == 0,
    decreases marks.len(),
{
    if marks.len() > 0 {
        lemma_zero_count(marks.drop_last());
    }
}

pub open spec fn plan_schema() -> Seq<char> {
    "rx.solutions-process-plan.v1"@
}

/// No text occurs twice.
pub open spec fn distinct_texts(v: Seq<String>) -> bool {
    forall|a: int, b: int| 0 <= a < b < v.len() ==> (#[trigger] v[a])@ != (#[trigger] v[b])@
}

/// No two processes share an identity.
pub open spec fn distinct_ids(ps: Seq<Process>) -> bool {
    forall|a: int, b: int| 0 <= a < b < ps.len() ==> (#[trigger] ps[a]).id@ != (#[trigger] ps[b]).id@
}

/// The simulation-only refusal of a program, if it is simulation-only.
pub open spec fn simulation_only(program: Seq<char>) -> Option<Seq<char>> {
    if program == "rx/dhi-pty-simulation"@ {
        Some("DHI_SIMULATION_ONLY_EXPLICIT_SESSION; physical plans and automatic restart are unsupported"@)
    } else if program == "rx/ai-worker-l3-simulation"@ {
        Some("AI_WORKER_L3_SIMULATION_ONLY_EXPLICIT_SESSION; physical plans and RX automatic restart are unsupported"@)
    } else if program == "rx/open-manipulator-l3-simulation"@ {
        Some("OPEN_MANIPULATOR_L3_SIMULATION_ONLY; physical plans and RX automatic restart are unsupported"@)
    } else {
        None
    }
}

pub open spec fn in_ms_range(v: u64) -> bool {
    100 <= v <= 30000
}

/// The dependency, timing and restart policy of `p` is sound: it depends
/// on other processes of the plan, each once; its timeouts and backoff are
/// 100..=30000 ms; it restarts at most 3 times, and only when it does not
/// actuate.
pub open spec fn policy_ok(ps: Seq<Process>, p: Process, effect: Effect) -> bool {
    &&& forall|t: int| 0 <= t < p.depends_on@.len() ==> (exists|j: int| 0 <= j < ps.len() && (#[trigger] ps[j]).id@ == (#[trigger] p.depends_on@[t])@)
        && p.depends_on@[t]@ != p.id@
    &&& distinct_texts(p.depends_on@)
    &&& in_ms_range(p.startup_timeout_ms) && in_ms_range(p.shutdown_timeout_ms) && in_ms_range(p.restart_backoff_ms)
    &&& p.restart_limit <= 3
    &&& (effect != Effect::NonActuating ==> p.restart_limit == 0)
}

/// Why process `p` of `plan` is refused, if it is.
pub open spec fn process_refusal(plan: Plan, programs: Seq<(String, Program)>, p: Process) -> Option<Seq<char>> {
    match key_of(programs, p.program@) {
        None => Some("program not in release catalog"@),
        Some(j) => {
            let prog = programs[j].1;
            if simulation_only(prog.id@) is Some && (plan.environment != Environment::Simulation || p.restart_limit != 0) {
                simulation_only(prog.id@)
            } else if prog.decision_policy is Some && crate::decision::policy_refusal(prog.decision_policy->0) is Some {
                crate::decision::policy_refusal(prog.decision_policy->0)
            } else if prog.execution_requirements is Some && crate::execution::requirements_refusal((prog.execution_requirements->0).0@) is Some {
                crate::execution::requirements_refusal((prog.execution_requirements->0).0@)
            } else if prog.functional_readiness is Some && crate::use_assessment::contract_refusal(prog.functional_readiness->0) is Some {
                crate::use_assessment::contract_refusal(prog.functional_readiness->0)
            } else if !policy_ok(plan.processes@, p, prog.effect) {
                Some("dependency/timing/restart policy"@)
            } else {
                launch_refusal(p, prog)
            }
        },
    }
}

pub open spec fn processes_refusal(plan: Plan, programs: Seq<(String, Program)>, k: int) -> Option<Seq<char>>
    decreases plan.processes@.len() - k,
{
    if k < 0 || k >= plan.processes@.len() {
        None
    } else if process_refusal(plan, programs, plan.processes@[k]) is Some {
        process_refusal(plan, programs, plan.processes@[k])
    } else {
        processes_refusal(plan, programs, k + 1)
    }
}

/// Why `plan` is refused before its dependency order is looked at, if it
/// is. `known` are the support profiles the device catalog defines.
pub open spec fn plan_refusal(plan: Plan, programs: Seq<(String, Program)>, known: Seq<String>) -> Option<Seq<char>> {
    if plan.schema@ != plan_schema() || plan.processes@.len() == 0 || plan.processes@.len() > 32
        || plan.profiles@.len() > 22 || !distinct_texts(plan.profiles@) {
        Some("plan shape"@)
    } else if exists|i: int| 0 <= i < plan.profiles@.len() && !offers(known, (#[trigger] plan.profiles@[i])@) {
        Some("unknown required support profile"@)
    } else if !distinct_ids(plan.processes@) {
        Some("duplicate process"@)
    } else {
        processes_refusal(plan, programs, 0)
    }
}

fn texts_distinct(v: &Vec<String>) -> (r: bool)
    ensures
        r == distinct_texts(v@),
{
    let mut a: usize = 0;
    while a < v.len()
        invariant
            a <= v@.len(),
            forall|x: int, y: int| 0 <= x < a && x < y < v@.len() ==> (#[trigger] v@[x])@ != (#[trigger] v@[y])@,
        decreases v@.len() - a,
    {
        let mut b: usize = a + 1;
        while b < v.len()
            invariant
                a < v@.len(),
                a + 1 <= b <= v@.len(),
                forall|x: int, y: int| 0 <= x < a && x < y < v@.len() ==> (#[trigger] v@[x])@ != (#[trigger] v@[y])@,
                forall|y: int| a < y < b ==> v@[a as int]@ != (#[trigger] v@[y])@,
            decreases v@.len() - b,
        {
            if v[a] == v[b] {
                return false;
            }
            b = b + 1;
        }
        a = a + 1;
    }
    true
}

fn ids_distinct(ps: &Vec<Process>) -> (r: bool)
    ensures
        r == distinct_ids(ps@),
{
    let mut a: usize = 0;
    while a < ps.len()
        invariant
            a <= ps@.len(),
            forall|x: int, y: int| 0 <= x < a && x < y < ps@.len() ==> (#[trigger] ps@[x]).id@ != (#[trigger] ps@[y]).id@,
        decreases ps@.len() - a,
    {
        let mut b: usize = a + 1;
        while b < ps.len()
            invariant
                a < ps@.len(),
                a + 1 <= b <= ps@.len(),
                forall|x: int, y: int| 0 <= x < a && x < y < ps@.len() ==> (#[trigger] ps@[x]).id@ != (#[trigger] ps@[y]).id@,
                forall|y: int| a < y < b ==> ps@[a as int].id@ != (#[trigger] ps@[y]).id@,
            decreases ps@.len() - b,
        {
            if ps[a].id == ps[b].id {
                return false;
            }
            b = b + 1;
        }
        a = a + 1;
    }
    true
}

fn some_id(ps: &Vec<Process>, d: &String) -> (r: bool)
    ensures
        r == exists|j: int| 0 <= j < ps@.len() && (#[trigger] ps@[j]).id@ == d@,
{
    let mut j: usize = 0;
    while j < ps.len()
        invariant
            j <= ps@.len(),
            forall|k: int| 0 <= k < j ==> (#[trigger] ps@[k]).id@ != d@,
        decreases ps@.len() - j,
    {
        if ps[j].id == *d {
            return true;
        }
        j = j + 1;
    }
    false
}

fn check_policy(ps: &Vec<Process>, p: &Process, effect: Effect) -> (r: bool)
    ensures
        r == policy_ok(ps@, *p, effect),
{
    let mut t: usize = 0;
    while t < p.depends_on.len()
        invariant
            t <= p.depends_on@.len(),
            forall|u: int| 0 <= u < t ==> (exists|j: int| 0 <= j < ps@.len() && (#[trigger] ps@[j]).id@ == (#[trigger] p.depends_on@[u])@)
                && p.depends_on@[u]@ != p.id@,
        decreases p.depends_on@.len() - t,
    {
        if !some_id(ps, &p.depends_on[t]) || p.depends_on[t] == p.id {
            return false;
        }
        t = t + 1;
    }
    texts_distinct(&p.depends_on) && 100 <= p.startup_timeout_ms && p.startup_timeout_ms <= 30000
        && 100 <= p.shutdown_timeout_ms && p.shutdown_timeout_ms <= 30000 && 100 <= p.restart_backoff_ms
        && p.restart_backoff_ms <= 30000 && p.restart_limit <= 3 && (effect == Effect::NonActuating || p.restart_limit == 0)
}

fn simulation_refusal(program: &String) -> (r: Option<String>)
    ensures
        match simulation_only(program@) { Some(m) => r matches Some(x) && x@ == m, None => r is None },
{
    if same_text(program.as_str(), "rx/dhi-pty-simulation") {
        return Some(String::from_str("DHI_SIMULATION_ONLY_EXPLICIT_SESSION; physical plans and automatic restart are unsupported"));
    }
    if same_text(program.as_str(), "rx/ai-worker-l3-simulation") {
        return Some(String::from_str("AI_WORKER_L3_SIMULATION_ONLY_EXPLICIT_SESSION; physical plans and RX automatic restart are unsupported"));
    }
    if same_text(program.as_str(), "rx/open-manipulator-l3-simulation") {
        return Some(String::from_str("OPEN_MANIPULATOR_L3_SIMULATION_ONLY; physical plans and RX automatic restart are unsupported"));
    }
    None
}

fn check_process(plan: &Plan, programs: &Vec<(String, Program)>, p: &Process) -> (r: Result<(), Error>)
    ensures
        process_refusal(*plan, programs@, *p) is None ==> r is Ok,
        process_refusal(*plan, programs@, *p) matches Some(m) ==> (r matches Err(Error::Invalid(x)) && x@ == m),
{
    let j = match find_key(programs, &p.program) {
        None => {
            return Err(Error::Invalid(String::from_str("program not in release catalog")));
        },
        Some(j) => j,
    };
    let prog = &programs[j].1;
    if let Some(m) = simulation_refusal(&prog.id) {
        if plan.environment != Environment::Simulation || p.restart_limit != 0 {
            return Err(Error::Invalid(m));
        }
    }
    if let Some(policy) = &prog.decision_policy {
        if let Err(m) = policy.validate() {
            return Err(Error::Invalid(m));
        }
    }
    if let Some(requirements) = &prog.execution_requirements {
        if let Err(e) = requirements.validate() {
            return Err(e);
        }
    }
    if let Some(contract) = &prog.functional_readiness {
        if let Err(m) = contract.validate() {
            return Err(Error::Invalid(m));
        }
    }
    if !check_policy(&plan.processes, p, prog.effect) {
        return Err(Error::Invalid(String::from_str("dependency/timing/restart policy")));
    }
    match p.launch(prog, crate::ids::fresh_id()) {
        Err(e) => Err(e),
        Ok(_) => Ok(()),
    }
}

impl Plan {
    /// Validates this plan against the release catalog `programs` and the
    /// support profiles `known`: its shape, profiles, process identities,
    /// each process's program, policy and launch, and finally that every
    /// process can start after its dependencies.
    pub fn validate(&self, programs: &Vec<(String, Program)>, known: &Vec<String>) -> (r: Result<(), Error>)
        ensures
            plan_refusal(*self, programs@, known@) matches Some(m) ==> (r matches Err(Error::Invalid(x)) && x@ == m),
            plan_refusal(*self, programs@, known@) is None ==> (r is Ok && orderable(self.processes@))
                || (r matches Err(Error::Invalid(x)) && x@ == "process dependency cycle"@ && waits_in_circle(self.processes@)),
    {
        if !same_text(self.schema.as_str(), "rx.solutions-process-plan.v1") || self.processes.len() == 0 || self.processes.len() > 32
            || self.profiles.len() > 22 || !texts_distinct(&self.profiles) {
            return Err(Error::Invalid(String::from_str("plan shape")));
        }
        let mut i: usize = 0;
        while i < self.profiles.len()
            invariant
                i <= self.profiles@.len(),
                self.schema@ == plan_schema(),
                1 <= self.processes@.len() <= 32,
                self.profiles@.len() <= 22,
                distinct_texts(self.profiles@),
                forall|k: int| 0 <= k < i ==> offers(known@, (#[trigger] self.profiles@[k])@),
            decreases self.profiles@.len() - i,
        {
            if !offered(known, &self.profiles[i]) {
                return Err(Error::Invalid(String::from_str("unknown required support profile")));
            }
            i = i + 1;
        }
        if !ids_distinct(&self.processes) {
            return Err(Error::Invalid(String::from_str("duplicate process")));
        }
        let mut k: usize = 0;
        while k < self.processes.len()
            invariant
                k <= self.processes@.len(),
                plan_refusal(*self, programs@, known@) == processes_refusal(*self, programs@, 0),
                processes_refusal(*self, programs@, 0) == processes_refusal(*self, programs@, k as int),
            decreases self.processes@.len() - k,
        {
            if let Err(e) = check_process(self, programs, &self.processes[k]) {
                return Err(e);
            }
            k = k + 1;
        }
        match dependency_order(&self.processes) {
            Ok(order) => {
                assert(order@.len() == self.processes@.len() && dependency_ordered(self.processes@, order@));
                Ok(())
            },
            Err(e) => Err(e),
        }
    }
}

/// `n` distinct indices below `n` list every index below `n`.
proof fn lemma_order_covers(order: Seq<usize>, n: int, u: int)
    requires
        order.len() == n,
        forall|k: int| 0 <= k < order.len() ==> (#[trigger] order[k]) < n,
        forall|a: int, b: int| 0 <= a < b < order.len() ==> order[a] != order[b],
        0 <= u < n,
    ensures
        exists|k: int| 0 <= k < order.len() && order[k] == u,
{
    let s = order.map_values(|v: usize| v as int);
    assert forall|a: int, b: int| 0 <= a < s.len() && 0 <= b < s.len() && a != b implies s[a] != s[b] by {
        if a < b {
            assert(order[a] != order[b]);
        } else {
            assert(order[b] != order[a]);
        }
    }
    assert(s.no_duplicates());
    s.unique_seq_to_set();
    vstd::set_lib::lemma_int_range(0, n);
    let range = vstd::set_lib::set_int_range(0, n);
    assert forall|x: int| s.to_set().contains(x) implies range.contains(x) by {
        let k = choose|k: int| 0 <= k < s.len() && s[k] == x;
        assert(order[k] < n);
    }
    vstd::set_lib::lemma_subset_equality(s.to_set(), range);
    assert(range.contains(u));
    assert(s.to_set().contains(u));
    let k = choose|k: int| 0 <= k < s.len() && s[k] == u;
    assert(order[k] == u);
}

/// The first listed position at or before `p` whose process is unmarked.
pub(crate) proof fn lemma_first_unmarked(order: Seq<usize>, marks: Seq<bool>, p: int) -> (k: int)
    requires
        0 <= p < order.len(),
        !marks[order[p] as int],
    ensures
        0 <= k <= p,
        !marks[order[k] as int],
        forall|j: int| 0 <= j < k ==> marks[#[trigger] order[j] as int],
    decreases p,
{
    if exists|j: int| 0 <= j < p && !marks[#[trigger] order[j] as int] {
        let j = choose|j: int| 0 <= j < p && !marks[#[trigger] order[j] as int];
        lemma_first_unmarked(order, marks, j)
    } else {
        p
    }
}

/// Processes that wait on one another in a circle can be started in no
/// order: a plan refused for a dependency cycle has no start order that
/// puts every process after its dependencies.
pub proof fn law_circle_has_no_order(ps: Seq<Process>)
    requires
        waits_in_circle(ps),
    ensures
        !orderable(ps),
{
    if orderable(ps) {
        let order = choose|order: Seq<usize>| #![trigger order.len()] order.len() == ps.len() && dependency_ordered(ps, order);
        let marks = choose|marks: Seq<bool>| #![trigger marks.len()] marks.len() == ps.len()
            && (exists|i: int| 0 <= i < ps.len() && !marks[i])
            && forall|i: int| 0 <= i < ps.len() && !marks[i] ==> !ready_in(ps, marks, #[trigger] ps[i]);
        let u = choose|i: int| 0 <= i < ps.len() && !marks[i];
        lemma_order_covers(order, ps.len() as int, u);
        let p = choose|k: int| 0 <= k < order.len() && order[k] == u;
        let k = lemma_first_unmarked(order, marks, p);
        let x = order[k] as int;
        assert(!ready_in(ps, marks, ps[x]));
        let t = choose|t: int| 0 <= t < ps[x].depends_on@.len() && !id_marked(ps, marks, (#[trigger] ps[x].depends_on@[t])@);
        assert(listed_before(ps, order, k, t));
        let j = choose|j: int| 0 <= j < k && (#[trigger] ps[order[j] as int]).id@ == ps[order[k] as int].depends_on@[t]@;
        assert(marks[order[j] as int]);
        assert(order[j] < ps.len());
        assert(id_marked(ps, marks, ps[x].depends_on@[t]@));
    }
}

/// The timing part of a process's policy is exactly the window
/// 100..=30000 ms: a policy that passes has every timeout and its backoff
/// inside it, and a process whose dependencies and restart limit are sound
/// passes with any values inside it.
pub proof fn law_timing_window_is_100_to_30000_ms(ps: Seq<Process>, p: Process, effect: Effect)
    ensures
        policy_ok(ps, p, effect) ==> 100 <= p.startup_timeout_ms <= 30000 && 100 <= p.shutdown_timeout_ms <= 30000
            && 100 <= p.restart_backoff_ms <= 30000,
        (forall|t: int| 0 <= t < p.depends_on@.len() ==> (exists|j: int| 0 <= j < ps.len() && (#[trigger] ps[j]).id@
            == (#[trigger] p.depends_on@[t])@) && p.depends_on@[t]@ != p.id@)
            && distinct_texts(p.depends_on@)
            && p.restart_limit <= 3 && (effect != Effect::NonActuating ==> p.restart_limit == 0)
            && 100 <= p.startup_timeout_ms <= 30000 && 100 <= p.shutdown_timeout_ms <= 30000
            && 100 <= p.restart_backoff_ms <= 30000 ==> policy_ok(ps, p, effect),
        !(100 <= p.startup_timeout_ms <= 30000) ==> !policy_ok(ps, p, effect),
        !(100 <= p.shutdown_timeout_ms <= 30000) ==> !policy_ok(ps, p, effect),
        !(100 <= p.restart_backoff_ms <= 30000) ==> !policy_ok(ps, p, effect),
{
}

} // verus!
