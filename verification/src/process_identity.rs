//! Birth observations of owned processes and the investigation of a saved
//! identity. Stored identities are inert history, not process ownership.
use vstd::prelude::*;
use crate::text::{chars_of, decimal, decimal_chars, parse_u64, parse_u64_at, word_bounds, words};

verus! {

/// The namespace/boot context in which a PID and start time mean one process.
#[derive(Clone, Debug)]
pub struct Scope {
    pub boot: String,
    pub pid_namespace: String,
    pub time_namespace: String,
    pub user_namespace: String,
    pub mount_namespace: String,
    pub uid: u32,
    pub euid: u32,
    pub proc_mount: String,
    pub init_start_ticks: u64,
    pub time_offsets: String,
}

impl Scope {
    /// Every dimension of the two scopes agrees.
    pub open spec fn same(&self, other: &Scope) -> bool {
        &&& self.boot@ == other.boot@
        &&& self.pid_namespace@ == other.pid_namespace@
        &&& self.time_namespace@ == other.time_namespace@
        &&& self.user_namespace@ == other.user_namespace@
        &&& self.mount_namespace@ == other.mount_namespace@
        &&& self.uid == other.uid
        &&& self.euid == other.euid
        &&& self.proc_mount@ == other.proc_mount@
        &&& self.init_start_ticks == other.init_start_ticks
        &&& self.time_offsets@ == other.time_offsets@
    }

    pub fn matches(&self, other: &Scope) -> (r: bool)
        ensures
            r == self.same(other),
    {
        self.boot == other.boot && self.pid_namespace == other.pid_namespace
            && self.time_namespace == other.time_namespace
            && self.user_namespace == other.user_namespace
            && self.mount_namespace == other.mount_namespace && self.uid == other.uid
            && self.euid == other.euid && self.proc_mount == other.proc_mount
            && self.init_start_ticks == other.init_start_ticks
            && self.time_offsets == other.time_offsets
    }
}

impl PartialEq for Scope {
    fn eq(&self, other: &Scope) -> (r: bool) {
        self.matches(other)
    }
}

impl vstd::std_specs::cmp::PartialEqSpecImpl for Scope {
    open spec fn obeys_eq_spec() -> bool {
        true
    }

    open spec fn eq_spec(&self, other: &Scope) -> bool {
        self.same(other)
    }
}

/// A saved birth identity: the scope, the PID and its kernel start time.
#[derive(Clone, Debug)]
pub struct StoredProcessIdentity {
    pub scope: Scope,
    pub pid: u32,
    pub start_ticks: u64,
}

/// What an investigation of a saved identity may conclude.
#[derive(Clone, Debug)]
pub enum InvestigationOutcome {
    MatchingProcessPresent,
    OriginalNotRunning { reason: String },
    Unverifiable { reason: String },
}

/// The mathematical content of an outcome: its variant and reason text.
pub enum Finding {
    Matching,
    NotRunning(Seq<char>),
    Unverifiable(Seq<char>),
}

impl View for InvestigationOutcome {
    type V = Finding;

    open spec fn view(&self) -> Finding {
        match *self {
            InvestigationOutcome::MatchingProcessPresent => Finding::Matching,
            InvestigationOutcome::OriginalNotRunning { reason } => Finding::NotRunning(reason@),
            InvestigationOutcome::Unverifiable { reason } => Finding::Unverifiable(reason@),
        }
    }
}

impl InvestigationOutcome {
    pub fn equals(&self, other: &InvestigationOutcome) -> (r: bool)
        ensures
            r == (self@ == other@),
    {
        match self {
            InvestigationOutcome::MatchingProcessPresent => match other {
                InvestigationOutcome::MatchingProcessPresent => true,
                _ => false,
            },
            InvestigationOutcome::OriginalNotRunning { reason: a } => match other {
                InvestigationOutcome::OriginalNotRunning { reason: b } => *a == *b,
                _ => false,
            },
            InvestigationOutcome::Unverifiable { reason: a } => match other {
                InvestigationOutcome::Unverifiable { reason: b } => *a == *b,
                _ => false,
            },
        }
    }

    /// Only positive evidence that the original is gone permits a closure.
    pub fn permits_closure(&self) -> (r: bool)
        ensures
            r == (self is OriginalNotRunning),
    {
        match self {
            InvestigationOutcome::OriginalNotRunning { .. } => true,
            _ => false,
        }
    }

    /// An unverifiable finding with the given reason.
    pub fn unknown(reason: &str) -> (r: Self)
        ensures
            r@ == Finding::Unverifiable(reason@),
    {
        InvestigationOutcome::Unverifiable { reason: String::from_str(reason) }
    }
}

impl PartialEq for InvestigationOutcome {
    fn eq(&self, other: &InvestigationOutcome) -> (r: bool) {
        self.equals(other)
    }
}

impl vstd::std_specs::cmp::PartialEqSpecImpl for InvestigationOutcome {
    open spec fn obeys_eq_spec() -> bool {
        true
    }

    open spec fn eq_spec(&self, other: &InvestigationOutcome) -> bool {
        self@ == other@
    }
}

/// The fields of one `/proc/<pid>/stat` line that identity decisions use.
#[derive(Debug)]
pub struct Stat {
    pub start: u64,
    pub state: char,
}

impl Stat {
    pub open spec fn spec_zombie(&self) -> bool {
        self.state == 'Z' || self.state == 'X' || self.state == 'x'
    }

    /// A zombie or dead task cannot prove that the original process runs.
    pub fn zombie(&self) -> (r: bool)
        ensures
            r == self.spec_zombie(),
    {
        self.state == 'Z' || self.state == 'X' || self.state == 'x'
    }
}

/// `") "` starts at position `i` of `s`.
pub open spec fn close_at(s: Seq<char>, i: int) -> bool {
    0 <= i && i + 1 < s.len() && s[i] == ')' && s[i + 1] == ' '
}

/// The last position below `k` where `") "` starts, or -1.
pub open spec fn last_close(s: Seq<char>, k: int) -> int
    decreases k,
{
    if k <= 0 {
        -1
    } else if close_at(s, k - 1) {
        k - 1
    } else {
        last_close(s, k - 1)
    }
}

/// The exact outcome of parsing a stat line of `pid`: the comm field may
/// itself hold `") "`, so the fields start after the last occurrence.
pub open spec fn stat_parse(text: Seq<char>, pid: u32) -> Result<(u64, char), Seq<char>> {
    let i = last_close(text, text.len() as int);
    let head = text.take(i);
    let fields = words(text.skip(i + 2));
    let prefix = decimal(pid as nat) + seq![' ', '('];
    if i < 0 {
        Err("proc-stat-format"@)
    } else if !(head.len() >= prefix.len() && head.take(prefix.len() as int) == prefix) {
        Err("proc-stat-pid-mismatch"@)
    } else if fields.len() <= 19 {
        Err("proc-stat-start-missing"@)
    } else if parse_u64(fields[19]) is None {
        Err("proc-stat-start-format"@)
    } else if !(fields[0].len() == 1 && (fields[0][0] as u32) < 128) {
        Err("proc-stat-state-format"@)
    } else {
        Ok((parse_u64(fields[19])->0, fields[0][0]))
    }
}

/// Reads the state and start time of `pid` from the text of its stat file.
pub fn parse_stat(text: &str, pid: u32) -> (r: Result<Stat, String>)
    ensures
        r matches Ok(st) ==> stat_parse(text@, pid) == Ok::<(u64, char), Seq<char>>(
            (st.start, st.state),
        ),
        r matches Err(e) ==> stat_parse(text@, pid) == Err::<(u64, char), Seq<char>>(e@),
{
    let v = chars_of(text);
    let n = v.len();
    let mut k: usize = n;
    while k > 0 && !(k < n && v[k - 1] == ')' && v[k] == ' ')
        invariant
            k <= n == v@.len(),
            v@ == text@,
            last_close(v@, n as int) == last_close(v@, k as int),
        decreases k,
    {
        k = k - 1;
    }
    if k == 0 {
        return Err(String::from_str("proc-stat-format"));
    }
    let i = k - 1;
    assert(last_close(v@, n as int) == i as int);
    assert(i + 1 < n);
    let prefix_digits = decimal_chars(pid as u64);
    let dl = prefix_digits.len();
    if dl > i || i - dl < 2 {
        return Err(String::from_str("proc-stat-pid-mismatch"));
    }
    let plen = dl + 2;
    let mut j: usize = 0;
    while j < plen
        invariant
            plen == prefix_digits@.len() + 2,
            plen <= i,
            prefix_digits@ == decimal(pid as nat),
            i + 1 < n == v@.len(),
            last_close(v@, n as int) == i as int,
            j <= plen,
            v@ == text@,
            forall|t: int| 0 <= t < j ==> v@[t] == (prefix_digits@ + seq![' ', '('])[t],
        decreases plen - j,
    {
        let expected = if j < prefix_digits.len() {
            prefix_digits[j]
        } else if j == prefix_digits.len() {
            ' '
        } else {
            '('
        };
        assert(expected == (prefix_digits@ + seq![' ', '('])[j as int]);
        if v[j] != expected {
            assert(v@.take(i as int).take(plen as int)[j as int] != (prefix_digits@ + seq![
                ' ',
                '(',
            ])[j as int]);
            return Err(String::from_str("proc-stat-pid-mismatch"));
        }
        j = j + 1;
    }
    assert(v@.take(i as int).take(plen as int) =~= prefix_digits@ + seq![' ', '(']);
    let mut tail: Vec<char> = Vec::new();
    let mut t = i + 2;
    while t < n
        invariant
            i + 2 <= t <= n == v@.len(),
            tail@ == v@.subrange(i + 2, t as int),
        decreases n - t,
    {
        tail.push(v[t]);
        t = t + 1;
    }
    assert(tail@ == v@.skip(i + 2));
    let bounds = word_bounds(&tail);
    if bounds.len() <= 19 {
        return Err(String::from_str("proc-stat-start-missing"));
    }
    let (a, b) = bounds[19];
    let start = match parse_u64_at(&tail, a, b) {
        Some(value) => value,
        None => {
            return Err(String::from_str("proc-stat-start-format"));
        },
    };
    let (c, d) = bounds[0];
    assert(words(tail@)[0] == tail@.subrange(c as int, d as int));
    assert(c <= d <= tail@.len());
    if d - c != 1 || (tail[c] as u32) >= 128 {
        return Err(String::from_str("proc-stat-state-format"));
    }
    Ok(Stat { start, state: tail[c] })
}

/// The finding of two stat reads against the saved start time.
pub open spec fn spec_classify(saved: u64, first: Stat, second: Stat) -> Finding {
    if first.spec_zombie() || second.spec_zombie() {
        Finding::Unverifiable("process-zombie-unverifiable"@)
    } else if first.start != second.start {
        Finding::Unverifiable("process-read-race"@)
    } else if first.start != saved {
        Finding::NotRunning("scoped-pid-reused-different-starttime"@)
    } else {
        Finding::Matching
    }
}

/// Two stat reads of a live PID decide whether the saved birth identity is
/// still the running process.
pub fn classify(saved: u64, first: &Stat, second: &Stat) -> (r: InvestigationOutcome)
    ensures
        r@ == spec_classify(saved, *first, *second),
{
    if first.zombie() || second.zombie() {
        return InvestigationOutcome::unknown("process-zombie-unverifiable");
    }
    if first.start != second.start {
        return InvestigationOutcome::unknown("process-read-race");
    }
    if first.start != saved {
        InvestigationOutcome::OriginalNotRunning {
            reason: String::from_str("scoped-pid-reused-different-starttime"),
        }
    } else {
        InvestigationOutcome::MatchingProcessPresent
    }
}

/// Two reads of the scope must agree; otherwise the context changed while it
/// was being read.
pub fn coherent_scope(first: Scope, second: Scope) -> (r: Result<Scope, String>)
    ensures
        first.same(&second) ==> r == Ok::<Scope, String>(first),
        !first.same(&second) ==> (r matches Err(e) && e@ == "scoped-context-read-race"@),
{
    if !first.matches(&second) {
        return Err(String::from_str("scoped-context-read-race"));
    }
    Ok(first)
}


/// The current scope was read successfully and equals the saved one.
pub fn scope_matches(saved: &StoredProcessIdentity, current: &Result<Scope, String>) -> (r: bool)
    ensures
        r == (current matches Ok(scope) && scope.same(&saved.scope)),
{
    match current {
        Ok(scope) => scope.matches(&saved.scope),
        Err(_) => false,
    }
}

/// What probing the saved PID through a process file descriptor showed.
pub enum PidProbe {
    /// The saved PID cannot name a process.
    InvalidPid,
    /// The kernel reports no such process in this scope.
    Absent,
    /// The probe failed for another reason.
    Unobservable { error: String },
    /// A process holds the PID; its stat file was read twice.
    Present { first: Result<Stat, String>, second: Result<Stat, String> },
}

/// The exact conclusion of a scoped investigation, given the scope read
/// before, the PID probe and the scope read after.
pub open spec fn investigation(
    saved: StoredProcessIdentity,
    before: Result<Scope, String>,
    probe: PidProbe,
    after: Result<Scope, String>,
) -> Result<Finding, Seq<char>> {
    match before {
        Err(e) => Err(e@),
        Ok(b) => if !b.same(&saved.scope) {
            Err("saved-namespace-not-observable-in-current-scope"@)
        } else {
            let probed: Result<Finding, Seq<char>> = match probe {
                PidProbe::InvalidPid => Err("saved-pid-invalid"@),
                PidProbe::Absent => Ok(Finding::NotRunning("scoped-kernel-pid-absent"@)),
                PidProbe::Unobservable { error } => Err(
                    "pidfd-observation-unverifiable: "@ + error@,
                ),
                PidProbe::Present { first, second } => match first {
                    Err(e) => Err("process-read-race: "@ + e@),
                    Ok(f) => match second {
                        Err(e) => Err("process-read-race: "@ + e@),
                        Ok(g) => Ok(spec_classify(saved.start_ticks, f, g)),
                    },
                },
            };
            match probed {
                Err(e) => Err(e),
                Ok(o) => match after {
                    Err(e) => Err(e@),
                    Ok(a) => if !a.same(&b) {
                        Err("scoped-context-read-race"@)
                    } else {
                        Ok(o)
                    },
                },
            }
        },
    }
}

/// Decides an investigation from its observations: a saved identity is only
/// judged inside the very scope it was captured in, and that scope must not
/// change while the PID is examined.
pub fn investigate_scoped(
    saved: &StoredProcessIdentity,
    before: Result<Scope, String>,
    probe: PidProbe,
    after: Result<Scope, String>,
) -> (r: Result<InvestigationOutcome, String>)
    ensures
        r matches Ok(o) ==> investigation(*saved, before, probe, after) == Ok::<
            Finding,
            Seq<char>,
        >(o@),
        r matches Err(e) ==> investigation(*saved, before, probe, after) == Err::<
            Finding,
            Seq<char>,
        >(e@),
{
    let b = match before {
        Err(e) => {
            return Err(e);
        },
        Ok(b) => b,
    };
    if !b.matches(&saved.scope) {
        return Err(String::from_str("saved-namespace-not-observable-in-current-scope"));
    }
    let outcome = match probe {
        PidProbe::InvalidPid => {
            return Err(String::from_str("saved-pid-invalid"));
        },
        PidProbe::Absent => InvestigationOutcome::OriginalNotRunning {
            reason: String::from_str("scoped-kernel-pid-absent"),
        },
        PidProbe::Unobservable { error } => {
            return Err(String::from_str("pidfd-observation-unverifiable: ").concat(error.as_str()));
        },
        PidProbe::Present { first, second } => {
            let f = match first {
                Err(e) => {
                    return Err(String::from_str("process-read-race: ").concat(e.as_str()));
                },
                Ok(f) => f,
            };
            let g = match second {
                Err(e) => {
                    return Err(String::from_str("process-read-race: ").concat(e.as_str()));
                },
                Ok(g) => g,
            };
            classify(saved.start_ticks, &f, &g)
        },
    };
    let a = match after {
        Err(e) => {
            return Err(e);
        },
        Ok(a) => a,
    };
    if !a.matches(&b) {
        return Err(String::from_str("scoped-context-read-race"));
    }
    Ok(outcome)
}

/// The investigation reported for a saved identity, if any: a missing birth
/// identity is never backfilled, and any unverifiable read becomes an
/// unverifiable finding rather than absence.
pub fn investigate(
    saved: Option<&StoredProcessIdentity>,
    scoped: Result<InvestigationOutcome, String>,
) -> (r: InvestigationOutcome)
    ensures
        saved is None ==> r@ == Finding::Unverifiable(
            "birth-identity-missing-permanent-no-backfill"@,
        ),
        saved is Some ==> r@ == match scoped {
            Ok(o) => o@,
            Err(e) => Finding::Unverifiable(e@),
        },
{
    match saved {
        None => InvestigationOutcome::unknown("birth-identity-missing-permanent-no-backfill"),
        Some(_) => match scoped {
            Ok(o) => o,
            Err(e) => InvestigationOutcome::Unverifiable { reason: e },
        },
    }
}

} // verus!
