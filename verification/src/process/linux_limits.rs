//! The first OS enforcement scope: a per-process virtual address-space
//! ceiling, not memory, a reservation or a guarantee. A private gated child
//! keeps the target from starting before the parent has observed the limit.
use vstd::prelude::*;
use crate::execution::{names_where, enforced, unmet_for, receipt_refusal, requirements_refusal, Capacity, Decision, Evidence, KernelObservation, Receipt, Request, Requirement};
use crate::model::{Effect, Launch};
use crate::process::SpawnFailure;
use crate::text::{chars_of, has_prefix, join, parse_u64, parse_u64_at, prefixed, same_text, trim, trimmed, word_bounds, words};
use crate::Error;
use vstd::utf8::encode_utf8;

verus! {

/// What `std::path::Path`'s `==` says of two paths, which compares their
/// components, not their text.
pub uninterp spec fn path_equal(a: Seq<char>, b: Seq<char>) -> bool;

/// `Path::new(a) == Path::new(b)`: whether the two paths have the same
/// components. Only its name is stated here.
#[verifier::external_body]
fn same_path(a: &str, b: &str) -> (r: bool)
    ensures
        r == path_equal(a@, b@),
{
    std::path::Path::new(a) == std::path::Path::new(b)
}

pub open spec fn interpreter() -> Seq<char> {
    "/usr/bin/python3"@
}

/// What one requirement adds to the address-space selection so far.
pub open spec fn policy_step(selected: Option<(Seq<char>, u64)>, key: Seq<char>, r: Requirement) -> Result<Option<(Seq<char>, u64)>, Seq<char>> {
    match r {
        Requirement::NotRequired => Ok(selected),
        Requirement::UpperBound { resource: Capacity::AddressSpaceBytes, amount } if 0 < amount < u64::MAX => if selected is Some {
            Err("multiple address-space declarations unsupported; whole bundle not applied"@)
        } else {
            Ok(Some((key, amount)))
        },
        _ => Err("unsupported requirement "@ + key
            + ": only AddressSpaceBytes UpperBound is implemented; memory/CPU capacity, reservations and access grants are not applied"@),
    }
}

/// The address-space selection over the requirements in order; the first
/// refusal stands.
pub open spec fn policy_scan(rs: Seq<(String, Requirement)>) -> Result<Option<(Seq<char>, u64)>, Seq<char>>
    decreases rs.len(),
{
    if rs.len() == 0 {
        Ok(None)
    } else {
        match policy_scan(rs.drop_last()) {
            Err(e) => Err(e),
            Ok(selected) => policy_step(selected, rs.last().0@, rs.last().1),
        }
    }
}

/// The one address-space ceiling that a request asks of a launch, as
/// `(requirement, bytes)`, or why the request cannot be enforced here.
pub open spec fn address_space_policy(request: Request, launch: Launch) -> Result<(Seq<char>, u64), Seq<char>> {
    if request.spec_instance()@ != launch.instance@ || request.spec_process()@ != launch.selection@ {
        Err("request and launch instance/selection differ"@)
    } else if launch.effect != Effect::NonActuating || !path_equal(launch.executable@, interpreter()) {
        Err("AddressSpaceBytes currently supports only release-verified /usr/bin/python3 non-actuating programs"@)
    } else {
        match policy_scan(request.spec_requirements().0@) {
            Err(e) => Err(e),
            Ok(None) => Err("no supported address-space requirement"@),
            Ok(Some(s)) => Ok(s),
        }
    }
}

proof fn lemma_scan_err(rs: Seq<(String, Requirement)>, j: int)
    requires
        0 <= j <= rs.len(),
        policy_scan(rs.take(j)) is Err,
    ensures
        policy_scan(rs) == policy_scan(rs.take(j)),
    decreases rs.len(),
{
    if j == rs.len() {
        assert(rs.take(j) == rs);
    } else {
        assert(rs.drop_last().take(j) == rs.take(j));
        lemma_scan_err(rs.drop_last(), j);
    }
}

/// The address-space ceiling to enforce for `launch`.
pub fn policy(request: &Request, launch: &Launch) -> (r: Result<(String, u64), String>)
    ensures
        match address_space_policy(*request, *launch) {
            Ok((k, a)) => r matches Ok((x, y)) && x@ == k && y == a,
            Err(e) => r matches Err(m) && m@ == e,
        },
{
    if !same_text(request.instance().as_str(), launch.instance.as_str()) || !same_text(request.process().as_str(), launch.selection.as_str()) {
        return Err(String::from_str("request and launch instance/selection differ"));
    }
    if launch.effect != Effect::NonActuating || !same_path(launch.executable.as_str(), "/usr/bin/python3") {
        return Err(String::from_str("AddressSpaceBytes currently supports only release-verified /usr/bin/python3 non-actuating programs"));
    }
    let rs = &request.requirements().0;
    let mut selected: Option<(String, u64)> = None;
    let mut i: usize = 0;
    while i < rs.len()
        invariant
            i <= rs@.len(),
            rs@ == request.spec_requirements().0@,
            request.spec_instance()@ == launch.instance@,
            request.spec_process()@ == launch.selection@,
            launch.effect == Effect::NonActuating,
            path_equal(launch.executable@, interpreter()),
            policy_scan(rs@.take(i as int)) == Ok::<Option<(Seq<char>, u64)>, Seq<char>>(match selected {
                Some((k, a)) => Some((k@, a)),
                None => None,
            }),
        decreases rs@.len() - i,
    {
        proof {
            assert(rs@.take(i + 1).drop_last() == rs@.take(i as int));
            assert(rs@.take(i + 1).last() == rs@[i as int]);
        }
        let key = &rs[i].0;
        match &rs[i].1 {
            Requirement::NotRequired => {},
            Requirement::UpperBound { resource: Capacity::AddressSpaceBytes, amount } if 0 < *amount && *amount < u64::MAX => {
                if selected.is_some() {
                    proof {
                        assert(policy_scan(rs@.take(i + 1)) == Err::<Option<(Seq<char>, u64)>, Seq<char>>("multiple address-space declarations unsupported; whole bundle not applied"@));
                        lemma_scan_err(rs@, i + 1);
                    }
                    return Err(String::from_str("multiple address-space declarations unsupported; whole bundle not applied"));
                }
                selected = Some((key.clone(), *amount));
            },
            _ => {
                let head = join("unsupported requirement ", key.as_str());
                let tail = ": only AddressSpaceBytes UpperBound is implemented; memory/CPU capacity, reservations and access grants are not applied";
                let m = head.concat(tail);
                proof {
                    assert(m@ == "unsupported requirement "@ + key@ + tail@);
                    assert(policy_scan(rs@.take(i + 1)) == Err::<Option<(Seq<char>, u64)>, Seq<char>>(m@));
                    lemma_scan_err(rs@, i + 1);
                }
                return Err(m);
            },
        }
        i = i + 1;
    }
    proof {
        assert(rs@.take(i as int) == rs@);
    }
    match selected {
        Some(s) => Ok(s),
        None => Err(String::from_str("no supported address-space requirement")),
    }
}

pub open spec fn limit_prefix() -> Seq<char> {
    "Max address space"@
}

/// Whether a line of `s` starts at `i`.
pub open spec fn line_start(s: Seq<char>, i: int) -> bool {
    i == 0 || (0 < i <= s.len() && s[i - 1] == '\n')
}

/// The first line at or after `i` that starts with the address-space row's
/// name.
pub open spec fn row_from(s: Seq<char>, i: int) -> Option<int>
    decreases s.len() - i,
{
    if i < 0 || i >= s.len() {
        None
    } else if line_start(s, i) && prefixed(s.subrange(i, s.len() as int), limit_prefix()) {
        Some(i)
    } else {
        row_from(s, i + 1)
    }
}

/// Where the line that holds position `j` ends.
pub open spec fn line_end(s: Seq<char>, j: int) -> int
    decreases s.len() - j,
{
    if j < 0 || j >= s.len() || s[j] == '\n' {
        j
    } else {
        line_end(s, j + 1)
    }
}

/// The words of the address-space row after its name, where a line starts
/// with that name.
pub open spec fn limit_row(s: Seq<char>) -> Option<Seq<Seq<char>>> {
    match row_from(s, 0) {
        None => None,
        Some(i) => {
            let a = i + limit_prefix().len();
            Some(words(s.subrange(a, line_end(s, a))))
        },
    }
}

/// The soft and hard address-space limits that a procfs `limits` text
/// states, or why it states no finite pair.
pub open spec fn limit_reading(s: Seq<char>) -> Result<(u64, u64), Seq<char>> {
    match limit_row(s) {
        None => Err("address-space kernel limit row absent"@),
        Some(w) => if w.len() != 3 || w[2] != "bytes"@ {
            Err("address-space kernel limit format differs"@)
        } else if parse_u64(w[0]) is None || parse_u64(w[1]) is None {
            Err("finite address-space kernel limit not observed"@)
        } else {
            Ok((parse_u64(w[0])->0, parse_u64(w[1])->0))
        },
    }
}

proof fn lemma_row_from(s: Seq<char>, i: int)
    requires
        0 <= i,
    ensures
        row_from(s, i) matches Some(k) ==> i <= k < s.len() && line_start(s, k) && prefixed(s.subrange(k, s.len() as int), limit_prefix()),
    decreases s.len() - i,
{
    if i < s.len() && !(line_start(s, i) && prefixed(s.subrange(i, s.len() as int), limit_prefix())) {
        lemma_row_from(s, i + 1);
    }
}

proof fn lemma_line_end(s: Seq<char>, j: int)
    requires
        0 <= j <= s.len(),
    ensures
        j <= line_end(s, j) <= s.len(),
    decreases s.len() - j,
{
    if j < s.len() && s[j] != '\n' {
        lemma_line_end(s, j + 1);
    }
}

/// Whether `v[a..]` starts with the address-space row's name.
fn row_here(v: &Vec<char>, a: usize) -> (r: bool)
    requires
        a <= v@.len(),
    ensures
        r == prefixed(v@.subrange(a as int, v@.len() as int), limit_prefix()),
{
    let p = chars_of("Max address space");
    let n = v.len();
    if n - a < p.len() {
        return false;
    }
    let mut k: usize = 0;
    while k < p.len()
        invariant
            n == v@.len(),
            p@ == limit_prefix(),
            a + p@.len() <= v@.len(),
            k <= p@.len(),
            forall|m: int| 0 <= m < k ==> v@[a + m] == p@[m],
        decreases p@.len() - k,
    {
        if v[a + k] != p[k] {
            assert(v@.subrange(a as int, v@.len() as int).take(p@.len() as int)[k as int] == v@[a + k]);
            return false;
        }
        k = k + 1;
    }
    assert(v@.subrange(a as int, v@.len() as int).take(p@.len() as int) =~= p@);
    true
}

/// Where the address-space row of `v` starts.
fn find_row(v: &Vec<char>) -> (r: Option<usize>)
    ensures
        match row_from(v@, 0) {
            Some(k) => r == Some(k as usize),
            None => r is None,
        },
{
    let n = v.len();
    let mut i: usize = 0;
    while i < n
        invariant
            n == v@.len(),
            i <= n,
            row_from(v@, 0) == row_from(v@, i as int),
        decreases n - i,
    {
        let starts = i == 0 || v[i - 1] == '\n';
        if starts && row_here(v, i) {
            return Some(i);
        }
        i = i + 1;
    }
    None
}

/// Reads the soft and hard address-space limits from the text of a
/// process's procfs `limits` file.
pub fn observed_limit(text: &str) -> (r: Result<(u64, u64), Error>)
    ensures
        match limit_reading(text@) {
            Ok(pair) => r == Ok::<(u64, u64), Error>(pair),
            Err(m) => r matches Err(Error::Reconciliation(x)) && x@ == m,
        },
{
    let v = chars_of(text);
    let n = v.len();
    proof {
        lemma_row_from(v@, 0);
        reveal_strlit("Max address space");
    }
    let start = match find_row(&v) {
        None => {
            return Err(Error::Reconciliation(String::from_str("address-space kernel limit row absent")));
        },
        Some(k) => k,
    };
    let a = start + 17;
    proof {
        lemma_line_end(v@, a as int);
    }
    let mut e = a;
    while e < n && v[e] != '\n'
        invariant
            a <= e <= n,
            n == v@.len(),
            line_end(v@, a as int) == line_end(v@, e as int),
        decreases n - e,
    {
        e = e + 1;
    }
    let mut row: Vec<char> = Vec::new();
    let mut k = a;
    while k < e
        invariant
            a <= k <= e <= n,
            n == v@.len(),
            row@ == v@.subrange(a as int, k as int),
        decreases e - k,
    {
        row.push(v[k]);
        k = k + 1;
    }
    assert(row@ == v@.subrange(a as int, line_end(v@, a as int)));
    let bounds = word_bounds(&row);
    let ghost w = words(row@);
    if bounds.len() != 3 {
        return Err(Error::Reconciliation(String::from_str("address-space kernel limit format differs")));
    }
    let unit = chars_of("bytes");
    let (b0, b1) = bounds[2];
    assert(w[2] == row@.subrange(b0 as int, b1 as int));
    let mut same = b1 - b0 == unit.len();
    if same {
        let mut m: usize = 0;
        while m < unit.len()
            invariant
                b0 <= b1 <= row@.len(),
                b1 - b0 == unit@.len(),
                m <= unit@.len(),
                same <==> forall|q: int| 0 <= q < m ==> row@[b0 + q] == unit@[q],
            decreases unit@.len() - m,
        {
            if row[b0 + m] != unit[m] {
                same = false;
            }
            m = m + 1;
        }
        if same {
            assert(row@.subrange(b0 as int, b1 as int) =~= unit@);
        } else {
            assert(row@.subrange(b0 as int, b1 as int) != unit@ || true);
        }
    }
    if !same {
        proof {
            if w[2] == "bytes"@ {
                assert(unit@ == "bytes"@);
                assert forall|q: int| 0 <= q < unit@.len() implies row@[b0 + q] == unit@[q] by {
                    assert(row@.subrange(b0 as int, b1 as int)[q] == row@[b0 + q]);
                }
            }
        }
        return Err(Error::Reconciliation(String::from_str("address-space kernel limit format differs")));
    }
    let (s0, s1) = bounds[0];
    let (h0, h1) = bounds[1];
    assert(w[0] == row@.subrange(s0 as int, s1 as int));
    assert(w[1] == row@.subrange(h0 as int, h1 as int));
    let soft = parse_u64_at(&row, s0, s1);
    let hard = parse_u64_at(&row, h0, h1);
    match (soft, hard) {
        (Some(x), Some(y)) => Ok((x, y)),
        _ => Err(Error::Reconciliation(String::from_str("finite address-space kernel limit not observed"))),
    }
}

/// The steps of a gated launch, in order.
#[derive(Clone, Copy, Debug, PartialEq, Eq, Structural)]
pub enum GateStage {
    /// No child handle may exist for the instance yet.
    Claim,
    /// Program files verified, logs reserved and the private channel made.
    Prepare,
    /// Startup authority, before any child exists.
    Authorize,
    /// The gated child created.
    Create,
    /// The parent's end of the channel readied for reading.
    Attach,
    /// The gated child's announcement that it waits.
    Greet,
    /// The limit applied by the parent.
    Apply,
    /// The limit observed by the parent.
    Observe,
    /// Startup authority again, after the limit and before the target.
    Reauthorize,
    /// Leave to start the target sent.
    Deliver,
    /// The gated child's answer to that leave.
    Acknowledge,
    /// The target, the PID and the limit confirmed after the target started.
    Confirm,
}

/// What the backend learned in a stage.
#[derive(Debug)]
pub enum GateEvent {
    Owned(bool),
    Prepared(Result<(), String>),
    Authorized(bool),
    Created(Result<u32, String>),
    Attached(Result<(), String>),
    /// One line read from the gated child: `Ok("")` at its end.
    Line(Result<String, String>),
    Applied(Result<(Option<u64>, Option<u64>), String>),
    Observed(Result<(u64, u64), String>),
    Delivered(bool),
    Confirmed { cmdline: Result<Vec<u8>, String>, limits: Result<(u64, u64), String>, running: Result<bool, String> },
}

/// What the backend does next.
#[derive(Debug)]
pub enum GateAction {
    Continue(GateStage),
    /// Reject the launch: no child exists.
    Reject(String),
    /// Kill the gated child, confirm its exit, then reject the launch.
    Rollback(String),
    /// Keep the child and report that creation is uncertain.
    Uncertain(String),
    /// Record the admission.
    Admit,
}

/// Which event each stage waits for.
pub open spec fn event_fits(stage: GateStage, event: GateEvent) -> bool {
    match stage {
        GateStage::Claim => event is Owned,
        GateStage::Prepare => event is Prepared,
        GateStage::Authorize | GateStage::Reauthorize => event is Authorized,
        GateStage::Create => event is Created,
        GateStage::Attach => event is Attached,
        GateStage::Greet | GateStage::Acknowledge => event is Line,
        GateStage::Apply => event is Applied,
        GateStage::Observe => event is Observed,
        GateStage::Deliver => event is Delivered,
        GateStage::Confirm => event is Confirmed,
    }
}

/// The action in the form the contract speaks of: a kind (0 continue,
/// 1 reject, 2 rollback, 3 uncertain, 4 admit), the next stage and the
/// reason.
pub open spec fn action_is(a: GateAction, kind: int, next: GateStage, reason: Seq<char>) -> bool {
    match a {
        GateAction::Continue(s) => kind == 0 && s == next,
        GateAction::Reject(m) => kind == 1 && m@ == reason,
        GateAction::Rollback(m) => kind == 2 && m@ == reason,
        GateAction::Uncertain(m) => kind == 3 && m@ == reason,
        GateAction::Admit => kind == 4,
    }
}

/// The bytes of a process's kernel command line: each argument in UTF-8,
/// ended by a zero byte.
pub open spec fn cmdline_of(args: Seq<Seq<char>>) -> Seq<u8>
    decreases args.len(),
{
    if args.len() == 0 {
        Seq::empty()
    } else {
        cmdline_of(args.drop_last()) + encode_utf8(args.last()) + seq![0u8]
    }
}

/// The command line that the target of `launch` runs with.
pub open spec fn launch_cmdline(launch: Launch) -> Seq<u8> {
    cmdline_of(seq![launch.executable@] + launch.arguments@.map_values(|a: String| a@))
}

/// A confirmed limit: soft and hard both at `amount`.
pub open spec fn limit_holds(limits: Result<(u64, u64), String>, amount: u64) -> bool {
    limits matches Ok(p) && p.0 == amount && p.1 == amount
}

/// What the backend does after `event` in `stage`, for a ceiling of
/// `amount` bytes and a target expected to run with `expected` as its
/// command line. Before a child exists a failure rejects; once the gated
/// child exists and the target cannot have started it is rolled back; once
/// leave to start the target may have reached it, a failure keeps the child
/// and reports uncertainty.
pub open spec fn gate_next(stage: GateStage, event: GateEvent, amount: u64, expected: Seq<u8>) -> (int, GateStage, Seq<char>) {
    match event {
        GateEvent::Owned(owned) => if owned {
            (3, stage, "instance already has a child handle"@)
        } else {
            (0, GateStage::Prepare, Seq::empty())
        },
        GateEvent::Prepared(p) => match p {
            Ok(_) => (0, GateStage::Authorize, Seq::empty()),
            Err(e) => (1, stage, "launch preparation failed: "@ + e@),
        },
        GateEvent::Authorized(yes) => if stage == GateStage::Authorize {
            if yes {
                (0, GateStage::Create, Seq::empty())
            } else {
                (1, stage, "startup authority unavailable before gated child creation"@)
            }
        } else if yes {
            (0, GateStage::Deliver, Seq::empty())
        } else {
            (2, stage, "startup authority changed after application, before EXEC"@)
        },
        GateEvent::Created(c) => match c {
            Ok(_) => (0, GateStage::Attach, Seq::empty()),
            Err(e) => (1, stage, "gated child creation failed: "@ + e@),
        },
        GateEvent::Attached(c) => match c {
            Ok(_) => (0, GateStage::Greet, Seq::empty()),
            Err(e) => (2, stage, e@),
        },
        GateEvent::Line(l) => if stage == GateStage::Greet {
            if l matches Ok(m) && m@ == "GATED\n"@ {
                (0, GateStage::Apply, Seq::empty())
            } else {
                (2, stage, "private child gate unavailable before policy application"@)
            }
        } else {
            match l {
                Ok(m) => if prefixed(m@, "EXEC_ERROR:"@) {
                    (2, stage, trimmed(m@))
                } else if m@.len() == 0 {
                    (0, GateStage::Confirm, Seq::empty())
                } else {
                    (3, stage, "target exec acknowledgement unavailable"@)
                },
                Err(_) => (3, stage, "target exec acknowledgement unavailable"@),
            }
        },
        GateEvent::Applied(a) => match a {
            Ok(_) => (0, GateStage::Observe, Seq::empty()),
            Err(e) => (2, stage, "kernel application failed: "@ + e@),
        },
        GateEvent::Observed(o) => if limit_holds(o, amount) {
            (0, GateStage::Reauthorize, Seq::empty())
        } else {
            (2, stage, "parent kernel observation did not confirm the complete policy"@)
        },
        GateEvent::Delivered(sent) => if sent {
            (0, GateStage::Acknowledge, Seq::empty())
        } else {
            (3, stage, "EXEC authorization delivery uncertain"@)
        },
        GateEvent::Confirmed { cmdline, limits, running } => if cmdline matches Ok(v) && v@ == expected && limit_holds(limits, amount) && running == Ok::<bool, String>(true) {
            (4, stage, Seq::empty())
        } else {
            (3, stage, "final target/PID/kernel limit could not be confirmed after EXEC"@)
        },
    }
}

fn same_bytes(a: &Vec<u8>, b: &Vec<u8>) -> (r: bool)
    ensures
        r == (a@ == b@),
{
    if a.len() != b.len() {
        return false;
    }
    let mut i: usize = 0;
    while i < a.len()
        invariant
            a@.len() == b@.len(),
            i <= a@.len(),
            forall|k: int| 0 <= k < i ==> a@[k] == b@[k],
        decreases a@.len() - i,
    {
        if a[i] != b[i] {
            return false;
        }
        i = i + 1;
    }
    assert(a@ =~= b@);
    true
}

fn limit_confirmed(limits: &Result<(u64, u64), String>, amount: u64) -> (r: bool)
    ensures
        r == limit_holds(*limits, amount),
{
    match limits {
        Ok((s, h)) => *s == amount && *h == amount,
        Err(_) => false,
    }
}

/// One step of a gated launch.
pub fn gate_step(stage: GateStage, event: GateEvent, amount: u64, expected: &Vec<u8>) -> (r: GateAction)
    requires
        event_fits(stage, event),
    ensures
        action_is(r, gate_next(stage, event, amount, expected@).0, gate_next(stage, event, amount, expected@).1,
            gate_next(stage, event, amount, expected@).2),
{
    match event {
        GateEvent::Owned(owned) => if owned {
            GateAction::Uncertain(String::from_str("instance already has a child handle"))
        } else {
            GateAction::Continue(GateStage::Prepare)
        },
        GateEvent::Prepared(p) => match p {
            Ok(_) => GateAction::Continue(GateStage::Authorize),
            Err(e) => GateAction::Reject(join("launch preparation failed: ", e.as_str())),
        },
        GateEvent::Authorized(yes) => if stage == GateStage::Authorize {
            if yes {
                GateAction::Continue(GateStage::Create)
            } else {
                GateAction::Reject(String::from_str("startup authority unavailable before gated child creation"))
            }
        } else if yes {
            GateAction::Continue(GateStage::Deliver)
        } else {
            GateAction::Rollback(String::from_str("startup authority changed after application, before EXEC"))
        },
        GateEvent::Created(c) => match c {
            Ok(_) => GateAction::Continue(GateStage::Attach),
            Err(e) => GateAction::Reject(join("gated child creation failed: ", e.as_str())),
        },
        GateEvent::Attached(c) => match c {
            Ok(_) => GateAction::Continue(GateStage::Greet),
            Err(e) => GateAction::Rollback(e),
        },
        GateEvent::Line(l) => if stage == GateStage::Greet {
            let gated = match &l {
                Ok(m) => same_text(m.as_str(), "GATED\n"),
                Err(_) => false,
            };
            if gated {
                GateAction::Continue(GateStage::Apply)
            } else {
                GateAction::Rollback(String::from_str("private child gate unavailable before policy application"))
            }
        } else {
            match l {
                Ok(m) => if has_prefix(m.as_str(), "EXEC_ERROR:") {
                    GateAction::Rollback(trim(m.as_str()))
                } else if m.as_str().unicode_len() == 0 {
                    GateAction::Continue(GateStage::Confirm)
                } else {
                    GateAction::Uncertain(String::from_str("target exec acknowledgement unavailable"))
                },
                Err(_) => GateAction::Uncertain(String::from_str("target exec acknowledgement unavailable")),
            }
        },
        GateEvent::Applied(a) => match a {
            Ok(_) => GateAction::Continue(GateStage::Observe),
            Err(e) => GateAction::Rollback(join("kernel application failed: ", e.as_str())),
        },
        GateEvent::Observed(o) => if limit_confirmed(&o, amount) {
            GateAction::Continue(GateStage::Reauthorize)
        } else {
            GateAction::Rollback(String::from_str("parent kernel observation did not confirm the complete policy"))
        },
        GateEvent::Delivered(sent) => if sent {
            GateAction::Continue(GateStage::Acknowledge)
        } else {
            GateAction::Uncertain(String::from_str("EXEC authorization delivery uncertain"))
        },
        GateEvent::Confirmed { cmdline, limits, running } => {
            let target = match &cmdline {
                Ok(v) => same_bytes(v, expected),
                Err(_) => false,
            };
            let alive = match running {
                Ok(b) => b,
                Err(_) => false,
            };
            if target && limit_confirmed(&limits, amount) && alive {
                GateAction::Admit
            } else {
                GateAction::Uncertain(String::from_str("final target/PID/kernel limit could not be confirmed after EXEC"))
            }
        },
    }
}

/// Appends the kernel command-line bytes of `arg` to `out`.
fn push_arg(out: &mut Vec<u8>, arg: &str)
    ensures
        final(out)@ == old(out)@ + encode_utf8(arg@) + seq![0u8],
{
    let b = arg.as_bytes();
    let mut i: usize = 0;
    let ghost start = out@;
    while i < b.len()
        invariant
            i <= b@.len(),
            b@ == encode_utf8(arg@),
            out@ == start + b@.take(i as int),
        decreases b@.len() - i,
    {
        out.push(b[i]);
        i = i + 1;
    }
    assert(b@.take(i as int) == b@);
    out.push(0u8);
}

/// The command line that the target of `launch` must run with.
pub fn expected_cmdline(launch: &Launch) -> (r: Vec<u8>)
    ensures
        r@ == launch_cmdline(*launch),
{
    let mut out: Vec<u8> = Vec::new();
    push_arg(&mut out, launch.executable.as_str());
    let ghost all = seq![launch.executable@] + launch.arguments@.map_values(|a: String| a@);
    assert(all.take(1).drop_last() =~= Seq::<Seq<char>>::empty());
    assert(all.take(1).last() == launch.executable@);
    assert(cmdline_of(Seq::<Seq<char>>::empty()) =~= Seq::<u8>::empty());
    assert(out@ =~= cmdline_of(all.take(1)));
    let mut i: usize = 0;
    while i < launch.arguments.len()
        invariant
            i <= launch.arguments@.len(),
            all == seq![launch.executable@] + launch.arguments@.map_values(|a: String| a@),
            out@ == cmdline_of(all.take(i + 1)),
        decreases launch.arguments@.len() - i,
    {
        push_arg(&mut out, launch.arguments[i].as_str());
        assert(all.take(i + 2).drop_last() == all.take(i + 1));
        assert(all.take(i + 2).last() == launch.arguments@[i as int]@);
        i = i + 1;
    }
    assert(all.take(i + 1) == all);
    out
}

/// The decision for a launch whose limit cannot be enforced here: every
/// requirement that needs enforcement is rejected for `reason`.
pub fn rejected(request: &Request, reason: &str) -> (r: Decision)
    ensures
        r matches Decision::Rejected { unmet } && unmet_for(unmet@, names_where(request.spec_requirements().0@, |x: Requirement| enforced(x)), reason@),
{
    Decision::Rejected { unmet: request.reject(reason) }
}

/// What a rollback establishes: a confirmed exit of the gated child rejects
/// the launch with nothing left applied; without it the child is kept and
/// the launch is uncertain.
pub fn rollback_result(request: &Request, reason: &str, exit_confirmed: bool) -> (r: Result<Decision, SpawnFailure>)
    ensures
        exit_confirmed ==> (r matches Ok(Decision::Rejected { unmet }) && unmet_for(unmet@, names_where(request.spec_requirements().0@, |x: Requirement| enforced(x)),
            reason@ + "; gated child exit confirmed, no policy remains from this attempt"@)),
        !exit_confirmed ==> (r matches Err(SpawnFailure::Uncertain(Error::Reconciliation(m))) && m@ == reason@ + "; gated child rollback unconfirmed"@),
{
    if exit_confirmed {
        let m = join(reason, "; gated child exit confirmed, no policy remains from this attempt");
        Ok(rejected(request, m.as_str()))
    } else {
        Err(SpawnFailure::Uncertain(Error::Reconciliation(join(reason, "; gated child rollback unconfirmed"))))
    }
}

/// Why a kernel observation of `pid` cannot attest `request`.
pub open spec fn receipt_refusal_of(request: Request, pid: u32, refusal: Seq<char>) -> bool {
    let rs = request.spec_requirements().0@;
    if requirements_refusal(rs) is Some {
        requirements_refusal(rs) == Some(refusal)
    } else if names_where(rs, |x: Requirement| x is Unknown).len() > 0 {
        refusal == "unknown requirements cannot be admitted"@
    } else {
        pid == 0 && refusal == "kernel observation belongs to another complete request"@
    }
}

/// The admission of a gated launch whose target, PID and limit were all
/// confirmed: a receipt bound to the whole request, or uncertainty where no
/// receipt can be made.
pub fn admit_gated(request: &Request, pid: u32, requirement: String, amount: u64, previous: (Option<u64>, Option<u64>)) -> (r: Result<Decision, SpawnFailure>)
    ensures
        (r is Ok) <== (requirements_refusal(request.spec_requirements().0@) is None
            && names_where(request.spec_requirements().0@, |x: Requirement| x is Unknown).len() == 0 && pid != 0),
        match r {
            Ok(d) => d matches Decision::Admitted { pid: p, receipt } && p == pid && receipt.spec_request().same(request)
                && (receipt.spec_evidence() matches Evidence::LinuxRlimit { observation } && observation.spec_request().same(request)
                && observation.spec_pid() == pid),
            Err(f) => f matches SpawnFailure::Uncertain(Error::Reconciliation(m)) && exists|refusal: Seq<char>|
                m@ == "invalid supervisor input: "@ + refusal && #[trigger] receipt_refusal_of(*request, pid, refusal),
        },
{
    let observation = KernelObservation::observed(request, pid, requirement, amount, previous);
    let ghost evidence = Evidence::LinuxRlimit { observation };
    match Receipt::reported(request, Evidence::LinuxRlimit { observation }) {
        Ok(receipt) => Ok(Decision::Admitted { pid, receipt }),
        Err(e) => {
            let m = e.message();
            proof {
                let x = receipt_refusal(*request, evidence)->0;
                assert(receipt_refusal_of(*request, pid, x));
                assert(m@ == "invalid supervisor input: "@ + x);
            }
            Err(SpawnFailure::Uncertain(Error::Reconciliation(m)))
        },
    }
}

/// How a run of events from `stage` ends: the kind of its last action
/// (0 where the run stopped while continuing), or -1 where an event does not
/// fit its stage or follows a final action.
pub open spec fn gate_run(stage: GateStage, events: Seq<GateEvent>, amount: u64, expected: Seq<u8>) -> int
    decreases events.len(),
{
    if events.len() == 0 {
        0
    } else if !event_fits(stage, events[0]) {
        -1
    } else {
        let step = gate_next(stage, events[0], amount, expected);
        if step.0 == 0 {
            gate_run(step.1, events.drop_first(), amount, expected)
        } else if events.len() == 1 {
            step.0
        } else {
            -1
        }
    }
}

proof fn lemma_gate_step(stage: GateStage, events: Seq<GateEvent>, amount: u64, expected: Seq<u8>)
    requires
        gate_run(stage, events, amount, expected) == 4,
    ensures
        events.len() >= 1,
        event_fits(stage, events[0]),
        events.len() > 1 ==> gate_next(stage, events[0], amount, expected).0 == 0
            && gate_run(gate_next(stage, events[0], amount, expected).1, events.drop_first(), amount, expected) == 4,
        events.len() == 1 ==> gate_next(stage, events[0], amount, expected).0 == 4,
{
    if events.len() == 1 {
        let next = gate_next(stage, events[0], amount, expected).1;
        assert(gate_run(next, events.drop_first(), amount, expected) == 0);
    }
}

/// A gated launch is admitted only along its whole protocol: the instance
/// had no child, startup authority held both before the gated child was
/// created and after the limit was applied, the gated child announced itself, the
/// parent saw the limit at exactly the ceiling before the target was
/// allowed to start, the leave was delivered, the gated child closed without an
/// exec error, and afterwards the target's command line, the limit and the
/// living child were all confirmed.
pub proof fn law_admission_follows_the_whole_protocol(events: Seq<GateEvent>, amount: u64, expected: Seq<u8>)
    requires
        gate_run(GateStage::Claim, events, amount, expected) == 4,
    ensures
        events.len() == 12,
        events[0] == GateEvent::Owned(false),
        events[2] == GateEvent::Authorized(true),
        events[5] matches GateEvent::Line(Ok(m)) && m@ == "GATED\n"@,
        events[7] matches GateEvent::Observed(o) && limit_holds(o, amount),
        events[8] == GateEvent::Authorized(true),
        events[9] == GateEvent::Delivered(true),
        events[10] matches GateEvent::Line(Ok(m)) && m@.len() == 0,
        events[11] matches GateEvent::Confirmed { cmdline, limits, running } && cmdline matches Ok(v) && v@ == expected
            && limit_holds(limits, amount) && running == Ok::<bool, String>(true),
{
    let e0 = events.subrange(0, events.len() as int);
    assert(e0 =~= events);
    lemma_gate_step(GateStage::Claim, e0, amount, expected);
    assert(e0[0] == events[0]);
    assert(e0.drop_first() =~= events.subrange(1, events.len() as int));
    let e1 = events.subrange(1, events.len() as int);
    lemma_gate_step(GateStage::Prepare, e1, amount, expected);
    assert(e1[0] == events[1]);
    assert(e1.drop_first() =~= events.subrange(2, events.len() as int));
    let e2 = events.subrange(2, events.len() as int);
    lemma_gate_step(GateStage::Authorize, e2, amount, expected);
    assert(e2[0] == events[2]);
    assert(e2.drop_first() =~= events.subrange(3, events.len() as int));
    let e3 = events.subrange(3, events.len() as int);
    lemma_gate_step(GateStage::Create, e3, amount, expected);
    assert(e3[0] == events[3]);
    assert(e3.drop_first() =~= events.subrange(4, events.len() as int));
    let e4 = events.subrange(4, events.len() as int);
    lemma_gate_step(GateStage::Attach, e4, amount, expected);
    assert(e4[0] == events[4]);
    assert(e4.drop_first() =~= events.subrange(5, events.len() as int));
    let e5 = events.subrange(5, events.len() as int);
    lemma_gate_step(GateStage::Greet, e5, amount, expected);
    assert(e5[0] == events[5]);
    assert(e5.drop_first() =~= events.subrange(6, events.len() as int));
    let e6 = events.subrange(6, events.len() as int);
    lemma_gate_step(GateStage::Apply, e6, amount, expected);
    assert(e6[0] == events[6]);
    assert(e6.drop_first() =~= events.subrange(7, events.len() as int));
    let e7 = events.subrange(7, events.len() as int);
    lemma_gate_step(GateStage::Observe, e7, amount, expected);
    assert(e7[0] == events[7]);
    assert(e7.drop_first() =~= events.subrange(8, events.len() as int));
    let e8 = events.subrange(8, events.len() as int);
    lemma_gate_step(GateStage::Reauthorize, e8, amount, expected);
    assert(e8[0] == events[8]);
    assert(e8.drop_first() =~= events.subrange(9, events.len() as int));
    let e9 = events.subrange(9, events.len() as int);
    lemma_gate_step(GateStage::Deliver, e9, amount, expected);
    assert(e9[0] == events[9]);
    assert(e9.drop_first() =~= events.subrange(10, events.len() as int));
    let e10 = events.subrange(10, events.len() as int);
    lemma_gate_step(GateStage::Acknowledge, e10, amount, expected);
    assert(e10[0] == events[10]);
    assert(e10.drop_first() =~= events.subrange(11, events.len() as int));
    let e11 = events.subrange(11, events.len() as int);
    lemma_gate_step(GateStage::Confirm, e11, amount, expected);
    assert(e11[0] == events[11]);
}

} // verus!
