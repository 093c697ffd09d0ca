//! Named release-generated initializers that only write metadata. A step
//! once entered is never taken to be safe to repeat.
use vstd::prelude::*;
use crate::builtin::services::{Initializer, ServiceRole};
use crate::ids::fresh_id;
use crate::registration::{integrity, Refusal, StoreError};
use crate::text::{has_prefix, prefixed};
use crate::Error;

verus! {

#[derive(Clone, Copy, Debug, PartialEq, Eq, Structural)]
pub enum Phase {
    Pending,
    Entered,
    Completed,
    Failed,
}

/// One initializer's progress under its own execution instance.
#[derive(Clone, Debug)]
pub struct Step {
    pub program: String,
    pub role: ServiceRole,
    pub instance: String,
    pub phase: Phase,
    pub exit_code: Option<i32>,
    pub error: Option<String>,
}

/// The initialization of one plan digest: a step per initializer, in order.
#[derive(Clone, Debug)]
pub struct State {
    pub digest: String,
    pub steps: Vec<Step>,
}

pub open spec fn schema() -> Seq<char> {
    "rx.solutions-service-initialization.v1"@
}

/// A step's exit code and error agree with its phase: none before it ends,
/// exit 0 and no error once completed, an error once failed.
pub open spec fn step_sound(s: Step) -> bool {
    match s.phase {
        Phase::Pending | Phase::Entered => s.exit_code is None && s.error is None,
        Phase::Completed => s.exit_code == Some(0i32) && s.error is None,
        Phase::Failed => s.error is Some,
    }
}

/// 1..=32 steps, no program or instance twice, and each step sound.
pub open spec fn state_sound(st: State) -> bool {
    let s = st.steps@;
    &&& 1 <= s.len() <= 32
    &&& forall|a: int, b: int| 0 <= a < b < s.len() ==> (#[trigger] s[a]).program@ != (#[trigger] s[b]).program@
    &&& forall|a: int, b: int| 0 <= a < b < s.len() ==> (#[trigger] s[a]).instance@ != (#[trigger] s[b]).instance@
    &&& forall|i: int| 0 <= i < s.len() ==> step_sound(#[trigger] s[i])
}

fn sound_step(s: &Step) -> (r: bool)
    ensures
        r == step_sound(*s),
{
    match s.phase {
        Phase::Pending | Phase::Entered => s.exit_code.is_none() && s.error.is_none(),
        Phase::Completed => {
            let zero = match s.exit_code {
                Some(c) => c == 0,
                None => false,
            };
            zero && s.error.is_none()
        },
        Phase::Failed => s.error.is_some(),
    }
}

fn sound_state(st: &State) -> (r: bool)
    ensures
        r == state_sound(*st),
{
    let s = &st.steps;
    if s.len() == 0 || s.len() > 32 {
        return false;
    }
    let mut a: usize = 0;
    while a < s.len()
        invariant
            a <= s@.len(),
            1 <= s@.len() <= 32,
            s == &st.steps,
            forall|x: int, y: int| 0 <= x < a && x < y < s@.len() ==> (#[trigger] s@[x]).program@ != (#[trigger] s@[y]).program@,
            forall|x: int, y: int| 0 <= x < a && x < y < s@.len() ==> (#[trigger] s@[x]).instance@ != (#[trigger] s@[y]).instance@,
            forall|x: int| 0 <= x < a ==> step_sound(#[trigger] s@[x]),
        decreases s@.len() - a,
    {
        if !sound_step(&s[a]) {
            return false;
        }
        let mut b: usize = a + 1;
        while b < s.len()
            invariant
                a < s@.len(),
                a + 1 <= b <= s@.len(),
                s == &st.steps,
                forall|y: int| a < y < b ==> s@[a as int].program@ != (#[trigger] s@[y]).program@
                    && s@[a as int].instance@ != s@[y].instance@,
            decreases s@.len() - b,
        {
            if s[a].program == s[b].program || s[a].instance == s[b].instance {
                return false;
            }
            b = b + 1;
        }
        a = a + 1;
    }
    true
}

/// A stored state, as decoded from the document filed under the schema
/// `schema`: refused unless the schema is this one and the state is sound.
pub fn decode(document_schema: &String, state: State) -> (r: Result<State, StoreError>)
    ensures
        document_schema@ != schema() ==> (r matches Err(e) && e@ == Refusal::Integrity("initialization schema differs"@)),
        document_schema@ == schema() && !state_sound(state) ==> (r matches Err(e)
            && e@ == Refusal::Integrity("initializer identity/phase differs"@)),
        document_schema@ == schema() && state_sound(state) ==> r == Ok::<State, StoreError>(state),
{
    if !crate::text::same_text(document_schema.as_str(), "rx.solutions-service-initialization.v1") {
        return Err(integrity("initialization schema differs"));
    }
    if !sound_state(&state) {
        return Err(integrity("initializer identity/phase differs"));
    }
    Ok(state)
}

/// The steps name the initializers, in order, with their roles.
pub open spec fn commands_match(state: State, commands: Seq<Initializer>) -> bool {
    &&& state.steps@.len() == commands.len()
    &&& forall|i: int| 0 <= i < commands.len() ==> (#[trigger] state.steps@[i]).program@ == commands[i].id@
        && state.steps@[i].role == commands[i].role
}

pub fn check_commands(state: &State, commands: &Vec<Initializer>) -> (r: Result<(), StoreError>)
    ensures
        r is Ok <==> commands_match(*state, commands@),
        r matches Err(e) ==> e@ == Refusal::Integrity("initializer list or order differs"@),
{
    if state.steps.len() != commands.len() {
        return Err(integrity("initializer list or order differs"));
    }
    let mut i: usize = 0;
    while i < commands.len()
        invariant
            i <= commands@.len(),
            state.steps@.len() == commands@.len(),
            forall|k: int| 0 <= k < i ==> (#[trigger] state.steps@[k]).program@ == commands@[k].id@
                && state.steps@[k].role == commands@[k].role,
        decreases commands@.len() - i,
    {
        if state.steps[i].program != commands[i].id || state.steps[i].role != commands[i].role {
            return Err(integrity("initializer list or order differs"));
        }
        i = i + 1;
    }
    Ok(())
}

/// What looking at the stored state finds, in the order of the checks.
pub open spec fn inspection(row: Option<(String, State)>, expected: Seq<char>, commands: Seq<Initializer>) -> Result<State, Refusal> {
    match row {
        None => Err(Refusal::Integrity("required initialization state absent"@)),
        Some((document_schema, state)) => if document_schema@ != schema() {
            Err(Refusal::Integrity("initialization schema differs"@))
        } else if !state_sound(state) {
            Err(Refusal::Integrity("initializer identity/phase differs"@))
        } else if state.digest@ != expected {
            Err(Refusal::KeyConflict)
        } else if !commands_match(state, commands) {
            Err(Refusal::Integrity("initializer list or order differs"@))
        } else {
            Ok(state)
        },
    }
}

/// The stored state for the plan digest `expected` and these initializers.
/// `row` is the stored document's schema and decoded state, if one is
/// stored.
pub fn inspect(row: Option<(String, State)>, expected: &String, commands: &Vec<Initializer>) -> (r: Result<State, StoreError>)
    ensures
        match inspection(row, expected@, commands@) {
            Ok(s) => r == Ok::<State, StoreError>(s),
            Err(e) => r matches Err(x) && x@ == e,
        },
{
    let (document_schema, state) = match row {
        None => {
            return Err(integrity("required initialization state absent"));
        },
        Some(row) => row,
    };
    let state = match decode(&document_schema, state) {
        Err(e) => {
            return Err(e);
        },
        Ok(s) => s,
    };
    if state.digest != *expected {
        return Err(StoreError::KeyConflict);
    }
    match check_commands(&state, commands) {
        Err(e) => Err(e),
        Ok(()) => Ok(state),
    }
}

/// Every step completed with exit 0.
pub open spec fn complete(state: State) -> bool {
    forall|i: int| 0 <= i < state.steps@.len() ==> (#[trigger] state.steps@[i]).phase == Phase::Completed
        && state.steps@[i].exit_code == Some(0i32)
}

pub open spec fn incomplete_message() -> Seq<char> {
    "fixed service initialization is incomplete; no automatic init replay"@
}

/// The stored state, only when every initializer completed: nothing is
/// replayed automatically.
pub fn require_complete(row: Option<(String, State)>, expected: &String, commands: &Vec<Initializer>) -> (r: Result<State, Error>)
    ensures
        match inspection(row, expected@, commands@) {
            Err(e) => r matches Err(Error::Storage(x)) && x@ == e,
            Ok(s) => if complete(s) {
                r == Ok::<State, Error>(s)
            } else {
                r matches Err(Error::Reconciliation(m)) && m@ == incomplete_message()
            },
        },
{
    let ghost found = inspection(row, expected@, commands@);
    let state = match inspect(row, expected, commands) {
        Err(e) => {
            return Err(Error::Storage(e));
        },
        Ok(s) => s,
    };
    let mut i: usize = 0;
    while i < state.steps.len()
        invariant
            found == Ok::<State, Refusal>(state),
            found == inspection(row, expected@, commands@),
            i <= state.steps@.len(),
            forall|k: int| 0 <= k < i ==> (#[trigger] state.steps@[k]).phase == Phase::Completed
                && state.steps@[k].exit_code == Some(0i32),
        decreases state.steps@.len() - i,
    {
        let zero = match state.steps[i].exit_code {
            Some(c) => c == 0,
            None => false,
        };
        if state.steps[i].phase != Phase::Completed || !zero {
            assert(!(state.steps@[i as int].phase == Phase::Completed && state.steps@[i as int].exit_code == Some(0i32)));
            assert(!complete(state));
            return Err(Error::Reconciliation(String::from_str("fixed service initialization is incomplete; no automatic init replay")));
        }
        i = i + 1;
    }
    Ok(state)
}

/// The only moves a step makes: pending to entered, entered to an end.
pub open spec fn allowed(from: Phase, to: Phase) -> bool {
    (from == Phase::Pending && to == Phase::Entered)
        || (from == Phase::Entered && (to == Phase::Completed || to == Phase::Failed))
}

/// What a transition finds, in the order of the checks.
pub open spec fn transition(row: Option<(String, State)>, expected: Seq<char>, commands: Seq<Initializer>, index: int,
    phase: Phase) -> Result<State, Refusal> {
    match row {
        None => Err(Refusal::Integrity("initialization state missing"@)),
        Some((document_schema, state)) => if document_schema@ != schema() {
            Err(Refusal::Integrity("initialization schema differs"@))
        } else if !state_sound(state) {
            Err(Refusal::Integrity("initializer identity/phase differs"@))
        } else if !commands_match(state, commands) {
            Err(Refusal::Integrity("initializer list or order differs"@))
        } else if state.digest@ != expected || index >= state.steps@.len() {
            Err(Refusal::KeyConflict)
        } else if !allowed(state.steps@[index].phase, phase) {
            Err(Refusal::Invalid("initialization transition differs"@))
        } else {
            Ok(state)
        },
    }
}

/// Moves step `index` to `phase`, recording its exit code and error. The
/// caller stores the returned state in place of the stored one and
/// appends it to history.
pub fn change(
    row: Option<(String, State)>,
    expected: &String,
    commands: &Vec<Initializer>,
    index: usize,
    phase: Phase,
    code: Option<i32>,
    error: Option<String>,
) -> (r: Result<State, StoreError>)
    ensures
        match transition(row, expected@, commands@, index as int, phase) {
            Err(e) => r matches Err(x) && x@ == e,
            Ok(s) => r matches Ok(n) && n.digest == s.digest && n.steps@ == s.steps@.update(index as int, Step {
                phase,
                exit_code: code,
                error,
                ..s.steps@[index as int]
            }),
        },
{
    let (document_schema, state) = match row {
        None => {
            return Err(integrity("initialization state missing"));
        },
        Some(row) => row,
    };
    let mut state = match decode(&document_schema, state) {
        Err(e) => {
            return Err(e);
        },
        Ok(s) => s,
    };
    if let Err(e) = check_commands(&state, commands) {
        return Err(e);
    }
    if state.digest != *expected || index >= state.steps.len() {
        return Err(StoreError::KeyConflict);
    }
    let from = state.steps[index].phase;
    let ok = match (from, phase) {
        (Phase::Pending, Phase::Entered) => true,
        (Phase::Entered, Phase::Completed) => true,
        (Phase::Entered, Phase::Failed) => true,
        _ => false,
    };
    if !ok {
        return Err(crate::registration::invalid("initialization transition differs"));
    }
    let step = state.steps.remove(index);
    state.steps.insert(index, Step { phase, exit_code: code, error, ..step });
    Ok(state)
}

/// Initializers a run accepts: 1..=32 release-generated services, each
/// named once.
pub open spec fn initializers_ok(commands: Seq<Initializer>) -> bool {
    &&& 1 <= commands.len() <= 32
    &&& forall|i: int| 0 <= i < commands.len() ==> prefixed((#[trigger] commands[i]).id@, "rx/service/"@)
    &&& forall|a: int, b: int| 0 <= a < b < commands.len() ==> (#[trigger] commands[a]).id@ != (#[trigger] commands[b]).id@
}

pub fn check_initializers(commands: &Vec<Initializer>) -> (r: Result<(), Error>)
    ensures
        r is Ok <==> initializers_ok(commands@),
        r matches Err(e) ==> (e matches Error::Invalid(m) && m@ == "bounded release-generated service initializers required"@),
{
    if commands.len() == 0 || commands.len() > 32 {
        return Err(Error::Invalid(String::from_str("bounded release-generated service initializers required")));
    }
    let mut a: usize = 0;
    while a < commands.len()
        invariant
            a <= commands@.len(),
            1 <= commands@.len() <= 32,
            forall|x: int| 0 <= x < a ==> prefixed((#[trigger] commands@[x]).id@, "rx/service/"@),
            forall|x: int, y: int| 0 <= x < a && x < y < commands@.len() ==> (#[trigger] commands@[x]).id@ != (#[trigger] commands@[y]).id@,
        decreases commands@.len() - a,
    {
        if !has_prefix(commands[a].id.as_str(), "rx/service/") {
            return Err(Error::Invalid(String::from_str("bounded release-generated service initializers required")));
        }
        let mut b: usize = a + 1;
        while b < commands.len()
            invariant
                a < commands@.len(),
                a + 1 <= b <= commands@.len(),
                forall|y: int| a < y < b ==> commands@[a as int].id@ != (#[trigger] commands@[y]).id@,
            decreases commands@.len() - b,
        {
            if commands[a].id == commands[b].id {
                return Err(Error::Invalid(String::from_str("bounded release-generated service initializers required")));
            }
            b = b + 1;
        }
        a = a + 1;
    }
    Ok(())
}

/// The first state of an initialization: every initializer pending, in
/// order, each under a fresh instance.
pub fn initial_steps(expected: String, commands: &Vec<Initializer>) -> (r: State)
    ensures
        r.digest == expected,
        r.steps@.len() == commands@.len(),
        forall|i: int| 0 <= i < commands@.len() ==> {
            let s = #[trigger] r.steps@[i];
            &&& s.program == commands@[i].id
            &&& s.role == commands@[i].role
            &&& s.instance@.len() == 36
            &&& s.phase == Phase::Pending
            &&& s.exit_code is None
            &&& s.error is None
        },
{
    let mut steps: Vec<Step> = Vec::new();
    let mut i: usize = 0;
    while i < commands.len()
        invariant
            i <= commands@.len(),
            steps@.len() == i,
            forall|k: int| 0 <= k < i ==> {
                let s = #[trigger] steps@[k];
                &&& s.program == commands@[k].id
                &&& s.role == commands@[k].role
                &&& s.instance@.len() == 36
                &&& s.phase == Phase::Pending
                &&& s.exit_code is None
                &&& s.error is None
            },
        decreases commands@.len() - i,
    {
        steps.push(Step {
            program: commands[i].id.clone(),
            role: commands[i].role,
            instance: fresh_id(),
            phase: Phase::Pending,
            exit_code: None,
            error: None,
        });
        i = i + 1;
    }
    State { digest: expected, steps }
}

/// Whether initializer `index` still has to run: `Ok(false)` when it
/// completed before, `Ok(true)` when it is pending. A step that is not this
/// initializer, or that was entered or failed, needs inspection.
pub fn pending(state: &State, index: usize, command: &Initializer) -> (r: Result<bool, Error>)
    ensures
        !(index < state.steps@.len() && state.steps@[index as int].program@ == command.id@) ==> (r matches Err(Error::Reconciliation(m))
            && m@ == "initializer identity changed"@),
        index < state.steps@.len() && state.steps@[index as int].program@ == command.id@ ==> match state.steps@[index as int].phase {
            Phase::Completed => r == Ok::<bool, Error>(false),
            Phase::Pending => r == Ok::<bool, Error>(true),
            _ => r matches Err(Error::Reconciliation(m))
                && m@ == "initializer entered or failed; existing metadata requires inspection, never replay"@,
        },
{
    if index >= state.steps.len() || state.steps[index].program != command.id {
        return Err(Error::Reconciliation(String::from_str("initializer identity changed")));
    }
    match state.steps[index].phase {
        Phase::Completed => Ok(false),
        Phase::Pending => Ok(true),
        _ => Err(Error::Reconciliation(String::from_str("initializer entered or failed; existing metadata requires inspection, never replay"))),
    }
}

/// How a finished initializer is recorded: completed only when it exited
/// successfully and was not interrupted; a timeout never completes it.
pub fn outcome(success: bool, interrupted: bool) -> (r: (Phase, Option<String>))
    ensures
        success && !interrupted ==> r.0 == Phase::Completed && r.1 is None,
        !(success && !interrupted) ==> r.0 == Phase::Failed
            && (r.1 matches Some(m) && m@ == "initializer failed or interrupted; partial installation retained"@),
{
    if success && !interrupted {
        (Phase::Completed, None)
    } else {
        (Phase::Failed, Some(String::from_str("initializer failed or interrupted; partial installation retained")))
    }
}

/// Asks an owned initializer to terminate, at most until delivery is
/// confirmed. `exited` reports whether the child has exited already;
/// `deliver` sends the request to process `pid`. Only a confirmed delivery,
/// or an observed exit, suppresses the next attempt.
pub fn attempt_termination<E: FnOnce() -> Result<bool, Error>, D: FnOnce(u32) -> Result<(), Error>>(
    pid: u32,
    sent: &mut bool,
    exited: E,
    deliver: D,
) -> (r: Result<(), Error>)
    requires
        !*old(sent) ==> exited.requires(()),
        !*old(sent) ==> forall|seen: Result<bool, Error>| #[trigger] exited.ensures((), seen) && seen is Ok && !seen->Ok_0
            ==> deliver.requires((pid,)),
    ensures
        *old(sent) ==> r is Ok && *final(sent),
        !*old(sent) ==> exists|seen: Result<bool, Error>| #[trigger] exited.ensures((), seen) && match seen {
            Err(e) => r == Err::<(), Error>(e) && !*final(sent),
            Ok(true) => r is Ok && *final(sent),
            Ok(false) => exists|d: Result<(), Error>| #[trigger] deliver.ensures((pid,), d) && match d {
                Err(e) => r == Err::<(), Error>(e) && !*final(sent),
                Ok(()) => r is Ok && *final(sent),
            },
        },
{
    if *sent {
        return Ok(());
    }
    let seen = exited();
    match seen {
        Err(e) => {
            return Err(e);
        },
        Ok(true) => {
            *sent = true;
            return Ok(());
        },
        Ok(false) => {},
    }
    let d = deliver(pid);
    match d {
        Err(e) => Err(e),
        Ok(()) => {
            *sent = true;
            Ok(())
        },
    }
}

/// A termination request whose command did not succeed was not delivered.
/// `status` is how the command's exit status reads.
pub fn check_signal_status(success: bool, status: &str) -> (r: Result<(), Error>)
    ensures
        success ==> r is Ok,
        !success ==> (r matches Err(Error::Reconciliation(m)) && m@ == "owned initializer TERM was not confirmed: "@ + status@),
{
    if !success {
        return Err(Error::Reconciliation(String::from_str("owned initializer TERM was not confirmed: ").concat(status)));
    }
    Ok(())
}

/// A step entered once is never pending again: nothing a transition does
/// makes an initializer safe to run a second time.
pub proof fn law_no_step_returns_to_pending(from: Phase, to: Phase)
    requires
        allowed(from, to),
    ensures
        to != Phase::Pending,
{
}

/// A completed or failed step never moves again.
pub proof fn law_ended_steps_are_final(to: Phase)
    ensures
        !allowed(Phase::Completed, to),
        !allowed(Phase::Failed, to),
{
}

/// A step moves forward only: pending to entered, and entered to either
/// end, completed or failed. An entered initializer that failed is
/// recorded as failed (with its exit code and error, see `change`) as
/// surely as one that completed is recorded as completed; nothing moves a
/// step back or out of an end.
pub proof fn law_an_entered_step_ends_completed_or_failed(document_schema: String, state: State, expected: Seq<char>,
    commands: Seq<Initializer>, index: int)
    requires
        document_schema@ == schema(),
        state_sound(state),
        commands_match(state, commands),
        state.digest@ == expected,
        0 <= index < state.steps@.len(),
    ensures
        state.steps@[index].phase == Phase::Entered ==> transition(Some((document_schema, state)), expected, commands, index,
            Phase::Failed) == Ok::<State, Refusal>(state),
        state.steps@[index].phase == Phase::Entered ==> transition(Some((document_schema, state)), expected, commands, index,
            Phase::Completed) == Ok::<State, Refusal>(state),
        state.steps@[index].phase == Phase::Pending ==> transition(Some((document_schema, state)), expected, commands, index,
            Phase::Entered) == Ok::<State, Refusal>(state),
        forall|to: Phase| (state.steps@[index].phase == Phase::Completed || state.steps@[index].phase == Phase::Failed)
            ==> #[trigger] transition(Some((document_schema, state)), expected, commands, index, to)
                == Err::<State, Refusal>(Refusal::Invalid("initialization transition differs"@)),
        transition(Some((document_schema, state)), expected, commands, index, Phase::Pending)
            == Err::<State, Refusal>(Refusal::Invalid("initialization transition differs"@)),
{
}

} // verus!
