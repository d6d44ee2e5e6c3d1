//! The dispatch/compile orchestrator.
//!
//! The orchestrator consumes change events strictly in the order they
//! were enqueued and drives the external compilations: a primary-source
//! event triggers one primary compilation; a bibliography event triggers
//! the bibliography resolver and, if that fails, a bounded recovery
//! protocol — recompile the primary source once, retry the resolver
//! once, and treat a second failure as fatal. On success (first or
//! second attempt) a final primary compilation and one more resolver run
//! bring both artifacts up to date.
//!
//! The protocol is a small state machine, stepped once per completed
//! invocation. The surrounding program performs one invocation at a
//! time, classifies its output, and feeds the verdict back into the
//! machine; the logic of which invocation comes next, and when the loop
//! ends fatally, is all here.

use vstd::prelude::*;

use crate::events::{ChangeEvent, FileKind};

verus! {

/// One invocation of an external tool.
#[derive(Clone, Copy, PartialEq, Eq, Structural, Debug)]
pub enum Action {
    /// Run the primary-source compiler.
    CompileTex,
    /// Run the bibliography resolver.
    CompileBib,
}

/// Where the orchestrator stands while handling one event.
#[derive(Clone, Copy, PartialEq, Eq, Structural, Debug)]
pub enum Phase {
    /// No event is being handled; wait for the next one.
    AwaitEvent,
    /// A primary-source event: run the primary compilation.
    TexCompile,
    /// A bibliography event: first resolver attempt.
    BibAttempt1,
    /// The first attempt failed: recompile the primary source once.
    BibRecoverTex,
    /// Retry the resolver after the recovery recompilation.
    BibAttempt2,
    /// The resolver succeeded: final primary compilation.
    BibFinalTex,
    /// Final resolver run after the final primary compilation.
    BibFinalBib,
    /// Both resolver attempts failed: unrecoverable.
    Fatal,
}

/// The phase in which handling of an event begins.
pub open spec fn spec_start_phase(kind: FileKind) -> Phase {
    match kind {
        FileKind::Tex => Phase::TexCompile,
        FileKind::Bib => Phase::BibAttempt1,
    }
}

/// The invocation a phase asks for, if any. `AwaitEvent` and `Fatal`
/// ask for none: the former waits, the latter terminates.
pub open spec fn spec_phase_action(p: Phase) -> Option<Action> {
    match p {
        Phase::AwaitEvent => None,
        Phase::Fatal => None,
        Phase::TexCompile => Some(Action::CompileTex),
        Phase::BibRecoverTex => Some(Action::CompileTex),
        Phase::BibFinalTex => Some(Action::CompileTex),
        Phase::BibAttempt1 => Some(Action::CompileBib),
        Phase::BibAttempt2 => Some(Action::CompileBib),
        Phase::BibFinalBib => Some(Action::CompileBib),
    }
}

/// The next phase, given the verdict on the invocation just performed.
/// The machine branches on the verdict in `BibAttempt1` and
/// `BibAttempt2` alone: a failed primary compilation is non-fatal and
/// leaves the output artifact stale, and the verdict of the final
/// resolver run is ignored.
pub open spec fn spec_phase_step(p: Phase, ok: bool) -> Phase {
    match p {
        Phase::AwaitEvent => Phase::AwaitEvent,
        Phase::TexCompile => Phase::AwaitEvent,
        Phase::BibAttempt1 => if ok {
            Phase::BibFinalTex
        } else {
            Phase::BibRecoverTex
        },
        Phase::BibRecoverTex => Phase::BibAttempt2,
        Phase::BibAttempt2 => if ok {
            Phase::BibFinalTex
        } else {
            Phase::Fatal
        },
        Phase::BibFinalTex => Phase::BibFinalBib,
        Phase::BibFinalBib => Phase::AwaitEvent,
        Phase::Fatal => Phase::Fatal,
    }
}

/// An upper bound on the number of invocations still to come from a
/// phase; strictly decreases across every step that asks for one.
pub open spec fn spec_phase_rank(p: Phase) -> nat {
    match p {
        Phase::AwaitEvent => 0,
        Phase::Fatal => 0,
        Phase::TexCompile => 1,
        Phase::BibFinalBib => 1,
        Phase::BibFinalTex => 2,
        Phase::BibAttempt2 => 3,
        Phase::BibRecoverTex => 4,
        Phase::BibAttempt1 => 5,
    }
}

/// The phase in which handling of an event begins.
pub fn start_phase(kind: FileKind) -> (p: Phase)
    ensures
        p == spec_start_phase(kind),
{
    match kind {
        FileKind::Tex => Phase::TexCompile,
        FileKind::Bib => Phase::BibAttempt1,
    }
}

/// The invocation a phase asks for, if any.
pub fn phase_action(p: Phase) -> (a: Option<Action>)
    ensures
        a == spec_phase_action(p),
{
    match p {
        Phase::AwaitEvent => None,
        Phase::Fatal => None,
        Phase::TexCompile => Some(Action::CompileTex),
        Phase::BibRecoverTex => Some(Action::CompileTex),
        Phase::BibFinalTex => Some(Action::CompileTex),
        Phase::BibAttempt1 => Some(Action::CompileBib),
        Phase::BibAttempt2 => Some(Action::CompileBib),
        Phase::BibFinalBib => Some(Action::CompileBib),
    }
}

/// The next phase, given the verdict on the invocation just performed.
pub fn phase_step(p: Phase, ok: bool) -> (q: Phase)
    ensures
        q == spec_phase_step(p, ok),
{
    match p {
        Phase::AwaitEvent => Phase::AwaitEvent,
        Phase::TexCompile => Phase::AwaitEvent,
        Phase::BibAttempt1 => if ok {
            Phase::BibFinalTex
        } else {
            Phase::BibRecoverTex
        },
        Phase::BibRecoverTex => Phase::BibAttempt2,
        Phase::BibAttempt2 => if ok {
            Phase::BibFinalTex
        } else {
            Phase::Fatal
        },
        Phase::BibFinalTex => Phase::BibFinalBib,
        Phase::BibFinalBib => Phase::AwaitEvent,
        Phase::Fatal => Phase::Fatal,
    }
}

/// The invocations performed while handling one event, given an oracle
/// of invocation verdicts consumed from position `pos` on: one verdict
/// per invocation, in order. A primary-source event performs a single
/// primary compilation. A bibliography event performs the resolver
/// attempt and, depending on the verdicts, the recovery protocol and the
/// final recompilations.
pub open spec fn spec_event_actions(kind: FileKind, oc: Seq<bool>, pos: int) -> Seq<Action> {
    match kind {
        FileKind::Tex => seq![Action::CompileTex],
        FileKind::Bib => if oc[pos] {
            seq![Action::CompileBib, Action::CompileTex, Action::CompileBib]
        } else if oc[pos + 2] {
            seq![
                Action::CompileBib,
                Action::CompileTex,
                Action::CompileBib,
                Action::CompileTex,
                Action::CompileBib,
            ]
        } else {
            seq![Action::CompileBib, Action::CompileTex, Action::CompileBib]
        },
    }
}

/// Whether handling the event ends fatally: exactly when it is a
/// bibliography event and both resolver attempts fail.
pub open spec fn spec_event_fatal(kind: FileKind, oc: Seq<bool>, pos: int) -> bool {
    kind == FileKind::Bib && !oc[pos] && !oc[pos + 2]
}

/// Every event performs at least one and at most five invocations.
pub proof fn lemma_event_actions_len(kind: FileKind, oc: Seq<bool>, pos: int)
    ensures
        1 <= spec_event_actions(kind, oc, pos).len() <= 5,
{
}

/// The invocations produced by driving the phase machine from phase `p`
/// with verdicts `oc[pos]`, `oc[pos + 1]`, ... for at most `fuel` steps.
pub open spec fn spec_drive(p: Phase, oc: Seq<bool>, pos: int, fuel: nat) -> Seq<Action>
    decreases fuel,
{
    if fuel == 0 {
        Seq::<Action>::empty()
    } else {
        match spec_phase_action(p) {
            None => Seq::<Action>::empty(),
            Some(a) => seq![a] + spec_drive(
                spec_phase_step(p, oc[pos]),
                oc,
                pos + 1,
                (fuel - 1) as nat,
            ),
        }
    }
}

/// Whether driving the phase machine from phase `p` ends in the fatal
/// phase within `fuel` steps.
pub open spec fn spec_drive_fatal(p: Phase, oc: Seq<bool>, pos: int, fuel: nat) -> bool
    decreases fuel,
{
    if fuel == 0 {
        p == Phase::Fatal
    } else {
        match spec_phase_action(p) {
            None => p == Phase::Fatal,
            Some(a) => spec_drive_fatal(spec_phase_step(p, oc[pos]), oc, pos + 1, (fuel - 1) as nat),
        }
    }
}

/// The phase machine realizes the per-event protocol: driving it from
/// an event's start phase performs exactly the event's invocations, and
/// ends fatally exactly when the event does.
pub proof fn lemma_phase_machine_realizes_event(kind: FileKind, oc: Seq<bool>, pos: int)
    ensures
        spec_drive(spec_start_phase(kind), oc, pos, 5) == spec_event_actions(kind, oc, pos),
        spec_drive_fatal(spec_start_phase(kind), oc, pos, 5) == spec_event_fatal(kind, oc, pos),
{
    reveal_with_fuel(spec_drive, 6);
    reveal_with_fuel(spec_drive_fatal, 6);
    match kind {
        FileKind::Tex => {
            assert(spec_drive(Phase::TexCompile, oc, pos, 5) =~= seq![Action::CompileTex]);
        },
        FileKind::Bib => {
            if oc[pos] {
                assert(spec_drive(Phase::BibAttempt1, oc, pos, 5) =~= seq![
                    Action::CompileBib,
                    Action::CompileTex,
                    Action::CompileBib,
                ]);
            } else if oc[pos + 2] {
                assert(spec_drive(Phase::BibAttempt1, oc, pos, 5) =~= seq![
                    Action::CompileBib,
                    Action::CompileTex,
                    Action::CompileBib,
                    Action::CompileTex,
                    Action::CompileBib,
                ]);
            } else {
                assert(spec_drive(Phase::BibAttempt1, oc, pos, 5) =~= seq![
                    Action::CompileBib,
                    Action::CompileTex,
                    Action::CompileBib,
                ]);
            }
        },
    }
}

/// The handling of one event, simulated against a verdict oracle: the
/// invocations performed, in order, and whether handling ended fatally.
pub struct EventRun {
    pub actions: Vec<Action>,
    pub fatal: bool,
}

/// Handles one event against a verdict oracle by driving the phase
/// machine until it asks for no further invocation. One oracle verdict
/// is consumed per invocation performed.
pub fn run_event(kind: FileKind, outcomes: &Vec<bool>, pos: usize) -> (r: EventRun)
    requires
        pos + 5 <= outcomes@.len(),
    ensures
        r.actions@ == spec_event_actions(kind, outcomes@, pos as int),
        r.fatal == spec_event_fatal(kind, outcomes@, pos as int),
{
    let mut phase = start_phase(kind);
    let mut actions: Vec<Action> = Vec::new();
    let mut used: usize = 0;
    let n = outcomes.len();
    proof {
        lemma_phase_machine_realizes_event(kind, outcomes@, pos as int);
    }
    loop
        invariant
            n == outcomes@.len(),
            pos + 5 <= outcomes@.len(),
            spec_phase_rank(phase) + used <= 5,
            actions@ + spec_drive(phase, outcomes@, pos + used as int, (5 - used) as nat)
                == spec_event_actions(kind, outcomes@, pos as int),
            spec_drive_fatal(phase, outcomes@, pos + used as int, (5 - used) as nat)
                == spec_event_fatal(kind, outcomes@, pos as int),
        ensures
            spec_phase_action(phase) is None,
            actions@ + spec_drive(phase, outcomes@, pos + used as int, (5 - used) as nat)
                == spec_event_actions(kind, outcomes@, pos as int),
            spec_drive_fatal(phase, outcomes@, pos + used as int, (5 - used) as nat)
                == spec_event_fatal(kind, outcomes@, pos as int),
            used <= 5,
        decreases spec_phase_rank(phase),
    {
        let a_opt = phase_action(phase);
        match a_opt {
            None => {
                break ;
            },
            Some(a) => {
                proof {
                    assert(spec_phase_rank(phase) >= 1);
                }
                let ghost pre_actions = actions@;
                let ghost pre_phase = phase;
                actions.push(a);
                let ok = outcomes[pos + used];
                phase = phase_step(phase, ok);
                used = used + 1;
                proof {
                    assert(spec_phase_rank(phase) < spec_phase_rank(pre_phase));
                    assert(spec_drive(pre_phase, outcomes@, pos + used as int - 1, (5 - (used - 1))
                        as nat) == seq![a] + spec_drive(
                        phase,
                        outcomes@,
                        pos + used as int,
                        (5 - used) as nat,
                    ));
                    assert(pre_actions + (seq![a] + spec_drive(
                        phase,
                        outcomes@,
                        pos + used as int,
                        (5 - used) as nat,
                    )) =~= actions@ + spec_drive(
                        phase,
                        outcomes@,
                        pos + used as int,
                        (5 - used) as nat,
                    ));
                }
            },
        }
    }
    let fatal = phase_is_fatal(phase);
    proof {
        assert(actions@ + Seq::<Action>::empty() =~= actions@);
    }
    EventRun { actions, fatal }
}

/// Whether the machine has reached the unrecoverable phase.
pub fn phase_is_fatal(p: Phase) -> (r: bool)
    ensures
        r == (p == Phase::Fatal),
{
    match p {
        Phase::Fatal => true,
        _ => false,
    }
}

/// The kinds of a sequence of change events, in order.
pub open spec fn spec_kinds(events: Seq<ChangeEvent>) -> Seq<FileKind> {
    events.map_values(|e: ChangeEvent| e.kind)
}

/// The invocations performed while consuming the events `ks[i..]` in
/// order against a verdict oracle consumed from position `pos` on:
/// each event contributes its own protocol's invocations, one after the
/// other, and a fatal event ends the run.
pub open spec fn spec_run_actions(ks: Seq<FileKind>, i: int, oc: Seq<bool>, pos: int) -> Seq<
    Action,
>
    decreases ks.len() - i,
{
    if i < 0 || i >= ks.len() {
        Seq::<Action>::empty()
    } else {
        let tr = spec_event_actions(ks[i], oc, pos);
        if spec_event_fatal(ks[i], oc, pos) {
            tr
        } else {
            tr + spec_run_actions(ks, i + 1, oc, pos + tr.len())
        }
    }
}

/// How many of the events `ks[i..]` are consumed before the run ends:
/// all of them, unless one ends fatally, which is the last consumed.
pub open spec fn spec_run_processed(ks: Seq<FileKind>, i: int, oc: Seq<bool>, pos: int) -> int
    decreases ks.len() - i,
{
    if i < 0 || i >= ks.len() {
        0
    } else {
        let tr = spec_event_actions(ks[i], oc, pos);
        if spec_event_fatal(ks[i], oc, pos) {
            1
        } else {
            1 + spec_run_processed(ks, i + 1, oc, pos + tr.len())
        }
    }
}

/// Whether consuming the events `ks[i..]` ends fatally.
pub open spec fn spec_run_fatal(ks: Seq<FileKind>, i: int, oc: Seq<bool>, pos: int) -> bool
    decreases ks.len() - i,
{
    if i < 0 || i >= ks.len() {
        false
    } else {
        let tr = spec_event_actions(ks[i], oc, pos);
        if spec_event_fatal(ks[i], oc, pos) {
            true
        } else {
            spec_run_fatal(ks, i + 1, oc, pos + tr.len())
        }
    }
}

/// The outcome of consuming a queue of events: the invocations
/// performed, how many events were consumed, and whether the run ended
/// fatally.
pub struct RunResult {
    pub actions: Vec<Action>,
    pub processed: usize,
    pub fatal: bool,
}

/// Consumes a queue of change events in order against a verdict oracle,
/// handling each event completely before the next, and stopping only at
/// a fatal event. The oracle must offer one verdict per invocation; five
/// per event always suffice.
pub fn process_events(events: &Vec<ChangeEvent>, outcomes: &Vec<bool>) -> (r: RunResult)
    requires
        outcomes@.len() >= 5 * events@.len(),
    ensures
        r.actions@ == spec_run_actions(spec_kinds(events@), 0, outcomes@, 0),
        r.processed == spec_run_processed(spec_kinds(events@), 0, outcomes@, 0),
        r.fatal == spec_run_fatal(spec_kinds(events@), 0, outcomes@, 0),
{
    let ghost ks = spec_kinds(events@);
    let n_events = events.len();
    let n_oc = outcomes.len();
    let mut actions: Vec<Action> = Vec::new();
    let mut pos: usize = 0;
    let mut i: usize = 0;
    let mut fatal = false;
    while i < n_events && !fatal
        invariant
            n_events == events@.len(),
            n_oc == outcomes@.len(),
            ks == spec_kinds(events@),
            outcomes@.len() >= 5 * events@.len(),
            i <= n_events,
            !fatal ==> pos == actions@.len(),
            pos <= 5 * i,
            !fatal ==> actions@ + spec_run_actions(ks, i as int, outcomes@, pos as int)
                == spec_run_actions(ks, 0, outcomes@, 0),
            !fatal ==> spec_run_processed(ks, 0, outcomes@, 0) == i + spec_run_processed(
                ks,
                i as int,
                outcomes@,
                pos as int,
            ),
            !fatal ==> spec_run_fatal(ks, 0, outcomes@, 0) == spec_run_fatal(
                ks,
                i as int,
                outcomes@,
                pos as int,
            ),
            fatal ==> actions@ == spec_run_actions(ks, 0, outcomes@, 0) && i
                == spec_run_processed(ks, 0, outcomes@, 0) && spec_run_fatal(
                ks,
                0,
                outcomes@,
                0,
            ),
        decreases n_events - i,
    {
        let kind = events[i].kind;
        proof {
            assert(ks[i as int] == kind);
            lemma_event_actions_len(kind, outcomes@, pos as int);
        }
        let ghost pre_actions = actions@;
        let run = run_event(kind, outcomes, pos);
        let mut new_actions = run.actions;
        let consumed = new_actions.len();
        actions.append(&mut new_actions);
        if run.fatal {
            fatal = true;
        } else {
            proof {
                assert(consumed <= 5);
                assert(pos + consumed <= 5 * (i + 1) <= 5 * n_events <= n_oc);
            }
            pos = pos + consumed;
        }
        proof {
            let tr = spec_event_actions(ks[i as int], outcomes@, pre_actions.len() as int);
            if run.fatal {
                assert(pre_actions + tr =~= actions@);
            } else {
                assert(pre_actions + (tr + spec_run_actions(
                    ks,
                    i as int + 1,
                    outcomes@,
                    pos as int,
                )) =~= actions@ + spec_run_actions(ks, i as int + 1, outcomes@, pos as int));
            }
        }
        i = i + 1;
    }
    proof {
        if !fatal {
            assert(actions@ + Seq::<Action>::empty() =~= actions@);
        }
    }
    RunResult { actions, processed: i, fatal }
}

/// Law: a run that does not end fatally consumes every enqueued event,
/// each exactly once.
pub proof fn lemma_no_fatal_processes_all(ks: Seq<FileKind>, i: int, oc: Seq<bool>, pos: int)
    requires
        0 <= i <= ks.len(),
        !spec_run_fatal(ks, i, oc, pos),
    ensures
        spec_run_processed(ks, i, oc, pos) == ks.len() - i,
    decreases ks.len() - i,
{
    if i < ks.len() {
        let tr = spec_event_actions(ks[i], oc, pos);
        lemma_no_fatal_processes_all(ks, i + 1, oc, pos + tr.len());
    }
}

/// Law: events are handled strictly in enqueue order — the invocations
/// of a run start with exactly the protocol of the first remaining
/// event, and the rest of the run follows it.
pub proof fn lemma_run_in_order(ks: Seq<FileKind>, i: int, oc: Seq<bool>, pos: int)
    requires
        0 <= i < ks.len(),
        !spec_event_fatal(ks[i], oc, pos),
    ensures
        spec_run_actions(ks, i, oc, pos) == spec_event_actions(ks[i], oc, pos)
            + spec_run_actions(ks, i + 1, oc, pos + spec_event_actions(ks[i], oc, pos).len()),
        spec_run_processed(ks, i, oc, pos) == 1 + spec_run_processed(
            ks,
            i + 1,
            oc,
            pos + spec_event_actions(ks[i], oc, pos).len(),
        ),
{
}

/// Law: a bibliography event whose first resolver attempt fails and
/// whose retry after the recovery recompilation succeeds performs
/// exactly five invocations — resolver, primary, resolver, primary,
/// resolver — and is not fatal.
pub proof fn lemma_bib_recovery_succeeds(oc: Seq<bool>, pos: int)
    requires
        !oc[pos],
        oc[pos + 2],
    ensures
        spec_event_actions(FileKind::Bib, oc, pos) == seq![
            Action::CompileBib,
            Action::CompileTex,
            Action::CompileBib,
            Action::CompileTex,
            Action::CompileBib,
        ],
        spec_event_actions(FileKind::Bib, oc, pos).len() == 5,
        !spec_event_fatal(FileKind::Bib, oc, pos),
{
}

/// Law: a bibliography event whose two resolver attempts both fail
/// performs exactly three invocations — resolver, primary, resolver —
/// ends the run fatally, and no later event is consumed.
pub proof fn lemma_bib_double_failure_halts(ks: Seq<FileKind>, i: int, oc: Seq<bool>, pos: int)
    requires
        0 <= i < ks.len(),
        ks[i] == FileKind::Bib,
        !oc[pos],
        !oc[pos + 2],
    ensures
        spec_run_actions(ks, i, oc, pos) == seq![
            Action::CompileBib,
            Action::CompileTex,
            Action::CompileBib,
        ],
        spec_run_processed(ks, i, oc, pos) == 1,
        spec_run_fatal(ks, i, oc, pos),
{
}

/// The startup plan: one primary compilation and, when a bibliography
/// target is configured, a bibliography compilation followed by a second
/// primary compilation to inline the resolved citation data.
pub open spec fn spec_init_actions(bib_configured: bool) -> Seq<Action> {
    if bib_configured {
        seq![Action::CompileTex, Action::CompileBib, Action::CompileTex]
    } else {
        seq![Action::CompileTex]
    }
}

/// The compilations performed once at startup, before the watch loop
/// consumes any event, in the order they must run.
pub fn compile_init(bib_configured: bool) -> (plan: Vec<Action>)
    ensures
        plan@ == spec_init_actions(bib_configured),
{
    let mut plan: Vec<Action> = Vec::new();
    plan.push(Action::CompileTex);
    if bib_configured {
        plan.push(Action::CompileBib);
        plan.push(Action::CompileTex);
        proof {
            assert(plan@ =~= spec_init_actions(true));
        }
    } else {
        proof {
            assert(plan@ =~= spec_init_actions(false));
        }
    }
    plan
}

/// A missing well-known artifact file, found by the startup check.
#[derive(Clone, Copy, PartialEq, Eq, Structural, Debug)]
pub enum ConfigError {
    /// The configured bibliography data file is not a regular file.
    MissingBibMain,
    /// The primary document entry point is not a regular file.
    MissingTexMain,
}

/// The startup validation of the fixed artifact paths. The surrounding
/// program reports whether each well-known path is a regular file; the
/// check fails on a configured but missing bibliography file first, then
/// on a missing primary entry point.
pub fn check_consts(tex_main_is_file: bool, bib_configured: bool, bib_main_is_file: bool) -> (r:
    Result<(), ConfigError>)
    ensures
        r is Ok <==> (tex_main_is_file && (bib_configured ==> bib_main_is_file)),
        (r matches Err(e) && e == ConfigError::MissingBibMain) <==> (bib_configured
            && !bib_main_is_file),
        (r matches Err(e) && e == ConfigError::MissingTexMain) <==> ((bib_configured
            ==> bib_main_is_file) && !tex_main_is_file),
{
    if bib_configured && !bib_main_is_file {
        Err(ConfigError::MissingBibMain)
    } else if !tex_main_is_file {
        Err(ConfigError::MissingTexMain)
    } else {
        Ok(())
    }
}

} // verus!
