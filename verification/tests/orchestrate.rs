use texwatch::events::{ChangeEvent, FileKind};
use texwatch::orchestrator::{
    check_consts, compile_init, phase_action, phase_step, process_events, run_event, start_phase,
    Action, ConfigError, Phase,
};

#[test]
fn startup_plan_with_bibliography_is_tex_bib_tex() {
    let plan = compile_init(true);
    assert_eq!(
        plan,
        vec![Action::CompileTex, Action::CompileBib, Action::CompileTex]
    );
}

#[test]
fn startup_plan_without_bibliography_is_one_tex_pass() {
    let plan = compile_init(false);
    assert_eq!(plan, vec![Action::CompileTex]);
}

#[test]
fn tex_event_runs_one_primary_compilation() {
    let outcomes = vec![false, false, false, false, false];
    let run = run_event(FileKind::Tex, &outcomes, 0);
    assert_eq!(run.actions, vec![Action::CompileTex]);
    assert!(!run.fatal);
}

#[test]
fn bib_event_success_runs_final_recompilations() {
    let outcomes = vec![true, true, true, true, true];
    let run = run_event(FileKind::Bib, &outcomes, 0);
    assert_eq!(
        run.actions,
        vec![Action::CompileBib, Action::CompileTex, Action::CompileBib]
    );
    assert!(!run.fatal);
}

#[test]
fn bib_event_recovery_performs_exactly_five_invocations() {
    let outcomes = vec![false, true, true, true, true];
    let run = run_event(FileKind::Bib, &outcomes, 0);
    assert_eq!(
        run.actions,
        vec![
            Action::CompileBib,
            Action::CompileTex,
            Action::CompileBib,
            Action::CompileTex,
            Action::CompileBib
        ]
    );
    assert!(!run.fatal);
}

#[test]
fn bib_event_double_failure_is_fatal_after_three_invocations() {
    let outcomes = vec![false, true, false, true, true];
    let run = run_event(FileKind::Bib, &outcomes, 0);
    assert_eq!(
        run.actions,
        vec![Action::CompileBib, Action::CompileTex, Action::CompileBib]
    );
    assert!(run.fatal);
}

#[test]
fn events_are_processed_exactly_once_in_enqueue_order() {
    let events = vec![
        ChangeEvent {
            kind: FileKind::Tex,
            path: b"./a.tex".to_vec(),
        },
        ChangeEvent {
            kind: FileKind::Bib,
            path: b"./ref.bib".to_vec(),
        },
        ChangeEvent {
            kind: FileKind::Tex,
            path: b"./b.tex".to_vec(),
        },
    ];
    let outcomes = vec![true; 15];
    let run = process_events(&events, &outcomes);
    assert_eq!(run.processed, 3);
    assert!(!run.fatal);
    assert_eq!(
        run.actions,
        vec![
            Action::CompileTex,
            Action::CompileBib,
            Action::CompileTex,
            Action::CompileBib,
            Action::CompileTex
        ]
    );
}

#[test]
fn fatal_event_stops_the_run_before_later_events() {
    let events = vec![
        ChangeEvent {
            kind: FileKind::Bib,
            path: b"./ref.bib".to_vec(),
        },
        ChangeEvent {
            kind: FileKind::Tex,
            path: b"./a.tex".to_vec(),
        },
    ];
    let outcomes = vec![false, true, false, true, true, true, true, true, true, true];
    let run = process_events(&events, &outcomes);
    assert!(run.fatal);
    assert_eq!(run.processed, 1);
    assert_eq!(
        run.actions,
        vec![Action::CompileBib, Action::CompileTex, Action::CompileBib]
    );
}

#[test]
fn phase_machine_walks_the_recovery_protocol() {
    let mut phase = start_phase(FileKind::Bib);
    assert_eq!(phase, Phase::BibAttempt1);
    assert_eq!(phase_action(phase), Some(Action::CompileBib));
    phase = phase_step(phase, false);
    assert_eq!(phase, Phase::BibRecoverTex);
    assert_eq!(phase_action(phase), Some(Action::CompileTex));
    phase = phase_step(phase, true);
    assert_eq!(phase, Phase::BibAttempt2);
    phase = phase_step(phase, true);
    assert_eq!(phase, Phase::BibFinalTex);
    phase = phase_step(phase, true);
    assert_eq!(phase, Phase::BibFinalBib);
    phase = phase_step(phase, true);
    assert_eq!(phase, Phase::AwaitEvent);
    assert_eq!(phase_action(phase), None);
}

#[test]
fn phase_machine_second_failure_is_fatal() {
    let mut phase = start_phase(FileKind::Bib);
    phase = phase_step(phase, false);
    phase = phase_step(phase, true);
    assert_eq!(phase, Phase::BibAttempt2);
    phase = phase_step(phase, false);
    assert_eq!(phase, Phase::Fatal);
    assert_eq!(phase_action(phase), None);
}

#[test]
fn startup_check_reports_each_missing_file() {
    assert_eq!(check_consts(true, false, false), Ok(()));
    assert_eq!(check_consts(true, true, true), Ok(()));
    assert_eq!(
        check_consts(true, true, false),
        Err(ConfigError::MissingBibMain)
    );
    assert_eq!(
        check_consts(false, false, false),
        Err(ConfigError::MissingTexMain)
    );
    assert_eq!(
        check_consts(false, true, false),
        Err(ConfigError::MissingBibMain)
    );
    assert_eq!(
        check_consts(false, true, true),
        Err(ConfigError::MissingTexMain)
    );
}
