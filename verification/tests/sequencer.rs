use bootstrap_sequencer::capability::Capability;
use bootstrap_sequencer::platform::Platform;
use bootstrap_sequencer::sequencer::{abort_diagnostic, Action, Outcome, Sequencer, Stage};

#[test]
fn new_sequencer_is_registering() {
    let sequencer = Sequencer::new(Platform::Desktop);
    assert_eq!(sequencer.platform(), Platform::Desktop);
    assert_eq!(sequencer.stage(), Stage::Registering);
    assert!(!sequencer.setup_failed());
    assert!(!sequencer.is_terminated());
    assert_eq!(sequencer.pending(), Action::Register(Capability::Autostart));
}

#[test]
fn new_mobile_sequencer_starts_with_the_opener() {
    let sequencer = Sequencer::new(Platform::Mobile);
    assert_eq!(sequencer.platform(), Platform::Mobile);
    assert_eq!(sequencer.pending(), Action::Register(Capability::Opener));
}

#[test]
fn desktop_steps_in_order() {
    let mut sequencer = Sequencer::new(Platform::Desktop);
    assert_eq!(sequencer.pending(), Action::Register(Capability::Autostart));
    assert_eq!(sequencer.report(Outcome::Succeeded), Action::Register(Capability::Opener));
    assert_eq!(sequencer.report(Outcome::Succeeded), Action::Register(Capability::Store));
    assert_eq!(sequencer.report(Outcome::Succeeded), Action::Register(Capability::Notification));
    assert_eq!(sequencer.stage(), Stage::Registering);
    assert_eq!(sequencer.report(Outcome::Succeeded), Action::EnterRunLoop);
    assert_eq!(sequencer.stage(), Stage::Launching);
    assert!(!sequencer.is_terminated());
    assert_eq!(sequencer.report(Outcome::Succeeded), Action::Exit);
    assert_eq!(sequencer.stage(), Stage::Exited);
    assert!(sequencer.is_terminated());
}

#[test]
fn mobile_steps_in_order() {
    let mut sequencer = Sequencer::new(Platform::Mobile);
    assert_eq!(sequencer.pending(), Action::Register(Capability::Opener));
    assert_eq!(sequencer.report(Outcome::Succeeded), Action::Register(Capability::Store));
    assert_eq!(sequencer.report(Outcome::Succeeded), Action::Register(Capability::Notification));
    assert_eq!(sequencer.report(Outcome::Succeeded), Action::EnterRunLoop);
    assert_eq!(sequencer.report(Outcome::Succeeded), Action::Exit);
}

#[test]
fn pending_does_not_advance() {
    let mut sequencer = Sequencer::new(Platform::Desktop);
    sequencer.report(Outcome::Succeeded);
    assert_eq!(sequencer.pending(), Action::Register(Capability::Opener));
    assert_eq!(sequencer.pending(), Action::Register(Capability::Opener));
}

#[test]
fn autostart_failure_is_not_remembered() {
    let mut sequencer = Sequencer::new(Platform::Desktop);
    assert_eq!(sequencer.report(Outcome::Failed), Action::Register(Capability::Opener));
    assert!(!sequencer.setup_failed());
    sequencer.report(Outcome::Succeeded);
    sequencer.report(Outcome::Succeeded);
    assert_eq!(sequencer.report(Outcome::Succeeded), Action::EnterRunLoop);
    assert!(!sequencer.setup_failed());
}

#[test]
fn opener_failure_is_remembered_and_the_rest_still_registered() {
    let mut sequencer = Sequencer::new(Platform::Desktop);
    sequencer.report(Outcome::Succeeded);
    assert_eq!(sequencer.report(Outcome::Failed), Action::Register(Capability::Store));
    assert!(sequencer.setup_failed());
    assert_eq!(sequencer.stage(), Stage::Registering);
    assert_eq!(sequencer.report(Outcome::Succeeded), Action::Register(Capability::Notification));
    assert_eq!(sequencer.report(Outcome::Succeeded), Action::Abort);
    assert_eq!(sequencer.stage(), Stage::Aborted);
    assert!(sequencer.is_terminated());
    assert!(sequencer.setup_failed());
}

#[test]
fn notification_failure_aborts_at_once() {
    let mut sequencer = Sequencer::new(Platform::Mobile);
    sequencer.report(Outcome::Succeeded);
    sequencer.report(Outcome::Succeeded);
    assert_eq!(sequencer.report(Outcome::Failed), Action::Abort);
    assert!(sequencer.is_terminated());
}

#[test]
fn run_loop_failure_aborts() {
    let mut sequencer = Sequencer::new(Platform::Mobile);
    sequencer.report(Outcome::Succeeded);
    sequencer.report(Outcome::Succeeded);
    assert_eq!(sequencer.report(Outcome::Succeeded), Action::EnterRunLoop);
    assert_eq!(sequencer.report(Outcome::Failed), Action::Abort);
    assert_eq!(sequencer.stage(), Stage::Aborted);
    assert!(sequencer.is_terminated());
    assert!(!sequencer.setup_failed());
}

#[test]
fn reports_after_the_end_change_nothing() {
    let mut sequencer = Sequencer::new(Platform::Mobile);
    for _ in 0..4 {
        sequencer.report(Outcome::Succeeded);
    }
    assert_eq!(sequencer.pending(), Action::Exit);
    assert_eq!(sequencer.report(Outcome::Failed), Action::Exit);
    assert_eq!(sequencer.report(Outcome::Succeeded), Action::Exit);
    assert_eq!(sequencer.stage(), Stage::Exited);

    let mut aborted = Sequencer::new(Platform::Desktop);
    for _ in 0..4 {
        aborted.report(Outcome::Failed);
    }
    assert_eq!(aborted.pending(), Action::Abort);
    assert_eq!(aborted.report(Outcome::Succeeded), Action::Abort);
    assert_eq!(aborted.stage(), Stage::Aborted);
    assert!(aborted.setup_failed());
}

#[test]
fn terminal_actions() {
    assert!(Action::Exit.is_terminal());
    assert!(Action::Abort.is_terminal());
    assert!(!Action::EnterRunLoop.is_terminal());
    assert!(!Action::Register(Capability::Autostart).is_terminal());
    assert!(!Action::Register(Capability::Notification).is_terminal());
}

#[test]
fn abort_diagnostic_text() {
    assert_eq!(abort_diagnostic(), "error while running tauri application");
}
