use omarchyiso::image_build::{
    exit_failure, stderr_line, BuildNext, BuildRun, BuildStage, BuildStep, BuildTask,
    IsoMakeFailure, TaskOutcome,
};
use omarchyiso::session::{Action, Key, Session};
use omarchyiso::state::{AppState, ListKind};
use omarchyiso::config::Config;

fn task(step: &BuildStep) -> Option<BuildTask> {
    match &step.next {
        BuildNext::Run(t) => Some(*t),
        BuildNext::Finish(_) => None,
    }
}

fn finish(step: &BuildStep) -> Option<Result<(), String>> {
    match &step.next {
        BuildNext::Run(_) => None,
        BuildNext::Finish(r) => Some(r.clone()),
    }
}

#[test]
fn enter_walks_through_the_screens() {
    let mut s = Session::new(false, "/tmp");
    assert_eq!(s.state, AppState::Welcome);
    assert_eq!(s.config.work_dir, "/tmp/omarchyiso_build");
    let expected = [
        (AppState::SelectingAurPackages, Action::Scan(ListKind::Aur)),
        (AppState::SelectingOfficialPackages, Action::Scan(ListKind::Official)),
        (AppState::SelectingIgnoredPackages, Action::Scan(ListKind::Ignored)),
        (AppState::SelectingDotfiles, Action::Scan(ListKind::Dotfiles)),
        (AppState::SelectingHomeDotfiles, Action::Scan(ListKind::HomeDotfiles)),
        (AppState::Summary, Action::Continue),
        (AppState::Building, Action::Continue),
        (AppState::Building, Action::Continue),
    ];
    for (state, action) in expected {
        s.ui.filter_text = "x".to_string();
        let a = s.handle_input(Key::Enter);
        assert_eq!(a, action);
        assert_eq!(s.state, state);
    }
    assert!(!s.should_quit);
    // The cursor is reset on every list screen but left alone when building starts.
    assert_eq!(s.ui.filter_text, "x");
}

#[test]
fn quitting() {
    let mut s = Session::new(true, "/tmp");
    s.handle_input(Key::Char('q'));
    assert!(!s.should_quit);
    s.handle_input(Key::Char('Q'));
    assert!(s.should_quit);
    let mut t = Session::new(true, "/tmp");
    t.handle_input(Key::Esc);
    assert!(t.should_quit);
    let mut u = Session::new(true, "/tmp");
    u.state = AppState::Complete;
    u.handle_input(Key::Enter);
    assert!(u.should_quit);
}

#[test]
fn keys_on_a_list_screen() {
    let mut s = Session::new(false, "/tmp");
    s.handle_input(Key::Enter);
    s.config.load_aur_packages(true, "yay\nparu\n");
    s.handle_input(Key::Down);
    s.handle_input(Key::Char(' '));
    assert_eq!(s.config.get_selected_aur(), vec!["paru".to_string()]);
    s.handle_input(Key::Char('q'));
    assert_eq!(s.ui.filter_text, "q");
    s.handle_input(Key::Backspace);
    assert_eq!(s.ui.filter_text, "");
    s.handle_input(Key::Up);
    assert_eq!(s.ui.selected_index, 0);
    s.handle_input(Key::Other);
    assert_eq!(s.state, AppState::SelectingAurPackages);
}

#[test]
fn build_end_is_recorded() {
    let mut s = Session::new(false, "/tmp");
    s.state = AppState::Building;
    s.finish_build(Ok(()));
    assert_eq!(s.state, AppState::Building); // not started yet
    assert!(s.build_due());
    s.mark_build_started();
    assert!(!s.build_due());
    assert!(s.build_running());
    s.push_output("line".to_string());
    assert_eq!(s.build_output, vec!["line".to_string()]);
    s.finish_build(Err("Failed to write package files".to_string()));
    assert_eq!(s.state, AppState::Error);
    assert_eq!(s.error_message.as_deref(), Some("Failed to write package files"));
    let mut t = Session::new(false, "/tmp");
    t.state = AppState::Building;
    t.mark_build_started();
    t.finish_build(Ok(()));
    assert_eq!(t.state, AppState::Complete);
}

fn config_with(dotfiles: usize, home: usize) -> Config {
    let mut c = Config::new("/w");
    let names: Vec<String> = (0..dotfiles).map(|i| format!("d{}", i)).collect();
    let text = names.join("\n");
    c.load_aur_packages(true, &text);
    c.set_list(ListKind::Dotfiles, names.clone());
    for i in 0..dotfiles {
        c.toggle(ListKind::Dotfiles, i);
    }
    let hn: Vec<String> = (0..home).map(|i| format!(".h{}", i)).collect();
    c.set_list(ListKind::HomeDotfiles, hn);
    for i in 0..home {
        c.toggle(ListKind::HomeDotfiles, i);
    }
    c
}

fn run_all(c: &Config) -> (Vec<BuildTask>, Vec<String>, Result<(), String>) {
    let mut run = BuildRun::new(c);
    let mut tasks = Vec::new();
    let mut log = Vec::new();
    let mut step = run.start();
    loop {
        log.extend(step.messages.iter().cloned());
        if let Some(r) = finish(&step) {
            return (tasks, log, r);
        }
        let t = task(&step).unwrap();
        tasks.push(t);
        let outcome = if t == BuildTask::RunIsoMake {
            TaskOutcome::IsoMakeExited { success: true, code: Some(0) }
        } else {
            TaskOutcome::Done
        };
        step = run.advance(outcome);
    }
}

#[test]
fn successful_build_without_dotfiles() {
    let c = config_with(0, 0);
    let (tasks, log, r) = run_all(&c);
    assert_eq!(tasks, vec![BuildTask::CloneRepository, BuildTask::WritePackageFiles, BuildTask::RunIsoMake, BuildTask::MoveIso]);
    assert_eq!(r, Ok(()));
    assert_eq!(log, vec![
        "Cloning Omarchy ISO repository...",
        "\u{2713} Repository cloned successfully",
        "Writing package configuration files...",
        "\u{2713} Package files written",
        "",
        "Starting ISO build process...",
        "\u{23f1}  This will take 15-60 minutes",
        "",
        "",
        "\u{2713} ISO build completed successfully",
        "Moving ISO to parent directory...",
        "\u{2713} ISO moved successfully",
    ]);
}

#[test]
fn successful_build_with_dotfiles() {
    let c = config_with(2, 1);
    let (tasks, log, r) = run_all(&c);
    assert_eq!(tasks, vec![
        BuildTask::CloneRepository,
        BuildTask::WritePackageFiles,
        BuildTask::CopyConfigDotfiles,
        BuildTask::CopyHomeDotfiles,
        BuildTask::RunIsoMake,
        BuildTask::MoveIso,
    ]);
    assert_eq!(r, Ok(()));
    assert!(log.contains(&"Copying 2 .config dotfile(s)...".to_string()));
    assert!(log.contains(&"Copying 1 home dotfile(s)...".to_string()));
    assert!(log.contains(&"\u{2713} .config dotfiles copied".to_string()));
    assert!(log.contains(&"\u{2713} Home dotfiles copied".to_string()));
}

#[test]
fn only_home_dotfiles() {
    let c = config_with(0, 3);
    let (tasks, _, _) = run_all(&c);
    assert_eq!(tasks[2], BuildTask::CopyHomeDotfiles);
    assert_eq!(tasks.len(), 5);
}

#[test]
fn failures_end_the_build() {
    let c = config_with(1, 0);
    let mut run = BuildRun::new(&c);
    run.start();
    let step = run.advance(TaskOutcome::Failed);
    assert_eq!(finish(&step), Some(Err("Failed to clone Omarchy ISO repository".to_string())));
    assert!(step.messages.is_empty());
    assert_eq!(run.stage, BuildStage::Finished);

    let mut run = BuildRun::new(&c);
    run.start();
    run.advance(TaskOutcome::Done);
    run.advance(TaskOutcome::Done);
    let step = run.advance(TaskOutcome::Failed);
    assert_eq!(finish(&step), Some(Err("Failed to apply dotfiles".to_string())));
}

#[test]
fn failed_iso_make_cleans_then_fails() {
    let c = config_with(0, 0);
    let mut run = BuildRun::new(&c);
    run.start();
    run.advance(TaskOutcome::Done);
    run.advance(TaskOutcome::Done);
    let step = run.advance(TaskOutcome::IsoMakeExited { success: false, code: Some(2) });
    assert_eq!(task(&step), Some(BuildTask::CleanWorkDir));
    assert_eq!(step.messages, vec!["".to_string(), "\u{274c} Build failed!".to_string()]);
    let step = run.advance(TaskOutcome::Failed);
    assert_eq!(finish(&step), Some(Err("Build failed with exit code Some(2)".to_string())));

    let mut run = BuildRun::new(&c);
    run.start();
    run.advance(TaskOutcome::Done);
    run.advance(TaskOutcome::Done);
    let step = run.advance(TaskOutcome::IsoMakeError(IsoMakeFailure::Spawn));
    assert_eq!(finish(&step), Some(Err("Failed to spawn omarchy-iso-make".to_string())));
}

#[test]
fn failure_messages() {
    assert_eq!(exit_failure(None), format!("Build failed with exit code {:?}", None::<i32>));
    assert_eq!(exit_failure(Some(-3)), format!("Build failed with exit code {:?}", Some(-3)));
    assert_eq!(stderr_line("oops"), "\u{26a0} oops");
}

#[test]
fn dev_mode_keeps_the_log() {
    let mut s = Session::new(true, "/tmp");
    s.state = AppState::Building;
    s.mark_build_started();
    s.push_output("a".to_string());
    s.push_output("b".to_string());
    assert_eq!(s.dev_log(), None);
    s.finish_build(Err("x".to_string()));
    assert_eq!(s.dev_log().as_deref(), Some("a\nb"));
    let mut t = Session::new(false, "/tmp");
    t.state = AppState::Building;
    t.mark_build_started();
    t.finish_build(Ok(()));
    assert_eq!(t.dev_log(), None);
}

#[test]
fn build_starts_once() {
    let mut s = Session::new(false, "/tmp");
    s.state = AppState::Summary;
    s.handle_input(Key::Enter);
    assert!(s.build_due());
    s.mark_build_started();
    for key in [Key::Enter, Key::Esc, Key::Up, Key::Char(' '), Key::Backspace] {
        s.handle_input(key);
        assert!(!s.build_due());
    }
}

#[test]
fn build_end_hands_back_configuration() {
    let mut s = Session::new(false, "/tmp");
    s.state = AppState::Building;
    s.mark_build_started();
    let mut built = Config::new("/tmp");
    built.load_aur_packages(true, "yay\n");
    built.iso_path = Some("/tmp/x.iso".to_string());
    s.end_build(built, Ok(()));
    assert_eq!(s.state, AppState::Complete);
    assert_eq!(s.config.iso_path.as_deref(), Some("/tmp/x.iso"));
    assert_eq!(s.config.aur_packages, vec!["yay".to_string()]);
    let mut t = Session::new(false, "/tmp");
    t.end_build(Config::new("/other"), Err("e".to_string()));
    assert_eq!(t.state, AppState::Welcome);
    assert_eq!(t.config.work_dir, "/tmp/omarchyiso_build");
}
