use vstd::prelude::*;

use crate::config::Config;
use crate::state::ListKind;
use crate::text::{append_decimal, append_str, concat_str, decimal, signed_decimal, signed_decimal_string, views};

verus! {

/// The address of the repository that holds the image builder.
pub const REPO_URL: &'static str = "https://github.com/tahayvr/omarchy-iso";

/// The address of the list of packages that Omarchy installs.
pub const OMARCHY_BASE_PKGS_URL: &'static str = "https://raw.githubusercontent.com/basecamp/omarchy/refs/heads/master/install/omarchy-base.packages";

/// One piece of outside work of the build.
#[derive(Debug, Clone, Copy, PartialEq, Eq, Structural)]
pub enum BuildTask {
    /// Empty the work directory and clone the builder into it.
    CloneRepository,
    /// Write the packages files (`Config::package_files`).
    WritePackageFiles,
    /// Copy the selected `.config` entries (`Config::config_dotfile_copies`).
    CopyConfigDotfiles,
    /// Copy the selected home dotfiles (`Config::home_dotfile_copies`).
    CopyHomeDotfiles,
    /// Run the builder, streaming its output into the log.
    RunIsoMake,
    /// Remove the work directory after a failed build.
    CleanWorkDir,
    /// Move the built image beside the work directory.
    MoveIso,
}

/// How running the builder failed before it exited.
#[derive(Debug, Clone, Copy, PartialEq, Eq, Structural)]
pub enum IsoMakeFailure {
    Spawn,
    Stdout,
    Stderr,
    Wait,
}

/// How a piece of outside work ended.
#[derive(Debug, Clone, Copy, PartialEq, Eq, Structural)]
pub enum TaskOutcome {
    Done,
    Failed,
    IsoMakeError(IsoMakeFailure),
    IsoMakeExited { success: bool, code: Option<i32> },
}

/// Where a build stands.
#[derive(Debug, Clone, Copy, PartialEq, Eq, Structural)]
pub enum BuildStage {
    NotStarted,
    Cloning,
    WritingPackages,
    CopyingConfig,
    CopyingHome,
    RunningIsoMake,
    Cleaning(Option<i32>),
    MovingIso,
    Finished,
}

/// What comes after a step: more work, or the end of the build.
pub enum BuildNext {
    Run(BuildTask),
    Finish(Result<(), String>),
}

/// A `BuildNext` as plain values.
pub enum NextView {
    Run(BuildTask),
    Succeed,
    Fail(Seq<char>),
}

/// What the caller does at a step: send the messages to the log, then go on.
pub struct BuildStep {
    pub messages: Vec<String>,
    pub next: BuildNext,
}

/// The next thing as plain values.
pub open spec fn next_view(n: BuildNext) -> NextView {
    match n {
        BuildNext::Run(t) => NextView::Run(t),
        BuildNext::Finish(Ok(_)) => NextView::Succeed,
        BuildNext::Finish(Err(e)) => NextView::Fail(e@),
    }
}

/// A build in progress: its stage and how many entries of each dotfile list it copies.
pub struct BuildRun {
    pub stage: BuildStage,
    pub config_dotfiles: usize,
    pub home_dotfiles: usize,
}

/// The log line announcing the copy of `n` `.config` entries.
pub open spec fn copy_config_message(n: nat) -> Seq<char> {
    "Copying "@ + decimal(n) + " .config dotfile(s)..."@
}

/// The log line announcing the copy of `n` home dotfiles.
pub open spec fn copy_home_message(n: nat) -> Seq<char> {
    "Copying "@ + decimal(n) + " home dotfile(s)..."@
}

/// The log lines before the builder runs.
pub open spec fn iso_make_intro() -> Seq<Seq<char>> {
    seq![""@, "Starting ISO build process..."@, "\u{23f1}  This will take 15-60 minutes"@, ""@]
}

/// An optional exit code as `{:?}` writes it.
pub open spec fn debug_exit_code(code: Option<i32>) -> Seq<char> {
    match code {
        Some(n) => "Some("@ + signed_decimal(n as int) + ")"@,
        None => "None"@,
    }
}

/// The error of a build whose builder exited unsuccessfully.
pub open spec fn exit_failure_message(code: Option<i32>) -> Seq<char> {
    "Build failed with exit code "@ + debug_exit_code(code)
}

/// The step after the packages files are written: copy the `.config` entries
/// if any were selected, else go on as after that copy.
pub open spec fn after_packages(c: nat, h: nat) -> (BuildStage, Seq<Seq<char>>, NextView) {
    if c > 0 {
        (BuildStage::CopyingConfig, seq![copy_config_message(c)], NextView::Run(BuildTask::CopyConfigDotfiles))
    } else {
        after_config(h)
    }
}

/// The step after the `.config` entries: copy the home dotfiles if any were
/// selected, else run the builder.
pub open spec fn after_config(h: nat) -> (BuildStage, Seq<Seq<char>>, NextView) {
    if h > 0 {
        (BuildStage::CopyingHome, seq![copy_home_message(h)], NextView::Run(BuildTask::CopyHomeDotfiles))
    } else {
        (BuildStage::RunningIsoMake, iso_make_intro(), NextView::Run(BuildTask::RunIsoMake))
    }
}

/// A failure that ends the build with the error `e`.
pub open spec fn fail(e: Seq<char>) -> (BuildStage, Seq<Seq<char>>, NextView) {
    (BuildStage::Finished, Seq::empty(), NextView::Fail(e))
}

/// The error of a builder run that failed before the builder exited.
pub open spec fn iso_make_error_message(f: IsoMakeFailure) -> Seq<char> {
    match f {
        IsoMakeFailure::Spawn => "Failed to spawn omarchy-iso-make"@,
        IsoMakeFailure::Stdout => "Failed to capture stdout"@,
        IsoMakeFailure::Stderr => "Failed to capture stderr"@,
        IsoMakeFailure::Wait => "Failed to wait for build process"@,
    }
}

/// The outcomes that the work of `stage` can have.
pub open spec fn accepts(stage: BuildStage, outcome: TaskOutcome) -> bool {
    match stage {
        BuildStage::NotStarted | BuildStage::Finished => false,
        BuildStage::RunningIsoMake => outcome is IsoMakeError || outcome is IsoMakeExited,
        _ => outcome == TaskOutcome::Done || outcome == TaskOutcome::Failed,
    }
}

/// The first step of a build.
pub open spec fn build_start() -> (BuildStage, Seq<Seq<char>>, NextView) {
    (BuildStage::Cloning, seq!["Cloning Omarchy ISO repository..."@], NextView::Run(BuildTask::CloneRepository))
}

/// The step that follows the work of `stage` ending with `outcome`, when the
/// build copies `c` `.config` entries and `h` home dotfiles: each failure ends
/// the build with its own error; an unsuccessful builder run first cleans up.
pub open spec fn build_transition(stage: BuildStage, c: nat, h: nat, outcome: TaskOutcome) -> (BuildStage, Seq<Seq<char>>, NextView) {
    match stage {
        BuildStage::Cloning => if outcome == TaskOutcome::Done {
            (BuildStage::WritingPackages,
             seq!["\u{2713} Repository cloned successfully"@, "Writing package configuration files..."@],
             NextView::Run(BuildTask::WritePackageFiles))
        } else {
            fail("Failed to clone Omarchy ISO repository"@)
        },
        BuildStage::WritingPackages => if outcome == TaskOutcome::Done {
            let (s, m, n) = after_packages(c, h);
            (s, seq!["\u{2713} Package files written"@] + m, n)
        } else {
            fail("Failed to write package files"@)
        },
        BuildStage::CopyingConfig => if outcome == TaskOutcome::Done {
            let (s, m, n) = after_config(h);
            (s, seq!["\u{2713} .config dotfiles copied"@] + m, n)
        } else {
            fail("Failed to apply dotfiles"@)
        },
        BuildStage::CopyingHome => if outcome == TaskOutcome::Done {
            (BuildStage::RunningIsoMake, seq!["\u{2713} Home dotfiles copied"@] + iso_make_intro(), NextView::Run(BuildTask::RunIsoMake))
        } else {
            fail("Failed to apply home dotfiles"@)
        },
        BuildStage::RunningIsoMake => match outcome {
            TaskOutcome::IsoMakeExited { success, code } => if success {
                (BuildStage::MovingIso,
                 seq![""@, "\u{2713} ISO build completed successfully"@, "Moving ISO to parent directory..."@],
                 NextView::Run(BuildTask::MoveIso))
            } else {
                (BuildStage::Cleaning(code), seq![""@, "\u{274c} Build failed!"@], NextView::Run(BuildTask::CleanWorkDir))
            },
            TaskOutcome::IsoMakeError(f) => fail(iso_make_error_message(f)),
            _ => fail(iso_make_error_message(IsoMakeFailure::Wait)),
        },
        BuildStage::Cleaning(code) => fail(exit_failure_message(code)),
        BuildStage::MovingIso => if outcome == TaskOutcome::Done {
            (BuildStage::Finished, seq!["\u{2713} ISO moved successfully"@], NextView::Succeed)
        } else {
            fail("Failed to move ISO to parent directory"@)
        },
        _ => (stage, Seq::empty(), NextView::Fail(Seq::empty())),
    }
}

fn message(s: &str) -> (res: String)
    ensures
        res@ == s@,
{
    s.to_owned()
}

fn messages1(a: &str) -> (res: Vec<String>)
    ensures
        views(res@) == seq![a@],
{
    let mut v = Vec::new();
    v.push(message(a));
    assert(views(v@) =~= seq![a@]);
    v
}

fn messages2(a: &str, b: &str) -> (res: Vec<String>)
    ensures
        views(res@) == seq![a@, b@],
{
    let mut v = Vec::new();
    v.push(message(a));
    v.push(message(b));
    assert(views(v@) =~= seq![a@, b@]);
    v
}

fn messages3(a: &str, b: &str, c: &str) -> (res: Vec<String>)
    ensures
        views(res@) == seq![a@, b@, c@],
{
    let mut v = Vec::new();
    v.push(message(a));
    v.push(message(b));
    v.push(message(c));
    assert(views(v@) =~= seq![a@, b@, c@]);
    v
}

fn push_intro(v: &mut Vec<String>)
    ensures
        views(final(v)@) == views(old(v)@) + iso_make_intro(),
{
    v.push(message(""));
    v.push(message("Starting ISO build process..."));
    v.push(message("\u{23f1}  This will take 15-60 minutes"));
    v.push(message(""));
    assert(views(final(v)@) =~= views(old(v)@) + iso_make_intro());
}

fn count_message(prefix: &str, n: usize, suffix: &str) -> (res: String)
    ensures
        res@ == prefix@ + decimal(n as nat) + suffix@,
{
    let mut s = message(prefix);
    append_decimal(&mut s, n);
    append_str(&mut s, suffix);
    s
}

/// The error of a build whose builder exited unsuccessfully with `code`.
pub fn exit_failure(code: Option<i32>) -> (res: String)
    ensures
        res@ == exit_failure_message(code),
{
    let mut s = message("Build failed with exit code ");
    match code {
        Some(n) => {
            append_str(&mut s, "Some(");
            let d = signed_decimal_string(n);
            append_str(&mut s, d.as_str());
            append_str(&mut s, ")");
        },
        None => {
            append_str(&mut s, "None");
        },
    }
    assert(s@ =~= exit_failure_message(code));
    s
}

/// A line that the builder wrote to its error stream, as the log shows it.
pub fn stderr_line(line: &str) -> (res: String)
    ensures
        res@ == "\u{26a0} "@ + line@,
{
    concat_str("\u{26a0} ", line)
}

fn failure(e: &str) -> (res: BuildStep)
    ensures
        views(res.messages@) == Seq::<Seq<char>>::empty(),
        next_view(res.next) == NextView::Fail(e@),
{
    let v: Vec<String> = Vec::new();
    assert(views(v@) =~= Seq::<Seq<char>>::empty());
    BuildStep { messages: v, next: BuildNext::Finish(Err(message(e))) }
}

impl BuildRun {
    /// A build of `config`, not started yet.
    pub fn new(config: &Config) -> (res: BuildRun)
        ensures
            res.stage == BuildStage::NotStarted,
            res.config_dotfiles == config@.selected(ListKind::Dotfiles).len(),
            res.home_dotfiles == config@.selected(ListKind::HomeDotfiles).len(),
    {
        let d = config.get_selected_dotfiles();
        let e = config.get_selected_home_dotfiles();
        assert(views(d@).len() == d@.len() && views(e@).len() == e@.len());
        let c = d.len();
        let h = e.len();
        BuildRun { stage: BuildStage::NotStarted, config_dotfiles: c, home_dotfiles: h }
    }

    /// Whether `outcome` is one that the work of the current stage can have.
    pub fn accepts_outcome(&self, outcome: TaskOutcome) -> (res: bool)
        ensures
            res == accepts(self.stage, outcome),
    {
        match self.stage {
            BuildStage::NotStarted | BuildStage::Finished => false,
            BuildStage::RunningIsoMake => match outcome {
                TaskOutcome::IsoMakeError(_) | TaskOutcome::IsoMakeExited { .. } => true,
                _ => false,
            },
            _ => outcome == TaskOutcome::Done || outcome == TaskOutcome::Failed,
        }
    }

    /// Starts the build: announce the clone, and clone.
    pub fn start(&mut self) -> (step: BuildStep)
        requires
            old(self).stage == BuildStage::NotStarted,
        ensures
            (final(self).stage, views(step.messages@), next_view(step.next)) == build_start(),
            final(self).config_dotfiles == old(self).config_dotfiles,
            final(self).home_dotfiles == old(self).home_dotfiles,
    {
        self.stage = BuildStage::Cloning;
        BuildStep {
            messages: messages1("Cloning Omarchy ISO repository..."),
            next: BuildNext::Run(BuildTask::CloneRepository),
        }
    }

    fn after_config_step(&mut self, mut msgs: Vec<String>) -> (step: BuildStep)
        ensures
            ({
                let (s, m, n) = after_config(old(self).home_dotfiles as nat);
                &&& final(self).stage == s
                &&& views(step.messages@) == views(msgs@) + m
                &&& next_view(step.next) == n
            }),
            final(self).config_dotfiles == old(self).config_dotfiles,
            final(self).home_dotfiles == old(self).home_dotfiles,
    {
        if self.home_dotfiles > 0 {
            self.stage = BuildStage::CopyingHome;
            let ghost before = views(msgs@);
            msgs.push(count_message("Copying ", self.home_dotfiles, " home dotfile(s)..."));
            assert(views(msgs@) =~= before + seq![copy_home_message(self.home_dotfiles as nat)]);
            BuildStep { messages: msgs, next: BuildNext::Run(BuildTask::CopyHomeDotfiles) }
        } else {
            self.stage = BuildStage::RunningIsoMake;
            push_intro(&mut msgs);
            BuildStep { messages: msgs, next: BuildNext::Run(BuildTask::RunIsoMake) }
        }
    }

    /// Takes in how the work of the current stage ended and gives the next step.
    pub fn advance(&mut self, outcome: TaskOutcome) -> (step: BuildStep)
        requires
            accepts(old(self).stage, outcome),
        ensures
            (final(self).stage, views(step.messages@), next_view(step.next))
                == build_transition(old(self).stage, old(self).config_dotfiles as nat, old(self).home_dotfiles as nat, outcome),
            final(self).config_dotfiles == old(self).config_dotfiles,
            final(self).home_dotfiles == old(self).home_dotfiles,
    {
        match self.stage {
            BuildStage::Cloning => {
                if outcome == TaskOutcome::Done {
                    self.stage = BuildStage::WritingPackages;
                    BuildStep {
                        messages: messages2("\u{2713} Repository cloned successfully", "Writing package configuration files..."),
                        next: BuildNext::Run(BuildTask::WritePackageFiles),
                    }
                } else {
                    self.stage = BuildStage::Finished;
                    failure("Failed to clone Omarchy ISO repository")
                }
            },
            BuildStage::WritingPackages => {
                if outcome == TaskOutcome::Done {
                    let mut msgs = messages1("\u{2713} Package files written");
                    if self.config_dotfiles > 0 {
                        self.stage = BuildStage::CopyingConfig;
                        let ghost before = views(msgs@);
                        msgs.push(count_message("Copying ", self.config_dotfiles, " .config dotfile(s)..."));
                        assert(views(msgs@) =~= before + seq![copy_config_message(self.config_dotfiles as nat)]);
                        BuildStep { messages: msgs, next: BuildNext::Run(BuildTask::CopyConfigDotfiles) }
                    } else {
                        self.after_config_step(msgs)
                    }
                } else {
                    self.stage = BuildStage::Finished;
                    failure("Failed to write package files")
                }
            },
            BuildStage::CopyingConfig => {
                if outcome == TaskOutcome::Done {
                    let msgs = messages1("\u{2713} .config dotfiles copied");
                    self.after_config_step(msgs)
                } else {
                    self.stage = BuildStage::Finished;
                    failure("Failed to apply dotfiles")
                }
            },
            BuildStage::CopyingHome => {
                if outcome == TaskOutcome::Done {
                    self.stage = BuildStage::RunningIsoMake;
                    let mut msgs = messages1("\u{2713} Home dotfiles copied");
                    push_intro(&mut msgs);
                    BuildStep { messages: msgs, next: BuildNext::Run(BuildTask::RunIsoMake) }
                } else {
                    self.stage = BuildStage::Finished;
                    failure("Failed to apply home dotfiles")
                }
            },
            BuildStage::RunningIsoMake => {
                match outcome {
                    TaskOutcome::IsoMakeExited { success, code } => {
                        if success {
                            self.stage = BuildStage::MovingIso;
                            BuildStep {
                                messages: messages3("", "\u{2713} ISO build completed successfully", "Moving ISO to parent directory..."),
                                next: BuildNext::Run(BuildTask::MoveIso),
                            }
                        } else {
                            self.stage = BuildStage::Cleaning(code);
                            BuildStep {
                                messages: messages2("", "\u{274c} Build failed!"),
                                next: BuildNext::Run(BuildTask::CleanWorkDir),
                            }
                        }
                    },
                    TaskOutcome::IsoMakeError(f) => {
                        self.stage = BuildStage::Finished;
                        match f {
                            IsoMakeFailure::Spawn => failure("Failed to spawn omarchy-iso-make"),
                            IsoMakeFailure::Stdout => failure("Failed to capture stdout"),
                            IsoMakeFailure::Stderr => failure("Failed to capture stderr"),
                            IsoMakeFailure::Wait => failure("Failed to wait for build process"),
                        }
                    },
                    _ => {
                        self.stage = BuildStage::Finished;
                        failure("Failed to wait for build process")
                    },
                }
            },
            BuildStage::Cleaning(code) => {
                self.stage = BuildStage::Finished;
                let v: Vec<String> = Vec::new();
                assert(views(v@) =~= Seq::<Seq<char>>::empty());
                BuildStep { messages: v, next: BuildNext::Finish(Err(exit_failure(code))) }
            },
            BuildStage::MovingIso => {
                if outcome == TaskOutcome::Done {
                    self.stage = BuildStage::Finished;
                    BuildStep { messages: messages1("\u{2713} ISO moved successfully"), next: BuildNext::Finish(Ok(())) }
                } else {
                    self.stage = BuildStage::Finished;
                    failure("Failed to move ISO to parent directory")
                }
            },
            _ => {
                let v: Vec<String> = Vec::new();
                assert(views(v@) =~= Seq::<Seq<char>>::empty());
                BuildStep { messages: v, next: BuildNext::Finish(Err(String::new())) }
            },
        }
    }
}

} // verus!
