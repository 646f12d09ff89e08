use vstd::prelude::*;

use crate::config::{initial_config, join_lines, join_with_newlines, opt_view, Config, ConfigView};
use crate::state::{AppState, ListKind};
use crate::text::views;
use crate::ui::{
    backspace_result, char_result, down_result, initial_ui, space_result, up_result, Ui, UiView,
};

verus! {

/// A key press, as the program tells keys apart.
#[derive(Debug, Clone, Copy, PartialEq, Eq, Structural)]
pub enum Key {
    Char(char),
    Enter,
    Esc,
    Up,
    Down,
    Backspace,
    Other,
}

/// What the caller has to do after a key press.
#[derive(Debug, Clone, Copy, PartialEq, Eq, Structural)]
pub enum Action {
    /// Nothing more than drawing the next frame.
    Continue,
    /// Fill the given list from the system (then hand the result to `Config`).
    Scan(ListKind),
}

/// The state of the program between two frames: the screen, the choices, the
/// cursor, and the build's progress and log.
pub struct Session {
    pub state: AppState,
    pub config: Config,
    pub dev_mode: bool,
    pub ui: Ui,
    pub should_quit: bool,
    pub error_message: Option<String>,
    pub build_started: bool,
    pub build_output: Vec<String>,
}

/// A `Session` as plain values.
#[verifier::ext_equal]
pub struct SessionView {
    pub state: AppState,
    pub config: ConfigView,
    pub dev_mode: bool,
    pub ui: UiView,
    pub should_quit: bool,
    pub error_message: Option<Seq<char>>,
    pub build_started: bool,
    pub build_output: Seq<Seq<char>>,
}

impl View for Session {
    type V = SessionView;

    open spec fn view(&self) -> SessionView {
        SessionView {
            state: self.state,
            config: self.config@,
            dev_mode: self.dev_mode,
            ui: self.ui@,
            should_quit: self.should_quit,
            error_message: opt_view(self.error_message),
            build_started: self.build_started,
            build_output: views(self.build_output@),
        }
    }
}

/// The screen that Enter leads to, and the list to fill on arriving there.
pub open spec fn enter_target(state: AppState) -> Option<(AppState, Option<ListKind>)> {
    match state {
        AppState::Welcome => Some((AppState::SelectingAurPackages, Some(ListKind::Aur))),
        AppState::SelectingAurPackages => Some((AppState::SelectingOfficialPackages, Some(ListKind::Official))),
        AppState::SelectingOfficialPackages => Some((AppState::SelectingIgnoredPackages, Some(ListKind::Ignored))),
        AppState::SelectingIgnoredPackages => Some((AppState::SelectingDotfiles, Some(ListKind::Dotfiles))),
        AppState::SelectingDotfiles => Some((AppState::SelectingHomeDotfiles, Some(ListKind::HomeDotfiles))),
        AppState::SelectingHomeDotfiles => Some((AppState::Summary, None)),
        AppState::Summary => Some((AppState::Building, None)),
        _ => None,
    }
}

/// The effect of Enter: on the welcome and list screens it moves on to the next
/// screen with a fresh cursor (and asks for the next list), on the summary it
/// starts the build, on the last screens it quits, while building it does nothing.
pub open spec fn enter_result(s: SessionView) -> (SessionView, Action) {
    match enter_target(s.state) {
        Some((next, scan)) => {
            let ui = if next == AppState::Building { s.ui } else { initial_ui() };
            (SessionView { state: next, ui: ui, ..s }, match scan {
                Some(k) => Action::Scan(k),
                None => Action::Continue,
            })
        },
        None => {
            if s.state == AppState::Complete || s.state == AppState::Error {
                (SessionView { should_quit: true, ..s }, Action::Continue)
            } else {
                (s, Action::Continue)
            }
        },
    }
}

/// Enter that leads to another screen, from any screen but the summary, opens
/// it fresh: cursor on the first row, no filter, log at its default place;
/// from the summary it keeps the cursor; it never touches the choices.
pub proof fn lemma_enter_opens_fresh_screen(s: SessionView)
    ensures
        s.state != AppState::Summary && enter_result(s).0.state != s.state ==> enter_result(s).0.ui
            == (UiView { selected_index: 0, filter_text: Seq::empty(), error_scroll_offset: 0 }),
        s.state == AppState::Summary ==> enter_result(s).0.ui == s.ui,
        enter_result(s).0.config == s.config,
{
    assert(initial_ui() =~= (UiView { selected_index: 0, filter_text: Seq::empty(), error_scroll_offset: 0 }));
}

/// The effect of a key press: `Q` and Esc quit, Enter moves on, the arrows
/// move, Space flips a selection, other characters and Backspace edit the filter.
pub open spec fn key_result(s: SessionView, key: Key) -> (SessionView, Action) {
    match key {
        Key::Char('Q') | Key::Esc => (SessionView { should_quit: true, ..s }, Action::Continue),
        Key::Enter => enter_result(s),
        Key::Up => (SessionView { ui: up_result(s.ui, s.state), ..s }, Action::Continue),
        Key::Down => (SessionView { ui: down_result(s.ui, s.state, s.config), ..s }, Action::Continue),
        Key::Char(' ') => (SessionView { config: space_result(s.ui, s.state, s.config), ..s }, Action::Continue),
        Key::Char(c) => (SessionView { ui: char_result(s.ui, c, s.state), ..s }, Action::Continue),
        Key::Backspace => (SessionView { ui: backspace_result(s.ui, s.state), ..s }, Action::Continue),
        Key::Other => (s, Action::Continue),
    }
}

/// A key can be handled without overflow: Down on the error screen needs room
/// to scroll one more line.
pub open spec fn key_allowed(s: SessionView, key: Key) -> bool {
    key == Key::Down && s.state == AppState::Error ==> s.ui.error_scroll_offset < usize::MAX
}

/// The effect of the build's end: success leads to the completion screen, a
/// failure to the error screen with its message. Outside a started build nothing changes.
pub open spec fn finish_result(s: SessionView, result: Result<(), Seq<char>>) -> SessionView {
    if s.state == AppState::Building && s.build_started {
        match result {
            Ok(_) => SessionView { state: AppState::Complete, ..s },
            Err(e) => SessionView { state: AppState::Error, error_message: Some(e), ..s },
        }
    } else {
        s
    }
}

/// The directory, inside the directory the program starts in, where dev mode
/// keeps the build log.
pub const DEV_LOG_DIR: &'static str = "omarchyiso_logs";

/// The file in `DEV_LOG_DIR` that holds the build log.
pub const DEV_LOG_FILE: &'static str = "build.log";

/// In dev mode, once the build has ended, the log to keep: its lines, one per line.
pub open spec fn dev_log_of(s: SessionView) -> Option<Seq<char>> {
    if s.dev_mode && s.build_started && (s.state == AppState::Complete || s.state == AppState::Error) {
        Some(join_lines(s.build_output))
    } else {
        None
    }
}

/// The build is due to start: its screen is shown and it was not started.
pub open spec fn build_due_in(s: SessionView) -> bool {
    s.state == AppState::Building && !s.build_started
}

/// The effect of the build's end with the configuration it worked on: while a
/// started build is shown, the configuration is taken back and the end is
/// recorded as `finish_result` says; otherwise nothing changes.
pub open spec fn end_build_result(s: SessionView, cfg: ConfigView, result: Result<(), Seq<char>>) -> SessionView {
    if s.state == AppState::Building && s.build_started {
        finish_result(SessionView { config: cfg, ..s }, result)
    } else {
        s
    }
}

/// The characters of the error of a result.
pub open spec fn result_view(r: Result<(), String>) -> Result<(), Seq<char>> {
    match r {
        Ok(_) => Ok(()),
        Err(e) => Err(e@),
    }
}

impl Session {
    /// The welcome screen, with the work directory inside `current_dir`.
    pub fn new(dev_mode: bool, current_dir: &str) -> (res: Session)
        ensures
            res@.state == AppState::Welcome,
            res@.config == initial_config(current_dir@),
            res@.dev_mode == dev_mode,
            res@.ui == initial_ui(),
            !res@.should_quit,
            res@.error_message is None,
            !res@.build_started,
            res@.build_output.len() == 0,
    {
        Session {
            state: AppState::Welcome,
            config: Config::new(current_dir),
            dev_mode,
            ui: Ui::new(),
            should_quit: false,
            error_message: None,
            build_started: false,
            build_output: Vec::new(),
        }
    }

    /// Handles a key press and says what the caller has to do next.
    pub fn handle_input(&mut self, key: Key) -> (action: Action)
        requires
            key_allowed(old(self)@, key),
        ensures
            (final(self)@, action) == key_result(old(self)@, key),
            key == Key::Enter && old(self).state != AppState::Summary && final(self).state != old(self).state
                ==> final(self)@.ui == (UiView { selected_index: 0, filter_text: Seq::empty(), error_scroll_offset: 0 }),
    {
        match key {
            Key::Char('Q') | Key::Esc => {
                self.should_quit = true;
                Action::Continue
            },
            Key::Enter => self.handle_enter(),
            Key::Up => {
                self.ui.handle_up(&self.state);
                Action::Continue
            },
            Key::Down => {
                self.ui.handle_down(&self.state, &self.config);
                Action::Continue
            },
            Key::Char(' ') => {
                self.ui.handle_space(&self.state, &mut self.config);
                Action::Continue
            },
            Key::Char(c) => {
                self.ui.handle_char(c, &self.state);
                Action::Continue
            },
            Key::Backspace => {
                self.ui.handle_backspace(&self.state);
                Action::Continue
            },
            Key::Other => Action::Continue,
        }
    }

    /// Handles Enter and says which list, if any, the caller has to fill.
    pub fn handle_enter(&mut self) -> (action: Action)
        ensures
            (final(self)@, action) == enter_result(old(self)@),
            old(self).state != AppState::Summary && final(self).state != old(self).state ==> final(self)@.ui
                == (UiView { selected_index: 0, filter_text: Seq::empty(), error_scroll_offset: 0 }),
            old(self).state == AppState::Summary ==> final(self)@.ui == old(self)@.ui,
            final(self)@.config == old(self)@.config,
    {
        match self.state {
            AppState::Welcome => {
                self.state = AppState::SelectingAurPackages;
                self.ui.reset_state();
                Action::Scan(ListKind::Aur)
            },
            AppState::SelectingAurPackages => {
                self.config.finalize_aur_selection(&self.ui);
                self.state = AppState::SelectingOfficialPackages;
                self.ui.reset_state();
                Action::Scan(ListKind::Official)
            },
            AppState::SelectingOfficialPackages => {
                self.config.finalize_official_selection(&self.ui);
                self.state = AppState::SelectingIgnoredPackages;
                self.ui.reset_state();
                Action::Scan(ListKind::Ignored)
            },
            AppState::SelectingIgnoredPackages => {
                self.config.finalize_ignored_selection(&self.ui);
                self.state = AppState::SelectingDotfiles;
                self.ui.reset_state();
                Action::Scan(ListKind::Dotfiles)
            },
            AppState::SelectingDotfiles => {
                self.config.finalize_dotfiles_selection(&self.ui);
                self.state = AppState::SelectingHomeDotfiles;
                self.ui.reset_state();
                Action::Scan(ListKind::HomeDotfiles)
            },
            AppState::SelectingHomeDotfiles => {
                self.config.finalize_home_dotfiles_selection(&self.ui);
                self.state = AppState::Summary;
                self.ui.reset_state();
                Action::Continue
            },
            AppState::Summary => {
                self.state = AppState::Building;
                Action::Continue
            },
            AppState::Complete | AppState::Error => {
                self.should_quit = true;
                Action::Continue
            },
            _ => Action::Continue,
        }
    }

    /// The build screen is shown and the build has not been started yet.
    pub fn build_due(&self) -> (res: bool)
        ensures
            res == build_due_in(self@),
    {
        self.state == AppState::Building && !self.build_started
    }

    /// Records that the build was started.
    pub fn mark_build_started(&mut self)
        ensures
            final(self)@ == (SessionView { build_started: true, ..old(self)@ }),
    {
        self.build_started = true;
    }

    /// The build was started and its end has not been recorded.
    pub fn build_running(&self) -> (res: bool)
        ensures
            res == (self.state == AppState::Building && self.build_started),
    {
        self.state == AppState::Building && self.build_started
    }

    /// Adds a line of build output to the log.
    pub fn push_output(&mut self, line: String)
        ensures
            final(self)@ == (SessionView { build_output: old(self)@.build_output.push(line@), ..old(self)@ }),
    {
        self.build_output.push(line);
        assert(final(self)@.build_output =~= old(self)@.build_output.push(line@));
    }

    /// In dev mode, once the build has ended, the build log to keep.
    pub fn dev_log(&self) -> (res: Option<String>)
        ensures
            opt_view(res) == dev_log_of(self@),
    {
        if self.dev_mode && self.build_started && (self.state == AppState::Complete || self.state == AppState::Error) {
            Some(join_with_newlines(&self.build_output))
        } else {
            None
        }
    }

    /// Takes back the configuration the build worked on and records how the build ended.
    pub fn end_build(&mut self, config: Config, result: Result<(), String>)
        ensures
            final(self)@ == end_build_result(old(self)@, config@, result_view(result)),
    {
        if self.state == AppState::Building && self.build_started {
            self.config = config;
            self.finish_build(result);
        }
    }

    /// Records how the build ended.
    pub fn finish_build(&mut self, result: Result<(), String>)
        ensures
            final(self)@ == finish_result(old(self)@, result_view(result)),
    {
        if self.state == AppState::Building && self.build_started {
            match result {
                Ok(_) => {
                    self.state = AppState::Complete;
                },
                Err(e) => {
                    self.error_message = Some(e);
                    self.state = AppState::Error;
                },
            }
        }
    }
}

} // verus!
