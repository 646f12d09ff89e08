use vstd::prelude::*;

use crate::config::{flag_at, package_file_plan, selected_items, ConfigView};
use crate::image_build::{
    build_start, build_transition, BuildStage, BuildTask, NextView, TaskOutcome,
};
use crate::session::{build_due_in, end_build_result, enter_result, finish_result, key_result, Action, Key, SessionView};
use crate::state::{AppState, ListKind};
use crate::text::{line_scan, nonempty_lines};
use crate::ui::{
    backspace_result, char_result, down_result, matching_indices, shown_rows, space_result,
    up_result, UiView,
};

verus! {

/// Loading a list offers each entry with its own flag, none set, so nothing of
/// that list is selected; the other lists keep their entries and flags.
pub proof fn lemma_fresh_list_selects_nothing(c: ConfigView, k: ListKind, items: Seq<Seq<char>>)
    ensures
        c.with_fresh_list(k, items).items(k) == items,
        c.with_fresh_list(k, items).flags(k).len() == items.len(),
        c.with_fresh_list(k, items).selected(k) == Seq::<Seq<char>>::empty(),
        forall|k2: ListKind| k2 != k ==> c.with_fresh_list(k, items).items(k2) == c.items(k2)
            && c.with_fresh_list(k, items).flags(k2) == c.flags(k2),
{
    let flags = Seq::new(items.len(), |i: int| false);
    lemma_no_flag_selects_nothing(items, flags);
}

proof fn lemma_no_flag_selects_nothing(items: Seq<Seq<char>>, flags: Seq<bool>)
    requires
        forall|i: int| 0 <= i < flags.len() ==> !flags[i],
    ensures
        selected_items(items, flags) == Seq::<Seq<char>>::empty(),
    decreases items.len(),
{
    if items.len() > 0 {
        lemma_no_flag_selects_nothing(items.drop_last(), flags);
    }
}

/// The selection is a part of the list: never longer, and made of its entries.
pub proof fn lemma_selection_within_list(items: Seq<Seq<char>>, flags: Seq<bool>)
    ensures
        selected_items(items, flags).len() <= items.len(),
        forall|x: Seq<char>| selected_items(items, flags).contains(x) ==> items.contains(x),
    decreases items.len(),
{
    if items.len() > 0 {
        lemma_selection_within_list(items.drop_last(), flags);
        assert forall|x: Seq<char>| selected_items(items, flags).contains(x) implies items.contains(x) by {
            if selected_items(items.drop_last(), flags).contains(x) {
                assert(items.drop_last().contains(x));
                let j = choose|j: int| 0 <= j < items.drop_last().len() && items.drop_last()[j] == x;
                assert(items[j] == x);
            } else {
                assert(items[items.len() - 1] == x);
            }
        }
    }
}

/// With every entry flagged, the selection is the whole list.
pub proof fn lemma_all_flags_select_all(items: Seq<Seq<char>>, flags: Seq<bool>)
    requires
        flags.len() >= items.len(),
        forall|i: int| 0 <= i < items.len() ==> flags[i],
    ensures
        selected_items(items, flags) == items,
    decreases items.len(),
{
    if items.len() > 0 {
        lemma_all_flags_select_all(items.drop_last(), flags);
        assert(items.drop_last().push(items.last()) =~= items);
    }
}

/// With nothing selected in the packages lists, no packages file is written.
pub proof fn lemma_no_selection_no_files(c: ConfigView)
    requires
        c.selected(ListKind::Official).len() == 0,
        c.selected(ListKind::Aur).len() == 0,
        c.selected(ListKind::Ignored).len() == 0,
    ensures
        package_file_plan(c) == Seq::<(Seq<char>, Seq<char>)>::empty(),
{
}

/// Every shown row is an entry of the list, each at most once, in list order.
pub proof fn lemma_shown_rows_in_list(items: Seq<Seq<char>>, filter: Seq<char>)
    ensures
        matching_indices(items, filter).len() <= items.len(),
        forall|j: int| 0 <= j < matching_indices(items, filter).len() ==>
            0 <= #[trigger] matching_indices(items, filter)[j] < items.len(),
        forall|a: int, b: int| 0 <= a < b < matching_indices(items, filter).len() ==>
            matching_indices(items, filter)[a] < matching_indices(items, filter)[b],
    decreases items.len(),
{
    if items.len() > 0 {
        lemma_shown_rows_in_list(items.drop_last(), filter);
    }
}

/// Every list has exactly one selection flag per entry.
pub open spec fn flags_match_lists(c: ConfigView) -> bool {
    forall|k: ListKind| #[trigger] c.flags(k).len() == c.items(k).len()
}

/// The configuration at start has one flag per entry, and loading a list and
/// pressing Space keep it so.
pub proof fn lemma_flags_match_lists_kept(
    current_dir: Seq<char>,
    c: ConfigView,
    k: ListKind,
    items: Seq<Seq<char>>,
    ui: UiView,
    state: AppState,
)
    ensures
        flags_match_lists(crate::config::initial_config(current_dir)),
        flags_match_lists(c) ==> flags_match_lists(c.with_fresh_list(k, items)),
        flags_match_lists(c) ==> flags_match_lists(space_result(ui, state, c)),
{
    let init = crate::config::initial_config(current_dir);
    assert forall|k2: ListKind| #[trigger] init.flags(k2).len() == init.items(k2).len() by {}
    if flags_match_lists(c) {
        let fresh = c.with_fresh_list(k, items);
        assert forall|k2: ListKind| #[trigger] fresh.flags(k2).len() == fresh.items(k2).len() by {
            assert(c.flags(k2).len() == c.items(k2).len());
        }
        let after = space_result(ui, state, c);
        if let Some(kk) = state.list_kind() {
            lemma_shown_rows_in_list(c.items(kk), ui.filter_text);
        }
        assert forall|k2: ListKind| #[trigger] after.flags(k2).len() == after.items(k2).len() by {
            assert(c.flags(k2).len() == c.items(k2).len());
        }
    }
}

/// Pressing Space twice on the same row leaves the selection as it was.
pub proof fn lemma_space_twice_restores(ui: UiView, state: AppState, c: ConfigView)
    ensures
        space_result(ui, state, space_result(ui, state, c)) == c,
{
    match state.list_kind() {
        Some(k) => {
            let once = space_result(ui, state, c);
            assert(once.items(k) == c.items(k));
            let shown = matching_indices(c.items(k), ui.filter_text);
            lemma_shown_rows_in_list(c.items(k), ui.filter_text);
            if ui.selected_index < shown.len() && shown[ui.selected_index as int] < c.flags(k).len() {
                let i = shown[ui.selected_index as int];
                assert(once.flags(k) == c.flags(k).update(i, !c.flags(k)[i]));
                assert(once.flags(k).update(i, !once.flags(k)[i]) =~= c.flags(k));
                assert(space_result(ui, state, once) =~= c);
            }
        },
        None => {},
    }
}

/// On a list screen, Backspace takes back the character just typed (the cursor
/// is back on the first row).
pub proof fn lemma_backspace_undoes_char(ui: UiView, ch: char, state: AppState)
    requires
        state.list_kind() is Some,
    ensures
        backspace_result(char_result(ui, ch, state), state) == (UiView { selected_index: 0, ..ui }),
{
    assert(ui.filter_text.push(ch).drop_last() =~= ui.filter_text);
    assert(backspace_result(char_result(ui, ch, state), state) =~= (UiView { selected_index: 0, ..ui }));
}

/// The cursor never leaves the shown rows: Down keeps it on a shown row, Up
/// never moves it further down.
pub proof fn lemma_cursor_stays_on_rows(ui: UiView, state: AppState, c: ConfigView)
    requires
        state != AppState::Error,
        ui.selected_index < shown_rows(ui, state, c),
    ensures
        down_result(ui, state, c).selected_index < shown_rows(down_result(ui, state, c), state, c),
        up_result(ui, state).selected_index <= ui.selected_index,
        up_result(ui, state).filter_text == ui.filter_text,
{
}

/// Without a filter every entry is shown.
pub proof fn lemma_empty_filter_shows_all(items: Seq<Seq<char>>)
    ensures
        matching_indices(items, Seq::empty()) == Seq::new(items.len(), |i: int| i),
    decreases items.len(),
{
    if items.len() > 0 {
        lemma_empty_filter_shows_all(items.drop_last());
        assert(matching_indices(items, Seq::empty()) =~= Seq::new(items.len(), |i: int| i));
    }
}

/// From the welcome screen, Enter leads through the five lists (asking for each
/// in turn) and the summary to the build, where further Enters do nothing;
/// neither the choices nor the quit request are touched on the way.
pub proof fn lemma_enter_walk(s: SessionView)
    requires
        s.state == AppState::Welcome,
    ensures
        ({
            let (s1, a1) = enter_result(s);
            let (s2, a2) = enter_result(s1);
            let (s3, a3) = enter_result(s2);
            let (s4, a4) = enter_result(s3);
            let (s5, a5) = enter_result(s4);
            let (s6, a6) = enter_result(s5);
            let (s7, a7) = enter_result(s6);
            &&& s1.state == AppState::SelectingAurPackages && a1 == Action::Scan(ListKind::Aur)
            &&& s2.state == AppState::SelectingOfficialPackages && a2 == Action::Scan(ListKind::Official)
            &&& s3.state == AppState::SelectingIgnoredPackages && a3 == Action::Scan(ListKind::Ignored)
            &&& s4.state == AppState::SelectingDotfiles && a4 == Action::Scan(ListKind::Dotfiles)
            &&& s5.state == AppState::SelectingHomeDotfiles && a5 == Action::Scan(ListKind::HomeDotfiles)
            &&& s6.state == AppState::Summary && a6 == Action::Continue
            &&& s7.state == AppState::Building && a7 == Action::Continue
            &&& enter_result(s7).0 == s7 && enter_result(s7).1 == Action::Continue
            &&& s7.config == s.config
            &&& s7.should_quit == s.should_quit
        }),
{
    let (s6, _) = enter_result(enter_result(enter_result(enter_result(enter_result(enter_result(s).0).0).0).0).0);
    let (s7, _) = enter_result(s6);
    assert(enter_result(s7).0 =~= s7);
}

/// Once the build is started it stays started: no key, no log line and not the
/// build's end undo it, so the build is due, and started, at most once.
pub proof fn lemma_build_started_once(s: SessionView, key: Key, line: Seq<char>, result: Result<(), Seq<char>>)
    requires
        s.build_started,
    ensures
        key_result(s, key).0.build_started,
        !build_due_in(key_result(s, key).0),
        finish_result(s, result).build_started,
        !build_due_in(finish_result(s, result)),
        (SessionView { build_output: s.build_output.push(line), ..s }).build_started,
        !build_due_in(s),
{
}

/// At the end of a started build, the configuration the build worked on comes
/// back, and the screen shows the completion or the error with its message.
pub proof fn lemma_build_end_hands_back(s: SessionView, cfg: ConfigView, result: Result<(), Seq<char>>)
    requires
        s.state == AppState::Building,
        s.build_started,
    ensures
        end_build_result(s, cfg, result).config == cfg,
        end_build_result(s, cfg, result).build_output == s.build_output,
        result is Ok ==> end_build_result(s, cfg, result).state == AppState::Complete,
        result is Err ==> end_build_result(s, cfg, result).state == AppState::Error
            && end_build_result(s, cfg, result).error_message == Some(result->Err_0),
{
}

/// Esc and `Q` quit from every screen; Enter quits from the completion and error screens.
pub proof fn lemma_quit_keys(s: SessionView)
    ensures
        key_result(s, Key::Esc).0.should_quit,
        key_result(s, Key::Char('Q')).0.should_quit,
        (s.state == AppState::Complete || s.state == AppState::Error) ==> key_result(s, Key::Enter).0.should_quit,
{
}

/// The work of a build when every piece of it succeeds: clone, packages files,
/// the `.config` copy if `c` entries were chosen, the home copy if `h` were,
/// the builder, and the move of the image.
pub open spec fn success_plan(c: nat, h: nat) -> Seq<BuildTask> {
    seq![BuildTask::CloneRepository, BuildTask::WritePackageFiles]
        + (if c > 0 { seq![BuildTask::CopyConfigDotfiles] } else { Seq::empty() })
        + (if h > 0 { seq![BuildTask::CopyHomeDotfiles] } else { Seq::empty() })
        + seq![BuildTask::RunIsoMake, BuildTask::MoveIso]
}

/// The successful outcome of the work of each stage.
pub open spec fn success_outcome(stage: BuildStage) -> TaskOutcome {
    if stage == BuildStage::RunningIsoMake {
        TaskOutcome::IsoMakeExited { success: true, code: Some(0) }
    } else {
        TaskOutcome::Done
    }
}

/// The work done from `stage` on when every piece succeeds, for at most `fuel`
/// steps, and how the build ends (`None` if it has not ended by then).
pub open spec fn run_succeeding(stage: BuildStage, c: nat, h: nat, fuel: nat) -> (Seq<BuildTask>, Option<NextView>)
    decreases fuel,
{
    if fuel == 0 {
        (Seq::empty(), None)
    } else {
        let (next_stage, _, next) = build_transition(stage, c, h, success_outcome(stage));
        match next {
            NextView::Run(t) => {
                let (rest, end) = run_succeeding(next_stage, c, h, (fuel - 1) as nat);
                (seq![t] + rest, end)
            },
            _ => (Seq::empty(), Some(next)),
        }
    }
}

/// A build in which every piece of work succeeds does exactly the work of
/// `success_plan`, in that order, and ends successfully.
pub proof fn lemma_successful_build(c: nat, h: nat)
    ensures
        ({
            let (stage, _, first) = build_start();
            let (rest, end) = run_succeeding(stage, c, h, 7);
            &&& first == NextView::Run(BuildTask::CloneRepository)
            &&& seq![BuildTask::CloneRepository] + rest == success_plan(c, h)
            &&& end == Some(NextView::Succeed)
        }),
{
    reveal_with_fuel(run_succeeding, 8);
    let (stage, _, first) = build_start();
    let (rest, end) = run_succeeding(stage, c, h, 7);
    assert(seq![BuildTask::CloneRepository] + rest =~= success_plan(c, h));
}

/// A piece of work that fails ends the build at once with an error and no
/// further work (a failed builder run only cleans up first).
pub proof fn lemma_failure_ends_build(stage: BuildStage, c: nat, h: nat)
    requires
        stage != BuildStage::NotStarted,
        stage != BuildStage::Finished,
        stage != BuildStage::RunningIsoMake,
    ensures
        build_transition(stage, c, h, TaskOutcome::Failed).0 == BuildStage::Finished,
        build_transition(stage, c, h, TaskOutcome::Failed).2 is Fail,
{
}

/// An unsuccessful builder run cleans the work directory, then ends the build
/// with an error.
pub proof fn lemma_failed_iso_make_cleans_up(c: nat, h: nat, code: Option<i32>)
    ensures
        build_transition(BuildStage::RunningIsoMake, c, h, TaskOutcome::IsoMakeExited { success: false, code }).2
            == NextView::Run(BuildTask::CleanWorkDir),
        build_transition(BuildStage::Cleaning(code), c, h, TaskOutcome::Done).2 is Fail,
        build_transition(BuildStage::Cleaning(code), c, h, TaskOutcome::Failed).2 is Fail,
{
}

proof fn lemma_scan_clean(s: Seq<char>)
    ensures
        forall|i: int| 0 <= i < line_scan(s).0.len() ==> (#[trigger] line_scan(s).0[i]).len() > 0
            && !line_scan(s).0[i].contains('\n'),
        !line_scan(s).1.contains('\n'),
    decreases s.len(),
{
    if s.len() > 0 {
        lemma_scan_clean(s.drop_last());
        let (done, cur) = line_scan(s.drop_last());
        if s.last() == '\n' {
            let line = crate::text::strip_cr(cur);
            assert(!line.contains('\n')) by {
                if line.contains('\n') {
                    let j = choose|j: int| 0 <= j < line.len() && line[j] == '\n';
                    assert(cur[j] == '\n');
                }
            }
        } else {
            assert(!cur.push(s.last()).contains('\n')) by {
                if cur.push(s.last()).contains('\n') {
                    let j = choose|j: int| 0 <= j < cur.push(s.last()).len() && cur.push(s.last())[j] == '\n';
                    if j < cur.len() {
                        assert(cur[j] == '\n');
                    }
                }
            }
        }
    }
}

/// Every line read from a listing is non-empty and holds no newline.
pub proof fn lemma_lines_are_clean(s: Seq<char>)
    ensures
        forall|i: int| 0 <= i < nonempty_lines(s).len() ==> (#[trigger] nonempty_lines(s)[i]).len() > 0
            && !nonempty_lines(s)[i].contains('\n'),
{
    lemma_scan_clean(s);
}

} // verus!
