use vstd::prelude::*;

use crate::config::{Config, ConfigView};
use crate::state::{AppState, ListKind};
use crate::text::{contains_str, has_substring, lowercase_of, pop_char, push_char, to_lower, views};

verus! {

/// Where the user is in a list, and what the user typed to narrow it.
pub struct Ui {
    pub selected_index: usize,
    pub filter_text: String,
    pub error_scroll_offset: usize,
}

/// A `Ui` as plain values.
#[verifier::ext_equal]
pub struct UiView {
    pub selected_index: nat,
    pub filter_text: Seq<char>,
    pub error_scroll_offset: nat,
}

impl View for Ui {
    type V = UiView;

    open spec fn view(&self) -> UiView {
        UiView {
            selected_index: self.selected_index as nat,
            filter_text: self.filter_text@,
            error_scroll_offset: self.error_scroll_offset as nat,
        }
    }
}

/// The state of a fresh list screen: first row, no filter, log at its default place.
pub open spec fn initial_ui() -> UiView {
    UiView { selected_index: 0, filter_text: Seq::empty(), error_scroll_offset: 0 }
}

/// `item` is shown under the filter `filter`: the filter is empty, or the
/// lowercase filter occurs in the lowercase item.
pub open spec fn matches_filter(item: Seq<char>, filter: Seq<char>) -> bool {
    filter.len() == 0 || has_substring(lowercase_of(item), lowercase_of(filter))
}

/// The positions of the entries of `items` shown under `filter`, in order.
pub open spec fn matching_indices(items: Seq<Seq<char>>, filter: Seq<char>) -> Seq<int>
    decreases items.len(),
{
    if items.len() == 0 {
        Seq::empty()
    } else {
        let rest = matching_indices(items.drop_last(), filter);
        if matches_filter(items.last(), filter) {
            rest.push(items.len() - 1)
        } else {
            rest
        }
    }
}

/// The positions shown, from the lowercase entries `lowered` and the lowercase
/// filter: every position when there is no filter, else those whose entry
/// contains the filter.
pub open spec fn hit_positions(lowered: Seq<Seq<char>>, lowered_filter: Seq<char>, no_filter: bool) -> Seq<int>
    decreases lowered.len(),
{
    if lowered.len() == 0 {
        Seq::empty()
    } else {
        let rest = hit_positions(lowered.drop_last(), lowered_filter, no_filter);
        if no_filter || has_substring(lowered.last(), lowered_filter) {
            rest.push(lowered.len() - 1)
        } else {
            rest
        }
    }
}

/// The rows shown under a filter are positions of entries, in increasing
/// order, and a position is shown exactly when the filter is empty or the
/// whole lowercase filter occurs, contiguously, in the lowercase entry.
pub proof fn lemma_filter_shows_matching_entries(items: Seq<Seq<char>>, filter: Seq<char>)
    ensures
        forall|j: int| 0 <= j < matching_indices(items, filter).len() ==>
            0 <= #[trigger] matching_indices(items, filter)[j] < items.len(),
        forall|a: int, b: int| 0 <= a < b < matching_indices(items, filter).len() ==>
            matching_indices(items, filter)[a] < matching_indices(items, filter)[b],
        forall|i: int| 0 <= i < items.len() ==> (#[trigger] matching_indices(items, filter).contains(i)
            <==> (filter.len() == 0 || has_substring(lowercase_of(items[i]), lowercase_of(filter)))),
    decreases items.len(),
{
    if items.len() > 0 {
        let n = items.len() - 1;
        let rest = matching_indices(items.drop_last(), filter);
        lemma_filter_shows_matching_entries(items.drop_last(), filter);
        let m = matching_indices(items, filter);
        assert forall|i: int| 0 <= i < items.len() implies (#[trigger] m.contains(i)
            <==> (filter.len() == 0 || has_substring(lowercase_of(items[i]), lowercase_of(filter)))) by {
            if i < n {
                assert(items.drop_last()[i] == items[i]);
                if m.contains(i) {
                    let j = choose|j: int| 0 <= j < m.len() && m[j] == i;
                    if j < rest.len() {
                        assert(rest[j] == i);
                    }
                }
                if rest.contains(i) {
                    let j = choose|j: int| 0 <= j < rest.len() && rest[j] == i;
                    assert(m[j] == i);
                }
            } else {
                if rest.contains(i) {
                    let j = choose|j: int| 0 <= j < rest.len() && rest[j] == i;
                    assert(rest[j] < n);
                }
                if m.contains(i) && !matches_filter(items.last(), filter) {
                    let j = choose|j: int| 0 <= j < m.len() && m[j] == i;
                    assert(rest[j] == i);
                }
                if matches_filter(items.last(), filter) {
                    assert(m[m.len() - 1] == n);
                }
            }
        }
    }
}

/// The positions picked from lowercase entries are positions of entries, in
/// increasing order, and a position is picked exactly when there is no filter
/// or the whole lowercase filter occurs, contiguously, in its lowercase entry.
pub proof fn lemma_hits_are_matches(lowered: Seq<Seq<char>>, lowered_filter: Seq<char>, no_filter: bool)
    ensures
        forall|j: int| 0 <= j < hit_positions(lowered, lowered_filter, no_filter).len() ==>
            0 <= #[trigger] hit_positions(lowered, lowered_filter, no_filter)[j] < lowered.len(),
        forall|a: int, b: int| 0 <= a < b < hit_positions(lowered, lowered_filter, no_filter).len() ==>
            hit_positions(lowered, lowered_filter, no_filter)[a] < hit_positions(lowered, lowered_filter, no_filter)[b],
        forall|i: int| 0 <= i < lowered.len() ==> (#[trigger] hit_positions(lowered, lowered_filter, no_filter).contains(i)
            <==> (no_filter || has_substring(lowered[i], lowered_filter))),
    decreases lowered.len(),
{
    if lowered.len() > 0 {
        let n = lowered.len() - 1;
        let rest = hit_positions(lowered.drop_last(), lowered_filter, no_filter);
        lemma_hits_are_matches(lowered.drop_last(), lowered_filter, no_filter);
        let m = hit_positions(lowered, lowered_filter, no_filter);
        let hit = no_filter || has_substring(lowered.last(), lowered_filter);
        assert forall|i: int| 0 <= i < lowered.len() implies (#[trigger] m.contains(i)
            <==> (no_filter || has_substring(lowered[i], lowered_filter))) by {
            if i < n {
                assert(lowered.drop_last()[i] == lowered[i]);
                if m.contains(i) {
                    let j = choose|j: int| 0 <= j < m.len() && m[j] == i;
                    if j < rest.len() {
                        assert(rest[j] == i);
                    }
                }
                if rest.contains(i) {
                    let j = choose|j: int| 0 <= j < rest.len() && rest[j] == i;
                    assert(m[j] == i);
                }
            } else {
                if rest.contains(i) {
                    let j = choose|j: int| 0 <= j < rest.len() && rest[j] == i;
                    assert(rest[j] < n);
                }
                if m.contains(i) && !hit {
                    let j = choose|j: int| 0 <= j < m.len() && m[j] == i;
                    assert(rest[j] == i);
                }
                if hit {
                    assert(m[m.len() - 1] == n);
                }
            }
        }
    }
}

/// Filtering is the search of the lowercase filter in the lowercase entries.
pub proof fn lemma_matching_is_hits(items: Seq<Seq<char>>, filter: Seq<char>)
    ensures
        matching_indices(items, filter) == hit_positions(
            items.map_values(|x: Seq<char>| lowercase_of(x)),
            lowercase_of(filter),
            filter.len() == 0,
        ),
    decreases items.len(),
{
    if items.len() > 0 {
        lemma_matching_is_hits(items.drop_last(), filter);
        assert(items.drop_last().map_values(|x: Seq<char>| lowercase_of(x)) =~= items.map_values(
            |x: Seq<char>| lowercase_of(x)).drop_last());
    }
}

/// Without a filter, the entries themselves do not matter.
pub proof fn lemma_hits_without_filter(a: Seq<Seq<char>>, b: Seq<Seq<char>>, f: Seq<char>, g: Seq<char>)
    requires
        a.len() == b.len(),
    ensures
        hit_positions(a, f, true) == hit_positions(b, g, true),
    decreases a.len(),
{
    if a.len() > 0 {
        lemma_hits_without_filter(a.drop_last(), b.drop_last(), f, g);
    }
}

/// The positions of the entries of `lowered_items` that contain
/// `lowered_filter` (all of them when `no_filter`), in order.
pub fn matching_positions(lowered_items: &[String], lowered_filter: &str, no_filter: bool) -> (res: Vec<usize>)
    ensures
        as_ints(res@) == hit_positions(views(lowered_items@), lowered_filter@, no_filter),
        forall|j: int| 0 <= j < res@.len() ==> (#[trigger] res@[j] as int) < lowered_items@.len(),
        forall|a: int, b: int| 0 <= a < b < res@.len() ==> res@[a] < res@[b],
        forall|i: int| 0 <= i < lowered_items@.len() ==> (#[trigger] as_ints(res@).contains(i)
            <==> (no_filter || has_substring(lowered_items@[i]@, lowered_filter@))),
{
    proof {
        lemma_hits_are_matches(views(lowered_items@), lowered_filter@, no_filter);
    }
    let mut res: Vec<usize> = Vec::new();
    let mut i: usize = 0;
    while i < lowered_items.len()
        invariant
            i <= lowered_items.len(),
            as_ints(res@) == hit_positions(views(lowered_items@).take(i as int), lowered_filter@, no_filter),
        decreases lowered_items.len() - i,
    {
        assert(views(lowered_items@).take(i + 1).drop_last() =~= views(lowered_items@).take(i as int));
        assert(views(lowered_items@).take(i + 1).last() == lowered_items@[i as int]@);
        if no_filter || contains_str(lowered_items[i].as_str(), lowered_filter) {
            let ghost prev = as_ints(res@);
            res.push(i);
            assert(as_ints(res@) =~= prev.push(i as int));
        }
        i = i + 1;
    }
    assert(views(lowered_items@).take(lowered_items.len() as int) =~= views(lowered_items@));
    assert forall|j: int| 0 <= j < res@.len() implies as_ints(res@)[j] == res@[j] as int by {}
    res
}

/// The positions as integers.
pub open spec fn as_ints(s: Seq<usize>) -> Seq<int> {
    s.map_values(|i: usize| i as int)
}

/// How many rows the list of screen `state` shows under the filter of `ui`.
pub open spec fn shown_rows(ui: UiView, state: AppState, c: ConfigView) -> nat {
    match state.list_kind() {
        Some(k) => matching_indices(c.items(k), ui.filter_text).len(),
        None => 0,
    }
}

/// The effect of the Up key.
pub open spec fn up_result(ui: UiView, state: AppState) -> UiView {
    if state == AppState::Error {
        if ui.error_scroll_offset > 0 {
            UiView { error_scroll_offset: (ui.error_scroll_offset - 1) as nat, ..ui }
        } else {
            ui
        }
    } else if ui.selected_index > 0 {
        UiView { selected_index: (ui.selected_index - 1) as nat, ..ui }
    } else {
        ui
    }
}

/// The effect of the Down key.
pub open spec fn down_result(ui: UiView, state: AppState, c: ConfigView) -> UiView {
    if state == AppState::Error {
        UiView { error_scroll_offset: ui.error_scroll_offset + 1, ..ui }
    } else {
        let max = shown_rows(ui, state, c);
        if max > 0 && ui.selected_index < max - 1 {
            UiView { selected_index: ui.selected_index + 1, ..ui }
        } else {
            ui
        }
    }
}

/// Down on a list screen moves the cursor one row down exactly when a further
/// row is shown under the current filter, and otherwise leaves it; the filter
/// stays. Where a row is shown, the cursor stays on a shown row.
pub proof fn lemma_down_within_shown_rows(ui: UiView, state: AppState, c: ConfigView)
    requires
        state.list_kind() is Some,
    ensures
        ({
            let shown = matching_indices(c.items(state.list_kind()->0), ui.filter_text).len();
            &&& down_result(ui, state, c).selected_index == if ui.selected_index + 1 < shown {
                ui.selected_index + 1
            } else {
                ui.selected_index
            }
            &&& down_result(ui, state, c).filter_text == ui.filter_text
            &&& ui.selected_index < shown ==> down_result(ui, state, c).selected_index < shown
        }),
{
}

/// The effect of the Space key on the configuration: the row under the cursor
/// changes its selection, if the cursor is on a row that has a flag.
pub open spec fn space_result(ui: UiView, state: AppState, c: ConfigView) -> ConfigView {
    match state.list_kind() {
        Some(k) => {
            let shown = matching_indices(c.items(k), ui.filter_text);
            if ui.selected_index < shown.len() && shown[ui.selected_index as int] < c.flags(k).len() {
                let i = shown[ui.selected_index as int];
                c.with_flags(k, c.flags(k).update(i, !c.flags(k)[i]))
            } else {
                c
            }
        },
        None => c,
    }
}

/// The effect of typing the character `ch`: on a list screen it extends the
/// filter and moves the cursor to the first row.
pub open spec fn char_result(ui: UiView, ch: char, state: AppState) -> UiView {
    if state.list_kind() is Some {
        UiView { filter_text: ui.filter_text.push(ch), selected_index: 0, ..ui }
    } else {
        ui
    }
}

/// The effect of Backspace: on a list screen it drops the last character of
/// the filter and moves the cursor to the first row.
pub open spec fn backspace_result(ui: UiView, state: AppState) -> UiView {
    if state.list_kind() is Some {
        UiView {
            filter_text: if ui.filter_text.len() > 0 { ui.filter_text.drop_last() } else { ui.filter_text },
            selected_index: 0,
            ..ui
        }
    } else {
        ui
    }
}

impl Ui {
    /// A fresh screen state.
    pub fn new() -> (res: Ui)
        ensures
            res@ == initial_ui(),
    {
        Ui { selected_index: 0, filter_text: String::new(), error_scroll_offset: 0 }
    }

    /// Back to the first row, no filter, log at its default place.
    pub fn reset_state(&mut self)
        ensures
            final(self)@ == initial_ui(),
    {
        self.selected_index = 0;
        self.filter_text = String::new();
        self.error_scroll_offset = 0;
    }

    /// Up: scrolls the error log back one line, or moves the cursor up one row.
    pub fn handle_up(&mut self, state: &AppState)
        ensures
            final(self)@ == up_result(old(self)@, *state),
            final(self)@.filter_text == old(self)@.filter_text,
            *state == AppState::Error ==> final(self).selected_index == old(self).selected_index
                && final(self).error_scroll_offset == if old(self).error_scroll_offset > 0 {
                    old(self).error_scroll_offset - 1
                } else {
                    0
                },
            *state != AppState::Error ==> final(self).error_scroll_offset == old(self).error_scroll_offset
                && final(self).selected_index == if old(self).selected_index > 0 {
                    old(self).selected_index - 1
                } else {
                    0
                },
    {
        match state {
            AppState::Error => {
                if self.error_scroll_offset > 0 {
                    self.error_scroll_offset = self.error_scroll_offset - 1;
                }
            },
            _ => {
                if self.selected_index > 0 {
                    self.selected_index = self.selected_index - 1;
                }
            },
        }
    }

    /// Down: scrolls the error log on one line, or moves the cursor down one
    /// row while a shown row follows.
    pub fn handle_down(&mut self, state: &AppState, config: &Config)
        requires
            *state == AppState::Error ==> old(self).error_scroll_offset < usize::MAX,
        ensures
            final(self)@ == down_result(old(self)@, *state, config@),
            final(self)@.filter_text == old(self)@.filter_text,
            match state.list_kind() {
                Some(k) => final(self).selected_index == if old(self).selected_index + 1
                    < matching_indices(config@.items(k), old(self)@.filter_text).len() {
                    old(self).selected_index + 1
                } else {
                    old(self).selected_index as int
                },
                None => *state != AppState::Error ==> final(self)@ == old(self)@,
            },
    {
        match state {
            AppState::Error => {
                self.error_scroll_offset = self.error_scroll_offset + 1;
            },
            _ => {
                let max_index = match state.list() {
                    Some(k) => self.get_filtered_indices(config.list(k).as_slice()).len(),
                    None => 0,
                };
                if max_index > 0 && self.selected_index < max_index - 1 {
                    self.selected_index = self.selected_index + 1;
                }
            },
        }
    }

    /// Space: flips the selection of the row under the cursor.
    pub fn handle_space(&mut self, state: &AppState, config: &mut Config)
        ensures
            final(self)@ == old(self)@,
            final(config)@ == space_result(old(self)@, *state, old(config)@),
            final(config)@.work_dir == old(config)@.work_dir,
            final(config)@.iso_path == old(config)@.iso_path,
            forall|j: ListKind| #[trigger] final(config)@.items(j) == old(config)@.items(j),
            forall|j: ListKind| state.list_kind() != Some(j)
                ==> #[trigger] final(config)@.flags(j) == old(config)@.flags(j),
            match state.list_kind() {
                Some(k) => ({
                    let shown = matching_indices(old(config)@.items(k), old(self)@.filter_text);
                    let fl = old(config)@.flags(k);
                    let row = old(self).selected_index as int;
                    final(config)@.flags(k) == if row < shown.len() && shown[row] < fl.len() {
                        fl.update(shown[row], !fl[shown[row]])
                    } else {
                        fl
                    }
                }),
                None => final(config)@ == old(config)@,
            },
    {
        match state.list() {
            Some(k) => {
                let filtered = self.get_filtered_indices(config.list(k).as_slice());
                if self.selected_index < filtered.len() {
                    let actual_idx = filtered[self.selected_index];
                    if actual_idx < config.flags(k).len() {
                        config.toggle(k, actual_idx);
                    }
                }
            },
            None => {},
        }
    }

    /// The positions of the entries of `items` shown under the filter, in order.
    pub fn get_filtered_indices(&self, items: &[String]) -> (res: Vec<usize>)
        ensures
            as_ints(res@) == matching_indices(views(items@), self.filter_text@),
            forall|j: int| 0 <= j < res@.len() ==> (#[trigger] res@[j] as int) < items@.len(),
            forall|a: int, b: int| 0 <= a < b < res@.len() ==> res@[a] < res@[b],
            forall|i: int| 0 <= i < items@.len() ==> (#[trigger] as_ints(res@).contains(i)
                <==> (self.filter_text@.len() == 0
                    || has_substring(lowercase_of(items@[i]@), lowercase_of(self.filter_text@)))),
    {
        proof {
            lemma_filter_shows_matching_entries(views(items@), self.filter_text@);
        }
        let ghost lowered_view = views(items@).map_values(|x: Seq<char>| lowercase_of(x));
        proof {
            lemma_matching_is_hits(views(items@), self.filter_text@);
        }
        if self.filter_text.as_str().is_empty() {
            proof {
                lemma_hits_without_filter(views(items@), lowered_view, ""@, lowercase_of(self.filter_text@));
            }
            matching_positions(items, "", true)
        } else {
            let lowered_filter = to_lower(self.filter_text.as_str());
            let mut lowered: Vec<String> = Vec::new();
            let mut i: usize = 0;
            while i < items.len()
                invariant
                    i <= items.len(),
                    lowered_view == views(items@).map_values(|x: Seq<char>| lowercase_of(x)),
                    views(lowered@) == lowered_view.take(i as int),
                decreases items.len() - i,
            {
                let l = to_lower(items[i].as_str());
                let ghost prev = views(lowered@);
                assert(l@ == lowered_view[i as int]);
                lowered.push(l);
                assert(views(lowered@) =~= prev.push(lowered_view[i as int]));
                assert(lowered_view.take(i + 1) =~= lowered_view.take(i as int).push(lowered_view[i as int]));
                i = i + 1;
            }
            assert(lowered_view.take(items.len() as int) =~= lowered_view);
            matching_positions(lowered.as_slice(), lowered_filter.as_str(), false)
        }
    }

    /// A typed character: on a list screen it extends the filter.
    pub fn handle_char(&mut self, c: char, state: &AppState)
        ensures
            final(self)@ == char_result(old(self)@, c, *state),
            state.list_kind() is Some ==> final(self)@.filter_text == old(self)@.filter_text.push(c)
                && final(self).selected_index == 0
                && final(self).error_scroll_offset == old(self).error_scroll_offset,
            state.list_kind() is None ==> final(self)@ == old(self)@,
    {
        match state {
            AppState::SelectingAurPackages
            | AppState::SelectingOfficialPackages
            | AppState::SelectingIgnoredPackages
            | AppState::SelectingDotfiles
            | AppState::SelectingHomeDotfiles => {
                push_char(&mut self.filter_text, c);
                self.selected_index = 0;
            },
            _ => {},
        }
    }

    /// Backspace: on a list screen it shortens the filter by one character.
    pub fn handle_backspace(&mut self, state: &AppState)
        ensures
            final(self)@ == backspace_result(old(self)@, *state),
            state.list_kind() is Some ==> final(self).selected_index == 0
                && final(self).error_scroll_offset == old(self).error_scroll_offset
                && final(self)@.filter_text == if old(self)@.filter_text.len() > 0 {
                    old(self)@.filter_text.drop_last()
                } else {
                    old(self)@.filter_text
                },
            state.list_kind() is None ==> final(self)@ == old(self)@,
    {
        match state {
            AppState::SelectingAurPackages
            | AppState::SelectingOfficialPackages
            | AppState::SelectingIgnoredPackages
            | AppState::SelectingDotfiles
            | AppState::SelectingHomeDotfiles => {
                pop_char(&mut self.filter_text);
                self.selected_index = 0;
            },
            _ => {},
        }
    }
}

} // verus!
