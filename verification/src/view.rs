use vstd::prelude::*;

use crate::config::{Config, ConfigView, flag_at, opt_view};
use crate::state::ListKind;
use crate::text::{
    append_decimal, append_str, concat_str, contains_str, decimal, has_substring,
    starts_with_char, views,
};
use crate::ui::{as_ints, matching_indices, Ui, UiView};

verus! {

/// How a step of the progress line is drawn.
#[derive(Debug, Clone, Copy, PartialEq, Eq, Structural)]
pub enum StepMark {
    Done,
    Current,
    Upcoming,
}

/// The names of the six steps, in order.
pub open spec fn step_names() -> Seq<Seq<char>> {
    seq!["AUR"@, "Official"@, "Exclude"@, ".config"@, "Home"@, "Build"@]
}

/// How step `step` (counted from 1) is drawn while `current` is shown.
pub open spec fn step_mark(step: int, current: int) -> StepMark {
    if step < current {
        StepMark::Done
    } else if step == current {
        StepMark::Current
    } else {
        StepMark::Upcoming
    }
}

/// A step of the progress line: `[n:name]` and how it is drawn.
pub struct StepSegment {
    pub text: String,
    pub mark: StepMark,
}

/// The segments of the progress line while step `current` is shown.
pub open spec fn step_line(current: int) -> Seq<(Seq<char>, StepMark)> {
    Seq::new(6, |i: int| (seq!['['] + decimal((i + 1) as nat) + seq![':'] + step_names()[i] + seq![']'], step_mark(i + 1, current)))
}

/// The segments as plain values.
pub open spec fn segment_views(v: Seq<StepSegment>) -> Seq<(Seq<char>, StepMark)> {
    v.map_values(|s: StepSegment| (s.text@, s.mark))
}

/// The progress line while step `current` is shown.
pub fn step_indicator(current: usize) -> (res: Vec<StepSegment>)
    ensures
        segment_views(res@) == step_line(current as int),
{
    let names: [&str; 6] = ["AUR", "Official", "Exclude", ".config", "Home", "Build"];
    let mut res: Vec<StepSegment> = Vec::new();
    let mut i: usize = 0;
    while i < 6
        invariant
            i <= 6,
            forall|k: int| 0 <= k < 6 ==> #[trigger] names@[k]@ == step_names()[k],
            segment_views(res@) == step_line(current as int).take(i as int),
        decreases 6 - i,
    {
        let mut text = String::new();
        crate::text::push_char(&mut text, '[');
        append_decimal(&mut text, i + 1);
        crate::text::push_char(&mut text, ':');
        append_str(&mut text, names[i]);
        crate::text::push_char(&mut text, ']');
        let mark = if i + 1 < current {
            StepMark::Done
        } else if i + 1 == current {
            StepMark::Current
        } else {
            StepMark::Upcoming
        };
        let ghost prev = segment_views(res@);
        assert(text@ =~= step_line(current as int)[i as int].0);
        assert(mark == step_line(current as int)[i as int].1);
        let ghost tv = text@;
        res.push(StepSegment { text, mark });
        assert(segment_views(res@) =~= prev.push((tv, mark)));
        assert(segment_views(res@) =~= step_line(current as int).take(i + 1));
        i = i + 1;
    }
    assert(step_line(current as int).take(6) =~= step_line(current as int));
    res
}

/// The heading of each list screen.
pub open spec fn list_title(k: ListKind) -> Seq<char> {
    match k {
        ListKind::Aur => "AUR Packages"@,
        ListKind::Official => "Official Packages"@,
        ListKind::Ignored => "Packages to Exclude"@,
        ListKind::Dotfiles => ".config Files & Folders"@,
        ListKind::HomeDotfiles => "Home Dotfiles"@,
    }
}

/// The step number of each list screen.
pub open spec fn list_step(k: ListKind) -> nat {
    match k {
        ListKind::Aur => 1,
        ListKind::Official => 2,
        ListKind::Ignored => 3,
        ListKind::Dotfiles => 4,
        ListKind::HomeDotfiles => 5,
    }
}

/// The word for the entries of each list.
pub open spec fn list_item_word(k: ListKind) -> Seq<char> {
    match k {
        ListKind::Aur | ListKind::Official | ListKind::Ignored => "packages"@,
        _ => "items"@,
    }
}

/// A row of a list screen: which entry it shows and whether it is selected.
pub struct SelectionRow {
    pub index: usize,
    pub checked: bool,
}

/// What a list screen shows.
pub struct SelectionView {
    pub title: String,
    pub step: usize,
    pub search_text: String,
    pub filtering: bool,
    pub rows: Vec<SelectionRow>,
    pub list_title: String,
    pub highlighted: usize,
    pub status: String,
}

/// The rows as plain values.
pub open spec fn row_views(v: Seq<SelectionRow>) -> Seq<(int, bool)> {
    v.map_values(|r: SelectionRow| (r.index as int, r.checked))
}

/// The rows shown: each shown entry with its selection.
pub open spec fn rows_of(shown: Seq<int>, flags: Seq<bool>) -> Seq<(int, bool)> {
    shown.map_values(|i: int| (i, flag_at(flags, i)))
}

/// How many of the rows are selected.
pub open spec fn checked_count(rows: Seq<(int, bool)>) -> nat
    decreases rows.len(),
{
    if rows.len() == 0 {
        0
    } else {
        checked_count(rows.drop_last()) + if rows.last().1 { 1nat } else { 0nat }
    }
}

/// The search line: the filter with a cursor, or a hint when there is no filter.
pub open spec fn search_line(filter: Seq<char>) -> Seq<char> {
    if filter.len() > 0 {
        filter.push('_')
    } else {
        "Type to search..."@
    }
}

/// The row under the cursor: the cursor's row, kept within the shown rows.
pub open spec fn highlighted_row(selected: nat, shown: nat) -> nat {
    let last: nat = if shown > 0 { (shown - 1) as nat } else { 0 };
    if selected < last { selected } else { last }
}

/// The status line: how many entries the filter shows, or how many there are.
pub open spec fn status_line(filtering: bool, shown: nat, total: nat, word: Seq<char>) -> Seq<char> {
    if filtering {
        "Showing "@ + decimal(shown) + " of "@ + decimal(total) + seq![' '] + word
    } else {
        "Total: "@ + decimal(total) + seq![' '] + word
    }
}

/// The title of the list box: how many of the shown rows are selected.
pub open spec fn list_box_title(checked: nat, shown: nat) -> Seq<char> {
    seq![' '] + decimal(checked) + " / "@ + decimal(shown) + " selected "@
}

impl SelectionView {
    /// What the screen of list `k` shows for `c` and `ui`.
    pub open spec fn describes(self, k: ListKind, ui: UiView, c: ConfigView) -> bool {
        let shown = matching_indices(c.items(k), ui.filter_text);
        let rows = rows_of(shown, c.flags(k));
        &&& self.title@ == list_title(k)
        &&& self.step == list_step(k)
        &&& self.search_text@ == search_line(ui.filter_text)
        &&& self.filtering == (ui.filter_text.len() > 0)
        &&& row_views(self.rows@) == rows
        &&& self.list_title@ == list_box_title(checked_count(rows), shown.len())
        &&& self.highlighted == highlighted_row(ui.selected_index, shown.len())
        &&& self.status@ == status_line(ui.filter_text.len() > 0, shown.len(), c.items(k).len(), list_item_word(k))
    }
}

fn title_of(k: ListKind) -> (res: (String, usize, String))
    ensures
        res.0@ == list_title(k),
        res.1 == list_step(k),
        res.2@ == list_item_word(k),
{
    match k {
        ListKind::Aur => ("AUR Packages".to_owned(), 1, "packages".to_owned()),
        ListKind::Official => ("Official Packages".to_owned(), 2, "packages".to_owned()),
        ListKind::Ignored => ("Packages to Exclude".to_owned(), 3, "packages".to_owned()),
        ListKind::Dotfiles => (".config Files & Folders".to_owned(), 4, "items".to_owned()),
        ListKind::HomeDotfiles => ("Home Dotfiles".to_owned(), 5, "items".to_owned()),
    }
}

/// What the screen of list `k` shows.
pub fn selection_view(ui: &Ui, config: &Config, k: ListKind) -> (res: SelectionView)
    ensures
        res.describes(k, ui@, config@),
{
    let (title, step, word) = title_of(k);
    let items = config.list(k);
    let flags = config.flags(k);
    let filtering = !ui.filter_text.as_str().is_empty();
    let search_text = if filtering {
        let mut s = crate::text::string_from_chars(&crate::text::chars_of(ui.filter_text.as_str()));
        crate::text::push_char(&mut s, '_');
        assert(s@ =~= ui.filter_text@.push('_'));
        s
    } else {
        "Type to search...".to_owned()
    };
    let shown = ui.get_filtered_indices(items.as_slice());
    let ghost shown_ints = as_ints(shown@);
    let mut rows: Vec<SelectionRow> = Vec::new();
    let mut checked: usize = 0;
    let mut i: usize = 0;
    while i < shown.len()
        invariant
            i <= shown.len(),
            shown_ints == as_ints(shown@),
            flags@ == config@.flags(k),
            row_views(rows@) == rows_of(shown_ints, flags@).take(i as int),
            checked == checked_count(rows_of(shown_ints, flags@).take(i as int)),
            checked <= i,
        decreases shown.len() - i,
    {
        let idx = shown[i];
        let on = idx < flags.len() && flags[idx];
        let ghost prev = row_views(rows@);
        rows.push(SelectionRow { index: idx, checked: on });
        assert(row_views(rows@) =~= prev.push((idx as int, on)));
        assert(rows_of(shown_ints, flags@).take(i + 1) =~= rows_of(shown_ints, flags@).take(i as int).push((idx as int, on)));
        assert(rows_of(shown_ints, flags@).take(i + 1).drop_last() =~= rows_of(shown_ints, flags@).take(i as int));
        if on {
            checked = checked + 1;
        }
        i = i + 1;
    }
    assert(rows_of(shown_ints, flags@).take(shown.len() as int) =~= rows_of(shown_ints, flags@));
    let mut list_title = String::new();
    crate::text::push_char(&mut list_title, ' ');
    append_decimal(&mut list_title, checked);
    append_str(&mut list_title, " / ");
    append_decimal(&mut list_title, shown.len());
    append_str(&mut list_title, " selected ");
    assert(list_title@ =~= list_box_title(checked as nat, shown.len() as nat));
    let last = if shown.len() > 0 { shown.len() - 1 } else { 0 };
    let highlighted = if ui.selected_index < last { ui.selected_index } else { last };
    let mut status = String::new();
    if filtering {
        append_str(&mut status, "Showing ");
        append_decimal(&mut status, shown.len());
        append_str(&mut status, " of ");
        append_decimal(&mut status, items.len());
        crate::text::push_char(&mut status, ' ');
        append_str(&mut status, word.as_str());
    } else {
        append_str(&mut status, "Total: ");
        append_decimal(&mut status, items.len());
        crate::text::push_char(&mut status, ' ');
        append_str(&mut status, word.as_str());
    }
    assert(views(items@).len() == items@.len());
    assert(status@ =~= status_line(filtering, shown.len() as nat, items.len() as nat, list_item_word(k)));
    SelectionView { title, step, search_text, filtering, rows, list_title, highlighted, status }
}


/// How a line of the build log is coloured.
#[derive(Debug, Clone, Copy, PartialEq, Eq, Structural)]
pub enum LogStyle {
    Success,
    Failure,
    Info,
    Timing,
    Plain,
    /// A note in place of the log.
    Muted,
}

/// `line` begins with the character `c`.
pub open spec fn first_is(line: Seq<char>, c: char) -> bool {
    line.len() > 0 && line[0] == c
}

/// `line` begins with one of the progress symbols (wrench, memo, folder,
/// hammer, rocket, package).
pub open spec fn is_progress_line(line: Seq<char>) -> bool {
    first_is(line, '\u{1f527}') || first_is(line, '\u{1f4dd}') || first_is(line, '\u{1f4c1}')
        || first_is(line, '\u{1f528}') || first_is(line, '\u{1f680}') || first_is(line, '\u{1f4e6}')
}

/// The colour of a log line while building: by its first character.
pub open spec fn building_line_style(line: Seq<char>) -> LogStyle {
    if first_is(line, '\u{2713}') {
        LogStyle::Success
    } else if first_is(line, '\u{274c}') || first_is(line, '\u{26a0}') {
        LogStyle::Failure
    } else if is_progress_line(line) {
        LogStyle::Info
    } else if first_is(line, '\u{23f1}') {
        LogStyle::Timing
    } else {
        LogStyle::Plain
    }
}

/// `line` speaks of an error or a failure.
pub open spec fn mentions_failure(line: Seq<char>) -> bool {
    has_substring(line, "error"@) || has_substring(line, "Error"@) || has_substring(line, "ERROR"@)
        || has_substring(line, "failed"@) || has_substring(line, "Failed"@)
}

/// The colour of a log line on the error screen, where any line that speaks of
/// an error or a failure is marked too.
pub open spec fn error_line_style(line: Seq<char>) -> LogStyle {
    if first_is(line, '\u{2713}') {
        LogStyle::Success
    } else if first_is(line, '\u{274c}') || first_is(line, '\u{26a0}') || mentions_failure(line) {
        LogStyle::Failure
    } else if is_progress_line(line) {
        LogStyle::Info
    } else if first_is(line, '\u{23f1}') {
        LogStyle::Timing
    } else {
        LogStyle::Plain
    }
}

fn progress_line(line: &str) -> (res: bool)
    ensures
        res == is_progress_line(line@),
{
    starts_with_char(line, '\u{1f527}') || starts_with_char(line, '\u{1f4dd}') || starts_with_char(line, '\u{1f4c1}')
        || starts_with_char(line, '\u{1f528}') || starts_with_char(line, '\u{1f680}') || starts_with_char(line, '\u{1f4e6}')
}

/// The colour of a log line while building.
pub fn building_log_style(line: &str) -> (res: LogStyle)
    ensures
        res == building_line_style(line@),
{
    if starts_with_char(line, '\u{2713}') {
        LogStyle::Success
    } else if starts_with_char(line, '\u{274c}') || starts_with_char(line, '\u{26a0}') {
        LogStyle::Failure
    } else if progress_line(line) {
        LogStyle::Info
    } else if starts_with_char(line, '\u{23f1}') {
        LogStyle::Timing
    } else {
        LogStyle::Plain
    }
}

/// The colour of a log line on the error screen.
pub fn error_log_style(line: &str) -> (res: LogStyle)
    ensures
        res == error_line_style(line@),
{
    if starts_with_char(line, '\u{2713}') {
        LogStyle::Success
    } else if starts_with_char(line, '\u{274c}') || starts_with_char(line, '\u{26a0}')
        || contains_str(line, "error") || contains_str(line, "Error") || contains_str(line, "ERROR")
        || contains_str(line, "failed") || contains_str(line, "Failed") {
        LogStyle::Failure
    } else if progress_line(line) {
        LogStyle::Info
    } else if starts_with_char(line, '\u{23f1}') {
        LogStyle::Timing
    } else {
        LogStyle::Plain
    }
}

/// `a - b`, or 0 when `b` is larger.
pub open spec fn sat_sub(a: nat, b: nat) -> nat {
    if a >= b { (a - b) as nat } else { 0 }
}

/// The first log line shown while building: the last lines that fit in a box
/// `area_height` high (its two borders take two rows).
pub fn building_log_start(total: usize, area_height: u16) -> (res: usize)
    ensures
        res == sat_sub(total as nat, sat_sub(area_height as nat, 2)),
{
    let avail: usize = if area_height >= 2 { (area_height - 2) as usize } else { 0 };
    if total >= avail { total - avail } else { 0 }
}

/// The part of the log shown on the error screen, from its first line to the
/// line after its last: at first the end of the log, later where the user scrolled to.
pub open spec fn error_window(total: nat, area_height: nat, offset: nat) -> (nat, nat) {
    let avail = sat_sub(area_height, 2);
    let max_scroll = sat_sub(total, avail);
    let scroll = if offset == 0 && max_scroll > 0 {
        max_scroll
    } else if offset < max_scroll {
        offset
    } else {
        max_scroll
    };
    let end = if scroll + avail < total { scroll + avail } else { total };
    (scroll, end as nat)
}

/// The part of the log shown on the error screen.
pub fn error_log_window(total: usize, area_height: u16, offset: usize) -> (res: (usize, usize))
    ensures
        (res.0 as nat, res.1 as nat) == error_window(total as nat, area_height as nat, offset as nat),
        res.0 <= res.1 <= total,
{
    let avail: usize = if area_height >= 2 { (area_height - 2) as usize } else { 0 };
    let max_scroll: usize = if total >= avail { total - avail } else { 0 };
    let scroll: usize = if offset == 0 && max_scroll > 0 {
        max_scroll
    } else if offset < max_scroll {
        offset
    } else {
        max_scroll
    };
    let end: usize = if avail < total - scroll { scroll + avail } else { total };
    (scroll, end)
}

/// The title of the log box while building.
pub open spec fn building_title(total: nat) -> Seq<char> {
    " Build Log ("@ + decimal(total) + " lines) "@
}

/// The title of the log box on the error screen: it says when the log is
/// longer than the box.
pub open spec fn error_title(total: nat, area_height: nat) -> Seq<char> {
    if total > sat_sub(area_height, 2) {
        " Build Log ("@ + decimal(total) + " lines) - Scroll with \u{2191}\u{2193} - Showing last lines "@
    } else {
        " Build Log ("@ + decimal(total) + " lines) "@
    }
}

/// The title of the log box while building.
pub fn building_log_title(total: usize) -> (res: String)
    ensures
        res@ == building_title(total as nat),
{
    let mut s = " Build Log (".to_owned();
    append_decimal(&mut s, total);
    append_str(&mut s, " lines) ");
    s
}

/// The title of the log box on the error screen.
pub fn error_log_title(total: usize, area_height: u16) -> (res: String)
    ensures
        res@ == error_title(total as nat, area_height as nat),
{
    let avail: usize = if area_height >= 2 { (area_height - 2) as usize } else { 0 };
    let mut s = " Build Log (".to_owned();
    append_decimal(&mut s, total);
    if total > avail {
        append_str(&mut s, " lines) - Scroll with \u{2191}\u{2193} - Showing last lines ");
    } else {
        append_str(&mut s, " lines) ");
    }
    s
}

/// The frames of the spinner.
pub open spec fn spinner_frames() -> Seq<char> {
    seq!['\u{280b}', '\u{2819}', '\u{2839}', '\u{2838}', '\u{283c}', '\u{2834}', '\u{2826}', '\u{2827}', '\u{2807}', '\u{280f}']
}

/// The spinner frame after `total` log lines: it moves every second line over
/// the 30 bytes of the frames' text; a position past the ten frames shows the first.
pub open spec fn spinner_at(total: nat) -> char {
    let i = (total / 2) % 30;
    if i < 10 { spinner_frames()[i as int] } else { '\u{280b}' }
}

/// The spinner frame after `total` log lines.
pub fn spinner_frame(total: usize) -> (res: char)
    ensures
        res == spinner_at(total as nat),
{
    let frames: [char; 10] = ['\u{280b}', '\u{2819}', '\u{2839}', '\u{2838}', '\u{283c}', '\u{2834}', '\u{2826}', '\u{2827}', '\u{2807}', '\u{280f}'];
    let i = (total / 2) % 30;
    assert(frames@ =~= spinner_frames());
    if i < 10 { frames[i] } else { '\u{280b}' }
}

/// The message of the error screen.
pub fn error_text(message: &Option<String>) -> (res: String)
    ensures
        res@ == match opt_view(*message) {
            Some(m) => m,
            None => "Unknown error occurred"@,
        },
{
    match message {
        Some(m) => m.clone(),
        None => "Unknown error occurred".to_owned(),
    }
}

/// Where the completion screen says the image is.
pub fn iso_location(config: &Config) -> (res: String)
    ensures
        res@ == match config@.iso_path {
            Some(p) => p,
            None => "Current folder"@,
        },
{
    match &config.iso_path {
        Some(p) => p.clone(),
        None => "Current folder".to_owned(),
    }
}


/// A line of the summary screen.
pub enum SummaryLine {
    Blank,
    /// A heading with its count; `alert` marks the count of packages left out.
    Count { label: String, count: String, alert: bool },
    /// The heading of a group of dotfiles.
    Group(String),
    /// One entry.
    Item(String),
    /// How many entries are not listed.
    More(String),
}

/// A summary line as plain values.
pub enum LineView {
    Blank,
    Count(Seq<char>, Seq<char>, bool),
    Group(Seq<char>),
    Item(Seq<char>),
    More(Seq<char>),
}

/// The lines as plain values.
pub open spec fn line_view(l: SummaryLine) -> LineView {
    match l {
        SummaryLine::Blank => LineView::Blank,
        SummaryLine::Count { label, count, alert } => LineView::Count(label@, count@, alert),
        SummaryLine::Group(g) => LineView::Group(g@),
        SummaryLine::Item(i) => LineView::Item(i@),
        SummaryLine::More(m) => LineView::More(m@),
    }
}

/// The lines as plain values.
pub open spec fn line_views(v: Seq<SummaryLine>) -> Seq<LineView> {
    v.map_values(|l: SummaryLine| line_view(l))
}

/// The first `limit` entries as bullet lines, then a line saying how many more
/// there are, if there are more.
pub open spec fn preview(items: Seq<Seq<char>>, limit: nat, indent: Seq<char>) -> Seq<LineView> {
    let shown = if items.len() > limit { items.take(limit as int) } else { items };
    shown.map_values(|x: Seq<char>| LineView::Item(indent + "\u{2022} "@ + x)) + if items.len() > limit {
        seq![LineView::More(indent + "... and "@ + decimal((items.len() - limit) as nat) + " more"@)]
    } else {
        Seq::empty()
    }
}

/// The summary screen for the choices `c`: the number of dotfiles with the
/// first three of each group, the numbers of official and AUR packages with the
/// first five of each, and the number of packages left out.
pub open spec fn summary_of(c: ConfigView) -> Seq<LineView> {
    let sd = c.selected(ListKind::Dotfiles).map_values(|item: Seq<char>| crate::config::config_entry_path(item));
    let sh = c.selected(ListKind::HomeDotfiles).map_values(|item: Seq<char>| crate::text::trim_slashes(item));
    let so = c.selected(ListKind::Official);
    let sa = c.selected(ListKind::Aur);
    let si = c.selected(ListKind::Ignored);
    let five_spaces = "     "@;
    let three_spaces = "   "@;
    seq![LineView::Blank, LineView::Count("Dotfiles: "@, decimal(sd.len() + sh.len()), false)]
        + (if sd.len() > 0 { seq![LineView::Group("   .config:"@)] + preview(sd, 3, five_spaces) } else { Seq::empty() })
        + (if sh.len() > 0 { seq![LineView::Group("   Home:"@)] + preview(sh, 3, five_spaces) } else { Seq::empty() })
        + seq![LineView::Blank, LineView::Count("Official Packages: "@, decimal(so.len()), false)]
        + preview(so, 5, three_spaces)
        + seq![LineView::Blank, LineView::Count("AUR Packages: "@, decimal(sa.len()), false)]
        + preview(sa, 5, three_spaces)
        + seq![LineView::Blank, LineView::Count("Excluded Packages: "@, decimal(si.len()), true)]
}

fn push_line(v: &mut Vec<SummaryLine>, l: SummaryLine)
    ensures
        line_views(final(v)@) == line_views(old(v)@).push(line_view(l)),
{
    v.push(l);
    assert(line_views(final(v)@) =~= line_views(old(v)@).push(line_view(l)));
}

fn push_preview(v: &mut Vec<SummaryLine>, items: &Vec<String>, limit: usize, indent: &str)
    ensures
        line_views(final(v)@) == line_views(old(v)@) + preview(views(items@), limit as nat, indent@),
{
    let ghost start = line_views(v@);
    let ghost iv = views(items@);
    let n = if items.len() > limit { limit } else { items.len() };
    let ghost shown = if iv.len() > limit { iv.take(limit as int) } else { iv };
    assert(shown.len() == n);
    let mut i: usize = 0;
    while i < n
        invariant
            i <= n,
            n <= items.len(),
            iv == views(items@),
            shown.len() == n,
            forall|k: int| 0 <= k < n ==> shown[k] == iv[k],
            line_views(v@) == start + shown.take(i as int).map_values(|x: Seq<char>| LineView::Item(indent@ + "\u{2022} "@ + x)),
        decreases n - i,
    {
        let mut t = concat_str(indent, "\u{2022} ");
        append_str(&mut t, items[i].as_str());
        let ghost prev = line_views(v@);
        push_line(v, SummaryLine::Item(t));
        assert(shown.take(i + 1) =~= shown.take(i as int).push(shown[i as int]));
        assert(line_views(v@) =~= start + shown.take(i + 1).map_values(|x: Seq<char>| LineView::Item(indent@ + "\u{2022} "@ + x)));
        i = i + 1;
    }
    assert(shown.take(n as int) =~= shown);
    if items.len() > limit {
        let mut t = concat_str(indent, "... and ");
        append_decimal(&mut t, items.len() - limit);
        append_str(&mut t, " more");
        push_line(v, SummaryLine::More(t));
    }
    assert(line_views(v@) =~= start + preview(iv, limit as nat, indent@));
}

fn count_line(label: &str, n: usize, alert: bool) -> (res: SummaryLine)
    ensures
        line_view(res) == LineView::Count(label@, decimal(n as nat), alert),
{
    let count = crate::text::decimal_string(n);
    SummaryLine::Count { label: label.to_owned(), count, alert }
}

/// The counts of the summary: it opens with a blank line and the number of
/// selected `.config` entries plus selected home dotfiles, shows the numbers
/// of selected official and AUR packages, and ends with the number of
/// packages left out, marked.
pub proof fn lemma_summary_counts(c: ConfigView)
    ensures
        summary_of(c).len() >= 2,
        summary_of(c)[0] == LineView::Blank,
        summary_of(c)[1] == LineView::Count("Dotfiles: "@,
            decimal(c.selected(ListKind::Dotfiles).len() + c.selected(ListKind::HomeDotfiles).len()), false),
        summary_of(c).last() == LineView::Count("Excluded Packages: "@,
            decimal(c.selected(ListKind::Ignored).len()), true),
        summary_of(c).contains(LineView::Count("Official Packages: "@,
            decimal(c.selected(ListKind::Official).len()), false)),
        summary_of(c).contains(LineView::Count("AUR Packages: "@,
            decimal(c.selected(ListKind::Aur).len()), false)),
{
    let sd = c.selected(ListKind::Dotfiles).map_values(|item: Seq<char>| crate::config::config_entry_path(item));
    let sh = c.selected(ListKind::HomeDotfiles).map_values(|item: Seq<char>| crate::text::trim_slashes(item));
    let so = c.selected(ListKind::Official);
    let sa = c.selected(ListKind::Aur);
    let five_spaces = "     "@;
    let three_spaces = "   "@;
    let head = seq![LineView::Blank, LineView::Count("Dotfiles: "@, decimal(sd.len() + sh.len()), false)];
    let p1 = head
        + (if sd.len() > 0 { seq![LineView::Group("   .config:"@)] + preview(sd, 3, five_spaces) } else { Seq::empty() })
        + (if sh.len() > 0 { seq![LineView::Group("   Home:"@)] + preview(sh, 3, five_spaces) } else { Seq::empty() });
    let p2 = p1 + seq![LineView::Blank, LineView::Count("Official Packages: "@, decimal(so.len()), false)];
    let p3 = p2 + preview(so, 5, three_spaces);
    let p4 = p3 + seq![LineView::Blank, LineView::Count("AUR Packages: "@, decimal(sa.len()), false)];
    let si = c.selected(ListKind::Ignored);
    let tail = seq![LineView::Blank, LineView::Count("Excluded Packages: "@, decimal(si.len()), true)];
    let all = summary_of(c);
    assert(all =~= p4 + preview(sa, 5, three_spaces) + tail);
    assert(sd.len() == c.selected(ListKind::Dotfiles).len());
    assert(sh.len() == c.selected(ListKind::HomeDotfiles).len());
    assert(all[0] == head[0]);
    assert(all[1] == head[1]);
    let i2: int = p1.len() as int + 1;
    assert(all[i2] == p2[i2]);
    let i4: int = p3.len() as int + 1;
    assert(all[i4] == p4[i4]);
    assert(all.last() == tail[1]);
}

/// The step that the summary screen marks as current: the build.
pub open spec fn summary_step() -> nat {
    6
}

/// What the summary screen shows: its place in the progress line and its lines.
pub struct SummaryView {
    pub step: usize,
    pub lines: Vec<SummaryLine>,
}

/// What the summary screen shows.
pub fn summary_view(config: &Config) -> (res: SummaryView)
    ensures
        res.step == summary_step(),
        res.step == 6,
        line_views(res.lines@) == summary_of(config@),
        line_views(res.lines@)[1] == LineView::Count("Dotfiles: "@,
            decimal(config@.selected(ListKind::Dotfiles).len() + config@.selected(ListKind::HomeDotfiles).len()), false),
{
    proof {
        lemma_summary_counts(config@);
    }
    SummaryView { step: 6, lines: summary_lines(config) }
}

/// The lines of the summary screen.
#[verifier::rlimit(40)]
pub fn summary_lines(config: &Config) -> (res: Vec<SummaryLine>)
    ensures
        line_views(res@) == summary_of(config@),
        line_views(res@)[1] == LineView::Count("Dotfiles: "@,
            decimal(config@.selected(ListKind::Dotfiles).len() + config@.selected(ListKind::HomeDotfiles).len()), false),
{
    let sd = config.get_selected_dotfiles();
    let sh = config.get_selected_home_dotfiles();
    let so = config.get_selected_official();
    let sa = config.get_selected_aur();
    let si = config.get_selected_ignored();
    proof {
        assert(views(sd@).len() == sd@.len());
        assert(views(sh@).len() == sh@.len());
        assert(views(so@).len() == so@.len());
        assert(views(sa@).len() == sa@.len());
        assert(views(si@).len() == si@.len());
    }
    let mut v: Vec<SummaryLine> = Vec::new();
    push_line(&mut v, SummaryLine::Blank);
    let mut total = String::new();
    crate::text::append_decimal_sum(&mut total, sd.len(), sh.len());
    assert(total@ =~= decimal((sd.len() + sh.len()) as nat));
    push_line(&mut v, SummaryLine::Count { label: "Dotfiles: ".to_owned(), count: total, alert: false });
    let ghost part1 = line_views(v@);
    if sd.len() > 0 {
        push_line(&mut v, SummaryLine::Group("   .config:".to_owned()));
        push_preview(&mut v, &sd, 3, "     ");
    }
    let ghost part2 = line_views(v@);
    if sh.len() > 0 {
        push_line(&mut v, SummaryLine::Group("   Home:".to_owned()));
        push_preview(&mut v, &sh, 3, "     ");
    }
    let ghost part3 = line_views(v@);
    push_line(&mut v, SummaryLine::Blank);
    push_line(&mut v, count_line("Official Packages: ", so.len(), false));
    push_preview(&mut v, &so, 5, "   ");
    let ghost part4 = line_views(v@);
    push_line(&mut v, SummaryLine::Blank);
    push_line(&mut v, count_line("AUR Packages: ", sa.len(), false));
    push_preview(&mut v, &sa, 5, "   ");
    let ghost part5 = line_views(v@);
    push_line(&mut v, SummaryLine::Blank);
    push_line(&mut v, count_line("Excluded Packages: ", si.len(), true));
    proof {
        let five_spaces = "     "@;
        let three_spaces = "   "@;
        assert(part1 =~= seq![LineView::Blank, LineView::Count("Dotfiles: "@, decimal((sd.len() + sh.len()) as nat), false)]);
        assert(part2 =~= part1 + (if views(sd@).len() > 0 { seq![LineView::Group("   .config:"@)] + preview(views(sd@), 3, five_spaces) } else { Seq::empty() }));
        assert(part3 =~= part2 + (if views(sh@).len() > 0 { seq![LineView::Group("   Home:"@)] + preview(views(sh@), 3, five_spaces) } else { Seq::empty() }));
        assert(part4 =~= part3 + seq![LineView::Blank, LineView::Count("Official Packages: "@, decimal(views(so@).len()), false)] + preview(views(so@), 5, three_spaces));
        assert(part5 =~= part4 + seq![LineView::Blank, LineView::Count("AUR Packages: "@, decimal(views(sa@).len()), false)] + preview(views(sa@), 5, three_spaces));
        assert(line_views(v@) =~= part5 + seq![LineView::Blank, LineView::Count("Excluded Packages: "@, decimal(views(si@).len()), true)]);
    }
    assert(line_views(v@) =~= summary_of(config@));
    proof {
        lemma_summary_counts(config@);
    }
    v
}


/// A line of a log box with its colour.
pub struct ShownLine {
    pub text: String,
    pub style: LogStyle,
}

/// The lines as plain values.
pub open spec fn shown_views(v: Seq<ShownLine>) -> Seq<(Seq<char>, LogStyle)> {
    v.map_values(|l: ShownLine| (l.text@, l.style))
}

/// What the log box shows while building: a note that the build is starting
/// while the log is empty, else the last lines that fit, coloured.
pub open spec fn building_log_lines(out: Seq<Seq<char>>, area_height: nat) -> Seq<(Seq<char>, LogStyle)> {
    if out.len() == 0 {
        seq![(Seq::<char>::empty(), LogStyle::Plain), ("Initializing build process..."@, LogStyle::Info)]
    } else {
        out.skip(sat_sub(out.len(), sat_sub(area_height, 2)) as int).map_values(
            |l: Seq<char>| (l, building_line_style(l)))
    }
}

/// What the log box shows on the error screen: a note that there is no output
/// when the log is empty, else the lines of the shown part, coloured.
pub open spec fn error_log_lines(out: Seq<Seq<char>>, area_height: nat, offset: nat) -> Seq<(Seq<char>, LogStyle)> {
    if out.len() == 0 {
        seq![(Seq::<char>::empty(), LogStyle::Plain), ("No build output available"@, LogStyle::Muted)]
    } else {
        let (start, end) = error_window(out.len(), area_height, offset);
        out.subrange(start as int, end as int).map_values(|l: Seq<char>| (l, error_line_style(l)))
    }
}

fn note_lines(note: &str, style: LogStyle) -> (res: Vec<ShownLine>)
    ensures
        shown_views(res@) == seq![(Seq::<char>::empty(), LogStyle::Plain), (note@, style)],
{
    let mut v: Vec<ShownLine> = Vec::new();
    v.push(ShownLine { text: String::new(), style: LogStyle::Plain });
    v.push(ShownLine { text: note.to_owned(), style });
    assert(shown_views(v@) =~= seq![(Seq::<char>::empty(), LogStyle::Plain), (note@, style)]);
    v
}

fn styled_range(out: &Vec<String>, start: usize, end: usize, on_error_screen: bool) -> (res: Vec<ShownLine>)
    requires
        start <= end <= out.len(),
    ensures
        !on_error_screen ==> shown_views(res@) == views(out@).subrange(start as int, end as int).map_values(
            |l: Seq<char>| (l, building_line_style(l))),
        on_error_screen ==> shown_views(res@) == views(out@).subrange(start as int, end as int).map_values(
            |l: Seq<char>| (l, error_line_style(l))),
{
    let mut v: Vec<ShownLine> = Vec::new();
    let mut i: usize = start;
    while i < end
        invariant
            start <= i <= end <= out.len(),
            !on_error_screen ==> shown_views(v@) == views(out@).subrange(start as int, i as int).map_values(
                |l: Seq<char>| (l, building_line_style(l))),
            on_error_screen ==> shown_views(v@) == views(out@).subrange(start as int, i as int).map_values(
                |l: Seq<char>| (l, error_line_style(l))),
        decreases end - i,
    {
        let line = out[i].clone();
        let style = if on_error_screen { error_log_style(line.as_str()) } else { building_log_style(line.as_str()) };
        let ghost prev = shown_views(v@);
        let ghost lv = line@;
        v.push(ShownLine { text: line, style });
        assert(shown_views(v@) =~= prev.push((lv, style)));
        assert(views(out@).subrange(start as int, i + 1) =~= views(out@).subrange(start as int, i as int).push(lv));
        i = i + 1;
    }
    v
}

/// What the log box shows while building.
pub fn building_log_view(out: &Vec<String>, area_height: u16) -> (res: Vec<ShownLine>)
    ensures
        shown_views(res@) == building_log_lines(views(out@), area_height as nat),
{
    assert(views(out@).len() == out@.len());
    if out.len() == 0 {
        note_lines("Initializing build process...", LogStyle::Info)
    } else {
        let start = building_log_start(out.len(), area_height);
        let v = styled_range(out, start, out.len(), false);
        assert(views(out@).subrange(start as int, out.len() as int) =~= views(out@).skip(start as int));
        v
    }
}

/// What the log box shows on the error screen.
pub fn error_log_view(out: &Vec<String>, area_height: u16, offset: usize) -> (res: Vec<ShownLine>)
    ensures
        shown_views(res@) == error_log_lines(views(out@), area_height as nat, offset as nat),
{
    assert(views(out@).len() == out@.len());
    if out.len() == 0 {
        note_lines("No build output available", LogStyle::Muted)
    } else {
        let (start, end) = error_log_window(out.len(), area_height, offset);
        styled_range(out, start, end, true)
    }
}

} // verus!
