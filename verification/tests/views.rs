use omarchyiso::config::Config;
use omarchyiso::state::ListKind;
use omarchyiso::ui::Ui;
use omarchyiso::view::{
    building_log_view, error_log_view,
    building_log_start, building_log_style, building_log_title, error_log_style,
    error_log_title, error_log_window, error_text, iso_location, selection_view,
    spinner_frame, step_indicator, summary_lines, LogStyle, StepMark, SummaryLine,
};

#[test]
fn step_line() {
    let segs = step_indicator(3);
    let texts: Vec<&str> = segs.iter().map(|s| s.text.as_str()).collect();
    assert_eq!(texts, vec!["[1:AUR]", "[2:Official]", "[3:Exclude]", "[4:.config]", "[5:Home]", "[6:Build]"]);
    let marks: Vec<StepMark> = segs.iter().map(|s| s.mark).collect();
    assert_eq!(marks, vec![StepMark::Done, StepMark::Done, StepMark::Current, StepMark::Upcoming, StepMark::Upcoming, StepMark::Upcoming]);
}

#[test]
fn selection_screen() {
    let mut c = Config::new("/h");
    c.load_official_packages(true, "firefox\ngimp\ninkscape\n");
    c.toggle(ListKind::Official, 2);
    let mut ui = Ui::new();
    let v = selection_view(&ui, &c, ListKind::Official);
    assert_eq!(v.title, "Official Packages");
    assert_eq!(v.step, 2);
    assert_eq!(v.search_text, "Type to search...");
    assert!(!v.filtering);
    assert_eq!(v.rows.len(), 3);
    assert!(v.rows[2].checked && !v.rows[0].checked);
    assert_eq!(v.list_title, " 1 / 3 selected ");
    assert_eq!(v.status, "Total: 3 packages");
    ui.filter_text = "i".to_string();
    ui.selected_index = 7;
    let v = selection_view(&ui, &c, ListKind::Official);
    assert_eq!(v.search_text, "i_");
    assert_eq!(v.highlighted, 2);
    assert_eq!(v.status, "Showing 3 of 3 packages");
    ui.filter_text = "nk".to_string();
    let v = selection_view(&ui, &c, ListKind::Official);
    assert_eq!(v.rows.len(), 1);
    assert_eq!(v.rows[0].index, 2);
    assert_eq!(v.highlighted, 0);
    let d = selection_view(&Ui::new(), &c, ListKind::Dotfiles);
    assert_eq!(d.title, ".config Files & Folders");
    assert_eq!(d.status, "Total: 0 items");
    assert_eq!(d.list_title, " 0 / 0 selected ");
}

fn text(l: &SummaryLine) -> String {
    match l {
        SummaryLine::Blank => String::new(),
        SummaryLine::Count { label, count, .. } => format!("{}{}", label, count),
        SummaryLine::Group(g) => g.clone(),
        SummaryLine::Item(i) => i.clone(),
        SummaryLine::More(m) => m.clone(),
    }
}

#[test]
fn summary() {
    let mut c = Config::new("/h");
    c.load_official_packages(true, "a\nb\nc\nd\ne\nf\ng\n");
    for i in 0..7 {
        c.toggle(ListKind::Official, i);
    }
    c.set_list(ListKind::Dotfiles, vec!["nvim/".to_string()]);
    c.toggle(ListKind::Dotfiles, 0);
    let lines: Vec<String> = summary_lines(&c).iter().map(text).collect();
    assert_eq!(lines, vec![
        "",
        "Dotfiles: 1",
        "   .config:",
        "     \u{2022} .config/nvim",
        "",
        "Official Packages: 7",
        "   \u{2022} a",
        "   \u{2022} b",
        "   \u{2022} c",
        "   \u{2022} d",
        "   \u{2022} e",
        "   ... and 2 more",
        "",
        "AUR Packages: 0",
        "",
        "Excluded Packages: 0",
    ]);
    match summary_lines(&c).last().unwrap() {
        SummaryLine::Count { alert, .. } => assert!(*alert),
        _ => panic!("last line is the excluded count"),
    }
}

#[test]
fn log_styles() {
    assert_eq!(building_log_style("\u{2713} done"), LogStyle::Success);
    assert_eq!(building_log_style("\u{26a0} warn"), LogStyle::Failure);
    assert_eq!(building_log_style("\u{1f4e6} pkg"), LogStyle::Info);
    assert_eq!(building_log_style("\u{23f1}  wait"), LogStyle::Timing);
    assert_eq!(building_log_style("an error here"), LogStyle::Plain);
    assert_eq!(error_log_style("an error here"), LogStyle::Failure);
    assert_eq!(error_log_style("Failed badly"), LogStyle::Failure);
    assert_eq!(error_log_style("all good"), LogStyle::Plain);
    assert_eq!(error_log_style(""), LogStyle::Plain);
}

#[test]
fn log_windows() {
    assert_eq!(building_log_start(100, 12), 90);
    assert_eq!(building_log_start(5, 12), 0);
    assert_eq!(building_log_start(5, 1), 5);
    // Default: the end of the log.
    assert_eq!(error_log_window(100, 12, 0), (90, 100));
    // Scrolled.
    assert_eq!(error_log_window(100, 12, 3), (3, 13));
    assert_eq!(error_log_window(100, 12, 500), (90, 100));
    // Short log.
    assert_eq!(error_log_window(4, 12, 2), (0, 4));
    assert_eq!(building_log_title(4), " Build Log (4 lines) ");
    assert_eq!(error_log_title(4, 12), " Build Log (4 lines) ");
    assert_eq!(error_log_title(40, 12), " Build Log (40 lines) - Scroll with \u{2191}\u{2193} - Showing last lines ");
}

#[test]
fn spinner() {
    let frames: Vec<char> = "\u{280b}\u{2819}\u{2839}\u{2838}\u{283c}\u{2834}\u{2826}\u{2827}\u{2807}\u{280f}".chars().collect();
    assert_eq!(spinner_frame(0), frames[0]);
    assert_eq!(spinner_frame(5), frames[2]);
    assert_eq!(spinner_frame(19), frames[9]);
    assert_eq!(spinner_frame(20), '\u{280b}');
    assert_eq!(spinner_frame(60), frames[0]);
}

#[test]
fn messages_with_fallbacks() {
    assert_eq!(error_text(&None), "Unknown error occurred");
    assert_eq!(error_text(&Some("boom".to_string())), "boom");
    let mut c = Config::new("/h");
    assert_eq!(iso_location(&c), "Current folder");
    c.iso_path = Some("/h/x.iso".to_string());
    assert_eq!(iso_location(&c), "/h/x.iso");
}

#[test]
fn log_boxes_with_and_without_output() {
    let empty: Vec<String> = Vec::new();
    let b = building_log_view(&empty, 12);
    assert_eq!(b.len(), 2);
    assert_eq!(b[0].text, "");
    assert_eq!(b[1].text, "Initializing build process...");
    assert_eq!(b[1].style, LogStyle::Info);
    let e = error_log_view(&empty, 12, 0);
    assert_eq!(e[1].text, "No build output available");
    assert_eq!(e[1].style, LogStyle::Muted);
    let out: Vec<String> = (0..20).map(|i| format!("line {}", i)).collect();
    let b = building_log_view(&out, 7);
    let texts: Vec<&str> = b.iter().map(|l| l.text.as_str()).collect();
    assert_eq!(texts, vec!["line 15", "line 16", "line 17", "line 18", "line 19"]);
    let mut out2 = out.clone();
    out2.push("\u{2713} done".to_string());
    out2.push("build failed".to_string());
    let e = error_log_view(&out2, 5, 0);
    assert_eq!(e.len(), 3);
    assert_eq!(e[1].style, LogStyle::Success);
    assert_eq!(e[2].style, LogStyle::Failure);
    let e = error_log_view(&out2, 5, 1);
    assert_eq!(e[0].text, "line 1");
}

#[test]
fn welcome_directory_follows_path_parent() {
    let mut c = Config::new("/home/u");
    assert_eq!(c.work_dir_parent(), "/home/u");
    c.work_dir = "/".to_string();
    assert_eq!(c.work_dir_parent(), ".");
    assert_eq!(c.work_dir_parent_path(), None);
    c.work_dir = String::new();
    assert_eq!(c.work_dir_parent(), ".");
    c.work_dir = "a/".to_string();
    assert_eq!(c.work_dir_parent(), "");
    assert_eq!(c.iso_destination("f.iso"), "f.iso");
    c.work_dir = "/srv//build/".to_string();
    assert_eq!(c.iso_destination("f.iso"), "/srv/f.iso");
}

#[test]
fn summary_marks_the_build_step() {
    let c = Config::new("/h");
    let v = omarchyiso::view::summary_view(&c);
    assert_eq!(v.step, 6);
    assert_eq!(v.lines.len(), summary_lines(&c).len());
}
