use omarchyiso::config::{Config, AUR_PACKAGES_FILE, IGNORED_PACKAGES_FILE, OFFICIAL_PACKAGES_FILE};
use omarchyiso::scan::{
    config_entry_names, home_entry_names, is_home_dotfile_candidate, is_iso_file_name,
    parse_base_package_list, parse_package_list, DirEntry, EntryKind,
};
use omarchyiso::state::{AppState, ListKind};
use omarchyiso::ui::Ui;

fn owned(v: &[&str]) -> Vec<String> {
    v.iter().map(|s| s.to_string()).collect()
}

fn entry(name: &str, kind: EntryKind) -> DirEntry {
    DirEntry { name: name.to_string(), kind }
}

fn sample_config() -> Config {
    let mut c = Config::new("/home/u");
    c.load_aur_packages(true, "yay\nparu\nspotify\n");
    c.load_official_packages(true, "firefox\nGimp\ninkscape\n");
    c.load_omarchy_packages(true, "# base\nhyprland\n\nwaybar\n# end\n");
    c.load_dotfiles(&vec![
        entry("nvim", EntryKind::Directory),
        entry("starship.toml", EntryKind::File),
        entry("alacritty", EntryKind::Directory),
    ]);
    c.load_home_dotfiles(&vec![
        entry(".zshrc", EntryKind::File),
        entry(".oh-my-zsh", EntryKind::Directory),
        entry(".cache", EntryKind::Directory),
        entry("Documents", EntryKind::Directory),
    ]);
    c
}

#[test]
fn new_config_points_into_current_dir() {
    let c = Config::new("/home/u");
    assert_eq!(c.work_dir, "/home/u/omarchyiso_build");
    assert!(c.aur_packages.is_empty() && c.selected_aur.is_empty());
    assert_eq!(c.iso_path, None);
    assert_eq!(c.work_dir_parent(), "/home/u");
    assert_eq!(c.iso_destination("omarchy.iso"), "/home/u/omarchy.iso");
}

#[test]
fn loading_lists() {
    let c = sample_config();
    assert_eq!(c.aur_packages, owned(&["yay", "paru", "spotify"]));
    assert_eq!(c.selected_aur, vec![false; 3]);
    assert_eq!(c.omarchy_packages, owned(&["hyprland", "waybar"]));
    assert_eq!(c.selected_ignored, vec![false; 2]);
    assert_eq!(c.dotfiles, owned(&["alacritty/", "nvim/", "starship.toml"]));
    assert_eq!(c.home_dotfiles, owned(&[".oh-my-zsh/", ".zshrc"]));
    assert_eq!(c.selected_home_dotfiles, vec![false; 2]);
}

#[test]
fn failed_scan_keeps_list() {
    let mut c = sample_config();
    c.load_aur_packages(false, "other\n");
    assert_eq!(c.aur_packages, owned(&["yay", "paru", "spotify"]));
}

#[test]
fn selections_in_order() {
    let mut c = sample_config();
    c.toggle(ListKind::Aur, 2);
    c.toggle(ListKind::Aur, 0);
    assert_eq!(c.get_selected_aur(), owned(&["yay", "spotify"]));
    c.toggle(ListKind::Dotfiles, 1);
    c.toggle(ListKind::Dotfiles, 2);
    assert_eq!(c.get_selected_dotfiles(), owned(&[".config/nvim", ".config/starship.toml"]));
    c.toggle(ListKind::HomeDotfiles, 0);
    assert_eq!(c.get_selected_home_dotfiles(), owned(&[".oh-my-zsh"]));
    assert!(c.get_selected_official().is_empty());
    assert!(c.get_selected_ignored().is_empty());
}

#[test]
fn missing_flags_count_as_unselected() {
    let mut c = sample_config();
    c.selected_official = vec![true];
    assert_eq!(c.get_selected_official(), owned(&["firefox"]));
}

#[test]
fn finalize_changes_nothing() {
    let mut c = sample_config();
    c.toggle(ListKind::Aur, 1);
    let ui = Ui::new();
    c.finalize_aur_selection(&ui);
    c.finalize_official_selection(&ui);
    c.finalize_ignored_selection(&ui);
    c.finalize_dotfiles_selection(&ui);
    c.finalize_home_dotfiles_selection(&ui);
    assert_eq!(c.get_selected_aur(), owned(&["paru"]));
}

#[test]
fn package_files_only_for_selections() {
    let mut c = sample_config();
    assert!(c.package_files().is_empty());
    c.toggle(ListKind::Aur, 0);
    c.toggle(ListKind::Aur, 1);
    c.toggle(ListKind::Ignored, 1);
    let files = c.package_files();
    assert_eq!(files.len(), 2);
    assert_eq!(files[0].file_name, AUR_PACKAGES_FILE);
    assert_eq!(files[0].content, "yay\nparu");
    assert_eq!(files[1].file_name, IGNORED_PACKAGES_FILE);
    assert_eq!(files[1].content, "waybar");
    c.toggle(ListKind::Official, 0);
    assert_eq!(c.package_files()[0].file_name, OFFICIAL_PACKAGES_FILE);
}

#[test]
fn copy_plans() {
    let mut c = sample_config();
    c.toggle(ListKind::Dotfiles, 1);
    c.toggle(ListKind::HomeDotfiles, 0);
    let cfg = c.config_dotfile_copies();
    assert_eq!(cfg.len(), 1);
    assert_eq!(cfg[0].source, ".config/nvim");
    assert_eq!(cfg[0].dest, "nvim");
    let home = c.home_dotfile_copies();
    assert_eq!(home.len(), 1);
    assert_eq!(home[0].source, ".oh-my-zsh");
    assert_eq!(home[0].dest, ".oh-my-zsh");
}

#[test]
fn package_list_parsing() {
    assert_eq!(parse_package_list("a\n\nb\n"), owned(&["a", "b"]));
    assert_eq!(parse_base_package_list("#x\na\n #y\n"), owned(&["a", " #y"]));
}

#[test]
fn dir_listings() {
    let entries = vec![
        entry("b", EntryKind::File),
        entry("a", EntryKind::Directory),
        entry("link", EntryKind::Other),
    ];
    assert_eq!(config_entry_names(&entries), owned(&["a/", "b"]));
    let home = vec![
        entry(".ssh", EntryKind::Directory),
        entry(".local", EntryKind::Directory),
        entry(".mozilla", EntryKind::Directory),
        entry(".gnupg", EntryKind::Directory),
        entry(".config", EntryKind::Directory),
        entry(".vimrc", EntryKind::File),
        entry(".tmux", EntryKind::Directory),
        entry("notes", EntryKind::File),
    ];
    assert_eq!(home_entry_names(&home), owned(&[".tmux/", ".vimrc"]));
    assert!(is_home_dotfile_candidate(".bashrc"));
    assert!(!is_home_dotfile_candidate(".cache"));
    assert!(!is_home_dotfile_candidate("bashrc"));
}

#[test]
fn iso_names() {
    assert!(is_iso_file_name("omarchy-2025.iso"));
    assert!(is_iso_file_name("..iso"));
    assert!(!is_iso_file_name(".iso"));
    assert!(!is_iso_file_name("a.iso.sig"));
    assert!(!is_iso_file_name("a.ISO"));
}

#[test]
fn filter_is_case_insensitive() {
    let c = sample_config();
    let mut ui = Ui::new();
    ui.handle_char('G', &AppState::SelectingOfficialPackages);
    assert_eq!(ui.get_filtered_indices(&c.official_packages), vec![1]);
    let mut ui2 = Ui::new();
    ui2.handle_char('a', &AppState::SelectingAurPackages);
    assert_eq!(ui2.get_filtered_indices(&c.aur_packages), vec![0, 1]);
}

#[test]
fn filter_lowercases_unicode() {
    let items = owned(&["Äpfel", "birne"]);
    let mut ui = Ui::new();
    ui.filter_text = "ä".to_string();
    assert_eq!(ui.get_filtered_indices(&items), vec![0]);
    ui.filter_text = "ÄP".to_string();
    assert_eq!(ui.get_filtered_indices(&items), vec![0]);
}

#[test]
fn cursor_moves_within_rows() {
    let c = sample_config();
    let st = AppState::SelectingAurPackages;
    let mut ui = Ui::new();
    ui.handle_up(&st);
    assert_eq!(ui.selected_index, 0);
    ui.handle_down(&st, &c);
    ui.handle_down(&st, &c);
    ui.handle_down(&st, &c);
    assert_eq!(ui.selected_index, 2);
    ui.handle_up(&st);
    assert_eq!(ui.selected_index, 1);
    let mut other = Ui::new();
    other.handle_down(&AppState::Summary, &c);
    assert_eq!(other.selected_index, 0);
}

#[test]
fn error_log_scrolling() {
    let c = sample_config();
    let mut ui = Ui::new();
    ui.handle_down(&AppState::Error, &c);
    ui.handle_down(&AppState::Error, &c);
    assert_eq!(ui.error_scroll_offset, 2);
    ui.handle_up(&AppState::Error);
    assert_eq!(ui.error_scroll_offset, 1);
    assert_eq!(ui.selected_index, 0);
}

#[test]
fn space_toggles_row_under_cursor_and_twice_restores() {
    let mut c = sample_config();
    let st = AppState::SelectingOfficialPackages;
    let mut ui = Ui::new();
    ui.handle_char('i', &st); // firefox, Gimp, inkscape all contain i
    ui.handle_char('n', &st); // only inkscape
    ui.handle_space(&st, &mut c);
    assert_eq!(c.selected_official, vec![false, false, true]);
    ui.handle_space(&st, &mut c);
    assert_eq!(c.selected_official, vec![false, false, false]);
    let mut ui2 = Ui::new();
    ui2.handle_char('z', &st);
    ui2.handle_space(&st, &mut c);
    assert_eq!(c.selected_official, vec![false, false, false]);
    let mut ui3 = Ui::new();
    ui3.handle_space(&AppState::Welcome, &mut c);
    assert_eq!(c.selected_official, vec![false, false, false]);
}

#[test]
fn typing_and_backspace() {
    let st = AppState::SelectingDotfiles;
    let mut ui = Ui::new();
    ui.selected_index = 3;
    ui.handle_char('n', &st);
    assert_eq!(ui.filter_text, "n");
    assert_eq!(ui.selected_index, 0);
    ui.handle_char('v', &st);
    ui.handle_backspace(&st);
    assert_eq!(ui.filter_text, "n");
    ui.handle_backspace(&st);
    ui.handle_backspace(&st);
    assert_eq!(ui.filter_text, "");
    ui.handle_char('x', &AppState::Summary);
    assert_eq!(ui.filter_text, "");
    ui.filter_text = "ab".to_string();
    ui.handle_backspace(&AppState::Welcome);
    assert_eq!(ui.filter_text, "ab");
}

#[test]
fn reset_clears_everything() {
    let mut ui = Ui::new();
    ui.selected_index = 4;
    ui.filter_text = "abc".to_string();
    ui.error_scroll_offset = 9;
    ui.reset_state();
    assert_eq!(ui.selected_index, 0);
    assert_eq!(ui.filter_text, "");
    assert_eq!(ui.error_scroll_offset, 0);
}

#[test]
fn empty_filter_shows_every_entry() {
    let c = sample_config();
    let ui = Ui::new();
    assert_eq!(ui.get_filtered_indices(&c.official_packages), vec![0, 1, 2]);
    assert_eq!(ui.get_filtered_indices(&[]), Vec::<usize>::new());
}

#[test]
fn all_flags_select_whole_list() {
    let mut c = sample_config();
    for i in 0..3 {
        c.toggle(ListKind::Official, i);
    }
    assert_eq!(c.get_selected_official(), c.official_packages);
    assert_eq!(c.get_selected(ListKind::Official), c.official_packages);
}

#[test]
fn first_image_and_where_it_is_recorded() {
    let names = owned(&["log.txt", ".iso", "a.iso", "b.iso"]);
    assert_eq!(omarchyiso::scan::first_iso(&names), Some(2));
    assert_eq!(omarchyiso::scan::first_iso(&owned(&["x", "y.iso.sig"])), None);
    let mut c = sample_config();
    c.toggle(ListKind::Aur, 0);
    let dest = c.record_iso("a.iso");
    assert_eq!(dest, "/home/u/a.iso");
    assert_eq!(c.iso_path.as_deref(), Some("/home/u/a.iso"));
    assert_eq!(c.get_selected_aur(), owned(&["yay"]));
    assert_eq!(c.work_dir, "/home/u/omarchyiso_build");
}

#[test]
fn more_flags_never_drop_a_selection() {
    let mut c = sample_config();
    c.toggle(ListKind::Official, 2);
    let before = c.get_selected_official();
    c.toggle(ListKind::Official, 0);
    let after = c.get_selected_official();
    assert!(before.len() <= after.len());
    assert!(before.iter().all(|p| after.contains(p)));
    assert_eq!(after, owned(&["firefox", "inkscape"]));
}
