use vstd::prelude::*;

use crate::scan::{
    base_package_lines, config_listing, home_listing, parse_base_package_list,
    parse_package_list, entry_views, config_entry_names, home_entry_names, DirEntry,
};
use crate::state::ListKind;
use crate::text::{
    append_str, join_path, join_path_str, nonempty_lines, path_parent, path_parent_str,
    strip_prefix_or_keep, trim_slashes, trim_trailing_slashes, views, without_prefix,
};
use crate::order::sorted;
use crate::text::line_scan;
use crate::ui::Ui;

verus! {

/// The name of the directory, inside the directory the program starts in,
/// where the image is built.
pub const WORK_DIR_NAME: &'static str = "omarchyiso_build";

/// Where, inside the work directory, the selected `.config` entries are copied.
pub const CONFIG_DOTFILES_TARGET: &'static str = "configs/airootfs/root/custom-config";

/// Where, inside the work directory, the selected home dotfiles are copied.
pub const HOME_DOTFILES_TARGET: &'static str = "configs/airootfs/root/omarchy/default/home-dotfiles";

/// The prefix that names an entry of `~/.config` relative to the home directory.
pub const CONFIG_PREFIX: &'static str = ".config/";

/// What the user chose for the image: the lists offered, which entries of each
/// are selected, and where the image is built.
pub struct Config {
    pub work_dir: String,
    pub aur_packages: Vec<String>,
    pub selected_aur: Vec<bool>,
    pub official_packages: Vec<String>,
    pub selected_official: Vec<bool>,
    pub omarchy_packages: Vec<String>,
    pub selected_ignored: Vec<bool>,
    pub dotfiles: Vec<String>,
    pub selected_dotfiles: Vec<bool>,
    pub home_dotfiles: Vec<String>,
    pub selected_home_dotfiles: Vec<bool>,
    pub iso_path: Option<String>,
}

/// A `Config` as plain values.
#[verifier::ext_equal]
pub struct ConfigView {
    pub work_dir: Seq<char>,
    pub aur_packages: Seq<Seq<char>>,
    pub selected_aur: Seq<bool>,
    pub official_packages: Seq<Seq<char>>,
    pub selected_official: Seq<bool>,
    pub omarchy_packages: Seq<Seq<char>>,
    pub selected_ignored: Seq<bool>,
    pub dotfiles: Seq<Seq<char>>,
    pub selected_dotfiles: Seq<bool>,
    pub home_dotfiles: Seq<Seq<char>>,
    pub selected_home_dotfiles: Seq<bool>,
    pub iso_path: Option<Seq<char>>,
}

/// The characters of an optional string.
pub open spec fn opt_view(o: Option<String>) -> Option<Seq<char>> {
    match o {
        Some(s) => Some(s@),
        None => None,
    }
}

impl View for Config {
    type V = ConfigView;

    open spec fn view(&self) -> ConfigView {
        ConfigView {
            work_dir: self.work_dir@,
            aur_packages: views(self.aur_packages@),
            selected_aur: self.selected_aur@,
            official_packages: views(self.official_packages@),
            selected_official: self.selected_official@,
            omarchy_packages: views(self.omarchy_packages@),
            selected_ignored: self.selected_ignored@,
            dotfiles: views(self.dotfiles@),
            selected_dotfiles: self.selected_dotfiles@,
            home_dotfiles: views(self.home_dotfiles@),
            selected_home_dotfiles: self.selected_home_dotfiles@,
            iso_path: opt_view(self.iso_path),
        }
    }
}

impl ConfigView {
    /// The entries of the list `k`.
    pub open spec fn items(self, k: ListKind) -> Seq<Seq<char>> {
        match k {
            ListKind::Aur => self.aur_packages,
            ListKind::Official => self.official_packages,
            ListKind::Ignored => self.omarchy_packages,
            ListKind::Dotfiles => self.dotfiles,
            ListKind::HomeDotfiles => self.home_dotfiles,
        }
    }

    /// The selection flags of the list `k`.
    pub open spec fn flags(self, k: ListKind) -> Seq<bool> {
        match k {
            ListKind::Aur => self.selected_aur,
            ListKind::Official => self.selected_official,
            ListKind::Ignored => self.selected_ignored,
            ListKind::Dotfiles => self.selected_dotfiles,
            ListKind::HomeDotfiles => self.selected_home_dotfiles,
        }
    }

    /// This configuration with the flags of list `k` replaced by `flags`.
    pub open spec fn with_flags(self, k: ListKind, flags: Seq<bool>) -> ConfigView {
        match k {
            ListKind::Aur => ConfigView { selected_aur: flags, ..self },
            ListKind::Official => ConfigView { selected_official: flags, ..self },
            ListKind::Ignored => ConfigView { selected_ignored: flags, ..self },
            ListKind::Dotfiles => ConfigView { selected_dotfiles: flags, ..self },
            ListKind::HomeDotfiles => ConfigView { selected_home_dotfiles: flags, ..self },
        }
    }

    /// This configuration with list `k` replaced by `items`, none of them selected.
    pub open spec fn with_fresh_list(self, k: ListKind, items: Seq<Seq<char>>) -> ConfigView {
        let flags = Seq::new(items.len(), |i: int| false);
        match k {
            ListKind::Aur => ConfigView { aur_packages: items, selected_aur: flags, ..self },
            ListKind::Official => ConfigView { official_packages: items, selected_official: flags, ..self },
            ListKind::Ignored => ConfigView { omarchy_packages: items, selected_ignored: flags, ..self },
            ListKind::Dotfiles => ConfigView { dotfiles: items, selected_dotfiles: flags, ..self },
            ListKind::HomeDotfiles => ConfigView { home_dotfiles: items, selected_home_dotfiles: flags, ..self },
        }
    }

    /// The entries of list `k` that are selected, in order.
    pub open spec fn selected(self, k: ListKind) -> Seq<Seq<char>> {
        selected_items(self.items(k), self.flags(k))
    }
}

/// Whether position `i` is selected: a flag that is missing counts as not selected.
pub open spec fn flag_at(flags: Seq<bool>, i: int) -> bool {
    0 <= i < flags.len() && flags[i]
}

/// The entries of `items` whose flag is set, in order.
pub open spec fn selected_items(items: Seq<Seq<char>>, flags: Seq<bool>) -> Seq<Seq<char>>
    decreases items.len(),
{
    if items.len() == 0 {
        Seq::empty()
    } else {
        let rest = selected_items(items.drop_last(), flags);
        if flag_at(flags, items.len() - 1) {
            rest.push(items.last())
        } else {
            rest
        }
    }
}

/// The path, relative to the home directory, of the `~/.config` entry `item`.
pub open spec fn config_entry_path(item: Seq<char>) -> Seq<char> {
    CONFIG_PREFIX@ + trim_slashes(item)
}

/// A file that the image build reads, with the text it holds.
pub struct PackageFile {
    pub file_name: String,
    pub content: String,
}

/// The file that lists the official packages to install.
pub const OFFICIAL_PACKAGES_FILE: &'static str = "custom-arch.packages";

/// The file that lists the AUR packages to install.
pub const AUR_PACKAGES_FILE: &'static str = "custom-aur.packages";

/// The file that lists the base packages to leave out.
pub const IGNORED_PACKAGES_FILE: &'static str = "custom.ignored";

/// The lines joined with a newline between each two, as `[String]::join("\n")` joins them.
pub open spec fn join_lines(lines: Seq<Seq<char>>) -> Seq<char>
    decreases lines.len(),
{
    if lines.len() == 0 {
        Seq::empty()
    } else if lines.len() == 1 {
        lines[0]
    } else {
        join_lines(lines.drop_last()) + seq!['\n'] + lines.last()
    }
}

/// A line that reads back as itself: not empty, without a newline, and not
/// ending in a carriage return.
pub open spec fn plain_line(l: Seq<char>) -> bool {
    l.len() > 0 && !l.contains('\n') && l.last() != '\r'
}

proof fn lemma_scan_append_plain(a: Seq<char>, b: Seq<char>)
    requires
        !b.contains('\n'),
    ensures
        line_scan(a + b) == (line_scan(a).0, line_scan(a).1 + b),
    decreases b.len(),
{
    if b.len() == 0 {
        assert(a + b =~= a);
        assert(line_scan(a).1 + b =~= line_scan(a).1);
    } else {
        assert(!b.drop_last().contains('\n')) by {
            if b.drop_last().contains('\n') {
                let j = choose|j: int| 0 <= j < b.drop_last().len() && b.drop_last()[j] == '\n';
                assert(b[j] == '\n');
            }
        }
        lemma_scan_append_plain(a, b.drop_last());
        assert((a + b).drop_last() =~= a + b.drop_last());
        assert(b.last() != '\n') by {
            assert(b[b.len() - 1] == b.last());
        }
        assert((line_scan(a).1 + b.drop_last()).push(b.last()) =~= line_scan(a).1 + b);
    }
}

proof fn lemma_scan_join(lines: Seq<Seq<char>>)
    requires
        lines.len() > 0,
        forall|i: int| 0 <= i < lines.len() ==> plain_line(#[trigger] lines[i]),
    ensures
        line_scan(join_lines(lines)) == (lines.drop_last(), lines.last()),
    decreases lines.len(),
{
    if lines.len() == 1 {
        lemma_scan_append_plain(Seq::empty(), lines[0]);
        assert(Seq::<char>::empty() + lines[0] =~= lines[0]);
        assert(lines.drop_last() =~= Seq::<Seq<char>>::empty());
    } else {
        let rest = lines.drop_last();
        assert forall|i: int| 0 <= i < rest.len() implies plain_line(#[trigger] rest[i]) by {
            assert(rest[i] == lines[i]);
        }
        lemma_scan_join(rest);
        let a = join_lines(rest) + seq!['\n'];
        assert(a.drop_last() =~= join_lines(rest));
        assert(plain_line(lines[lines.len() - 2]));
        assert(rest.last() == lines[lines.len() - 2]);
        assert(plain_line(lines[lines.len() - 1]));
        lemma_scan_append_plain(a, lines.last());
        assert(line_scan(a) == (rest.drop_last().push(rest.last()), Seq::<char>::empty()));
        assert(rest.drop_last().push(rest.last()) =~= rest);
        assert(Seq::<char>::empty() + lines.last() =~= lines.last());
    }
}

/// Lines joined with newlines read back, line by line, as the same lines.
pub proof fn lemma_joined_lines_read_back(lines: Seq<Seq<char>>)
    requires
        forall|i: int| 0 <= i < lines.len() ==> plain_line(#[trigger] lines[i]),
    ensures
        nonempty_lines(join_lines(lines)) == lines,
{
    if lines.len() > 0 {
        lemma_scan_join(lines);
        assert(plain_line(lines[lines.len() - 1]));
        assert(lines.drop_last().push(lines.last()) =~= lines);
    }
}

/// The packages files to write, as (name, text): the official, AUR and ignored
/// selections, in that order, each only when it is not empty.
pub open spec fn package_file_plan(c: ConfigView) -> Seq<(Seq<char>, Seq<char>)> {
    let official = c.selected(ListKind::Official);
    let aur = c.selected(ListKind::Aur);
    let ignored = c.selected(ListKind::Ignored);
    let s1 = if official.len() > 0 {
        seq![(OFFICIAL_PACKAGES_FILE@, join_lines(official))]
    } else {
        Seq::empty()
    };
    let s2 = if aur.len() > 0 {
        s1.push((AUR_PACKAGES_FILE@, join_lines(aur)))
    } else {
        s1
    };
    if ignored.len() > 0 {
        s2.push((IGNORED_PACKAGES_FILE@, join_lines(ignored)))
    } else {
        s2
    }
}

/// The file name of the packages list `k` (official, AUR or left out).
pub open spec fn package_file_name(k: ListKind) -> Seq<char> {
    match k {
        ListKind::Official => OFFICIAL_PACKAGES_FILE@,
        ListKind::Aur => AUR_PACKAGES_FILE@,
        _ => IGNORED_PACKAGES_FILE@,
    }
}

/// The three lists that become packages files.
pub open spec fn is_package_list(k: ListKind) -> bool {
    k == ListKind::Official || k == ListKind::Aur || k == ListKind::Ignored
}

proof fn lemma_package_names_distinct()
    ensures
        OFFICIAL_PACKAGES_FILE@ != AUR_PACKAGES_FILE@,
        OFFICIAL_PACKAGES_FILE@ != IGNORED_PACKAGES_FILE@,
        AUR_PACKAGES_FILE@ != IGNORED_PACKAGES_FILE@,
{
    reveal_strlit("custom-arch.packages");
    reveal_strlit("custom-aur.packages");
    reveal_strlit("custom.ignored");
    assert(OFFICIAL_PACKAGES_FILE@.len() == 20);
    assert(AUR_PACKAGES_FILE@.len() == 19);
    assert(IGNORED_PACKAGES_FILE@.len() == 14);
}

/// The packages files hold the selections: for each of the official, AUR and
/// left-out lists there is a file under its own name exactly when something of
/// it is selected, no file is written twice or for anything else, and the
/// file's text is the selected entries, one per line, in order: read back line
/// by line it gives the selection again (when every selected entry is a plain line).
pub proof fn lemma_package_files_hold_selections(c: ConfigView)
    ensures
        forall|i: int| 0 <= i < package_file_plan(c).len() ==> #[trigger] package_file_plan(c)[i].0
            == OFFICIAL_PACKAGES_FILE@ || package_file_plan(c)[i].0 == AUR_PACKAGES_FILE@
            || package_file_plan(c)[i].0 == IGNORED_PACKAGES_FILE@,
        forall|i: int, j: int| 0 <= i < j < package_file_plan(c).len() ==> package_file_plan(c)[i].0
            != package_file_plan(c)[j].0,
        forall|k: ListKind| is_package_list(k) ==> ((exists|i: int| 0 <= i < package_file_plan(c).len()
            && #[trigger] package_file_plan(c)[i].0 == package_file_name(k)) <==> c.selected(k).len() > 0),
        forall|k: ListKind, i: int| #![trigger package_file_plan(c)[i], package_file_name(k)]
            is_package_list(k) && 0 <= i < package_file_plan(c).len()
            && package_file_plan(c)[i].0 == package_file_name(k) ==> package_file_plan(c)[i].1
            == join_lines(c.selected(k)),
        forall|k: ListKind, i: int| #![trigger package_file_plan(c)[i], package_file_name(k)]
            is_package_list(k) && 0 <= i < package_file_plan(c).len()
            && package_file_plan(c)[i].0 == package_file_name(k)
            && (forall|j: int| 0 <= j < c.selected(k).len() ==> plain_line(#[trigger] c.selected(k)[j]))
            ==> nonempty_lines(package_file_plan(c)[i].1) == c.selected(k),
{
    lemma_package_names_distinct();
    let plan = package_file_plan(c);
    let o = c.selected(ListKind::Official);
    let a = c.selected(ListKind::Aur);
    let g = c.selected(ListKind::Ignored);
    lemma_joined_lines_read_back_if_plain(o);
    lemma_joined_lines_read_back_if_plain(a);
    lemma_joined_lines_read_back_if_plain(g);
    assert forall|k: ListKind| is_package_list(k) implies ((exists|i: int| 0 <= i < plan.len()
        && #[trigger] plan[i].0 == package_file_name(k)) <==> c.selected(k).len() > 0) by {
        if c.selected(k).len() > 0 {
            let idx: int = if k == ListKind::Official {
                0
            } else if k == ListKind::Aur {
                if o.len() > 0 { 1 } else { 0 }
            } else {
                (if o.len() > 0 { 1int } else { 0int }) + (if a.len() > 0 { 1int } else { 0int })
            };
            assert(plan[idx].0 == package_file_name(k));
        }
    }
}

proof fn lemma_joined_lines_read_back_if_plain(lines: Seq<Seq<char>>)
    ensures
        (forall|i: int| 0 <= i < lines.len() ==> plain_line(#[trigger] lines[i])) ==> nonempty_lines(join_lines(lines)) == lines,
{
    if forall|i: int| 0 <= i < lines.len() ==> plain_line(#[trigger] lines[i]) {
        lemma_joined_lines_read_back(lines);
    }
}

/// The (name, text) pairs of the files.
pub open spec fn package_file_views(v: Seq<PackageFile>) -> Seq<(Seq<char>, Seq<char>)> {
    v.map_values(|f: PackageFile| (f.file_name@, f.content@))
}

/// A copy to make: `source` relative to the home directory, `dest` relative to
/// the target directory.
pub struct CopyItem {
    pub source: String,
    pub dest: String,
}

/// The (source, destination) pairs of the copies.
pub open spec fn copy_views(v: Seq<CopyItem>) -> Seq<(Seq<char>, Seq<char>)> {
    v.map_values(|c: CopyItem| (c.source@, c.dest@))
}

/// The copy of the entry at `path` (relative to the home directory):
/// from `path` without trailing `/` to the same path without `.config/`.
pub open spec fn config_copy(path: Seq<char>) -> (Seq<char>, Seq<char>) {
    (trim_slashes(path), without_prefix(CONFIG_PREFIX@, trim_slashes(path)))
}

/// The copies for the selected `.config` entries: from `.config/<name>` to `<name>`.
pub open spec fn config_copy_plan(c: ConfigView) -> Seq<(Seq<char>, Seq<char>)> {
    c.selected(ListKind::Dotfiles).map_values(|item: Seq<char>| config_entry_path(item)).map_values(
        |p: Seq<char>| config_copy(p))
}

/// The copy of the home dotfile `name`: to the same name, trailing `/` removed.
pub open spec fn home_copy(name: Seq<char>) -> (Seq<char>, Seq<char>) {
    (trim_slashes(name), trim_slashes(name))
}

/// The copies for the selected home dotfiles: each to the same name.
pub open spec fn home_copy_plan(c: ConfigView) -> Seq<(Seq<char>, Seq<char>)> {
    c.selected(ListKind::HomeDotfiles).map_values(|item: Seq<char>| trim_slashes(item)).map_values(
        |n: Seq<char>| home_copy(n))
}

/// The lines joined with a newline between each two.
pub fn join_with_newlines(lines: &Vec<String>) -> (res: String)
    ensures
        res@ == join_lines(views(lines@)),
{
    let mut res = String::new();
    let mut i: usize = 0;
    while i < lines.len()
        invariant
            i <= lines.len(),
            res@ == join_lines(views(lines@).take(i as int)),
        decreases lines.len() - i,
    {
        assert(views(lines@).take(i + 1).drop_last() =~= views(lines@).take(i as int));
        if i > 0 {
            crate::text::push_char(&mut res, '\n');
        } else {
            assert(views(lines@).take(0) =~= Seq::<Seq<char>>::empty());
        }
        append_str(&mut res, lines[i].as_str());
        assert(res@ =~= join_lines(views(lines@).take(i + 1)));
        i = i + 1;
    }
    assert(views(lines@).take(lines.len() as int) =~= views(lines@));
    res
}

/// The configuration at start: the work directory inside `current_dir`,
/// every list empty, no image yet.
pub open spec fn initial_config(current_dir: Seq<char>) -> ConfigView {
    ConfigView {
        work_dir: join_path(current_dir, WORK_DIR_NAME@),
        aur_packages: Seq::empty(),
        selected_aur: Seq::empty(),
        official_packages: Seq::empty(),
        selected_official: Seq::empty(),
        omarchy_packages: Seq::empty(),
        selected_ignored: Seq::empty(),
        dotfiles: Seq::empty(),
        selected_dotfiles: Seq::empty(),
        home_dotfiles: Seq::empty(),
        selected_home_dotfiles: Seq::empty(),
        iso_path: None,
    }
}

impl Config {
    /// The configuration at start: the work directory inside `current_dir`,
    /// every list empty, no image yet.
    pub fn new(current_dir: &str) -> (res: Config)
        ensures
            res@ == initial_config(current_dir@),
    {
        let res = Config {
            work_dir: join_path_str(current_dir, WORK_DIR_NAME),
            aur_packages: Vec::new(),
            selected_aur: Vec::new(),
            official_packages: Vec::new(),
            selected_official: Vec::new(),
            omarchy_packages: Vec::new(),
            selected_ignored: Vec::new(),
            dotfiles: Vec::new(),
            selected_dotfiles: Vec::new(),
            home_dotfiles: Vec::new(),
            selected_home_dotfiles: Vec::new(),
            iso_path: None,
        };
        assert(res@ =~= initial_config(current_dir@));
        res
    }

    /// The entries of list `k`.
    pub fn list(&self, k: ListKind) -> (res: &Vec<String>)
        ensures
            views(res@) == self@.items(k),
    {
        match k {
            ListKind::Aur => &self.aur_packages,
            ListKind::Official => &self.official_packages,
            ListKind::Ignored => &self.omarchy_packages,
            ListKind::Dotfiles => &self.dotfiles,
            ListKind::HomeDotfiles => &self.home_dotfiles,
        }
    }

    /// The selection flags of list `k`.
    pub fn flags(&self, k: ListKind) -> (res: &Vec<bool>)
        ensures
            res@ == self@.flags(k),
    {
        match k {
            ListKind::Aur => &self.selected_aur,
            ListKind::Official => &self.selected_official,
            ListKind::Ignored => &self.selected_ignored,
            ListKind::Dotfiles => &self.selected_dotfiles,
            ListKind::HomeDotfiles => &self.selected_home_dotfiles,
        }
    }

    /// Flips the selection flag at position `i` of list `k`.
    pub fn toggle(&mut self, k: ListKind, i: usize)
        requires
            i < old(self)@.flags(k).len(),
        ensures
            final(self)@ == old(self)@.with_flags(k, old(self)@.flags(k).update(i as int, !old(self)@.flags(k)[i as int])),
    {
        match k {
            ListKind::Aur => {
                let v = !self.selected_aur[i];
                self.selected_aur.set(i, v);
            },
            ListKind::Official => {
                let v = !self.selected_official[i];
                self.selected_official.set(i, v);
            },
            ListKind::Ignored => {
                let v = !self.selected_ignored[i];
                self.selected_ignored.set(i, v);
            },
            ListKind::Dotfiles => {
                let v = !self.selected_dotfiles[i];
                self.selected_dotfiles.set(i, v);
            },
            ListKind::HomeDotfiles => {
                let v = !self.selected_home_dotfiles[i];
                self.selected_home_dotfiles.set(i, v);
            },
        }
        assert(final(self)@ =~= old(self)@.with_flags(k, old(self)@.flags(k).update(i as int, !old(self)@.flags(k)[i as int])));
    }

    /// Replaces list `k` by `items`, none of them selected.
    pub fn set_list(&mut self, k: ListKind, items: Vec<String>)
        ensures
            final(self)@ == old(self)@.with_fresh_list(k, views(items@)),
    {
        let mut flags: Vec<bool> = Vec::new();
        let mut i: usize = 0;
        while i < items.len()
            invariant
                i <= items.len(),
                flags@ == Seq::new(i as nat, |j: int| false),
            decreases items.len() - i,
        {
            flags.push(false);
            assert(flags@ =~= Seq::new((i + 1) as nat, |j: int| false));
            i = i + 1;
        }
        let ghost iv = views(items@);
        match k {
            ListKind::Aur => {
                self.aur_packages = items;
                self.selected_aur = flags;
            },
            ListKind::Official => {
                self.official_packages = items;
                self.selected_official = flags;
            },
            ListKind::Ignored => {
                self.omarchy_packages = items;
                self.selected_ignored = flags;
            },
            ListKind::Dotfiles => {
                self.dotfiles = items;
                self.selected_dotfiles = flags;
            },
            ListKind::HomeDotfiles => {
                self.home_dotfiles = items;
                self.selected_home_dotfiles = flags;
            },
        }
        assert(final(self)@ =~= old(self)@.with_fresh_list(k, iv));
    }

    /// Takes in what `pacman -Qmq` printed: when it succeeded, its non-empty
    /// lines become the AUR list, none selected; otherwise nothing changes.
    pub fn load_aur_packages(&mut self, success: bool, output: &str)
        ensures
            success ==> final(self)@ == old(self)@.with_fresh_list(ListKind::Aur, nonempty_lines(output@)),
            !success ==> final(self)@ == old(self)@,
    {
        if success {
            let items = parse_package_list(output);
            self.set_list(ListKind::Aur, items);
        }
    }

    /// Takes in the names of the explicitly installed packages of the official
    /// repositories: when the listing succeeded, its non-empty lines become the
    /// official list, none selected; otherwise nothing changes.
    pub fn load_official_packages(&mut self, success: bool, output: &str)
        ensures
            success ==> final(self)@ == old(self)@.with_fresh_list(ListKind::Official, nonempty_lines(output@)),
            !success ==> final(self)@ == old(self)@,
    {
        if success {
            let items = parse_package_list(output);
            self.set_list(ListKind::Official, items);
        }
    }

    /// Takes in the base packages list of Omarchy: when it was fetched, its
    /// non-empty lines that are not comments become the list of packages that
    /// can be left out, none selected; otherwise nothing changes.
    pub fn load_omarchy_packages(&mut self, success: bool, output: &str)
        ensures
            success ==> final(self)@ == old(self)@.with_fresh_list(ListKind::Ignored, base_package_lines(output@)),
            !success ==> final(self)@ == old(self)@,
    {
        if success {
            let items = parse_base_package_list(output);
            self.set_list(ListKind::Ignored, items);
        }
    }

    /// Takes in the entries of `~/.config`: folders (named with a trailing `/`)
    /// and files, sorted, become the `.config` list, none selected.
    pub fn load_dotfiles(&mut self, entries: &Vec<DirEntry>)
        ensures
            sorted(final(self)@.dotfiles),
            final(self)@.dotfiles.to_multiset() == config_listing(entry_views(entries@)).to_multiset(),
            final(self)@ == old(self)@.with_fresh_list(ListKind::Dotfiles, final(self)@.dotfiles),
    {
        let items = config_entry_names(entries);
        self.set_list(ListKind::Dotfiles, items);
    }

    /// Takes in the entries of the home directory: the dotfiles and dot-folders
    /// worth carrying over, sorted, become the home list, none selected.
    pub fn load_home_dotfiles(&mut self, entries: &Vec<DirEntry>)
        ensures
            sorted(final(self)@.home_dotfiles),
            final(self)@.home_dotfiles.to_multiset() == home_listing(entry_views(entries@)).to_multiset(),
            final(self)@ == old(self)@.with_fresh_list(ListKind::HomeDotfiles, final(self)@.home_dotfiles),
    {
        let items = home_entry_names(entries);
        self.set_list(ListKind::HomeDotfiles, items);
    }

    /// Ends the AUR step; the selection was already made on this configuration.
    pub fn finalize_aur_selection(&mut self, _ui: &Ui)
        ensures
            final(self)@ == old(self)@,
    {
    }

    /// Ends the official packages step; the selection was already made on this configuration.
    pub fn finalize_official_selection(&mut self, _ui: &Ui)
        ensures
            final(self)@ == old(self)@,
    {
    }

    /// Ends the excluded packages step; the selection was already made on this configuration.
    pub fn finalize_ignored_selection(&mut self, _ui: &Ui)
        ensures
            final(self)@ == old(self)@,
    {
    }

    /// Ends the `.config` step; the selection was already made on this configuration.
    pub fn finalize_dotfiles_selection(&mut self, _ui: &Ui)
        ensures
            final(self)@ == old(self)@,
    {
    }

    /// Ends the home dotfiles step; the selection was already made on this configuration.
    pub fn finalize_home_dotfiles_selection(&mut self, _ui: &Ui)
        ensures
            final(self)@ == old(self)@,
    {
    }

    /// The selected entries of list `k`, in order.
    pub fn get_selected(&self, k: ListKind) -> (res: Vec<String>)
        ensures
            views(res@) == self@.selected(k),
    {
        let items = self.list(k);
        let flags = self.flags(k);
        let mut res: Vec<String> = Vec::new();
        let mut i: usize = 0;
        while i < items.len()
            invariant
                i <= items.len(),
                views(items@) == self@.items(k),
                flags@ == self@.flags(k),
                views(res@) == selected_items(views(items@).take(i as int), flags@),
            decreases items.len() - i,
        {
            assert(views(items@).take(i + 1).drop_last() =~= views(items@).take(i as int));
            if i < flags.len() && flags[i] {
                res.push(items[i].clone());
                assert(views(res@) =~= selected_items(views(items@).take(i + 1), flags@));
            }
            i = i + 1;
        }
        assert(views(items@).take(items.len() as int) =~= views(items@));
        res
    }

    /// The selected AUR packages, in order.
    pub fn get_selected_aur(&self) -> (res: Vec<String>)
        ensures
            views(res@) == self@.selected(ListKind::Aur),
    {
        self.get_selected(ListKind::Aur)
    }

    /// The selected official packages, in order.
    pub fn get_selected_official(&self) -> (res: Vec<String>)
        ensures
            views(res@) == self@.selected(ListKind::Official),
    {
        self.get_selected(ListKind::Official)
    }

    /// The selected Omarchy packages to leave out, in order.
    pub fn get_selected_ignored(&self) -> (res: Vec<String>)
        ensures
            views(res@) == self@.selected(ListKind::Ignored),
    {
        self.get_selected(ListKind::Ignored)
    }

    /// The selected `.config` entries, in order, each as `.config/<name>`
    /// without trailing `/`.
    pub fn get_selected_dotfiles(&self) -> (res: Vec<String>)
        ensures
            views(res@) == self@.selected(ListKind::Dotfiles).map_values(|item: Seq<char>| config_entry_path(item)),
    {
        let chosen = self.get_selected(ListKind::Dotfiles);
        let mut res: Vec<String> = Vec::new();
        let mut i: usize = 0;
        while i < chosen.len()
            invariant
                i <= chosen.len(),
                views(res@) == views(chosen@).take(i as int).map_values(|item: Seq<char>| config_entry_path(item)),
            decreases chosen.len() - i,
        {
            let name = trim_trailing_slashes(chosen[i].as_str());
            let mut path = String::new();
            append_str(&mut path, CONFIG_PREFIX);
            append_str(&mut path, name.as_str());
            assert(path@ =~= config_entry_path(views(chosen@)[i as int]));
            let ghost prev = views(res@);
            res.push(path);
            assert(views(res@) =~= prev.push(config_entry_path(views(chosen@)[i as int])));
            assert(views(res@) =~= views(chosen@).take(i + 1).map_values(|item: Seq<char>| config_entry_path(item)));
            i = i + 1;
        }
        assert(views(chosen@).take(chosen.len() as int) =~= views(chosen@));
        res
    }

    /// The selected home dotfiles, in order, each without trailing `/`.
    pub fn get_selected_home_dotfiles(&self) -> (res: Vec<String>)
        ensures
            views(res@) == self@.selected(ListKind::HomeDotfiles).map_values(|item: Seq<char>| trim_slashes(item)),
    {
        let chosen = self.get_selected(ListKind::HomeDotfiles);
        let mut res: Vec<String> = Vec::new();
        let mut i: usize = 0;
        while i < chosen.len()
            invariant
                i <= chosen.len(),
                views(res@) == views(chosen@).take(i as int).map_values(|item: Seq<char>| trim_slashes(item)),
            decreases chosen.len() - i,
        {
            let name = trim_trailing_slashes(chosen[i].as_str());
            assert(name@ == trim_slashes(views(chosen@)[i as int]));
            let ghost prev = views(res@);
            res.push(name);
            assert(views(res@) =~= prev.push(trim_slashes(views(chosen@)[i as int])));
            assert(views(res@) =~= views(chosen@).take(i + 1).map_values(|item: Seq<char>| trim_slashes(item)));
            i = i + 1;
        }
        assert(views(chosen@).take(chosen.len() as int) =~= views(chosen@));
        res
    }

    /// The packages files to write for the build, in order.
    pub fn package_files(&self) -> (res: Vec<PackageFile>)
        ensures
            package_file_views(res@) == package_file_plan(self@),
            forall|k: ListKind| is_package_list(k) ==> ((exists|i: int| 0 <= i < res@.len()
                && #[trigger] res@[i].file_name@ == package_file_name(k)) <==> self@.selected(k).len() > 0),
            forall|k: ListKind, i: int| #![trigger res@[i], package_file_name(k)]
                is_package_list(k) && 0 <= i < res@.len() && res@[i].file_name@ == package_file_name(k)
                ==> res@[i].content@ == join_lines(self@.selected(k)),
    {
        proof {
            lemma_package_files_hold_selections(self@);
        }
        let mut res: Vec<PackageFile> = Vec::new();
        let official = self.get_selected_official();
        if official.len() > 0 {
            res.push(PackageFile { file_name: OFFICIAL_PACKAGES_FILE.to_owned(), content: join_with_newlines(&official) });
        }
        let aur = self.get_selected_aur();
        if aur.len() > 0 {
            res.push(PackageFile { file_name: AUR_PACKAGES_FILE.to_owned(), content: join_with_newlines(&aur) });
        }
        let ignored = self.get_selected_ignored();
        if ignored.len() > 0 {
            res.push(PackageFile { file_name: IGNORED_PACKAGES_FILE.to_owned(), content: join_with_newlines(&ignored) });
        }
        assert(package_file_views(res@) =~= package_file_plan(self@));
        proof {
            assert forall|i: int| 0 <= i < res@.len() implies package_file_plan(self@)[i]
                == (#[trigger] res@[i].file_name@, res@[i].content@) by {
                assert(package_file_views(res@)[i] == (res@[i].file_name@, res@[i].content@));
            }
            let plan = package_file_plan(self@);
            assert forall|k: ListKind| is_package_list(k) implies ((exists|i: int| 0 <= i < res@.len()
                && #[trigger] res@[i].file_name@ == package_file_name(k)) <==> self@.selected(k).len() > 0) by {
                if self@.selected(k).len() > 0 {
                    let i = choose|i: int| 0 <= i < plan.len() && #[trigger] plan[i].0 == package_file_name(k);
                    assert(res@[i].file_name@ == package_file_name(k));
                }
                if exists|i: int| 0 <= i < res@.len() && #[trigger] res@[i].file_name@ == package_file_name(k) {
                    let i = choose|i: int| 0 <= i < res@.len() && #[trigger] res@[i].file_name@ == package_file_name(k);
                    assert(plan[i].0 == package_file_name(k));
                }
            }
        }
        res
    }

    /// The copies that put the selected `.config` entries into the image.
    pub fn config_dotfile_copies(&self) -> (res: Vec<CopyItem>)
        ensures
            copy_views(res@) == config_copy_plan(self@),
    {
        let paths = self.get_selected_dotfiles();
        let mut res: Vec<CopyItem> = Vec::new();
        let mut i: usize = 0;
        while i < paths.len()
            invariant
                i <= paths.len(),
                views(paths@) == self@.selected(ListKind::Dotfiles).map_values(|item: Seq<char>| config_entry_path(item)),
                copy_views(res@) == views(paths@).take(i as int).map_values(|p: Seq<char>| config_copy(p)),
            decreases paths.len() - i,
        {
            let source = trim_trailing_slashes(paths[i].as_str());
            let dest = strip_prefix_or_keep(source.as_str(), CONFIG_PREFIX);
            let ghost prev = copy_views(res@);
            res.push(CopyItem { source, dest });
            assert(copy_views(res@) =~= prev.push(config_copy(views(paths@)[i as int])));
            assert(copy_views(res@) =~= views(paths@).take(i + 1).map_values(|p: Seq<char>| config_copy(p)));
            i = i + 1;
        }
        assert(views(paths@).take(paths.len() as int) =~= views(paths@));
        res
    }

    /// The copies that put the selected home dotfiles into the image.
    pub fn home_dotfile_copies(&self) -> (res: Vec<CopyItem>)
        ensures
            copy_views(res@) == home_copy_plan(self@),
    {
        let names = self.get_selected_home_dotfiles();
        let mut res: Vec<CopyItem> = Vec::new();
        let mut i: usize = 0;
        while i < names.len()
            invariant
                i <= names.len(),
                views(names@) == self@.selected(ListKind::HomeDotfiles).map_values(|item: Seq<char>| trim_slashes(item)),
                copy_views(res@) == views(names@).take(i as int).map_values(|n: Seq<char>| home_copy(n)),
            decreases names.len() - i,
        {
            let source = trim_trailing_slashes(names[i].as_str());
            let dest = trim_trailing_slashes(names[i].as_str());
            let ghost prev = copy_views(res@);
            res.push(CopyItem { source, dest });
            assert(copy_views(res@) =~= prev.push(home_copy(views(names@)[i as int])));
            assert(copy_views(res@) =~= views(names@).take(i + 1).map_values(|n: Seq<char>| home_copy(n)));
            i = i + 1;
        }
        assert(views(names@).take(names.len() as int) =~= views(names@));
        res
    }

    /// The directory that holds the work directory (`Path::parent`), if it has one.
    pub fn work_dir_parent_path(&self) -> (res: Option<String>)
        ensures
            opt_view(res) == path_parent(self@.work_dir),
    {
        path_parent_str(self.work_dir.as_str())
    }

    /// The directory that the welcome screen names as where the image will be
    /// made: the parent of the work directory, or `.` when it has none.
    pub fn work_dir_parent(&self) -> (res: String)
        ensures
            res@ == match path_parent(self@.work_dir) {
                Some(p) => p,
                None => "."@,
            },
    {
        match self.work_dir_parent_path() {
            Some(p) => p,
            None => ".".to_owned(),
        }
    }

    /// Where the image named `iso_name` is moved once built: beside the work
    /// directory, in its parent.
    pub fn iso_destination(&self, iso_name: &str) -> (res: String)
        requires
            path_parent(self@.work_dir) is Some,
        ensures
            res@ == join_path(path_parent(self@.work_dir)->0, iso_name@),
    {
        match self.work_dir_parent_path() {
            Some(parent) => join_path_str(parent.as_str(), iso_name),
            None => String::new(),
        }
    }

    /// Records where the image named `iso_name` was moved: beside the work
    /// directory. Nothing else changes.
    pub fn record_iso(&mut self, iso_name: &str) -> (res: String)
        requires
            path_parent(old(self)@.work_dir) is Some,
        ensures
            res@ == join_path(path_parent(old(self)@.work_dir)->0, iso_name@),
            final(self)@ == (ConfigView { iso_path: Some(res@), ..old(self)@ }),
    {
        let dest = self.iso_destination(iso_name);
        self.iso_path = Some(dest.clone());
        assert(final(self)@ =~= (ConfigView { iso_path: Some(dest@), ..old(self)@ }));
        dest
    }
}

} // verus!
