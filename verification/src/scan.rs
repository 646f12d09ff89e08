use vstd::prelude::*;

use crate::order::{sort_strings, sorted};
use crate::text::{
    concat_str, nonempty_lines, split_nonempty_lines, starts_with_char, str_eq, views,
};

verus! {

/// What kind of thing a directory entry is.
#[derive(Debug, Clone, Copy, PartialEq, Eq, Structural)]
pub enum EntryKind {
    Directory,
    File,
    Other,
}

/// An entry of a directory whose name is valid text.
pub struct DirEntry {
    pub name: String,
    pub kind: EntryKind,
}

/// The (name, kind) pairs of the entries.
pub open spec fn entry_views(es: Seq<DirEntry>) -> Seq<(Seq<char>, EntryKind)> {
    es.map_values(|e: DirEntry| (e.name@, e.kind))
}

/// How an entry is listed: a folder with a trailing `/`, a file by its name;
/// anything else is not listed.
pub open spec fn entry_label(name: Seq<char>, kind: EntryKind) -> Option<Seq<char>> {
    match kind {
        EntryKind::Directory => Some(name.push('/')),
        EntryKind::File => Some(name),
        EntryKind::Other => None,
    }
}

/// The labels of the listed entries, in the order of the entries.
pub open spec fn config_listing(es: Seq<(Seq<char>, EntryKind)>) -> Seq<Seq<char>>
    decreases es.len(),
{
    if es.len() == 0 {
        Seq::empty()
    } else {
        let rest = config_listing(es.drop_last());
        match entry_label(es.last().0, es.last().1) {
            Some(l) => rest.push(l),
            None => rest,
        }
    }
}

/// A home directory entry worth offering: its name starts with `.`, and it is
/// none of `.config` (offered on its own) and the caches, local data, browser
/// profile and key stores.
pub open spec fn is_home_candidate(name: Seq<char>) -> bool {
    &&& name.len() > 0
    &&& name[0] == '.'
    &&& name != ".config"@
    &&& name != ".cache"@
    &&& name != ".local"@
    &&& name != ".mozilla"@
    &&& name != ".ssh"@
    &&& name != ".gnupg"@
}

/// The labels of the listed home entries worth offering, in the order of the entries.
pub open spec fn home_listing(es: Seq<(Seq<char>, EntryKind)>) -> Seq<Seq<char>>
    decreases es.len(),
{
    if es.len() == 0 {
        Seq::empty()
    } else {
        let rest = home_listing(es.drop_last());
        if is_home_candidate(es.last().0) {
            match entry_label(es.last().0, es.last().1) {
                Some(l) => rest.push(l),
                None => rest,
            }
        } else {
            rest
        }
    }
}

/// A line of a packages list that is not a comment.
pub open spec fn not_comment(line: Seq<char>) -> bool {
    !(line.len() > 0 && line[0] == '#')
}

/// The package names in a packages list: non-empty lines that do not start with `#`.
pub open spec fn base_package_lines(text: Seq<char>) -> Seq<Seq<char>> {
    nonempty_lines(text).filter(|l: Seq<char>| not_comment(l))
}

/// The package names that a package manager printed, one per line.
pub fn parse_package_list(output: &str) -> (res: Vec<String>)
    ensures
        views(res@) == nonempty_lines(output@),
{
    split_nonempty_lines(output)
}

/// The package names in a packages list, comments left out.
pub fn parse_base_package_list(output: &str) -> (res: Vec<String>)
    ensures
        views(res@) == base_package_lines(output@),
{
    let lines = split_nonempty_lines(output);
    let mut res: Vec<String> = Vec::new();
    let mut i: usize = 0;
    while i < lines.len()
        invariant
            i <= lines.len(),
            views(res@) == views(lines@).take(i as int).filter(|l: Seq<char>| not_comment(l)),
        decreases lines.len() - i,
    {
        proof {
            assert(views(lines@).take(i + 1) =~= views(lines@).take(i as int).push(views(lines@)[i as int]));
            views(lines@).take(i as int).lemma_filter_push(views(lines@)[i as int], |l: Seq<char>| not_comment(l));
        }
        if !starts_with_char(lines[i].as_str(), '#') {
            res.push(lines[i].clone());
            assert(views(res@) =~= views(lines@).take(i as int).filter(|l: Seq<char>| not_comment(l)).push(views(lines@)[i as int]));
        }
        i = i + 1;
    }
    assert(views(lines@).take(lines.len() as int) =~= views(lines@));
    res
}

fn entry_label_exec(e: &DirEntry) -> (res: Option<String>)
    ensures
        opt_chars(res) == entry_label(e.name@, e.kind),
{
    match e.kind {
        EntryKind::Directory => {
            let s = concat_str(e.name.as_str(), "/");
            proof {
                reveal_strlit("/");
            }
            assert(s@ =~= e.name@.push('/'));
            Some(s)
        },
        EntryKind::File => Some(e.name.clone()),
        EntryKind::Other => None,
    }
}

/// The characters of an optional string.
pub open spec fn opt_chars(o: Option<String>) -> Option<Seq<char>> {
    match o {
        Some(s) => Some(s@),
        None => None,
    }
}

/// Whether a home directory entry named `name` is worth offering.
pub fn is_home_dotfile_candidate(name: &str) -> (res: bool)
    ensures
        res == is_home_candidate(name@),
{
    starts_with_char(name, '.') && !str_eq(name, ".config") && !str_eq(name, ".cache")
        && !str_eq(name, ".local") && !str_eq(name, ".mozilla") && !str_eq(name, ".ssh")
        && !str_eq(name, ".gnupg")
}

fn listing(entries: &Vec<DirEntry>, home: bool) -> (res: Vec<String>)
    ensures
        !home ==> views(res@) == config_listing(entry_views(entries@)),
        home ==> views(res@) == home_listing(entry_views(entries@)),
{
    let mut res: Vec<String> = Vec::new();
    let mut i: usize = 0;
    while i < entries.len()
        invariant
            i <= entries.len(),
            !home ==> views(res@) == config_listing(entry_views(entries@).take(i as int)),
            home ==> views(res@) == home_listing(entry_views(entries@).take(i as int)),
        decreases entries.len() - i,
    {
        let e = &entries[i];
        assert(entry_views(entries@).take(i + 1).drop_last() =~= entry_views(entries@).take(i as int));
        assert(entry_views(entries@).take(i + 1).last() == (e.name@, e.kind));
        let wanted = !home || is_home_dotfile_candidate(e.name.as_str());
        if wanted {
            match entry_label_exec(e) {
                Some(l) => {
                    res.push(l);
                },
                None => {},
            }
        }
        assert(!home ==> views(res@) =~= config_listing(entry_views(entries@).take(i + 1)));
        assert(home ==> views(res@) =~= home_listing(entry_views(entries@).take(i + 1)));
        i = i + 1;
    }
    assert(entry_views(entries@).take(entries.len() as int) =~= entry_views(entries@));
    res
}

/// The labels of the entries of `~/.config`, sorted.
pub fn config_entry_names(entries: &Vec<DirEntry>) -> (res: Vec<String>)
    ensures
        sorted(views(res@)),
        views(res@).to_multiset() == config_listing(entry_views(entries@)).to_multiset(),
{
    sort_strings(listing(entries, false))
}

/// The labels of the home directory entries worth offering, sorted.
pub fn home_entry_names(entries: &Vec<DirEntry>) -> (res: Vec<String>)
    ensures
        sorted(views(res@)),
        views(res@).to_multiset() == home_listing(entry_views(entries@)).to_multiset(),
{
    sort_strings(listing(entries, true))
}

/// A file name whose extension is `iso`, as `Path::extension` finds it: the
/// name ends in `.iso` and something comes before that dot.
pub open spec fn is_iso_name(name: Seq<char>) -> bool {
    name.len() > 4 && name.skip(name.len() - 4) == ".iso"@
}

/// Whether the file named `name` is an image.
pub fn is_iso_file_name(name: &str) -> (res: bool)
    ensures
        res == is_iso_name(name@),
{
    let cs = crate::text::chars_of(name);
    let n = cs.len();
    proof {
        reveal_strlit(".iso");
    }
    if n > 4 && cs[n - 4] == '.' && cs[n - 3] == 'i' && cs[n - 2] == 's' && cs[n - 1] == 'o' {
        assert(cs@.skip(n - 4) =~= ".iso"@);
        true
    } else {
        assert(n > 4 ==> cs@.skip(n - 4)[0] == cs@[n - 4]);
        assert(n > 4 ==> cs@.skip(n - 4)[1] == cs@[n - 3]);
        assert(n > 4 ==> cs@.skip(n - 4)[2] == cs@[n - 2]);
        assert(n > 4 ==> cs@.skip(n - 4)[3] == cs@[n - 1]);
        false
    }
}


/// The error of a move when the release directory holds no image.
pub const ISO_NOT_FOUND: &'static str = "ISO file not found";

/// The position of the first image among `names`, if there is one.
pub open spec fn first_iso_in(names: Seq<Seq<char>>) -> Option<int> {
    if exists|i: int| 0 <= i < names.len() && is_iso_name(#[trigger] names[i]) {
        Some(choose|i: int| 0 <= i < names.len() && is_iso_name(names[i])
            && forall|j: int| 0 <= j < i ==> !is_iso_name(#[trigger] names[j]))
    } else {
        None
    }
}

/// The position of the first image among the file names `names`.
pub fn first_iso(names: &Vec<String>) -> (res: Option<usize>)
    ensures
        match res {
            Some(i) => i < names.len() && is_iso_name(names@[i as int]@)
                && forall|j: int| 0 <= j < i ==> !is_iso_name(#[trigger] views(names@)[j]),
            None => forall|j: int| 0 <= j < names.len() ==> !is_iso_name(#[trigger] views(names@)[j]),
        },
        match res {
            Some(i) => first_iso_in(views(names@)) == Some(i as int),
            None => first_iso_in(views(names@)) is None,
        },
{
    let mut i: usize = 0;
    while i < names.len()
        invariant
            i <= names.len(),
            forall|j: int| 0 <= j < i ==> !is_iso_name(#[trigger] views(names@)[j]),
        decreases names.len() - i,
    {
        if is_iso_file_name(names[i].as_str()) {
            proof {
                let v = views(names@);
                assert(is_iso_name(v[i as int]));
                let c = choose|k: int| 0 <= k < v.len() && is_iso_name(v[k])
                    && forall|j: int| 0 <= j < k ==> !is_iso_name(#[trigger] v[j]);
                assert(c == i) by {
                    if c < i {
                        assert(!is_iso_name(v[c]));
                    } else if c > i {
                        assert(!is_iso_name(v[i as int]));
                    }
                }
            }
            return Some(i);
        }
        assert(!is_iso_name(views(names@)[i as int]));
        i = i + 1;
    }
    None
}

} // verus!
