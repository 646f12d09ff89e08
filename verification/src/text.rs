use vstd::prelude::*;

verus! {

/// Appends `c` to `s`, as `String::push` does.
#[verifier::external_body]
pub(crate) fn push_char(s: &mut String, c: char)
    ensures
        final(s)@ == old(s)@.push(c),
{
    s.push(c);
}

/// Removes and returns the last character of `s`, as `String::pop` does:
/// `None` when `s` is empty.
#[verifier::external_body]
pub(crate) fn pop_char(s: &mut String) -> (res: Option<char>)
    ensures
        old(s)@.len() == 0 ==> res is None && final(s)@ == old(s)@,
        old(s)@.len() > 0 ==> res == Some(old(s)@.last()) && final(s)@ == old(s)@.drop_last(),
{
    s.pop()
}

/// What `str::to_lowercase` returns for a string with the characters `s`.
pub uninterp spec fn lowercase_of(s: Seq<char>) -> Seq<char>;

/// Calls `str::to_lowercase`; its result is the Unicode lowercase mapping of
/// every character, a function of the characters of `s` alone.
#[verifier::external_body]
pub(crate) fn to_lower(s: &str) -> (res: String)
    ensures
        res@ == lowercase_of(s@),
{
    s.to_lowercase()
}

/// The characters of each string of `v`, in order.
pub open spec fn views(v: Seq<String>) -> Seq<Seq<char>> {
    v.map_values(|s: String| s@)
}

/// The characters of `s`, in order.
pub fn chars_of(s: &str) -> (res: Vec<char>)
    ensures
        res@ == s@,
{
    let mut res: Vec<char> = Vec::new();
    for c in it: s.chars()
        invariant
            res@ == it.seq().take(it.index() as int),
    {
        res.push(c);
    }
    res
}

/// The string made of the characters `cs`, in order.
pub fn string_from_chars(cs: &Vec<char>) -> (res: String)
    ensures
        res@ == cs@,
{
    let mut res = String::new();
    let mut i: usize = 0;
    while i < cs.len()
        invariant
            i <= cs.len(),
            res@ == cs@.take(i as int),
        decreases cs.len() - i,
    {
        push_char(&mut res, cs[i]);
        assert(cs@.take(i as int).push(cs@[i as int]) =~= cs@.take(i + 1));
        i = i + 1;
    }
    assert(cs@.take(cs.len() as int) =~= cs@);
    res
}


/// `needle` occurs in `hay` starting at position `i`.
pub open spec fn occurs_at(hay: Seq<char>, needle: Seq<char>, i: int) -> bool {
    &&& 0 <= i
    &&& i + needle.len() <= hay.len()
    &&& hay.subrange(i, i + needle.len()) == needle
}

/// `needle` is a contiguous part of `hay` (the empty sequence is a part of every sequence).
pub open spec fn has_substring(hay: Seq<char>, needle: Seq<char>) -> bool {
    exists|i: int| occurs_at(hay, needle, i)
}

fn occurs_at_exec(hay: &Vec<char>, needle: &Vec<char>, i: usize) -> (res: bool)
    requires
        i + needle.len() <= hay.len(),
    ensures
        res == occurs_at(hay@, needle@, i as int),
{
    let mut j: usize = 0;
    while j < needle.len()
        invariant
            j <= needle.len(),
            i + needle.len() <= hay.len(),
            forall|k: int| 0 <= k < j ==> hay@[i + k] == needle@[k],
        decreases needle.len() - j,
    {
        if hay[i + j] != needle[j] {
            assert(hay@.subrange(i as int, i + needle.len())[j as int] != needle@[j as int]);
            return false;
        }
        j = j + 1;
    }
    assert(hay@.subrange(i as int, i + needle.len()) =~= needle@);
    true
}

/// Whether `needle` occurs in `hay`, as `str::contains` with a string pattern answers.
pub fn contains_str(hay: &str, needle: &str) -> (res: bool)
    ensures
        res == has_substring(hay@, needle@),
{
    let h = chars_of(hay);
    let n = chars_of(needle);
    if n.len() > h.len() {
        assert forall|i: int| !occurs_at(h@, n@, i) by {}
        return false;
    }
    let last = h.len() - n.len();
    let mut i: usize = 0;
    loop
        invariant
            h@ == hay@,
            n@ == needle@,
            last == h.len() - n.len(),
            n.len() <= h.len(),
            i <= last,
            forall|k: int| 0 <= k < i ==> !occurs_at(h@, n@, k),
        ensures
            forall|k: int| 0 <= k <= last ==> !occurs_at(h@, n@, k),
        decreases last - i,
    {
        if occurs_at_exec(&h, &n, i) {
            return true;
        }
        if i == last {
            break;
        }
        i = i + 1;
    }
    assert forall|k: int| !occurs_at(h@, n@, k) by {}
    false
}

/// A line with the carriage return that ended it removed.
pub open spec fn strip_cr(line: Seq<char>) -> Seq<char> {
    if line.len() > 0 && line.last() == '\r' {
        line.drop_last()
    } else {
        line
    }
}

/// Reading `s` from the left: the non-empty lines already ended by a newline
/// (each without its line ending), and the characters of the line not yet ended.
pub open spec fn line_scan(s: Seq<char>) -> (Seq<Seq<char>>, Seq<char>)
    decreases s.len(),
{
    if s.len() == 0 {
        (Seq::empty(), Seq::empty())
    } else {
        let (done, cur) = line_scan(s.drop_last());
        if s.last() == '\n' {
            let line = strip_cr(cur);
            (if line.len() > 0 { done.push(line) } else { done }, Seq::empty())
        } else {
            (done, cur.push(s.last()))
        }
    }
}

/// The non-empty lines of `s`, in order, as `str::lines` yields them
/// (split at `\n` or `\r\n`, line endings removed) with the empty ones left out.
pub open spec fn nonempty_lines(s: Seq<char>) -> Seq<Seq<char>> {
    let (done, cur) = line_scan(s);
    if cur.len() > 0 {
        done.push(cur)
    } else {
        done
    }
}

/// The non-empty lines of `text`.
pub fn split_nonempty_lines(text: &str) -> (res: Vec<String>)
    ensures
        views(res@) == nonempty_lines(text@),
{
    let cs = chars_of(text);
    let mut res: Vec<String> = Vec::new();
    let mut cur: Vec<char> = Vec::new();
    let mut i: usize = 0;
    while i < cs.len()
        invariant
            i <= cs.len(),
            cs@ == text@,
            (views(res@), cur@) == line_scan(cs@.take(i as int)),
        decreases cs.len() - i,
    {
        assert(cs@.take(i + 1).drop_last() =~= cs@.take(i as int));
        let c = cs[i];
        if c == '\n' {
            if cur.len() > 0 && cur[cur.len() - 1] == '\r' {
                cur.pop();
            }
            if cur.len() > 0 {
                let line = string_from_chars(&cur);
                res.push(line);
                assert(views(res@) =~= line_scan(cs@.take(i + 1)).0);
            }
            cur = Vec::new();
        } else {
            cur.push(c);
        }
        i = i + 1;
    }
    assert(cs@.take(cs.len() as int) =~= cs@);
    if cur.len() > 0 {
        let line = string_from_chars(&cur);
        res.push(line);
        assert(views(res@) =~= nonempty_lines(text@));
    }
    res
}

/// `s` with every trailing `/` removed, as `str::trim_end_matches('/')` gives it.
pub open spec fn trim_slashes(s: Seq<char>) -> Seq<char>
    decreases s.len(),
{
    if s.len() > 0 && s.last() == '/' {
        trim_slashes(s.drop_last())
    } else {
        s
    }
}

/// `s` with every trailing `/` removed.
pub fn trim_trailing_slashes(s: &str) -> (res: String)
    ensures
        res@ == trim_slashes(s@),
{
    let mut cs = chars_of(s);
    while cs.len() > 0 && cs[cs.len() - 1] == '/'
        invariant
            trim_slashes(cs@) == trim_slashes(s@),
        decreases cs.len(),
    {
        cs.pop();
    }
    string_from_chars(&cs)
}


/// The character of the decimal digit `d`.
pub open spec fn digit_char(d: nat) -> char {
    if d == 0 { '0' }
    else if d == 1 { '1' }
    else if d == 2 { '2' }
    else if d == 3 { '3' }
    else if d == 4 { '4' }
    else if d == 5 { '5' }
    else if d == 6 { '6' }
    else if d == 7 { '7' }
    else if d == 8 { '8' }
    else { '9' }
}

/// The decimal digits of `n`, most significant first, as `Display` writes them.
pub open spec fn decimal(n: nat) -> Seq<char>
    decreases n,
{
    if n < 10 {
        seq![digit_char(n)]
    } else {
        decimal(n / 10).push(digit_char(n % 10))
    }
}

/// `n` written in decimal, with a leading `-` when it is negative.
pub open spec fn signed_decimal(n: int) -> Seq<char> {
    if n < 0 {
        seq!['-'] + decimal((-n) as nat)
    } else {
        decimal(n as nat)
    }
}

fn digit(d: usize) -> (c: char)
    requires
        d < 10,
    ensures
        c == digit_char(d as nat),
{
    if d == 0 { '0' }
    else if d == 1 { '1' }
    else if d == 2 { '2' }
    else if d == 3 { '3' }
    else if d == 4 { '4' }
    else if d == 5 { '5' }
    else if d == 6 { '6' }
    else if d == 7 { '7' }
    else if d == 8 { '8' }
    else { '9' }
}

fn push_decimal(s: &mut String, n: u128)
    ensures
        final(s)@ == old(s)@ + decimal(n as nat),
    decreases n,
{
    if n >= 10 {
        push_decimal(s, n / 10);
    }
    push_char(s, digit((n % 10) as usize));
    assert(final(s)@ =~= old(s)@ + decimal(n as nat));
}

/// Appends the decimal digits of `n` to `s`.
pub fn append_decimal(s: &mut String, n: usize)
    ensures
        final(s)@ == old(s)@ + decimal(n as nat),
{
    push_decimal(s, n as u128);
}

/// Appends the decimal digits of `a + b` to `s`.
pub fn append_decimal_sum(s: &mut String, a: usize, b: usize)
    ensures
        final(s)@ == old(s)@ + decimal((a + b) as nat),
{
    push_decimal(s, (a as u128) + (b as u128));
}

/// `n` in decimal, as `n.to_string()` gives it.
pub fn decimal_string(n: usize) -> (res: String)
    ensures
        res@ == decimal(n as nat),
{
    let mut res = String::new();
    append_decimal(&mut res, n);
    assert(res@ =~= decimal(n as nat));
    res
}

/// `n` in decimal with its sign, as `n.to_string()` gives it.
pub fn signed_decimal_string(n: i32) -> (res: String)
    ensures
        res@ == signed_decimal(n as int),
{
    let mut res = String::new();
    if n < 0 {
        push_char(&mut res, '-');
        let m: i64 = -(n as i64);
        push_decimal(&mut res, m as u128);
    } else {
        push_decimal(&mut res, n as u128);
    }
    assert(res@ =~= signed_decimal(n as int));
    res
}


/// Appends the characters of `t` to `s`.
pub fn append_str(s: &mut String, t: &str)
    ensures
        final(s)@ == old(s)@ + t@,
{
    let cs = chars_of(t);
    let mut i: usize = 0;
    while i < cs.len()
        invariant
            i <= cs.len(),
            cs@ == t@,
            s@ == old(s)@ + cs@.take(i as int),
        decreases cs.len() - i,
    {
        push_char(s, cs[i]);
        assert(old(s)@ + cs@.take(i + 1) =~= (old(s)@ + cs@.take(i as int)).push(cs@[i as int]));
        i = i + 1;
    }
    assert(cs@.take(cs.len() as int) =~= cs@);
}

/// A new string holding the characters of `a` followed by those of `b`.
pub fn concat_str(a: &str, b: &str) -> (res: String)
    ensures
        res@ == a@ + b@,
{
    let mut res = String::new();
    append_str(&mut res, a);
    append_str(&mut res, b);
    assert(res@ =~= a@ + b@);
    res
}

/// Whether `a` and `b` hold the same characters.
pub fn str_eq(a: &str, b: &str) -> (res: bool)
    ensures
        res == (a@ == b@),
{
    let x = chars_of(a);
    let y = chars_of(b);
    if x.len() != y.len() {
        return false;
    }
    let mut i: usize = 0;
    while i < x.len()
        invariant
            i <= x.len(),
            x.len() == y.len(),
            x@ == a@,
            y@ == b@,
            forall|k: int| 0 <= k < i ==> x@[k] == y@[k],
        decreases x.len() - i,
    {
        if x[i] != y[i] {
            assert(x@[i as int] != y@[i as int]);
            return false;
        }
        i = i + 1;
    }
    assert(x@ =~= y@);
    true
}

/// Whether `s` begins with the character `c`.
pub fn starts_with_char(s: &str, c: char) -> (res: bool)
    ensures
        res == (s@.len() > 0 && s@[0] == c),
{
    let cs = chars_of(s);
    cs.len() > 0 && cs[0] == c
}

/// Whether `s` begins with `prefix`.
pub open spec fn is_prefix(prefix: Seq<char>, s: Seq<char>) -> bool {
    prefix.len() <= s.len() && s.take(prefix.len() as int) == prefix
}

/// `s` without `prefix` when it begins with it, else `s` unchanged, as
/// `s.strip_prefix(prefix).unwrap_or(s)` gives it.
pub open spec fn without_prefix(prefix: Seq<char>, s: Seq<char>) -> Seq<char> {
    if is_prefix(prefix, s) {
        s.skip(prefix.len() as int)
    } else {
        s
    }
}

/// `s` without `prefix` when it begins with it, else `s` unchanged.
pub fn strip_prefix_or_keep(s: &str, prefix: &str) -> (res: String)
    ensures
        res@ == without_prefix(prefix@, s@),
{
    let cs = chars_of(s);
    let ps = chars_of(prefix);
    if ps.len() > cs.len() {
        return string_from_chars(&cs);
    }
    let mut i: usize = 0;
    while i < ps.len()
        invariant
            i <= ps.len(),
            ps.len() <= cs.len(),
            cs@ == s@,
            ps@ == prefix@,
            forall|k: int| 0 <= k < i ==> cs@[k] == ps@[k],
        decreases ps.len() - i,
    {
        if cs[i] != ps[i] {
            assert(cs@.take(ps.len() as int)[i as int] != ps@[i as int]);
            return string_from_chars(&cs);
        }
        i = i + 1;
    }
    assert(cs@.take(ps.len() as int) =~= ps@);
    let mut rest: Vec<char> = Vec::new();
    let mut j: usize = ps.len();
    while j < cs.len()
        invariant
            ps.len() <= j <= cs.len(),
            rest@ == cs@.subrange(ps.len() as int, j as int),
        decreases cs.len() - j,
    {
        rest.push(cs[j]);
        assert(cs@.subrange(ps.len() as int, j + 1) =~= cs@.subrange(ps.len() as int, j as int).push(cs@[j as int]));
        j = j + 1;
    }
    assert(cs@.subrange(ps.len() as int, cs.len() as int) =~= cs@.skip(ps.len() as int));
    string_from_chars(&rest)
}

/// `dir` joined with the relative name `name`, as `Path::join` joins them:
/// a `/` goes between them unless `dir` is empty or already ends with one.
pub open spec fn join_path(dir: Seq<char>, name: Seq<char>) -> Seq<char> {
    if dir.len() == 0 || dir.last() == '/' {
        dir + name
    } else {
        dir + seq!['/'] + name
    }
}

/// `dir` joined with the relative name `name`.
pub fn join_path_str(dir: &str, name: &str) -> (res: String)
    ensures
        res@ == join_path(dir@, name@),
{
    let cs = chars_of(dir);
    let mut res = string_from_chars(&cs);
    if cs.len() > 0 && cs[cs.len() - 1] != '/' {
        push_char(&mut res, '/');
    }
    append_str(&mut res, name);
    assert(res@ =~= join_path(dir@, name@));
    res
}

/// The length of what starts `p` before its components: the root `/`, or a
/// leading `.` component (`.` alone or followed by `/`).
pub open spec fn lead_len(p: Seq<char>) -> int {
    if p.len() > 0 && p[0] == '/' {
        1
    } else if p.len() > 0 && p[0] == '.' && (p.len() == 1 || p[1] == '/') {
        1
    } else {
        0
    }
}

/// `p` without the separators and `.` components at its end, never cutting
/// into its first `floor` characters.
pub open spec fn trim_back(p: Seq<char>, floor: int) -> Seq<char>
    decreases p.len(),
{
    if p.len() > floor && p.len() > 0 && p.last() == '/' {
        trim_back(p.drop_last(), floor)
    } else if p.len() > floor && p.len() > 0 && p.last() == '.' && (p.len() - 1 == floor || (p.len() >= 2
        && p[p.len() - 2] == '/')) {
        trim_back(p.drop_last(), floor)
    } else {
        p
    }
}

/// Where the last component of `q` starts: just after its last `/` at or past
/// `floor`, or at `floor`.
pub open spec fn component_start(q: Seq<char>, floor: int) -> int
    decreases q.len(),
{
    if q.len() <= floor || q.len() == 0 {
        floor
    } else if q.last() == '/' {
        q.len() as int
    } else {
        component_start(q.drop_last(), floor)
    }
}

/// The parent of the path `p`, as `Path::parent` gives it on Unix: `None` for
/// the empty path and the root; the empty path for a single component (or `.`);
/// else `p` up to its last component, with separators, `.` components and
/// repeated `/` at the ends of both ignored.
pub open spec fn path_parent(p: Seq<char>) -> Option<Seq<char>> {
    let floor = lead_len(p);
    let q = trim_back(p, floor);
    if q.len() == floor {
        if floor == 1 && p[0] == '.' {
            Some(Seq::empty())
        } else {
            None
        }
    } else {
        Some(trim_back(q.take(component_start(q, floor)), floor))
    }
}

proof fn lemma_trim_back_len(p: Seq<char>, floor: int)
    requires
        0 <= floor <= p.len(),
    ensures
        floor <= trim_back(p, floor).len() <= p.len(),
        trim_back(p, floor) == p.take(trim_back(p, floor).len() as int),
    decreases p.len(),
{
    if p.len() > floor && p.len() > 0 && (p.last() == '/' || p.last() == '.') {
        lemma_trim_back_len(p.drop_last(), floor);
        let t = trim_back(p.drop_last(), floor);
        assert(p.drop_last().take(t.len() as int) =~= p.take(t.len() as int));
    }
    assert(p.take(p.len() as int) =~= p);
}

fn trim_back_exec(cs: &mut Vec<char>, floor: usize)
    requires
        floor <= old(cs).len(),
    ensures
        final(cs)@ == trim_back(old(cs)@, floor as int),
{
    loop
        invariant
            floor <= cs.len(),
            trim_back(cs@, floor as int) == trim_back(old(cs)@, floor as int),
        decreases cs.len(),
    {
        let n = cs.len();
        if n > floor && cs[n - 1] == '/' {
            cs.pop();
        } else if n > floor && cs[n - 1] == '.' && (n - 1 == floor || (n >= 2 && cs[n - 2] == '/')) {
            cs.pop();
        } else {
            return;
        }
    }
}

/// The parent of the path `p`.
pub fn path_parent_str(p: &str) -> (res: Option<String>)
    ensures
        opt_string_view(res) == path_parent(p@),
{
    let cs = chars_of(p);
    let floor: usize = if cs.len() > 0 && cs[0] == '/' {
        1
    } else if cs.len() > 0 && cs[0] == '.' && (cs.len() == 1 || cs[1] == '/') {
        1
    } else {
        0
    };
    let mut q = cs.clone();
    trim_back_exec(&mut q, floor);
    proof {
        lemma_trim_back_len(cs@, floor as int);
    }
    if q.len() == floor {
        if floor == 1 && cs[0] == '.' {
            return Some(String::new());
        } else {
            return None;
        }
    }
    let mut k: usize = q.len();
    assert(q@.take(q.len() as int) =~= q@);
    while k > floor && q[k - 1] != '/'
        invariant
            floor <= k <= q.len(),
            component_start(q@.take(k as int), floor as int) == component_start(q@, floor as int),
        decreases k,
    {
        assert(q@.take(k as int).drop_last() =~= q@.take(k - 1));
        k = k - 1;
    }
    proof {
        if k > floor {
            assert(q@.take(k as int).last() == q@[k - 1]);
        }
    }
    let mut front: Vec<char> = Vec::new();
    let mut j: usize = 0;
    while j < k
        invariant
            j <= k <= q.len(),
            front@ == q@.take(j as int),
        decreases k - j,
    {
        front.push(q[j]);
        assert(q@.take(j + 1) =~= q@.take(j as int).push(q@[j as int]));
        j = j + 1;
    }
    trim_back_exec(&mut front, floor);
    Some(string_from_chars(&front))
}

/// The characters of an optional string.
pub open spec fn opt_string_view(o: Option<String>) -> Option<Seq<char>> {
    match o {
        Some(s) => Some(s@),
        None => None,
    }
}

} // verus!
