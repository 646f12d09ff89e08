use vstd::prelude::*;
use vstd::seq_lib::{to_multiset_build, to_multiset_insert};

use crate::text::{chars_of, views};

verus! {

/// `a` comes strictly before `b` in the order of `String`: lexicographic by
/// code point, a proper prefix coming first.
pub open spec fn chars_lt(a: Seq<char>, b: Seq<char>) -> bool
    decreases a.len(),
{
    if a.len() == 0 {
        b.len() > 0
    } else if b.len() == 0 {
        false
    } else if a[0] != b[0] {
        (a[0] as int) < (b[0] as int)
    } else {
        chars_lt(a.drop_first(), b.drop_first())
    }
}

/// `a` comes before `b` or equals it.
pub open spec fn chars_le(a: Seq<char>, b: Seq<char>) -> bool {
    a == b || chars_lt(a, b)
}

/// Every element comes before or equals each later one.
pub open spec fn sorted(s: Seq<Seq<char>>) -> bool {
    forall|i: int, j: int| 0 <= i < j < s.len() ==> chars_le(s[i], s[j])
}

/// Exactly one of `a < b`, `a == b`, `b < a` holds.
pub proof fn lemma_chars_lt_trichotomy(a: Seq<char>, b: Seq<char>)
    ensures
        chars_lt(a, b) || a == b || chars_lt(b, a),
        !(chars_lt(a, b) && chars_lt(b, a)),
        !chars_lt(a, a),
    decreases a.len(),
{
    if a.len() > 0 && b.len() > 0 && a[0] != b[0] {
        assert((a[0] as int) != (b[0] as int));
    }
    if a.len() > 0 && b.len() > 0 && a[0] == b[0] {
        lemma_chars_lt_trichotomy(a.drop_first(), b.drop_first());
        if a.drop_first() == b.drop_first() {
            assert(a =~= seq![a[0]] + a.drop_first());
            assert(b =~= seq![b[0]] + b.drop_first());
        }
    }
    if a.len() > 0 {
        lemma_chars_lt_trichotomy(a.drop_first(), a.drop_first());
    }
    if a.len() == 0 && b.len() == 0 {
        assert(a =~= b);
    }
}

/// The order is transitive.
pub proof fn lemma_chars_lt_transitive(a: Seq<char>, b: Seq<char>, c: Seq<char>)
    requires
        chars_lt(a, b),
        chars_lt(b, c),
    ensures
        chars_lt(a, c),
    decreases a.len(),
{
    if a.len() > 0 && b.len() > 0 && c.len() > 0 && a[0] == b[0] && b[0] == c[0] {
        lemma_chars_lt_transitive(a.drop_first(), b.drop_first(), c.drop_first());
    }
}

proof fn lemma_chars_lt_skip(a: Seq<char>, b: Seq<char>, i: int)
    requires
        0 <= i <= a.len(),
        i <= b.len(),
        forall|k: int| 0 <= k < i ==> a[k] == b[k],
    ensures
        chars_lt(a, b) == chars_lt(a.skip(i), b.skip(i)),
    decreases i,
{
    if i == 0 {
        assert(a.skip(0) =~= a);
        assert(b.skip(0) =~= b);
    } else {
        lemma_chars_lt_skip(a.drop_first(), b.drop_first(), i - 1);
        assert(a.drop_first().skip(i - 1) =~= a.skip(i));
        assert(b.drop_first().skip(i - 1) =~= b.skip(i));
    }
}

/// Whether `a` comes strictly before `b`.
pub fn chars_less(a: &Vec<char>, b: &Vec<char>) -> (res: bool)
    ensures
        res == chars_lt(a@, b@),
{
    let mut i: usize = 0;
    while i < a.len() && i < b.len() && a[i] == b[i]
        invariant
            i <= a.len(),
            i <= b.len(),
            forall|k: int| 0 <= k < i ==> a@[k] == b@[k],
        decreases a.len() - i,
    {
        i = i + 1;
    }
    proof {
        lemma_chars_lt_skip(a@, b@, i as int);
    }
    if i == a.len() {
        i < b.len()
    } else if i == b.len() {
        false
    } else {
        a[i] < b[i]
    }
}

/// The character sequences held in `keys`.
pub open spec fn key_views(keys: Seq<Vec<char>>) -> Seq<Seq<char>> {
    keys.map_values(|k: Vec<char>| k@)
}

/// `items`, sorted as `Vec::sort` sorts strings.
pub fn sort_strings(items: Vec<String>) -> (res: Vec<String>)
    ensures
        sorted(views(res@)),
        views(res@).to_multiset() == views(items@).to_multiset(),
{
    let mut res: Vec<String> = Vec::new();
    let mut keys: Vec<Vec<char>> = Vec::new();
    let mut i: usize = 0;
    assert(views(items@).take(0) =~= Seq::<Seq<char>>::empty());
    assert(views(res@) =~= Seq::<Seq<char>>::empty());
    while i < items.len()
        invariant
            i <= items.len(),
            views(res@) == key_views(keys@),
            sorted(key_views(keys@)),
            views(res@).to_multiset() == views(items@).take(i as int).to_multiset(),
        decreases items.len() - i,
    {
        let item = items[i].clone();
        let key = chars_of(item.as_str());
        let mut j: usize = 0;
        while j < keys.len() && !chars_less(&key, &keys[j])
            invariant
                j <= keys.len(),
                forall|k: int| 0 <= k < j ==> !chars_lt(key@, #[trigger] key_views(keys@)[k]),
            decreases keys.len() - j,
        {
            assert(key_views(keys@)[j as int] == keys@[j as int]@);
            j = j + 1;
        }
        let ghost old_keys = key_views(keys@);
        let ghost old_res = views(res@);
        proof {
            assert forall|k: int| 0 <= k < j implies chars_le(old_keys[k], key@) by {
                lemma_chars_lt_trichotomy(key@, old_keys[k]);
            }
            if j < keys.len() {
                assert(key_views(keys@)[j as int] == keys@[j as int]@);
                assert forall|k: int| j <= k < old_keys.len() implies chars_lt(key@, old_keys[k]) by {
                    if k > j {
                        assert(chars_le(old_keys[j as int], old_keys[k]));
                        if old_keys[j as int] != old_keys[k] {
                            lemma_chars_lt_transitive(key@, old_keys[j as int], old_keys[k]);
                        }
                    }
                }
            }
        }
        res.insert(j, item);
        keys.insert(j, key);
        proof {
            assert(views(res@) =~= old_res.insert(j as int, key@));
            assert(key_views(keys@) =~= old_keys.insert(j as int, key@));
            to_multiset_insert(old_res, j as int, key@);
            assert(views(items@).take(i + 1) =~= views(items@).take(i as int).push(key@));
            to_multiset_build(views(items@).take(i as int), key@);
            assert forall|a: int, b: int| 0 <= a < b < key_views(keys@).len() implies
                chars_le(key_views(keys@)[a], key_views(keys@)[b]) by {
                if a < j && b > j {
                    assert(chars_le(old_keys[a], key@));
                    assert(chars_lt(key@, old_keys[b - 1]));
                    if old_keys[a] != key@ {
                        lemma_chars_lt_transitive(old_keys[a], key@, old_keys[b - 1]);
                    }
                }
            }
        }
        i = i + 1;
    }
    assert(views(items@).take(items.len() as int) =~= views(items@));
    res
}

} // verus!
