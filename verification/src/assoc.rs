//! Association lists keyed by strings: a `Vec` of `(key, value)` pairs in which
//! no key occurs twice, viewed as a map from key text to value.

use vstd::prelude::*;
use crate::text::str_eq;

verus! {

/// No key occurs twice.
pub open spec fn keys_unique<V>(s: Seq<(String, V)>) -> bool {
    forall|i: int, j: int| 0 <= i < j < s.len() ==> #[trigger] s[i].0@ != #[trigger] s[j].0@
}

/// Some pair has key `k`.
pub open spec fn has_key<V>(s: Seq<(String, V)>, k: Seq<char>) -> bool {
    exists|i: int| 0 <= i < s.len() && #[trigger] s[i].0@ == k
}

/// The map from key text to value that the list stands for.
pub open spec fn assoc_view<V>(s: Seq<(String, V)>) -> Map<Seq<char>, V> {
    Map::new(
        |k: Seq<char>| has_key(s, k),
        |k: Seq<char>| s[choose|i: int| 0 <= i < s.len() && #[trigger] s[i].0@ == k].1,
    )
}

/// In a list without repeated keys, the value of a key is that of its pair.
pub proof fn lemma_assoc_at<V>(s: Seq<(String, V)>, i: int)
    requires
        keys_unique(s),
        0 <= i < s.len(),
    ensures
        assoc_view(s).contains_key(s[i].0@),
        assoc_view(s)[s[i].0@] == s[i].1,
{
    let k = s[i].0@;
    assert(has_key(s, k));
    let j = choose|j: int| 0 <= j < s.len() && #[trigger] s[j].0@ == k;
    if j != i {
        if j < i {
            assert(s[j].0@ != s[i].0@);
        } else {
            assert(s[i].0@ != s[j].0@);
        }
    }
}

/// Replacing the value of the pair at `i` updates that key only.
pub proof fn lemma_assoc_update<V>(s: Seq<(String, V)>, i: int, key: String, v: V)
    requires
        keys_unique(s),
        0 <= i < s.len(),
        key@ == s[i].0@,
    ensures
        keys_unique(s.update(i, (key, v))),
        assoc_view(s.update(i, (key, v))) == assoc_view(s).insert(key@, v),
{
    let t = s.update(i, (key, v));
    assert forall|a: int, b: int| 0 <= a < b < t.len() implies #[trigger] t[a].0@ != #[trigger] t[b].0@ by {
        assert(t[a].0@ == s[a].0@);
        assert(t[b].0@ == s[b].0@);
        assert(s[a].0@ != s[b].0@);
    }
    let m = assoc_view(s).insert(s[i].0@, v);
    assert forall|k: Seq<char>| #[trigger] assoc_view(t).contains_key(k) == m.contains_key(k) by {
        if has_key(t, k) {
            let j = choose|j: int| 0 <= j < t.len() && #[trigger] t[j].0@ == k;
            assert(s[j].0@ == k);
            assert(has_key(s, k));
        }
        if has_key(s, k) {
            let j = choose|j: int| 0 <= j < s.len() && #[trigger] s[j].0@ == k;
            assert(t[j].0@ == k);
            assert(has_key(t, k));
        }
        if k == s[i].0@ {
            assert(t[i].0@ == k);
            assert(has_key(t, k));
        }
    }
    assert forall|k: Seq<char>| #[trigger] assoc_view(t).contains_key(k) implies assoc_view(t)[k] == m[k] by {
        let j = choose|j: int| 0 <= j < t.len() && #[trigger] t[j].0@ == k;
        lemma_assoc_at(t, j);
        if j != i {
            lemma_assoc_at(s, j);
            assert(s[j].0@ == k);
            assert(k != s[i].0@) by {
                if j < i { assert(s[j].0@ != s[i].0@); } else { assert(s[i].0@ != s[j].0@); }
            }
        }
    }
    assert(assoc_view(t) =~= m);
}

/// Appending a pair with a new key adds that key.
pub proof fn lemma_assoc_push<V>(s: Seq<(String, V)>, key: String, v: V)
    requires
        keys_unique(s),
        !has_key(s, key@),
    ensures
        keys_unique(s.push((key, v))),
        assoc_view(s.push((key, v))) == assoc_view(s).insert(key@, v),
{
    let t = s.push((key, v));
    assert forall|a: int, b: int| 0 <= a < b < t.len() implies #[trigger] t[a].0@ != #[trigger] t[b].0@ by {
        if b == s.len() {
            assert(t[a].0@ == s[a].0@);
            if s[a].0@ == key@ {
                assert(has_key(s, key@));
            }
        } else {
            assert(s[a].0@ != s[b].0@);
        }
    }
    let m = assoc_view(s).insert(key@, v);
    assert forall|k: Seq<char>| #[trigger] assoc_view(t).contains_key(k) == m.contains_key(k) by {
        if has_key(t, k) {
            let j = choose|j: int| 0 <= j < t.len() && #[trigger] t[j].0@ == k;
            if j < s.len() {
                assert(s[j].0@ == k);
                assert(has_key(s, k));
            }
        }
        if has_key(s, k) {
            let j = choose|j: int| 0 <= j < s.len() && #[trigger] s[j].0@ == k;
            assert(t[j].0@ == k);
        }
        if k == key@ {
            assert(t[s.len() as int].0@ == k);
        }
    }
    assert forall|k: Seq<char>| #[trigger] assoc_view(t).contains_key(k) implies assoc_view(t)[k] == m[k] by {
        let j = choose|j: int| 0 <= j < t.len() && #[trigger] t[j].0@ == k;
        lemma_assoc_at(t, j);
        if j < s.len() {
            lemma_assoc_at(s, j);
            assert(s[j].0@ == k);
            assert(k != key@) by {
                if k == key@ { assert(has_key(s, key@)); }
            }
        }
    }
    assert(assoc_view(t) =~= m);
}

/// Removing the pair at `i` removes its key.
pub proof fn lemma_assoc_remove<V>(s: Seq<(String, V)>, i: int)
    requires
        keys_unique(s),
        0 <= i < s.len(),
    ensures
        keys_unique(s.remove(i)),
        assoc_view(s.remove(i)) == assoc_view(s).remove(s[i].0@),
{
    let t = s.remove(i);
    assert forall|a: int, b: int| 0 <= a < b < t.len() implies #[trigger] t[a].0@ != #[trigger] t[b].0@ by {
        let a2 = if a < i { a } else { a + 1 };
        let b2 = if b < i { b } else { b + 1 };
        assert(t[a] == s[a2]);
        assert(t[b] == s[b2]);
        assert(s[a2].0@ != s[b2].0@);
    }
    let m = assoc_view(s).remove(s[i].0@);
    assert forall|k: Seq<char>| #[trigger] assoc_view(t).contains_key(k) == m.contains_key(k) by {
        if has_key(t, k) {
            let j = choose|j: int| 0 <= j < t.len() && #[trigger] t[j].0@ == k;
            let j2 = if j < i { j } else { j + 1 };
            assert(t[j] == s[j2]);
            assert(has_key(s, k));
            assert(k != s[i].0@) by {
                if j2 < i { assert(s[j2].0@ != s[i].0@); } else { assert(s[i].0@ != s[j2].0@); }
            }
        }
        if has_key(s, k) && k != s[i].0@ {
            let j = choose|j: int| 0 <= j < s.len() && #[trigger] s[j].0@ == k;
            assert(j != i);
            let j2 = if j < i { j } else { j - 1 };
            assert(t[j2] == s[j]);
            assert(has_key(t, k));
        }
    }
    assert forall|k: Seq<char>| #[trigger] assoc_view(t).contains_key(k) implies assoc_view(t)[k] == m[k] by {
        let j = choose|j: int| 0 <= j < t.len() && #[trigger] t[j].0@ == k;
        let j2 = if j < i { j } else { j + 1 };
        assert(t[j] == s[j2]);
        lemma_assoc_at(t, j);
        lemma_assoc_at(s, j2);
    }
    assert(assoc_view(t) =~= m);
}

/// The position of the pair with key `k`, if any.
pub fn assoc_index<V>(v: &Vec<(String, V)>, k: &str) -> (r: Option<usize>)
    ensures
        r matches Some(i) ==> i < v@.len() && v@[i as int].0@ == k@,
        r is None ==> !has_key(v@, k@),
{
    let mut i: usize = 0;
    while i < v.len()
        invariant
            i <= v@.len(),
            forall|j: int| 0 <= j < i ==> #[trigger] v@[j].0@ != k@,
        decreases v@.len() - i,
    {
        if str_eq(v[i].0.as_str(), k) {
            return Some(i);
        }
        i = i + 1;
    }
    None
}

/// The value stored under `k`, if any.
pub fn assoc_get<'a, V>(v: &'a Vec<(String, V)>, k: &str) -> (r: Option<&'a V>)
    requires
        keys_unique(v@),
    ensures
        r matches Some(x) ==> assoc_view(v@).contains_key(k@) && assoc_view(v@)[k@] == *x,
        r is None ==> !assoc_view(v@).contains_key(k@),
{
    match assoc_index(v, k) {
        Some(i) => {
            proof {
                lemma_assoc_at(v@, i as int);
            }
            Some(&v[i].1)
        },
        None => None,
    }
}

/// Stores `value` under `key`, replacing any earlier value of the key.
pub fn assoc_insert<V>(v: &mut Vec<(String, V)>, key: String, value: V)
    requires
        keys_unique(old(v)@),
    ensures
        keys_unique(final(v)@),
        assoc_view(final(v)@) == assoc_view(old(v)@).insert(key@, value),
{
    match assoc_index(v, key.as_str()) {
        Some(i) => {
            proof {
                lemma_assoc_update(v@, i as int, key, value);
            }
            v.set(i, (key, value));
        },
        None => {
            proof {
                lemma_assoc_push(v@, key, value);
            }
            v.push((key, value));
        },
    }
}

/// Removes the pair with key `k` and returns its value, if any.
pub fn assoc_remove<V>(v: &mut Vec<(String, V)>, k: &str) -> (r: Option<V>)
    requires
        keys_unique(old(v)@),
    ensures
        keys_unique(final(v)@),
        assoc_view(final(v)@) == assoc_view(old(v)@).remove(k@),
        r matches Some(x) ==> assoc_view(old(v)@).contains_key(k@) && assoc_view(old(v)@)[k@] == x,
        r is None ==> !assoc_view(old(v)@).contains_key(k@),
{
    match assoc_index(v, k) {
        Some(i) => {
            proof {
                lemma_assoc_at(v@, i as int);
                lemma_assoc_remove(v@, i as int);
            }
            let (_key, value) = v.remove(i);
            Some(value)
        },
        None => {
            proof {
                assert(assoc_view(v@).remove(k@) =~= assoc_view(v@));
            }
            None
        },
    }
}

} // verus!
