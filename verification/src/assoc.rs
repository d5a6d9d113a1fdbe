//! Association vectors with distinct keys, the map view they denote, and
//! the lookup/insert operations the data-package cache builds its tables
//! from. Insertion overwrites an existing key, so the view is plain map
//! insertion.

use vstd::prelude::*;

use crate::data::{Item, Location};

verus! {

/// No key occurs twice.
pub open spec fn spec_assoc_distinct<K, V>(s: Seq<(K, V)>) -> bool {
    forall|i: int, j: int| 0 <= i < j < s.len() ==> s[i].0 != s[j].0
}

/// The map an association vector denotes; a repeated key takes its last
/// value, as repeated insertion would.
pub open spec fn spec_assoc_map<K, V>(s: Seq<(K, V)>) -> Map<K, V>
    decreases s.len(),
{
    if s.len() == 0 {
        Map::empty()
    } else {
        spec_assoc_map(s.drop_last()).insert(s.last().0, s.last().1)
    }
}

/// A map after inserting a sequence of pairs in order.
pub open spec fn spec_insert_all<K, V>(m: Map<K, V>, s: Seq<(K, V)>) -> Map<K, V>
    decreases s.len(),
{
    if s.len() == 0 {
        m
    } else {
        spec_insert_all(m, s.drop_last()).insert(s.last().0, s.last().1)
    }
}

/// The denoted map has exactly the keys of the vector.
pub proof fn lemma_assoc_map_contains<K, V>(s: Seq<(K, V)>, k: K)
    ensures
        spec_assoc_map(s).contains_key(k) <==> exists|i: int| 0 <= i < s.len() && s[i].0 == k,
    decreases s.len(),
{
    if s.len() > 0 {
        lemma_assoc_map_contains(s.drop_last(), k);
        if s.last().0 == k {
            assert(s[s.len() - 1].0 == k);
        } else if spec_assoc_map(s).contains_key(k) {
            let i = choose|i: int| 0 <= i < s.drop_last().len() && s.drop_last()[i].0 == k;
            assert(s[i].0 == k);
        } else if exists|i: int| 0 <= i < s.len() && s[i].0 == k {
            let i = choose|i: int| 0 <= i < s.len() && s[i].0 == k;
            assert(s.drop_last()[i].0 == k);
        }
    }
}

/// With distinct keys, the denoted map sends each key to its paired value.
pub proof fn lemma_assoc_map_lookup<K, V>(s: Seq<(K, V)>, i: int)
    requires
        spec_assoc_distinct(s),
        0 <= i < s.len(),
    ensures
        spec_assoc_map(s).contains_key(s[i].0),
        spec_assoc_map(s)[s[i].0] == s[i].1,
    decreases s.len(),
{
    if i < s.len() - 1 {
        assert(spec_assoc_distinct(s.drop_last())) by {
            assert forall|x: int, y: int|
                0 <= x < y < s.drop_last().len() implies s.drop_last()[x].0
                != s.drop_last()[y].0 by {
                assert(s[x].0 != s[y].0);
            }
        }
        lemma_assoc_map_lookup(s.drop_last(), i);
        assert(s[i].0 != s.last().0);
    }
}

/// Overwriting the pair at one index denotes insertion at its key.
pub proof fn lemma_assoc_map_update<K, V>(s: Seq<(K, V)>, i: int, v: V)
    requires
        spec_assoc_distinct(s),
        0 <= i < s.len(),
    ensures
        spec_assoc_distinct(s.update(i, (s[i].0, v))),
        spec_assoc_map(s.update(i, (s[i].0, v))) == spec_assoc_map(s).insert(s[i].0, v),
    decreases s.len(),
{
    let t = s.update(i, (s[i].0, v));
    assert(spec_assoc_distinct(t)) by {
        assert forall|x: int, y: int| 0 <= x < y < t.len() implies t[x].0 != t[y].0 by {
            assert(s[x].0 != s[y].0);
            assert(t[x].0 == s[x].0 && t[y].0 == s[y].0);
        }
    }
    if i == s.len() - 1 {
        assert(t.drop_last() =~= s.drop_last());
        assert(spec_assoc_map(t) =~= spec_assoc_map(s).insert(s[i].0, v));
    } else {
        assert(spec_assoc_distinct(s.drop_last())) by {
            assert forall|x: int, y: int|
                0 <= x < y < s.drop_last().len() implies s.drop_last()[x].0
                != s.drop_last()[y].0 by {
                assert(s[x].0 != s[y].0);
            }
        }
        lemma_assoc_map_update(s.drop_last(), i, v);
        assert(t.drop_last() =~= s.drop_last().update(i, (s[i].0, v)));
        assert(s[i].0 != s.last().0);
        assert(spec_assoc_map(t) =~= spec_assoc_map(s).insert(s[i].0, v));
    }
}

/// Appending a fresh pair denotes insertion.
pub proof fn lemma_assoc_map_push<K, V>(s: Seq<(K, V)>, k: K, v: V)
    requires
        spec_assoc_distinct(s),
        forall|i: int| 0 <= i < s.len() ==> s[i].0 != k,
    ensures
        spec_assoc_distinct(s.push((k, v))),
        spec_assoc_map(s.push((k, v))) == spec_assoc_map(s).insert(k, v),
{
    let t = s.push((k, v));
    assert(spec_assoc_distinct(t)) by {
        assert forall|x: int, y: int| 0 <= x < y < t.len() implies t[x].0 != t[y].0 by {
            if y < s.len() {
                assert(s[x].0 != s[y].0);
            } else {
                assert(t[y] == (k, v));
                assert(t[x].0 == s[x].0);
            }
        }
    }
    assert(t.drop_last() =~= s);
    assert(t.last() == (k, v));
}

/// Look a numeric key up.
pub fn assoc_get_i64<'a, V>(entries: &'a Vec<(i64, V)>, key: i64) -> (r: Option<&'a V>)
    requires
        spec_assoc_distinct(entries@),
    ensures
        match r {
            Some(v) => spec_assoc_map(entries@).contains_key(key) && *v == spec_assoc_map(
                entries@,
            )[key],
            None => !spec_assoc_map(entries@).contains_key(key),
        },
{
    let mut i: usize = 0;
    while i < entries.len()
        invariant
            spec_assoc_distinct(entries@),
            i <= entries@.len(),
            forall|j: int| 0 <= j < i ==> entries@[j].0 != key,
        decreases entries@.len() - i,
    {
        if entries[i].0 == key {
            proof {
                lemma_assoc_map_lookup(entries@, i as int);
            }
            return Some(&entries[i].1);
        }
        i = i + 1;
    }
    proof {
        lemma_assoc_map_contains(entries@, key);
    }
    None
}

/// Insert at a numeric key, overwriting its old value if present.
pub fn assoc_put_i64<V>(entries: &mut Vec<(i64, V)>, key: i64, value: V)
    requires
        spec_assoc_distinct(old(entries)@),
    ensures
        spec_assoc_distinct(final(entries)@),
        spec_assoc_map(final(entries)@) == spec_assoc_map(old(entries)@).insert(key, value),
{
    let mut i: usize = 0;
    while i < entries.len()
        invariant
            spec_assoc_distinct(entries@),
            entries@ == old(entries)@,
            i <= entries@.len(),
            forall|j: int| 0 <= j < i ==> entries@[j].0 != key,
        decreases entries@.len() - i,
    {
        if entries[i].0 == key {
            proof {
                lemma_assoc_map_update(entries@, i as int, value);
            }
            entries[i] = (key, value);
            return ;
        }
        i = i + 1;
    }
    proof {
        lemma_assoc_map_push(entries@, key, value);
    }
    entries.push((key, value));
}

/// Look an item key up.
pub fn assoc_get_item(entries: &Vec<(Item, i64)>, key: Item) -> (r: Option<i64>)
    requires
        spec_assoc_distinct(entries@),
    ensures
        match r {
            Some(v) => spec_assoc_map(entries@).contains_key(key) && v == spec_assoc_map(
                entries@,
            )[key],
            None => !spec_assoc_map(entries@).contains_key(key),
        },
{
    let mut i: usize = 0;
    while i < entries.len()
        invariant
            spec_assoc_distinct(entries@),
            i <= entries@.len(),
            forall|j: int| 0 <= j < i ==> entries@[j].0 != key,
        decreases entries@.len() - i,
    {
        if entries[i].0 == key {
            proof {
                lemma_assoc_map_lookup(entries@, i as int);
            }
            return Some(entries[i].1);
        }
        i = i + 1;
    }
    proof {
        lemma_assoc_map_contains(entries@, key);
    }
    None
}

/// Insert at an item key, overwriting its old value if present.
pub fn assoc_put_item(entries: &mut Vec<(Item, i64)>, key: Item, value: i64)
    requires
        spec_assoc_distinct(old(entries)@),
    ensures
        spec_assoc_distinct(final(entries)@),
        spec_assoc_map(final(entries)@) == spec_assoc_map(old(entries)@).insert(key, value),
{
    let mut i: usize = 0;
    while i < entries.len()
        invariant
            spec_assoc_distinct(entries@),
            entries@ == old(entries)@,
            i <= entries@.len(),
            forall|j: int| 0 <= j < i ==> entries@[j].0 != key,
        decreases entries@.len() - i,
    {
        if entries[i].0 == key {
            proof {
                lemma_assoc_map_update(entries@, i as int, value);
            }
            entries[i] = (key, value);
            return ;
        }
        i = i + 1;
    }
    proof {
        lemma_assoc_map_push(entries@, key, value);
    }
    entries.push((key, value));
}

/// Look a location-and-copy key up.
pub fn assoc_get_location(entries: &Vec<((Location, u8), i64)>, key: (Location, u8)) -> (r: Option<
    i64,
>)
    requires
        spec_assoc_distinct(entries@),
    ensures
        match r {
            Some(v) => spec_assoc_map(entries@).contains_key(key) && v == spec_assoc_map(
                entries@,
            )[key],
            None => !spec_assoc_map(entries@).contains_key(key),
        },
{
    let mut i: usize = 0;
    while i < entries.len()
        invariant
            spec_assoc_distinct(entries@),
            i <= entries@.len(),
            forall|j: int| 0 <= j < i ==> entries@[j].0 != key,
        decreases entries@.len() - i,
    {
        let hit = entries[i].0.0 == key.0 && entries[i].0.1 == key.1;
        if hit {
            proof {
                assert(entries@[i as int].0 == key);
                lemma_assoc_map_lookup(entries@, i as int);
            }
            return Some(entries[i].1);
        }
        i = i + 1;
    }
    proof {
        lemma_assoc_map_contains(entries@, key);
    }
    None
}

/// Insert at a location-and-copy key, overwriting its old value if present.
pub fn assoc_put_location(entries: &mut Vec<((Location, u8), i64)>, key: (Location, u8), value: i64)
    requires
        spec_assoc_distinct(old(entries)@),
    ensures
        spec_assoc_distinct(final(entries)@),
        spec_assoc_map(final(entries)@) == spec_assoc_map(old(entries)@).insert(key, value),
{
    let mut i: usize = 0;
    while i < entries.len()
        invariant
            spec_assoc_distinct(entries@),
            entries@ == old(entries)@,
            i <= entries@.len(),
            forall|j: int| 0 <= j < i ==> entries@[j].0 != key,
        decreases entries@.len() - i,
    {
        let hit = entries[i].0.0 == key.0 && entries[i].0.1 == key.1;
        if hit {
            proof {
                assert(entries@[i as int].0 == key);
                lemma_assoc_map_update(entries@, i as int, value);
            }
            entries[i] = (key, value);
            return ;
        }
        i = i + 1;
    }
    proof {
        lemma_assoc_map_push(entries@, key, value);
    }
    entries.push((key, value));
}

/// No game name occurs twice, by text.
pub open spec fn spec_assoc_distinct_str<V>(s: Seq<(String, V)>) -> bool {
    forall|i: int, j: int| 0 <= i < j < s.len() ==> s[i].0@ != s[j].0@
}

/// The map a name-keyed association vector denotes, keyed by the name's
/// text.
pub open spec fn spec_assoc_map_str<V>(s: Seq<(String, V)>) -> Map<Seq<char>, V>
    decreases s.len(),
{
    if s.len() == 0 {
        Map::empty()
    } else {
        spec_assoc_map_str(s.drop_last()).insert(s.last().0@, s.last().1)
    }
}

/// The denoted map has exactly the names of the vector.
pub proof fn lemma_assoc_map_str_contains<V>(s: Seq<(String, V)>, k: Seq<char>)
    ensures
        spec_assoc_map_str(s).contains_key(k) <==> exists|i: int| 0 <= i < s.len() && s[i].0@ == k,
    decreases s.len(),
{
    if s.len() > 0 {
        lemma_assoc_map_str_contains(s.drop_last(), k);
        if s.last().0@ == k {
            assert(s[s.len() - 1].0@ == k);
        } else if spec_assoc_map_str(s).contains_key(k) {
            let i = choose|i: int| 0 <= i < s.drop_last().len() && s.drop_last()[i].0@ == k;
            assert(s[i].0@ == k);
        } else if exists|i: int| 0 <= i < s.len() && s[i].0@ == k {
            let i = choose|i: int| 0 <= i < s.len() && s[i].0@ == k;
            assert(s.drop_last()[i].0@ == k);
        }
    }
}

/// With distinct names, the denoted map sends each name to its paired
/// value.
pub proof fn lemma_assoc_map_str_lookup<V>(s: Seq<(String, V)>, i: int)
    requires
        spec_assoc_distinct_str(s),
        0 <= i < s.len(),
    ensures
        spec_assoc_map_str(s).contains_key(s[i].0@),
        spec_assoc_map_str(s)[s[i].0@] == s[i].1,
    decreases s.len(),
{
    if i < s.len() - 1 {
        assert(spec_assoc_distinct_str(s.drop_last())) by {
            assert forall|x: int, y: int|
                0 <= x < y < s.drop_last().len() implies s.drop_last()[x].0@
                != s.drop_last()[y].0@ by {
                assert(s[x].0@ != s[y].0@);
            }
        }
        lemma_assoc_map_str_lookup(s.drop_last(), i);
        assert(s[i].0@ != s.last().0@);
    }
}

/// Appending a fresh name denotes insertion.
pub proof fn lemma_assoc_map_str_push<V>(s: Seq<(String, V)>, k: String, v: V)
    requires
        spec_assoc_distinct_str(s),
        forall|i: int| 0 <= i < s.len() ==> s[i].0@ != k@,
    ensures
        spec_assoc_distinct_str(s.push((k, v))),
        spec_assoc_map_str(s.push((k, v))) == spec_assoc_map_str(s).insert(k@, v),
{
    let t = s.push((k, v));
    assert(spec_assoc_distinct_str(t)) by {
        assert forall|x: int, y: int| 0 <= x < y < t.len() implies t[x].0@ != t[y].0@ by {
            if y < s.len() {
                assert(s[x].0@ != s[y].0@);
            } else {
                assert(t[y] == (k, v));
                assert(t[x].0@ == s[x].0@);
            }
        }
    }
    assert(t.drop_last() =~= s);
    assert(t.last() == (k, v));
}

/// Look a name key up by its text.
pub fn assoc_get_str<'a, V>(entries: &'a Vec<(String, V)>, key: &String) -> (r: Option<&'a V>)
    requires
        spec_assoc_distinct_str(entries@),
    ensures
        match r {
            Some(v) => spec_assoc_map_str(entries@).contains_key(key@) && *v
                == spec_assoc_map_str(entries@)[key@],
            None => !spec_assoc_map_str(entries@).contains_key(key@),
        },
{
    let mut i: usize = 0;
    while i < entries.len()
        invariant
            spec_assoc_distinct_str(entries@),
            i <= entries@.len(),
            forall|j: int| 0 <= j < i ==> entries@[j].0@ != key@,
        decreases entries@.len() - i,
    {
        if entries[i].0 == *key {
            proof {
                lemma_assoc_map_str_lookup(entries@, i as int);
            }
            return Some(&entries[i].1);
        }
        i = i + 1;
    }
    proof {
        lemma_assoc_map_str_contains(entries@, key@);
    }
    None
}

/// Insert at a name key, overwriting the value of an equally named entry if
/// one is present.
pub fn assoc_put_str<V>(entries: &mut Vec<(String, V)>, key: String, value: V)
    requires
        spec_assoc_distinct_str(old(entries)@),
    ensures
        spec_assoc_distinct_str(final(entries)@),
        spec_assoc_map_str(final(entries)@) == spec_assoc_map_str(old(entries)@).insert(
            key@,
            value,
        ),
{
    let mut i: usize = 0;
    while i < entries.len()
        invariant
            spec_assoc_distinct_str(entries@),
            entries@ == old(entries)@,
            i <= entries@.len(),
            forall|j: int| 0 <= j < i ==> entries@[j].0@ != key@,
        decreases entries@.len() - i,
    {
        if entries[i].0 == key {
            proof {
                lemma_assoc_map_str_update(entries@, i as int, key, value);
            }
            entries[i] = (key, value);
            return ;
        }
        i = i + 1;
    }
    proof {
        lemma_assoc_map_str_push(entries@, key, value);
    }
    entries.push((key, value));
}

/// Overwriting the pair at one index denotes insertion at its name.
pub proof fn lemma_assoc_map_str_update<V>(s: Seq<(String, V)>, i: int, k: String, v: V)
    requires
        spec_assoc_distinct_str(s),
        0 <= i < s.len(),
        k@ == s[i].0@,
    ensures
        spec_assoc_distinct_str(s.update(i, (k, v))),
        spec_assoc_map_str(s.update(i, (k, v))) == spec_assoc_map_str(s).insert(k@, v),
    decreases s.len(),
{
    let t = s.update(i, (k, v));
    assert(spec_assoc_distinct_str(t)) by {
        assert forall|x: int, y: int| 0 <= x < y < t.len() implies t[x].0@ != t[y].0@ by {
            assert(s[x].0@ != s[y].0@);
            assert(t[x].0@ == s[x].0@ && t[y].0@ == s[y].0@);
        }
    }
    if i == s.len() - 1 {
        assert(t.drop_last() =~= s.drop_last());
        assert(spec_assoc_map_str(t) =~= spec_assoc_map_str(s).insert(k@, v));
    } else {
        assert(spec_assoc_distinct_str(s.drop_last())) by {
            assert forall|x: int, y: int|
                0 <= x < y < s.drop_last().len() implies s.drop_last()[x].0@
                != s.drop_last()[y].0@ by {
                assert(s[x].0@ != s[y].0@);
            }
        }
        lemma_assoc_map_str_update(s.drop_last(), i, k, v);
        assert(t.drop_last() =~= s.drop_last().update(i, (k, v)));
        assert(s[i].0@ != s.last().0@);
        assert(spec_assoc_map_str(t) =~= spec_assoc_map_str(s).insert(k@, v));
    }
}

} // verus!
