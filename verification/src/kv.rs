//! String-keyed association vectors with map and set views.
//!
//! The specification builder keeps environment variables, labels and port
//! declarations as vectors of pairs whose keys stay unique; their abstract
//! value is the `Map` from key characters to values.  Volumes are kept as a
//! vector of distinct strings whose abstract value is a `Set`.

use vstd::prelude::*;

verus! {

/// The map held by an association vector: later entries win.
pub open spec fn kv_map<V: DeepView>(s: Seq<(String, V)>) -> Map<Seq<char>, V::V>
    decreases s.len(),
{
    if s.len() == 0 {
        Map::empty()
    } else {
        kv_map(s.drop_last()).insert(s.last().0@, s.last().1.deep_view())
    }
}

/// No two entries share a key.
pub open spec fn unique_keys<V>(s: Seq<(String, V)>) -> bool {
    forall|i: int, j: int|
        0 <= i < j < s.len() ==> (#[trigger] s[i]).0@ != (#[trigger] s[j]).0@
}

/// The set held by a vector of strings.
pub open spec fn str_set(s: Seq<String>) -> Set<Seq<char>>
    decreases s.len(),
{
    if s.len() == 0 {
        Set::empty()
    } else {
        str_set(s.drop_last()).insert(s.last()@)
    }
}

/// No two entries read the same.
pub open spec fn unique_strs(s: Seq<String>) -> bool {
    forall|i: int, j: int| 0 <= i < j < s.len() ==> (#[trigger] s[i])@ != (#[trigger] s[j])@
}

proof fn lemma_kv_absent<V: DeepView>(s: Seq<(String, V)>, k: Seq<char>)
    requires
        forall|i: int| 0 <= i < s.len() ==> (#[trigger] s[i]).0@ != k,
    ensures
        !kv_map(s).contains_key(k),
    decreases s.len(),
{
    if s.len() > 0 {
        lemma_kv_absent(s.drop_last(), k);
    }
}

proof fn lemma_kv_index<V: DeepView>(s: Seq<(String, V)>, i: int)
    requires
        unique_keys(s),
        0 <= i < s.len(),
    ensures
        kv_map(s).contains_key(s[i].0@),
        kv_map(s)[s[i].0@] == s[i].1.deep_view(),
    decreases s.len(),
{
    if i < s.len() - 1 {
        lemma_kv_index(s.drop_last(), i);
    }
}

proof fn lemma_kv_remove<V: DeepView>(s: Seq<(String, V)>, i: int)
    requires
        unique_keys(s),
        0 <= i < s.len(),
    ensures
        kv_map(s.remove(i)) =~= kv_map(s).remove(s[i].0@),
    decreases s.len(),
{
    let k = s[i].0@;
    if i == s.len() - 1 {
        assert(s.remove(i) =~= s.drop_last());
        lemma_kv_absent(s.drop_last(), k);
        assert(kv_map(s.drop_last()).insert(k, s[i].1.deep_view()).remove(k) =~= kv_map(
            s.drop_last(),
        ));
    } else {
        lemma_kv_remove(s.drop_last(), i);
        assert(s.remove(i).drop_last() =~= s.drop_last().remove(i));
        assert(s.remove(i).last() == s.last());
        assert(kv_map(s.remove(i)) =~= kv_map(s.drop_last().remove(i)).insert(
            s.last().0@,
            s.last().1.deep_view(),
        ));
    }
}

/// The position of `key` among the entries, when it is bound.
fn kv_find<V: DeepView>(pairs: &Vec<(String, V)>, key: &String) -> (r: Option<usize>)
    ensures
        match r {
            Some(i) => i < pairs@.len() && pairs@[i as int].0@ == key@,
            None => forall|j: int| 0 <= j < pairs@.len() ==> (#[trigger] pairs@[j]).0@ != key@,
        },
{
    let n = pairs.len();
    let mut i: usize = 0;
    while i < n
        invariant
            n == pairs@.len(),
            i <= n,
            forall|j: int| 0 <= j < i ==> (#[trigger] pairs@[j]).0@ != key@,
        decreases n - i,
    {
        if pairs[i].0 == *key {
            return Some(i);
        }
        i += 1;
    }
    None
}

/// Binds `key` to `value`, replacing any earlier binding of the same key.
pub fn kv_insert<V: DeepView>(pairs: Vec<(String, V)>, key: String, value: V) -> (r: Vec<(String, V)>)
    requires
        unique_keys(pairs@),
    ensures
        unique_keys(r@),
        kv_map(r@) == kv_map(pairs@).insert(key@, value.deep_view()),
{
    let ghost orig = pairs@;
    let mut out = pairs;
    match kv_find(&out, &key) {
        Some(i) => {
            let _removed = out.remove(i);
            proof {
                lemma_kv_remove(orig, i as int);
            }
            let ghost after = orig.remove(i as int);
            out.push((key, value));
            proof {
                assert(out@.drop_last() =~= after);
                assert(kv_map(out@) == kv_map(after).insert(
                    out@.last().0@,
                    out@.last().1.deep_view(),
                ));
                assert(kv_map(out@) =~= kv_map(orig).insert(orig[i as int].0@, value.deep_view()));
                assert(forall|a: int, b: int|
                    0 <= a < b < after.len() ==> (#[trigger] after[a]).0@ != (
                    #[trigger] after[b]).0@);
                assert(forall|a: int|
                    0 <= a < after.len() ==> (#[trigger] after[a]).0@ != orig[i as int].0@);
            }
            out
        },
        None => {
            proof {
                lemma_kv_absent(orig, key@);
            }
            out.push((key, value));
            proof {
                assert(out@.drop_last() =~= orig);
                assert(kv_map(out@) =~= kv_map(orig).insert(key@, value.deep_view()));
            }
            out
        },
    }
}

/// Looks a key up; `None` when the key is unbound.
pub fn kv_get_u16(pairs: &Vec<(String, u16)>, key: &str) -> (r: Option<u16>)
    requires
        unique_keys(pairs@),
    ensures
        match r {
            Some(v) => kv_map(pairs@).contains_key(key@) && v == kv_map(pairs@)[key@],
            None => !kv_map(pairs@).contains_key(key@),
        },
{
    let k: String = key.to_owned();
    match kv_find(pairs, &k) {
        Some(i) => {
            proof {
                lemma_kv_index(pairs@, i as int);
            }
            Some(pairs[i].1)
        },
        None => {
            proof {
                lemma_kv_absent(pairs@, key@);
            }
            None
        },
    }
}

proof fn lemma_str_set_contains(s: Seq<String>, i: int)
    requires
        0 <= i < s.len(),
    ensures
        str_set(s).contains(s[i]@),
    decreases s.len(),
{
    if i < s.len() - 1 {
        lemma_str_set_contains(s.drop_last(), i);
    }
}

/// Adds `elem` to the set, keeping entries distinct.
#[verifier::loop_isolation(false)]
pub fn set_insert(elems: Vec<String>, elem: String) -> (r: Vec<String>)
    requires
        unique_strs(elems@),
    ensures
        unique_strs(r@),
        str_set(r@) == str_set(elems@).insert(elem@),
{
    let ghost orig = elems@;
    let mut out = elems;
    let n = out.len();
    let mut i: usize = 0;
    while i < n
        invariant
            out@ == orig,
            n == orig.len(),
            i <= n,
            unique_strs(orig),
            forall|j: int| 0 <= j < i ==> (#[trigger] orig[j])@ != elem@,
        decreases n - i,
    {
        if out[i] == elem {
            proof {
                lemma_str_set_contains(orig, i as int);
                assert(str_set(orig).insert(elem@) =~= str_set(orig));
            }
            return out;
        }
        i += 1;
    }
    out.push(elem);
    proof {
        assert(out@.drop_last() =~= orig);
        assert(str_set(out@) =~= str_set(orig).insert(out@.last()@));
    }
    out
}

} // verus!
