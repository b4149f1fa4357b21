//! Key-value entry lists: the lookup spec and its laws, shared by the
//! persistent maps of the library. A lookup resolves to the first entry
//! whose key has the given view.

use vstd::prelude::*;

verus! {

/// The value of the first entry of `s` whose key views as `key`, if any.
pub open spec fn kv_find<K: View, V>(s: Seq<(K, V)>, key: <K as View>::V) -> Option<V>
    decreases s.len(),
{
    if s.len() == 0 {
        None
    } else if s[0].0@ == key {
        Some(s[0].1)
    } else {
        kv_find(s.drop_first(), key)
    }
}

/// Whether the keys of `s` are pairwise distinct.
pub open spec fn kv_unique<K: View, V>(s: Seq<(K, V)>) -> bool {
    forall|i: int, j: int|
        0 <= i < j < s.len() ==> (#[trigger] s[i]).0@ != (#[trigger] s[j]).0@
}

/// A first matching entry is what the lookup finds.
pub proof fn lemma_kv_find_first<K: View, V>(s: Seq<(K, V)>, i: int)
    requires
        0 <= i < s.len(),
        forall|j: int| 0 <= j < i ==> (#[trigger] s[j]).0@ != s[i].0@,
    ensures
        kv_find(s, s[i].0@) == Some(s[i].1),
    decreases i,
{
    if i == 0 {
    } else {
        assert forall|j: int| 0 <= j < i - 1 implies (#[trigger] s.drop_first()[j]).0@
            != s.drop_first()[i - 1].0@ by {
            assert(s.drop_first()[j] == s[j + 1]);
        }
        lemma_kv_find_first(s.drop_first(), i - 1);
        assert(s.drop_first()[i - 1] == s[i]);
    }
}

/// A key matching no entry is not found.
pub proof fn lemma_kv_find_absent<K: View, V>(s: Seq<(K, V)>, key: <K as View>::V)
    requires
        forall|j: int| 0 <= j < s.len() ==> (#[trigger] s[j]).0@ != key,
    ensures
        kv_find(s, key) is None,
    decreases s.len(),
{
    if s.len() > 0 {
        assert forall|j: int| 0 <= j < s.len() - 1 implies (#[trigger] s.drop_first()[j]).0@
            != key by {
            assert(s.drop_first()[j] == s[j + 1]);
        }
        lemma_kv_find_absent(s.drop_first(), key);
    }
}

/// Appending an entry resolves lookups its key that found nothing before,
/// and changes no other lookup.
pub proof fn lemma_kv_find_push<K: View, V>(s: Seq<(K, V)>, x: (K, V), b: <K as View>::V)
    ensures
        kv_find(s.push(x), b) == (if kv_find(s, b) is Some {
            kv_find(s, b)
        } else if x.0@ == b {
            Some(x.1)
        } else {
            None::<V>
        }),
    decreases s.len(),
{
    let s2 = s.push(x);
    if s.len() == 0 {
        assert(s2[0] == x);
        assert(s2.drop_first() =~= Seq::<(K, V)>::empty());
        assert(kv_find(s2.drop_first(), b) is None);
        assert(kv_find(s, b) is None);
    } else {
        assert(s2[0] == s[0]);
        lemma_kv_find_push(s.drop_first(), x, b);
        assert(s2.drop_first() =~= s.drop_first().push(x));
    }
}

/// Removing the only entry of a key unbinds that key and changes no other
/// lookup.
pub proof fn lemma_kv_find_remove<K: View, V>(s: Seq<(K, V)>, i: int, b: <K as View>::V)
    requires
        0 <= i < s.len(),
        forall|j: int| 0 <= j < s.len() && j != i ==> (#[trigger] s[j]).0@ != s[i].0@,
    ensures
        b == s[i].0@ ==> kv_find(s.remove(i), b) is None,
        b != s[i].0@ ==> kv_find(s.remove(i), b) == kv_find(s, b),
    decreases i,
{
    let s2 = s.remove(i);
    if i == 0 {
        assert(s2 =~= s.drop_first());
        if b == s[i].0@ {
            assert forall|j: int| 0 <= j < s2.len() implies (#[trigger] s2[j]).0@ != b by {
                assert(s2[j] == s[j + 1]);
            }
            lemma_kv_find_absent(s2, b);
        }
    } else {
        assert(s2[0] == s[0]);
        assert forall|j: int|
            0 <= j < s.drop_first().len() && j != i - 1 implies (#[trigger] s.drop_first()[j]).0@
            != s.drop_first()[i - 1].0@ by {
            assert(s.drop_first()[j] == s[j + 1]);
            assert(s.drop_first()[i - 1] == s[i]);
        }
        lemma_kv_find_remove(s.drop_first(), i - 1, b);
        assert(s2.drop_first() =~= s.drop_first().remove(i - 1));
        assert(s.drop_first()[i - 1] == s[i]);
    }
}

/// Removing an entry keeps the keys pairwise distinct.
pub proof fn lemma_kv_unique_remove<K: View, V>(s: Seq<(K, V)>, i: int)
    requires
        0 <= i < s.len(),
        kv_unique(s),
    ensures
        kv_unique(s.remove(i)),
{
    let s2 = s.remove(i);
    assert forall|p: int, q: int| 0 <= p < q < s2.len() implies (#[trigger] s2[p]).0@ != (
    #[trigger] s2[q]).0@ by {
        let p0 = if p < i {
            p
        } else {
            p + 1
        };
        let q0 = if q < i {
            q
        } else {
            q + 1
        };
        assert(s2[p] == s[p0]);
        assert(s2[q] == s[q0]);
    }
}

} // verus!
