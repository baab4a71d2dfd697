//! A map keyed by strings, kept as a list of entries in the order of their keys.
use vstd::prelude::*;

verus! {

/// Whether `a` comes before `b`: compared character by character, by code point, a proper
/// prefix first. This is the order of `String`'s `Ord`, which compares the UTF-8 bytes.
pub open spec fn key_less(a: Seq<char>, b: Seq<char>) -> bool
    decreases a.len(),
{
    if b.len() == 0 {
        false
    } else if a.len() == 0 {
        true
    } else if a[0] != b[0] {
        a[0] < b[0]
    } else {
        key_less(a.drop_first(), b.drop_first())
    }
}

/// No key comes before itself.
pub proof fn lemma_key_less_irreflexive(a: Seq<char>)
    ensures
        !key_less(a, a),
    decreases a.len(),
{
    if a.len() > 0 {
        lemma_key_less_irreflexive(a.drop_first());
    }
}

/// The order of keys is transitive.
pub proof fn lemma_key_less_transitive(a: Seq<char>, b: Seq<char>, c: Seq<char>)
    requires
        key_less(a, b),
        key_less(b, c),
    ensures
        key_less(a, c),
    decreases a.len(),
{
    if a.len() > 0 && b.len() > 0 && c.len() > 0 && a[0] == b[0] && b[0] == c[0] {
        lemma_key_less_transitive(a.drop_first(), b.drop_first(), c.drop_first());
    }
}

/// Of two different keys, one comes before the other.
pub proof fn lemma_key_less_total(a: Seq<char>, b: Seq<char>)
    requires
        a != b,
    ensures
        key_less(a, b) || key_less(b, a),
    decreases a.len(),
{
    if a.len() == 0 {
        assert(b.len() > 0) by {
            if b.len() == 0 {
                assert(a =~= b);
            }
        }
    } else if b.len() > 0 && a[0] == b[0] {
        if a.drop_first() == b.drop_first() {
            assert(a =~= seq![a[0]] + a.drop_first());
            assert(b =~= seq![b[0]] + b.drop_first());
        }
        lemma_key_less_total(a.drop_first(), b.drop_first());
    }
}

/// Whether the keys of `entries` strictly increase.
pub open spec fn keys_sorted<V>(entries: Seq<(String, V)>) -> bool {
    forall|i: int, j: int|
        0 <= i < j < entries.len() ==> key_less(#[trigger] entries[i].0@, #[trigger] entries[j].0@)
}

/// Keys that strictly increase are distinct.
pub proof fn lemma_sorted_keys_unique<V>(entries: Seq<(String, V)>)
    requires
        keys_sorted(entries),
    ensures
        keys_unique(entries),
{
    assert forall|i: int, j: int|
        0 <= i < entries.len() && 0 <= j < entries.len() && i != j implies #[trigger] entries[i].0@
        != #[trigger] entries[j].0@ by {
        if i < j {
            lemma_key_less_irreflexive(entries[i].0@);
        } else {
            lemma_key_less_irreflexive(entries[j].0@);
        }
    }
}

/// Whether `a` comes before `b` in the order of keys.
fn key_before(a: &str, b: &str) -> (r: bool)
    ensures
        r == key_less(a@, b@),
{
    let n = a.unicode_len();
    let m = b.unicode_len();
    let mut i: usize = 0;
    assert(a@.skip(0) =~= a@ && b@.skip(0) =~= b@);
    while i < n && i < m
        invariant
            n == a@.len(),
            m == b@.len(),
            i <= n,
            i <= m,
            key_less(a@, b@) == key_less(a@.skip(i as int), b@.skip(i as int)),
        decreases n - i,
    {
        let x = a.get_char(i);
        let y = b.get_char(i);
        if x != y {
            assert(a@.skip(i as int)[0] == x && b@.skip(i as int)[0] == y);
            return x < y;
        }
        assert(a@.skip(i as int).drop_first() =~= a@.skip(i + 1));
        assert(b@.skip(i as int).drop_first() =~= b@.skip(i + 1));
        i = i + 1;
    }
    i < m
}

/// Whether no two entries share a key.
pub open spec fn keys_unique<V>(entries: Seq<(String, V)>) -> bool {
    forall|i: int, j: int|
        0 <= i < entries.len() && 0 <= j < entries.len() && i != j ==> #[trigger] entries[i].0@
            != #[trigger] entries[j].0@
}

/// Whether some entry has key `k`.
pub open spec fn has_key<V>(entries: Seq<(String, V)>, k: Seq<char>) -> bool {
    exists|i: int| 0 <= i < entries.len() && #[trigger] entries[i].0@ == k
}

/// The map that a list of entries with distinct keys stands for.
pub open spec fn entries_map<V>(entries: Seq<(String, V)>) -> Map<Seq<char>, V> {
    Map::new(
        |k: Seq<char>| has_key(entries, k),
        |k: Seq<char>| entries[choose|i: int| 0 <= i < entries.len() && #[trigger] entries[i].0@ == k].1,
    )
}

/// The map after inserting every pair of `pairs`, in order.
pub open spec fn insert_all<V>(m: Map<Seq<char>, V>, pairs: Seq<(String, V)>) -> Map<
    Seq<char>,
    V,
>
    decreases pairs.len(),
{
    if pairs.len() == 0 {
        m
    } else {
        insert_all(m, pairs.drop_last()).insert(pairs.last().0@, pairs.last().1)
    }
}

pub proof fn lemma_entries_map_at<V>(entries: Seq<(String, V)>, i: int)
    requires
        keys_unique(entries),
        0 <= i < entries.len(),
    ensures
        entries_map(entries).contains_key(entries[i].0@),
        entries_map(entries)[entries[i].0@] == entries[i].1,
{
    let k = entries[i].0@;
    assert(has_key(entries, k));
    let j = choose|j: int| 0 <= j < entries.len() && #[trigger] entries[j].0@ == k;
    assert(j == i);
}

/// Replacing the entry of a key keeps the keys in order, and the map gains the new value.
proof fn lemma_update_same_key<V>(entries: Seq<(String, V)>, p: int, e: (String, V))
    requires
        keys_sorted(entries),
        0 <= p < entries.len(),
        entries[p].0@ == e.0@,
    ensures
        keys_sorted(entries.update(p, e)),
        entries_map(entries.update(p, e)) == entries_map(entries).insert(e.0@, e.1),
{
    let ne = entries.update(p, e);
    let k = e.0@;
    assert(keys_sorted(ne)) by {
        assert forall|a: int, b: int| 0 <= a < b < ne.len() implies key_less(
            #[trigger] ne[a].0@,
            #[trigger] ne[b].0@,
        ) by {
            assert(ne[a].0@ == entries[a].0@ && ne[b].0@ == entries[b].0@);
        }
    }
    lemma_sorted_keys_unique(entries);
    lemma_sorted_keys_unique(ne);
    let om = entries_map(entries);
    let nm = entries_map(ne);
    assert forall|q: Seq<char>| #[trigger] nm.contains_key(q) == om.insert(k, e.1).contains_key(q) by {
        if has_key(ne, q) {
            let j = choose|j: int| 0 <= j < ne.len() && #[trigger] ne[j].0@ == q;
            assert(entries[j].0@ == q);
        }
        if has_key(entries, q) {
            let j = choose|j: int| 0 <= j < entries.len() && #[trigger] entries[j].0@ == q;
            assert(ne[j].0@ == q);
        }
        if q == k {
            assert(ne[p].0@ == q);
        }
    }
    assert forall|q: Seq<char>| #[trigger] nm.contains_key(q) implies nm[q] == om.insert(k, e.1)[q] by {
        let j = choose|j: int| 0 <= j < ne.len() && #[trigger] ne[j].0@ == q;
        lemma_entries_map_at(ne, j);
        if j != p {
            lemma_entries_map_at(entries, j);
        }
    }
    assert(nm =~= om.insert(k, e.1));
}

/// Putting the entry of a new key where it belongs keeps the keys in order, and the map
/// gains the key.
proof fn lemma_insert_new_key<V>(entries: Seq<(String, V)>, p: int, e: (String, V))
    requires
        keys_sorted(entries),
        0 <= p <= entries.len(),
        forall|j: int| 0 <= j < p ==> key_less(#[trigger] entries[j].0@, e.0@),
        forall|j: int| p <= j < entries.len() ==> key_less(e.0@, #[trigger] entries[j].0@),
    ensures
        keys_sorted(entries.insert(p, e)),
        entries_map(entries.insert(p, e)) == entries_map(entries).insert(e.0@, e.1),
{
    let ne = entries.insert(p, e);
    let k = e.0@;
    assert(keys_sorted(ne)) by {
        assert forall|a: int, b: int| 0 <= a < b < ne.len() implies key_less(
            #[trigger] ne[a].0@,
            #[trigger] ne[b].0@,
        ) by {
            if b < p {
                assert(ne[a] == entries[a] && ne[b] == entries[b]);
            } else if b == p {
                assert(ne[a] == entries[a]);
            } else if a < p {
                assert(ne[a] == entries[a] && ne[b] == entries[b - 1]);
                lemma_key_less_transitive(entries[a].0@, k, entries[b - 1].0@);
            } else if a == p {
                assert(ne[b] == entries[b - 1]);
            } else {
                assert(ne[a] == entries[a - 1] && ne[b] == entries[b - 1]);
            }
        }
    }
    lemma_sorted_keys_unique(entries);
    lemma_sorted_keys_unique(ne);
    let om = entries_map(entries);
    let nm = entries_map(ne);
    assert forall|q: Seq<char>| #[trigger] nm.contains_key(q) == om.insert(k, e.1).contains_key(q) by {
        if has_key(ne, q) {
            let j = choose|j: int| 0 <= j < ne.len() && #[trigger] ne[j].0@ == q;
            if j < p {
                assert(entries[j].0@ == q);
            } else if j > p {
                assert(entries[j - 1].0@ == q);
            }
        }
        if has_key(entries, q) {
            let j = choose|j: int| 0 <= j < entries.len() && #[trigger] entries[j].0@ == q;
            if j < p {
                assert(ne[j].0@ == q);
            } else {
                assert(ne[j + 1].0@ == q);
            }
        }
        if q == k {
            assert(ne[p].0@ == q);
        }
    }
    assert forall|q: Seq<char>| #[trigger] nm.contains_key(q) implies nm[q] == om.insert(k, e.1)[q] by {
        let j = choose|j: int| 0 <= j < ne.len() && #[trigger] ne[j].0@ == q;
        lemma_entries_map_at(ne, j);
        if j < p {
            lemma_entries_map_at(entries, j);
            assert(ne[j] == entries[j]);
            lemma_key_less_irreflexive(k);
        } else if j > p {
            lemma_entries_map_at(entries, j - 1);
            assert(ne[j] == entries[j - 1]);
            lemma_key_less_irreflexive(k);
        }
    }
    assert(nm =~= om.insert(k, e.1));
}

/// A map from strings to values; each key occurs at most once.
#[derive(Debug)]
pub struct StringKeyMap<V> {
    entries: Vec<(String, V)>,
}

impl<V> View for StringKeyMap<V> {
    type V = Map<Seq<char>, V>;

    closed spec fn view(&self) -> Map<Seq<char>, V> {
        entries_map(self.entries@)
    }
}

impl<V> StringKeyMap<V> {
    #[verifier::type_invariant]
    closed spec fn ordered_keys(&self) -> bool {
        keys_sorted(self.entries@)
    }

    /// The entries, in the order of their keys.
    pub closed spec fn entries_view(&self) -> Seq<(String, V)> {
        self.entries@
    }

    /// The empty map.
    pub fn new() -> (m: Self)
        ensures
            m@ == Map::<Seq<char>, V>::empty(),
            m.entries_view().len() == 0,
    {
        let m = StringKeyMap { entries: Vec::new() };
        assert(m@ =~= Map::<Seq<char>, V>::empty());
        m
    }

    /// The index of the entry with key `key`, if any.
    fn find(&self, key: &str) -> (r: Option<usize>)
        ensures
            r matches Some(i) ==> i < self.entries@.len() && self.entries@[i as int].0@ == key@,
            r is None ==> !has_key(self.entries@, key@),
    {
        let mut i: usize = 0;
        while i < self.entries.len()
            invariant
                0 <= i <= self.entries@.len(),
                forall|j: int| 0 <= j < i ==> #[trigger] self.entries@[j].0@ != key@,
            decreases self.entries.len() - i,
        {
            if crate::text::str_eq(self.entries[i].0.as_str(), key) {
                return Some(i);
            }
            i = i + 1;
        }
        None
    }

    /// Whether `key` has a value.
    pub fn contains_key(&self, key: &str) -> (r: bool)
        ensures
            r == self@.contains_key(key@),
    {
        self.find(key).is_some()
    }

    /// The value of `key`, if any.
    pub fn get(&self, key: &str) -> (r: Option<&V>)
        ensures
            r is Some == self@.contains_key(key@),
            r matches Some(v) ==> *v == self@[key@],
    {
        proof {
            use_type_invariant(self);
            lemma_sorted_keys_unique(self.entries@);
        }
        match self.find(key) {
            Some(i) => {
                proof {
                    lemma_entries_map_at(self.entries@, i as int);
                }
                Some(&self.entries[i].1)
            },
            None => None,
        }
    }

    /// Sets the value of `key`, replacing any earlier value; the entries stay in the order of
    /// their keys.
    pub fn insert(&mut self, key: String, value: V)
        ensures
            final(self)@ == old(self)@.insert(key@, value),
    {
        proof {
            use_type_invariant(&*self);
        }
        let ghost old_entries = self.entries@;
        let ghost k = key@;
        let n = self.entries.len();
        let mut p: usize = 0;
        while p < n
            invariant
                n == old_entries.len(),
                self.entries@ == old_entries,
                k == key@,
                p <= n,
                forall|j: int| 0 <= j < p ==> key_less(#[trigger] old_entries[j].0@, k),
            ensures
                p <= n,
                forall|j: int| 0 <= j < p ==> key_less(#[trigger] old_entries[j].0@, k),
                p < n ==> !key_less(old_entries[p as int].0@, k),
            decreases n - p,
        {
            if !key_before(self.entries[p].0.as_str(), key.as_str()) {
                break;
            }
            p = p + 1;
        }
        let mut entries = Vec::new();
        std::mem::swap(&mut entries, &mut self.entries);
        if p < n && crate::text::str_eq(entries[p].0.as_str(), key.as_str()) {
            proof {
                lemma_update_same_key(old_entries, p as int, (key, value));
            }
            entries.set(p, (key, value));
        } else {
            proof {
                assert forall|j: int| p <= j < n implies key_less(k, #[trigger] old_entries[j].0@) by {
                    lemma_key_less_total(old_entries[p as int].0@, k);
                    if j > p {
                        lemma_key_less_transitive(k, old_entries[p as int].0@, old_entries[j].0@);
                    }
                }
                lemma_insert_new_key(old_entries, p as int, (key, value));
            }
            entries.insert(p, (key, value));
        }
        self.entries = entries;
    }

    /// Inserts every pair of `pairs`, in order; later pairs win over earlier ones.
    pub fn extend(&mut self, pairs: Vec<(String, V)>)
        ensures
            final(self)@ == insert_all(old(self)@, pairs@),
    {
        let ghost start = self@;
        let ghost all = pairs@;
        let mut rest = pairs;
        let ghost n = all.len();
        let total = rest.len();
        let mut done: usize = 0;
        assert(all.subrange(0, n as int) =~= all);
        while rest.len() > 0
            invariant
                n == all.len(),
                n == total,
                rest@.len() + done == n,
                done <= n,
                rest@ == all.subrange(done as int, n as int),
                self@ == insert_all(start, all.take(done as int)),
            decreases rest@.len(),
        {
            proof {
                assert(rest@[0] == all[done as int]);
                assert(all.take(done + 1).drop_last() =~= all.take(done as int));
                assert(all.take(done + 1).last() == all[done as int]);
            }
            let (k, v) = rest.remove(0);
            self.insert(k, v);
            done = done + 1;
            assert(rest@ =~= all.subrange(done as int, n as int));
        }
        assert(all.take(n as int) =~= all);
    }

    /// The entries, in the order of their keys.
    pub fn entries(&self) -> (r: &Vec<(String, V)>)
        ensures
            r@ == self.entries_view(),
            keys_sorted(r@),
            keys_unique(r@),
            self@ == entries_map(r@),
    {
        proof {
            use_type_invariant(self);
            lemma_sorted_keys_unique(self.entries@);
        }
        &self.entries
    }

    /// The number of keys.
    pub fn len(&self) -> (r: usize)
        ensures
            r == self.entries_view().len(),
            r == self@.dom().len(),
            self@.dom().finite(),
    {
        proof {
            use_type_invariant(self);
            lemma_sorted_keys_unique(self.entries@);
            lemma_entries_map_len(self.entries@);
        }
        self.entries.len()
    }
}

/// Dropping the first entry of a list with distinct keys drops its key from the map.
proof fn lemma_entries_map_drop_first<V>(entries: Seq<(String, V)>)
    requires
        keys_unique(entries),
        entries.len() > 0,
    ensures
        entries_map(entries.drop_first()) == entries_map(entries).remove(entries[0].0@),
{
    let rest = entries.drop_first();
    let k0 = entries[0].0@;
    assert(keys_unique(rest)) by {
        assert forall|a: int, b: int|
            0 <= a < rest.len() && 0 <= b < rest.len() && a != b implies #[trigger] rest[a].0@
            != #[trigger] rest[b].0@ by {
            assert(rest[a] == entries[a + 1] && rest[b] == entries[b + 1]);
        }
    }
    let m = entries_map(entries);
    let r = entries_map(rest);
    assert forall|q: Seq<char>| #[trigger] r.contains_key(q) == m.remove(k0).contains_key(q) by {
        if has_key(rest, q) {
            let j = choose|j: int| 0 <= j < rest.len() && #[trigger] rest[j].0@ == q;
            assert(entries[j + 1].0@ == q);
        }
        if has_key(entries, q) && q != k0 {
            let j = choose|j: int| 0 <= j < entries.len() && #[trigger] entries[j].0@ == q;
            assert(j != 0);
            assert(rest[j - 1].0@ == q);
        }
    }
    assert forall|q: Seq<char>| #[trigger] r.contains_key(q) implies r[q] == m.remove(k0)[q] by {
        let j = choose|j: int| 0 <= j < rest.len() && #[trigger] rest[j].0@ == q;
        lemma_entries_map_at(rest, j);
        lemma_entries_map_at(entries, j + 1);
        assert(rest[j] == entries[j + 1]);
    }
    assert(r =~= m.remove(k0));
}

/// A list of entries with distinct keys stands for a finite map with one key per entry.
pub proof fn lemma_entries_map_len<V>(entries: Seq<(String, V)>)
    requires
        keys_unique(entries),
    ensures
        entries_map(entries).dom().finite(),
        entries_map(entries).dom().len() == entries.len(),
    decreases entries.len(),
{
    if entries.len() == 0 {
        assert(entries_map(entries).dom() =~= Set::<Seq<char>>::empty());
    } else {
        let rest = entries.drop_first();
        lemma_entries_map_drop_first(entries);
        assert(keys_unique(rest)) by {
            assert forall|a: int, b: int|
                0 <= a < rest.len() && 0 <= b < rest.len() && a != b implies #[trigger] rest[a].0@
                != #[trigger] rest[b].0@ by {
                assert(rest[a] == entries[a + 1] && rest[b] == entries[b + 1]);
            }
        }
        lemma_entries_map_len(rest);
        lemma_entries_map_at(entries, 0);
        let m = entries_map(entries);
        let k0 = entries[0].0@;
        assert(m.dom() =~= m.remove(k0).dom().insert(k0));
    }
}

/// Two lists of entries kept in the order of their keys that stand for the same map are the
/// same list: the order of the entries depends on the contents alone, not on the order in
/// which the keys were inserted.
#[verifier::spinoff_prover]
pub proof fn law_entries_determined_by_contents<V>(a: Seq<(String, V)>, b: Seq<(String, V)>)
    requires
        keys_sorted(a),
        keys_sorted(b),
        entries_map(a) == entries_map(b),
    ensures
        a.len() == b.len(),
        forall|i: int| 0 <= i < a.len() ==> #[trigger] a[i].0@ == b[i].0@ && a[i].1 == b[i].1,
    decreases a.len(),
{
    lemma_sorted_keys_unique(a);
    lemma_sorted_keys_unique(b);
    if a.len() == 0 {
        if b.len() > 0 {
            lemma_entries_map_at(b, 0);
        }
    } else if b.len() == 0 {
        lemma_entries_map_at(a, 0);
    } else {
        let ka = a[0].0@;
        let kb = b[0].0@;
        lemma_entries_map_at(a, 0);
        lemma_entries_map_at(b, 0);
        let i = choose|i: int| 0 <= i < a.len() && #[trigger] a[i].0@ == kb;
        let j = choose|j: int| 0 <= j < b.len() && #[trigger] b[j].0@ == ka;
        if ka != kb {
            assert(i != 0 && j != 0);
            assert(key_less(ka, kb));
            assert(key_less(kb, ka));
            lemma_key_less_transitive(ka, kb, ka);
            lemma_key_less_irreflexive(ka);
        }
        let ra = a.drop_first();
        let rb = b.drop_first();
        lemma_entries_map_drop_first(a);
        lemma_entries_map_drop_first(b);
        assert(keys_sorted(ra)) by {
            assert forall|x: int, y: int| 0 <= x < y < ra.len() implies key_less(
                #[trigger] ra[x].0@,
                #[trigger] ra[y].0@,
            ) by {
                assert(ra[x] == a[x + 1] && ra[y] == a[y + 1]);
            }
        }
        assert(keys_sorted(rb)) by {
            assert forall|x: int, y: int| 0 <= x < y < rb.len() implies key_less(
                #[trigger] rb[x].0@,
                #[trigger] rb[y].0@,
            ) by {
                assert(rb[x] == b[x + 1] && rb[y] == b[y + 1]);
            }
        }
        law_entries_determined_by_contents(ra, rb);
        assert forall|x: int| 0 <= x < a.len() implies #[trigger] a[x].0@ == b[x].0@ && a[x].1
            == b[x].1 by {
            if x > 0 {
                assert(ra[x - 1] == a[x] && rb[x - 1] == b[x]);
            }
        }
    }
}

/// Reading a key back after writing it gives the value written, and every other key keeps
/// what it held: the contents of a map after `insert`, as `get` and `contains_key` read them.
pub proof fn law_read_after_write<V>(before: Map<Seq<char>, V>, key: Seq<char>, value: V, other: Seq<char>)
    ensures
        before.insert(key, value).contains_key(key),
        before.insert(key, value)[key] == value,
        other != key ==> (before.insert(key, value).contains_key(other) == before.contains_key(other)),
        other != key && before.contains_key(other) ==> before.insert(key, value)[other] == before[other],
{
}

} // verus!
