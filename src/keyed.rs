//! A small association list keyed by strings, viewed as a map.

use vstd::prelude::*;

verus! {

/// The views of the strings in `keys`.
pub open spec fn key_set(keys: Seq<String>) -> Set<Seq<char>> {
    Set::new(|k: Seq<char>| exists|i: int| 0 <= i < keys.len() && #[trigger] keys[i]@ == k)
}

/// Whether some string of `keys` equals `key`.
pub fn contains_string(keys: &Vec<String>, key: &String) -> (r: bool)
    ensures
        r == key_set(keys@).contains(key@),
{
    let mut i: usize = 0;
    while i < keys.len()
        invariant
            i <= keys@.len(),
            forall|j: int| 0 <= j < i ==> #[trigger] keys@[j]@ != key@,
        decreases keys.len() - i,
    {
        if keys[i] == *key {
            return true;
        }
        i = i + 1;
    }
    false
}

/// No two entries share a key.
pub open spec fn keys_unique<V>(s: Seq<(String, V)>) -> bool {
    forall|i: int, j: int|
        0 <= i < s.len() && 0 <= j < s.len() && i != j ==> #[trigger] s[i].0@ != #[trigger] s[j].0@
}

/// The map that a list of entries stands for.
pub open spec fn map_of<V>(s: Seq<(String, V)>) -> Map<Seq<char>, V>
    decreases s.len(),
{
    if s.len() == 0 {
        Map::empty()
    } else {
        map_of(s.drop_last()).insert(s.last().0@, s.last().1)
    }
}

proof fn lemma_map_of_dom<V>(s: Seq<(String, V)>, k: Seq<char>)
    ensures
        map_of(s).contains_key(k) <==> exists|i: int| 0 <= i < s.len() && #[trigger] s[i].0@ == k,
    decreases s.len(),
{
    if s.len() > 0 {
        lemma_map_of_dom(s.drop_last(), k);
        if map_of(s).contains_key(k) && s.last().0@ != k {
            let i = choose|i: int| 0 <= i < s.len() - 1 && #[trigger] s.drop_last()[i].0@ == k;
            assert(s[i].0@ == k);
        }
        if exists|i: int| 0 <= i < s.len() && #[trigger] s[i].0@ == k {
            let i = choose|i: int| 0 <= i < s.len() && #[trigger] s[i].0@ == k;
            if i < s.len() - 1 {
                assert(s.drop_last()[i].0@ == k);
            }
        }
    }
}

proof fn lemma_map_of_at<V>(s: Seq<(String, V)>, i: int)
    requires
        keys_unique(s),
        0 <= i < s.len(),
    ensures
        map_of(s).contains_key(s[i].0@),
        map_of(s)[s[i].0@] == s[i].1,
    decreases s.len(),
{
    if i < s.len() - 1 {
        assert(s.drop_last()[i] == s[i]);
        assert(keys_unique(s.drop_last())) by {
            assert forall|a: int, b: int|
                0 <= a < s.len() - 1 && 0 <= b < s.len() - 1 && a != b implies
                #[trigger] s.drop_last()[a].0@ != #[trigger] s.drop_last()[b].0@ by {
                assert(s[a].0@ != s[b].0@);
            }
        }
        lemma_map_of_at(s.drop_last(), i);
        assert(s[i].0@ != s[s.len() - 1].0@);
    }
}

proof fn lemma_map_of_remove<V>(s: Seq<(String, V)>, i: int)
    requires
        keys_unique(s),
        0 <= i < s.len(),
    ensures
        map_of(s.remove(i)) == map_of(s).remove(s[i].0@),
        keys_unique(s.remove(i)),
    decreases s.len(),
{
    let r = s.remove(i);
    assert(keys_unique(r)) by {
        assert forall|a: int, b: int|
            0 <= a < r.len() && 0 <= b < r.len() && a != b implies
            #[trigger] r[a].0@ != #[trigger] r[b].0@ by {
            let a2 = if a < i { a } else { a + 1 };
            let b2 = if b < i { b } else { b + 1 };
            assert(r[a] == s[a2]);
            assert(r[b] == s[b2]);
        }
    }
    assert forall|k: Seq<char>| #[trigger] map_of(r).contains_key(k) <==> map_of(s).remove(s[i].0@).contains_key(k) by {
        lemma_map_of_dom(r, k);
        lemma_map_of_dom(s, k);
        if exists|j: int| 0 <= j < s.len() && #[trigger] s[j].0@ == k {
            let j = choose|j: int| 0 <= j < s.len() && #[trigger] s[j].0@ == k;
            if j < i {
                assert(r[j] == s[j]);
            } else if j > i {
                assert(r[j - 1] == s[j]);
            }
        }
        if exists|j: int| 0 <= j < r.len() && #[trigger] r[j].0@ == k {
            let j = choose|j: int| 0 <= j < r.len() && #[trigger] r[j].0@ == k;
            if j < i {
                assert(r[j] == s[j]);
            } else {
                assert(r[j] == s[j + 1]);
            }
        }
    }
    assert forall|k: Seq<char>| #[trigger] map_of(r).contains_key(k) implies map_of(r)[k] == map_of(s)[k] by {
        lemma_map_of_dom(r, k);
        let j = choose|j: int| 0 <= j < r.len() && #[trigger] r[j].0@ == k;
        lemma_map_of_at(r, j);
        let j2 = if j < i { j } else { j + 1 };
        assert(r[j] == s[j2]);
        lemma_map_of_at(s, j2);
    }
    assert(map_of(r) =~= map_of(s).remove(s[i].0@));
}

/// Entries with distinct string keys, in insertion order.
pub struct KeyedList<V> {
    entries: Vec<(String, V)>,
}

impl<V> View for KeyedList<V> {
    type V = Map<Seq<char>, V>;

    closed spec fn view(&self) -> Map<Seq<char>, V> {
        map_of(self.entries@)
    }
}

impl<V> KeyedList<V> {
    pub closed spec fn wf(&self) -> bool {
        keys_unique(self.entries@)
    }

    pub fn new() -> (r: Self)
        ensures
            r.wf(),
            r@ == Map::<Seq<char>, V>::empty(),
    {
        KeyedList { entries: Vec::new() }
    }

    /// The position of `key`, if some entry has it.
    fn find(&self, key: &String) -> (r: Option<usize>)
        requires
            self.wf(),
        ensures
            match r {
                Some(i) => i < self.entries@.len() && self.entries@[i as int].0@ == key@,
                None => !self@.contains_key(key@),
            },
    {
        let mut i: usize = 0;
        while i < self.entries.len()
            invariant
                i <= self.entries@.len(),
                forall|j: int| 0 <= j < i ==> #[trigger] self.entries@[j].0@ != key@,
            decreases self.entries.len() - i,
        {
            if self.entries[i].0 == *key {
                return Some(i);
            }
            i = i + 1;
        }
        proof { lemma_map_of_dom(self.entries@, key@); }
        None
    }

    pub fn contains_key(&self, key: &String) -> (r: bool)
        requires
            self.wf(),
        ensures
            r == self@.contains_key(key@),
    {
        match self.find(key) {
            Some(i) => {
                proof { lemma_map_of_at(self.entries@, i as int); }
                true
            },
            None => false,
        }
    }

    pub fn get(&self, key: &String) -> (r: Option<&V>)
        requires
            self.wf(),
        ensures
            match r {
                Some(v) => self@.contains_key(key@) && *v == self@[key@],
                None => !self@.contains_key(key@),
            },
    {
        match self.find(key) {
            Some(i) => {
                proof { lemma_map_of_at(self.entries@, i as int); }
                Some(&self.entries[i].1)
            },
            None => None,
        }
    }

    /// Takes the entry under `key` out, if there is one.
    pub fn remove(&mut self, key: &String) -> (r: Option<V>)
        requires
            old(self).wf(),
        ensures
            final(self).wf(),
            final(self)@ == old(self)@.remove(key@),
            match r {
                Some(v) => old(self)@.contains_key(key@) && v == old(self)@[key@],
                None => !old(self)@.contains_key(key@),
            },
    {
        match self.find(key) {
            Some(i) => {
                proof {
                    lemma_map_of_at(self.entries@, i as int);
                    lemma_map_of_remove(self.entries@, i as int);
                }
                let (_, v) = self.entries.remove(i);
                Some(v)
            },
            None => {
                proof { assert(self@.remove(key@) =~= self@); }
                None
            },
        }
    }

    /// Stores `value` under `key` and hands back the value it displaces.
    pub fn insert(&mut self, key: String, value: V) -> (r: Option<V>)
        requires
            old(self).wf(),
        ensures
            final(self).wf(),
            final(self)@ == old(self)@.insert(key@, value),
            match r {
                Some(v) => old(self)@.contains_key(key@) && v == old(self)@[key@],
                None => !old(self)@.contains_key(key@),
            },
    {
        let displaced = self.remove(&key);
        proof {
            lemma_map_of_dom(self.entries@, key@);
            assert(self.entries@.push((key, value)).drop_last() =~= self.entries@);
        }
        self.entries.push((key, value));
        proof {
            let s = self.entries@;
            assert forall|a: int, b: int|
                0 <= a < s.len() && 0 <= b < s.len() && a != b implies
                #[trigger] s[a].0@ != #[trigger] s[b].0@ by {
                if a < s.len() - 1 && b < s.len() - 1 {
                    assert(s[a] == s.drop_last()[a]);
                    assert(s[b] == s.drop_last()[b]);
                } else if a < s.len() - 1 {
                    assert(s[a] == s.drop_last()[a]);
                } else {
                    assert(s[b] == s.drop_last()[b]);
                }
            }
            assert(self@ =~= old(self)@.insert(key@, value));
        }
        displaced
    }

    /// Takes every entry out, leaving the list empty.
    pub fn take_all(&mut self) -> (r: Vec<(String, V)>)
        requires
            old(self).wf(),
        ensures
            final(self).wf(),
            final(self)@ == Map::<Seq<char>, V>::empty(),
            map_of(r@) == old(self)@,
            keys_unique(r@),
    {
        let mut taken: Vec<(String, V)> = Vec::new();
        std::mem::swap(&mut taken, &mut self.entries);
        taken
    }

    /// Keeps the entries whose key is in `keep` and takes the others out.
    pub fn retain_keys(&mut self, keep: &Vec<String>) -> (released: Vec<(String, V)>)
        requires
            old(self).wf(),
        ensures
            final(self).wf(),
            final(self)@ == old(self)@.restrict(key_set(keep@)),
            map_of(released@) == old(self)@.remove_keys(key_set(keep@)),
            keys_unique(released@),
    {
        let ghost ks = key_set(keep@);
        let ghost all = self@;
        let mut rest = self.take_all();
        let mut released: Vec<(String, V)> = Vec::new();
        proof {
            assert(self@ =~= all.remove_keys(map_of(rest@).dom()).restrict(ks));
            assert(map_of(released@) =~= all.remove_keys(map_of(rest@).dom()).remove_keys(ks));
        }
        while rest.len() > 0
            invariant
                self.wf(),
                keys_unique(rest@),
                keys_unique(released@),
                forall|k: Seq<char>| #[trigger] map_of(rest@).contains_key(k) ==> all.contains_key(k)
                    && all[k] == map_of(rest@)[k],
                self@ == all.remove_keys(map_of(rest@).dom()).restrict(ks),
                map_of(released@) == all.remove_keys(map_of(rest@).dom()).remove_keys(ks),
                ks == key_set(keep@),
            decreases rest.len(),
        {
            let ghost before = rest@;
            let ghost before_map = map_of(rest@);
            let (k, v) = rest.pop().unwrap();
            proof {
                assert(before.drop_last() =~= rest@);
                assert(before_map == map_of(rest@).insert(k@, v));
                lemma_map_of_dom(rest@, k@);
                if map_of(rest@).contains_key(k@) {
                    let j = choose|j: int| 0 <= j < rest@.len() && #[trigger] rest@[j].0@ == k@;
                    assert(before[j].0@ == before[before.len() - 1].0@);
                }
                assert(keys_unique(rest@)) by {
                    assert forall|a: int, b: int|
                        0 <= a < rest@.len() && 0 <= b < rest@.len() && a != b implies
                        #[trigger] rest@[a].0@ != #[trigger] rest@[b].0@ by {
                        assert(before[a].0@ != before[b].0@);
                    }
                }
                assert(map_of(rest@).dom() =~= before_map.dom().remove(k@));
                assert(map_of(before).contains_key(k@) && map_of(before)[k@] == v);
                assert(all.contains_key(k@) && all[k@] == v);
            }
            if contains_string(keep, &k) {
                proof {
                    assert(all.remove_keys(map_of(rest@).dom()).remove_keys(ks)
                        =~= all.remove_keys(before_map.dom()).remove_keys(ks));
                    assert(all.remove_keys(map_of(rest@).dom()).restrict(ks)
                        =~= all.remove_keys(before_map.dom()).restrict(ks).insert(k@, v));
                }
                let _ = self.insert(k, v);
            } else {
                proof {
                    lemma_map_of_dom(released@, k@);
                    assert(!map_of(released@).contains_key(k@));
                    assert(released@.push((k, v)).drop_last() =~= released@);
                    assert(all.remove_keys(map_of(rest@).dom()).restrict(ks)
                        =~= all.remove_keys(before_map.dom()).restrict(ks));
                    assert(all.remove_keys(map_of(rest@).dom()).remove_keys(ks)
                        =~= all.remove_keys(before_map.dom()).remove_keys(ks).insert(k@, v));
                }
                released.push((k, v));
                proof {
                    let r = released@;
                    assert forall|a: int, b: int|
                        0 <= a < r.len() && 0 <= b < r.len() && a != b implies
                        #[trigger] r[a].0@ != #[trigger] r[b].0@ by {
                        if a < r.len() - 1 && b < r.len() - 1 {
                            assert(r[a] == r.drop_last()[a]);
                            assert(r[b] == r.drop_last()[b]);
                        } else if a < r.len() - 1 {
                            assert(r[a] == r.drop_last()[a]);
                        } else {
                            assert(r[b] == r.drop_last()[b]);
                        }
                    }
                }
            }
        }
        proof {
            assert(map_of(rest@).dom() =~= Set::<Seq<char>>::empty());
            assert(self@ =~= all.restrict(ks));
            assert(map_of(released@) =~= all.remove_keys(ks));
        }
        released
    }
}

} // verus!
