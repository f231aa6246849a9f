//! A table of array lengths keyed by the name of a shader type: the maximum output lengths of
//! a task, and the lengths of its current input arrays.
use vstd::prelude::*;

verus! {

/// No name occurs twice among the entries.
pub open spec fn names_distinct(s: Seq<(String, usize)>) -> bool {
    forall|i: int, j: int| 0 <= i < s.len() && 0 <= j < s.len() && i != j ==> s[i].0@ != s[j].0@
}

/// Some entry carries the name `k`.
pub open spec fn has_name(s: Seq<(String, usize)>, k: Seq<char>) -> bool {
    exists|i: int| 0 <= i < s.len() && #[trigger] s[i].0@ == k
}

/// The length stored under `k` (meaningful when `has_name(s, k)`).
pub open spec fn length_under(s: Seq<(String, usize)>, k: Seq<char>) -> usize {
    s[choose|i: int| 0 <= i < s.len() && #[trigger] s[i].0@ == k].1
}

/// The map from names to lengths that the entries describe.
pub open spec fn entries_map(s: Seq<(String, usize)>) -> Map<Seq<char>, usize> {
    Map::new(|k: Seq<char>| has_name(s, k), |k: Seq<char>| length_under(s, k))
}

/// A length per name; each name occurs at most once.
pub struct LengthTable {
    entries: Vec<(String, usize)>,
}

impl View for LengthTable {
    type V = Map<Seq<char>, usize>;

    closed spec fn view(&self) -> Map<Seq<char>, usize> {
        entries_map(self.entries@)
    }
}

proof fn lemma_lookup_at(s: Seq<(String, usize)>, i: int)
    requires
        names_distinct(s),
        0 <= i < s.len(),
    ensures
        has_name(s, s[i].0@),
        length_under(s, s[i].0@) == s[i].1,
        entries_map(s).contains_key(s[i].0@),
        entries_map(s)[s[i].0@] == s[i].1,
{
    let k = s[i].0@;
    assert(has_name(s, k));
    let j = choose|j: int| 0 <= j < s.len() && #[trigger] s[j].0@ == k;
    assert(j == i);
}

impl LengthTable {
    #[verifier::type_invariant]
    closed spec fn distinct(self) -> bool {
        names_distinct(self.entries@)
    }

    /// An empty table.
    pub fn new() -> (r: Self)
        ensures
            r@ == Map::<Seq<char>, usize>::empty(),
    {
        let r = LengthTable { entries: Vec::new() };
        assert(r@ =~= Map::<Seq<char>, usize>::empty());
        r
    }

    /// The position of `name` among the entries, if it is there.
    fn position(&self, name: &String) -> (r: Option<usize>)
        ensures
            match r {
                Some(i) => i < self.entries@.len() && self.entries@[i as int].0@ == name@,
                None => !has_name(self.entries@, name@),
            },
    {
        let n = self.entries.len();
        let mut i: usize = 0;
        while i < n
            invariant
                n == self.entries@.len(),
                0 <= i <= n,
                forall|j: int| 0 <= j < i ==> #[trigger] self.entries@[j].0@ != name@,
            decreases n - i,
        {
            if self.entries[i].0 == *name {
                return Some(i);
            }
            i += 1;
        }
        None
    }

    /// The length stored under `name`, if any.
    pub fn get(&self, name: &str) -> (r: Option<usize>)
        ensures
            r == (if self@.contains_key(name@) {
                Some(self@[name@])
            } else {
                None::<usize>
            }),
    {
        proof {
            use_type_invariant(self);
        }
        let key = name.to_owned();
        match self.position(&key) {
            Some(i) => {
                proof {
                    lemma_lookup_at(self.entries@, i as int);
                }
                Some(self.entries[i].1)
            },
            None => None,
        }
    }

    /// Whether a length is stored under `name`.
    pub fn contains(&self, name: &str) -> (r: bool)
        ensures
            r == self@.contains_key(name@),
    {
        self.get(name).is_some()
    }

    /// The length stored under `name`, which must be there.
    pub fn get_by_name(&self, name: &str) -> (r: usize)
        requires
            self@.contains_key(name@),
        ensures
            r == self@[name@],
    {
        match self.get(name) {
            Some(v) => v,
            None => 0,
        }
    }

    /// Stores `length` under `name`, replacing what was stored there.
    pub fn set(&mut self, name: &str, length: usize)
        ensures
            final(self)@ == old(self)@.insert(name@, length),
    {
        proof {
            use_type_invariant(&*self);
        }
        let key = name.to_owned();
        let ghost old_entries = self.entries@;
        let pos = self.position(&key);
        let mut entries: Vec<(String, usize)> = Vec::new();
        std::mem::swap(&mut entries, &mut self.entries);
        match pos {
            Some(i) => {
                entries.set(i, (key, length));
                proof {
                    let s = entries@;
                    assert(s == old_entries.update(i as int, s[i as int]));
                    assert(s[i as int].0@ == name@);
                    assert(names_distinct(s)) by {
                        assert forall|a: int, b: int| 0 <= a < s.len() && 0 <= b < s.len() && a != b implies s[a].0@ != s[b].0@ by {
                            assert(s[a].0@ == old_entries[a].0@);
                            assert(s[b].0@ == old_entries[b].0@);
                        }
                    }
                    assert forall|k: Seq<char>| #[trigger] entries_map(s).contains_key(k) == entries_map(old_entries).insert(name@, length).contains_key(k) by {
                        if k == name@ {
                            assert(s[i as int].0@ == k);
                        }
                        if k != name@ && has_name(old_entries, k) {
                            let j = choose|j: int| 0 <= j < old_entries.len() && #[trigger] old_entries[j].0@ == k;
                            assert(j != i);
                            assert(s[j].0@ == k);
                        }
                        if has_name(s, k) && k != name@ {
                            let j = choose|j: int| 0 <= j < s.len() && #[trigger] s[j].0@ == k;
                            assert(j != i);
                            assert(old_entries[j].0@ == k);
                        }
                    }
                    assert forall|k: Seq<char>| #[trigger] entries_map(s).contains_key(k) implies entries_map(s)[k] == entries_map(old_entries).insert(name@, length)[k] by {
                        let j = choose|j: int| 0 <= j < s.len() && #[trigger] s[j].0@ == k;
                        lemma_lookup_at(s, j);
                        if k != name@ {
                            assert(j != i);
                            assert(old_entries[j] == s[j]);
                            lemma_lookup_at(old_entries, j);
                        }
                    }
                    assert(entries_map(s) =~= entries_map(old_entries).insert(name@, length));
                }
            },
            None => {
                entries.push((key, length));
                proof {
                    let s = entries@;
                    assert(s.len() == old_entries.len() + 1);
                    assert(names_distinct(s)) by {
                        assert forall|i: int, j: int| 0 <= i < s.len() && 0 <= j < s.len() && i != j implies s[i].0@ != s[j].0@ by {
                            if i < old_entries.len() && j < old_entries.len() {
                                assert(old_entries[i] == s[i] && old_entries[j] == s[j]);
                            } else if i < old_entries.len() {
                                assert(old_entries[i] == s[i]);
                            } else {
                                assert(old_entries[j] == s[j]);
                            }
                        }
                    }
                    assert forall|k: Seq<char>| #[trigger] entries_map(s).contains_key(k) == entries_map(old_entries).insert(name@, length).contains_key(k) by {
                        if k != name@ && has_name(old_entries, k) {
                            let j = choose|j: int| 0 <= j < old_entries.len() && #[trigger] old_entries[j].0@ == k;
                            assert(s[j].0@ == k);
                        }
                        if k == name@ {
                            assert(s[old_entries.len() as int].0@ == k);
                        }
                        if has_name(s, k) && k != name@ {
                            let j = choose|j: int| 0 <= j < s.len() && #[trigger] s[j].0@ == k;
                            assert(j < old_entries.len());
                            assert(old_entries[j].0@ == k);
                        }
                    }
                    assert forall|k: Seq<char>| #[trigger] entries_map(s).contains_key(k) implies entries_map(s)[k] == entries_map(old_entries).insert(name@, length)[k] by {
                        let j = choose|j: int| 0 <= j < s.len() && #[trigger] s[j].0@ == k;
                        lemma_lookup_at(s, j);
                        if k != name@ {
                            assert(j < old_entries.len());
                            assert(old_entries[j] == s[j]);
                            lemma_lookup_at(old_entries, j);
                        }
                    }
                    assert(entries_map(s) =~= entries_map(old_entries).insert(name@, length));
                }
            },
        }
        self.entries = entries;
    }
}

} // verus!
