//! A string-keyed table of strings: what the message and preset files hold.
//! Like a map, it holds each key at most once.
use vstd::prelude::*;

verus! {

/// One key with its text.
#[derive(Debug)]
pub struct Entry {
    pub key: String,
    pub value: String,
}

/// Texts by key; no key occurs twice.
#[derive(Debug)]
pub struct StringTable {
    entries: Vec<Entry>,
}

/// The view of a table: its (key, text) pairs in order.
pub type TableView = Seq<(Seq<char>, Seq<char>)>;

/// The (key, text) pairs of a list of entries.
pub open spec fn entries_view(es: Seq<Entry>) -> TableView {
    es.map_values(|e: Entry| (e.key@, e.value@))
}

/// No key occurs twice.
pub open spec fn keys_unique(t: TableView) -> bool {
    forall|i: int, j: int| 0 <= i < j < t.len() ==> t[i].0 != t[j].0
}

/// The text stored under `key`.
pub open spec fn lookup(es: TableView, key: Seq<char>) -> Option<Seq<char>>
    decreases es.len(),
{
    if es.len() == 0 {
        None
    } else if es[0].0 == key {
        Some(es[0].1)
    } else {
        lookup(es.drop_first(), key)
    }
}

impl View for StringTable {
    type V = TableView;

    closed spec fn view(&self) -> TableView {
        entries_view(self.entries@)
    }
}

proof fn lemma_lookup_push(s: TableView, x: (Seq<char>, Seq<char>), k: Seq<char>)
    ensures
        lookup(s.push(x), k) == (if lookup(s, k) is Some {
            lookup(s, k)
        } else if x.0 == k {
            Some(x.1)
        } else {
            None
        }),
    decreases s.len(),
{
    let t = s.push(x);
    if s.len() == 0 {
        assert(t.drop_first() =~= Seq::<(Seq<char>, Seq<char>)>::empty());
    } else {
        assert(t[0] == s[0]);
        assert(t.drop_first() =~= s.drop_first().push(x));
        lemma_lookup_push(s.drop_first(), x, k);
    }
}

proof fn lemma_lookup_update(s: TableView, i: int, x: (Seq<char>, Seq<char>), k: Seq<char>)
    requires
        0 <= i < s.len(),
        s[i].0 == x.0,
        keys_unique(s),
    ensures
        lookup(s.update(i, x), k) == (if k == x.0 {
            Some(x.1)
        } else {
            lookup(s, k)
        }),
    decreases s.len(),
{
    let t = s.update(i, x);
    if i == 0 {
        assert(t[0] == x);
        assert(t.drop_first() =~= s.drop_first());
    } else {
        assert(t[0] == s[0]);
        assert(s[0].0 != x.0);
        assert(t.drop_first() =~= s.drop_first().update(i - 1, x));
        assert(keys_unique(s.drop_first())) by {
            assert forall|a: int, b: int| 0 <= a < b < s.drop_first().len() implies s.drop_first()[a].0
                != s.drop_first()[b].0 by {
                assert(s.drop_first()[a] == s[a + 1]);
                assert(s.drop_first()[b] == s[b + 1]);
            }
        }
        lemma_lookup_update(s.drop_first(), i - 1, x, k);
    }
}

impl StringTable {
    #[verifier::type_invariant]
    spec fn inv(self) -> bool {
        keys_unique(entries_view(self.entries@))
    }

    /// The empty table.
    pub fn new() -> (t: StringTable)
        ensures
            t@ == Seq::<(Seq<char>, Seq<char>)>::empty(),
    {
        let t = StringTable { entries: Vec::new() };
        assert(t@ =~= Seq::<(Seq<char>, Seq<char>)>::empty());
        t
    }

    /// Stores `value` under `key`, replacing the text stored there before.
    pub fn insert(&mut self, key: String, value: String)
        ensures
            forall|k: Seq<char>|
                #![trigger lookup(final(self)@, k)]
                lookup(final(self)@, k) == (if k == key@ {
                    Some(value@)
                } else {
                    lookup(old(self)@, k)
                }),
    {
        proof {
            use_type_invariant(&*self);
        }
        let ghost before = self@;
        let mut es: Vec<Entry> = Vec::new();
        std::mem::swap(&mut es, &mut self.entries);
        assert(entries_view(es@) == before);
        let mut i: usize = 0;
        while i < es.len()
            invariant
                i <= es.len(),
                entries_view(es@) == before,
                forall|j: int| 0 <= j < i ==> es@[j].key@ != key@,
            ensures
                i <= es.len(),
                entries_view(es@) == before,
                forall|j: int| 0 <= j < i ==> es@[j].key@ != key@,
                i < es.len() ==> es@[i as int].key@ == key@,
            decreases es.len() - i,
        {
            if es[i].key == key {
                break;
            }
            i = i + 1;
        }
        let ghost x = (key@, value@);
        if i < es.len() {
            assert(entries_view(es@)[i as int].0 == es@[i as int].key@);
            let entry = Entry { key, value };
            es.set(i, entry);
            proof {
                assert(entries_view(es@) =~= before.update(i as int, x));
                assert(before[i as int].0 == x.0);
                assert forall|k: Seq<char>| #[trigger]
                    lookup(entries_view(es@), k) == (if k == x.0 {
                        Some(x.1)
                    } else {
                        lookup(before, k)
                    }) by {
                    lemma_lookup_update(before, i as int, x, k);
                }
                assert(keys_unique(entries_view(es@))) by {
                    assert forall|a: int, b: int|
                        0 <= a < b < entries_view(es@).len() implies entries_view(es@)[a].0
                        != entries_view(es@)[b].0 by {
                        assert(before[a].0 == entries_view(es@)[a].0);
                        assert(before[b].0 == entries_view(es@)[b].0);
                    }
                }
            }
        } else {
            proof {
                assert forall|j: int| 0 <= j < before.len() implies before[j].0 != x.0 by {
                    assert(before[j].0 == es@[j].key@);
                }
            }
            let entry = Entry { key, value };
            es.push(entry);
            proof {
                assert(entries_view(es@) =~= before.push(x));
                assert forall|k: Seq<char>| #[trigger]
                    lookup(entries_view(es@), k) == (if k == x.0 {
                        Some(x.1)
                    } else {
                        lookup(before, k)
                    }) by {
                    lemma_lookup_push(before, x, k);
                    if k == x.0 {
                        lemma_lookup_absent(before, k);
                    }
                }
                assert(keys_unique(entries_view(es@))) by {
                    assert forall|a: int, b: int|
                        0 <= a < b < entries_view(es@).len() implies entries_view(es@)[a].0
                        != entries_view(es@)[b].0 by {
                        if b < before.len() {
                            assert(before[a].0 == entries_view(es@)[a].0);
                            assert(before[b].0 == entries_view(es@)[b].0);
                        }
                    }
                }
            }
        }
        self.entries = es;
    }

    /// The text stored under `key`, if any.
    pub fn get(&self, key: &str) -> (r: Option<String>)
        ensures
            r matches Some(v) ==> lookup(self@, key@) == Some(v@),
            r is None ==> lookup(self@, key@) is None,
    {
        let k = String::from_str(key);
        let mut i: usize = 0;
        assert(self@.skip(0) =~= self@);
        while i < self.entries.len()
            invariant
                i <= self.entries.len(),
                k@ == key@,
                self@ == entries_view(self.entries@),
                lookup(self@, key@) == lookup(self@.skip(i as int), key@),
            decreases self.entries.len() - i,
        {
            let ghost rest = self@.skip(i as int);
            assert(rest[0] == (self.entries@[i as int].key@, self.entries@[i as int].value@));
            if self.entries[i].key == k {
                return Some(self.entries[i].value.clone());
            }
            assert(rest.drop_first() =~= self@.skip(i + 1));
            i = i + 1;
        }
        None
    }

    /// Whether some entry has key `key`.
    pub fn contains_key(&self, key: &str) -> (r: bool)
        ensures
            r == (lookup(self@, key@) is Some),
    {
        self.get(key).is_some()
    }

    /// The entries, in the order they were first stored; no key occurs twice.
    pub fn entries(&self) -> (r: &Vec<Entry>)
        ensures
            entries_view(r@) == self@,
            keys_unique(self@),
    {
        proof {
            use_type_invariant(self);
        }
        &self.entries
    }
}

proof fn lemma_lookup_absent(s: TableView, k: Seq<char>)
    requires
        forall|j: int| 0 <= j < s.len() ==> s[j].0 != k,
    ensures
        lookup(s, k) is None,
    decreases s.len(),
{
    if s.len() > 0 {
        assert forall|j: int| 0 <= j < s.drop_first().len() implies s.drop_first()[j].0 != k by {
            assert(s.drop_first()[j] == s[j + 1]);
        }
        lemma_lookup_absent(s.drop_first(), k);
    }
}

impl Clone for Entry {
    fn clone(&self) -> (r: Self)
        ensures
            r.key@ == self.key@,
            r.value@ == self.value@,
    {
        Entry { key: self.key.clone(), value: self.value.clone() }
    }
}

impl Clone for StringTable {
    fn clone(&self) -> (r: Self)
        ensures
            r@ == self@,
    {
        proof {
            use_type_invariant(self);
        }
        let mut entries: Vec<Entry> = Vec::new();
        let mut i: usize = 0;
        while i < self.entries.len()
            invariant
                i <= self.entries.len(),
                entries@.len() == i,
                forall|j: int|
                    0 <= j < i ==> #[trigger] entries@[j].key@ == self.entries@[j].key@
                        && entries@[j].value@ == self.entries@[j].value@,
            decreases self.entries.len() - i,
        {
            entries.push(self.entries[i].clone());
            i = i + 1;
        }
        assert(entries_view(entries@) =~= entries_view(self.entries@));
        StringTable { entries }
    }
}

} // verus!
