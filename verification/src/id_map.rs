//! A small association map keyed by `PolicyID`, with unique keys, modelled
//! as a `Map` from the identifier's text to the value's view.

use vstd::prelude::*;

use crate::ids::PolicyID;
use crate::policy::{Policy, Template};
use std::sync::Arc;

verus! {

/// The map a sequence of keyed entries denotes, later entries winning.
pub open spec fn assoc_view<V: View>(s: Seq<(PolicyID, V)>) -> Map<Seq<char>, V::V>
    decreases s.len(),
{
    if s.len() == 0 {
        Map::empty()
    } else {
        assoc_view(s.drop_last()).insert(s.last().0@, s.last().1@)
    }
}

/// True when no two entries share a key.
pub open spec fn unique_keys<V>(s: Seq<(PolicyID, V)>) -> bool {
    forall|i: int, j: int| 0 <= i < j < s.len() ==> s[i].0@ != s[j].0@
}

proof fn lemma_assoc_contains<V: View>(s: Seq<(PolicyID, V)>, k: Seq<char>)
    ensures
        assoc_view(s).contains_key(k) <==> exists|i: int| 0 <= i < s.len() && s[i].0@ == k,
    decreases s.len(),
{
    if s.len() > 0 {
        lemma_assoc_contains(s.drop_last(), k);
        if assoc_view(s).contains_key(k) {
            if s.last().0@ == k {
                assert(s[s.len() - 1].0@ == k);
            } else {
                let i = choose|i: int| 0 <= i < s.drop_last().len() && s.drop_last()[i].0@ == k;
                assert(s[i].0@ == k);
            }
        }
        if exists|i: int| 0 <= i < s.len() && s[i].0@ == k {
            let i = choose|i: int| 0 <= i < s.len() && s[i].0@ == k;
            if i < s.len() - 1 {
                assert(s.drop_last()[i].0@ == k);
            }
        }
    }
}

proof fn lemma_assoc_index<V: View>(s: Seq<(PolicyID, V)>, i: int)
    requires
        unique_keys(s),
        0 <= i < s.len(),
    ensures
        assoc_view(s).contains_key(s[i].0@),
        assoc_view(s)[s[i].0@] == s[i].1@,
    decreases s.len(),
{
    lemma_assoc_contains(s, s[i].0@);
    if i < s.len() - 1 {
        assert(s.drop_last()[i] == s[i]);
        lemma_assoc_index(s.drop_last(), i);
        assert(s[i].0@ != s.last().0@);
    }
}

proof fn lemma_assoc_dom_len<V: View>(s: Seq<(PolicyID, V)>)
    requires
        unique_keys(s),
    ensures
        assoc_view(s).dom().len() == s.len(),
        assoc_view(s).dom().finite(),
    decreases s.len(),
{
    if s.len() > 0 {
        assert(unique_keys(s.drop_last())) by {
            assert(forall|i: int, j: int|
                0 <= i < j < s.drop_last().len() ==> s.drop_last()[i].0@ != s.drop_last()[j].0@);
        }
        lemma_assoc_dom_len(s.drop_last());
        lemma_assoc_contains(s.drop_last(), s.last().0@);
        assert(!assoc_view(s.drop_last()).contains_key(s.last().0@)) by {
            if exists|i: int|
                0 <= i < s.drop_last().len() && s.drop_last()[i].0@ == s.last().0@ {
                let i = choose|i: int|
                    0 <= i < s.drop_last().len() && s.drop_last()[i].0@ == s.last().0@;
                assert(s[i].0@ == s[s.len() - 1].0@);
            }
        }
    }
}

/// An insert-only table of values keyed by `PolicyID`, each key present at
/// most once.
#[derive(Debug)]
pub struct IdMap<V> {
    entries: Vec<(PolicyID, V)>,
}

impl<V: View> View for IdMap<V> {
    type V = Map<Seq<char>, V::V>;

    closed spec fn view(&self) -> Map<Seq<char>, V::V> {
        assoc_view(self.entries@)
    }
}

impl<V: View> IdMap<V> {
    /// No two entries share a key.
    pub closed spec fn wf(&self) -> bool {
        unique_keys(self.entries@)
    }

    /// The empty map.
    pub fn new() -> (r: IdMap<V>)
        ensures
            r.wf(),
            r@ == Map::<Seq<char>, V::V>::empty(),
    {
        IdMap { entries: Vec::new() }
    }

    /// True when the map holds no entry.
    pub fn is_empty(&self) -> (r: bool)
        requires
            self.wf(),
        ensures
            r == (self@ == Map::<Seq<char>, V::V>::empty()),
    {
        proof {
            lemma_assoc_dom_len(self.entries@);
            if self.entries@.len() > 0 {
                lemma_assoc_index(self.entries@, 0);
                assert(self@.contains_key(self.entries@[0].0@));
                assert(self@ != Map::<Seq<char>, V::V>::empty());
            } else {
                assert(self@ =~= Map::<Seq<char>, V::V>::empty());
            }
        }
        self.entries.len() == 0
    }

    /// True when the map holds an entry with this key.
    pub fn contains(&self, id: &PolicyID) -> (r: bool)
        requires
            self.wf(),
        ensures
            r == self@.contains_key(id@),
    {
        let n = self.entries.len();
        let mut i: usize = 0;
        while i < n
            invariant
                n == self.entries@.len(),
                0 <= i <= n,
                forall|j: int| 0 <= j < i ==> self.entries@[j].0@ != id@,
            decreases n - i,
        {
            if self.entries[i].0 == *id {
                proof {
                    lemma_assoc_contains(self.entries@, id@);
                    assert(self.entries@[i as int].0@ == id@);
                }
                return true;
            }
            i = i + 1;
        }
        proof {
            lemma_assoc_contains(self.entries@, id@);
        }
        false
    }

    /// Look up the value stored under a key.
    pub fn get(&self, id: &PolicyID) -> (r: Option<&V>)
        requires
            self.wf(),
        ensures
            match r {
                Some(v) => self@.contains_key(id@) && v@ == self@[id@],
                None => !self@.contains_key(id@),
            },
    {
        let n = self.entries.len();
        let mut i: usize = 0;
        while i < n
            invariant
                self.wf(),
                n == self.entries@.len(),
                0 <= i <= n,
                forall|j: int| 0 <= j < i ==> self.entries@[j].0@ != id@,
            decreases n - i,
        {
            if self.entries[i].0 == *id {
                proof {
                    lemma_assoc_index(self.entries@, i as int);
                }
                return Some(&self.entries[i].1);
            }
            i = i + 1;
        }
        proof {
            lemma_assoc_contains(self.entries@, id@);
        }
        None
    }

    /// Store a value under a key not yet present.
    pub fn insert(&mut self, id: PolicyID, value: V)
        requires
            old(self).wf(),
            !old(self)@.contains_key(id@),
        ensures
            final(self).wf(),
            final(self)@ == old(self)@.insert(id@, value@),
    {
        proof {
            lemma_assoc_contains(self.entries@, id@);
        }
        let ghost s0 = self.entries@;
        self.entries.push((id, value));
        proof {
            assert(self.entries@.drop_last() =~= s0);
            assert(forall|i: int, j: int|
                0 <= i < j < self.entries@.len() ==> self.entries@[i].0@ != self.entries@[j].0@);
        }
    }

    /// Store a value under a key, replacing the entry if the key is present.
    pub fn set(&mut self, id: PolicyID, value: V)
        requires
            old(self).wf(),
        ensures
            final(self).wf(),
            final(self)@ == old(self)@.insert(id@, value@),
    {
        let n = self.entries.len();
        let mut i: usize = 0;
        while i < n
            invariant
                self.wf(),
                self.entries@ == old(self).entries@,
                n == self.entries@.len(),
                0 <= i <= n,
                forall|j: int| 0 <= j < i ==> self.entries@[j].0@ != id@,
            decreases n - i,
        {
            if self.entries[i].0 == id {
                let ghost s0 = self.entries@;
                self.entries.set(i, (id, value));
                proof {
                    lemma_set_entry(s0, self.entries@, i as int);
                }
                return ;
            }
            i = i + 1;
        }
        proof {
            lemma_assoc_contains(self.entries@, id@);
        }
        self.insert(id, value);
    }

    /// All entries, as references, in storage order.
    pub fn entries(&self) -> (r: Vec<(&PolicyID, &V)>)
        requires
            self.wf(),
        ensures
            r@.len() == self@.dom().len(),
            forall|i: int| 0 <= i < r@.len() ==> self@.contains_pair(#[trigger] r@[i].0@, r@[i].1@),
            forall|i: int, j: int| 0 <= i < j < r@.len() ==> r@[i].0@ != r@[j].0@,
            forall|k: Seq<char>|
                self@.contains_key(k) ==> exists|i: int| 0 <= i < r@.len() && #[trigger] r@[i].0@
                    == k,
    {
        proof {
            lemma_assoc_dom_len(self.entries@);
        }
        let n = self.entries.len();
        let mut r: Vec<(&PolicyID, &V)> = Vec::new();
        let mut i: usize = 0;
        while i < n
            invariant
                self.wf(),
                n == self.entries@.len(),
                0 <= i <= n,
                r@.len() == i,
                forall|j: int|
                    0 <= j < i ==> r@[j].0@ == self.entries@[j].0@ && r@[j].1@
                        == self.entries@[j].1@,
            decreases n - i,
        {
            r.push((&self.entries[i].0, &self.entries[i].1));
            i = i + 1;
        }
        proof {
            assert forall|i: int| 0 <= i < r@.len() implies self@.contains_pair(
                #[trigger] r@[i].0@,
                r@[i].1@,
            ) by {
                lemma_assoc_index(self.entries@, i);
            }
            assert forall|k: Seq<char>| self@.contains_key(k) implies exists|i: int|
                0 <= i < r@.len() && #[trigger] r@[i].0@ == k by {
                lemma_assoc_contains(self.entries@, k);
                let i = choose|i: int| 0 <= i < self.entries@.len() && self.entries@[i].0@ == k;
                assert(r@[i].0@ == k);
            }
        }
        r
    }
}

proof fn lemma_set_entry<V: View>(s0: Seq<(PolicyID, V)>, s1: Seq<(PolicyID, V)>, i: int)
    requires
        unique_keys(s0),
        0 <= i < s0.len(),
        s1.len() == s0.len(),
        s1[i].0@ == s0[i].0@,
        forall|j: int| 0 <= j < s0.len() && j != i ==> s1[j] == s0[j],
    ensures
        unique_keys(s1),
        assoc_view(s1) == assoc_view(s0).insert(s1[i].0@, s1[i].1@),
    decreases s0.len(),
{
    assert(forall|a: int, b: int| 0 <= a < b < s1.len() ==> s1[a].0@ != s1[b].0@);
    if i == s0.len() - 1 {
        assert(s1.drop_last() =~= s0.drop_last());
    } else {
        lemma_set_entry(s0.drop_last(), s1.drop_last(), i);
        assert(s1.last() == s0.last());
        assert(assoc_view(s1) == assoc_view(s0.drop_last()).insert(
            s1[i].0@,
            s1[i].1@,
        ).insert(s0.last().0@, s0.last().1@));
        assert(s0.last().0@ != s1[i].0@);
        assert(assoc_view(s0.drop_last()).insert(s1[i].0@, s1[i].1@).insert(
            s0.last().0@,
            s0.last().1@,
        ) =~= assoc_view(s0.drop_last()).insert(s0.last().0@, s0.last().1@).insert(
            s1[i].0@,
            s1[i].1@,
        ));
    }
}

impl Clone for IdMap<Arc<Template>> {
    fn clone(&self) -> (r: Self)
        ensures
            self.wf() ==> r.wf() && r@ == self@,
    {
        clone_entries_template(self)
    }
}

impl Clone for IdMap<Policy> {
    fn clone(&self) -> (r: Self)
        ensures
            self.wf() ==> r.wf() && r@ == self@,
    {
        clone_entries_policy(self)
    }
}

fn clone_entries_template(m: &IdMap<Arc<Template>>) -> (r: IdMap<Arc<Template>>)
    ensures
        m.wf() ==> r.wf() && r@ == m@,
{
    let n = m.entries.len();
    let mut entries: Vec<(PolicyID, Arc<Template>)> = Vec::new();
    let mut i: usize = 0;
    while i < n
        invariant
            n == m.entries@.len(),
            0 <= i <= n,
            entries@.len() == i,
            forall|j: int|
                0 <= j < i ==> entries@[j].0@ == m.entries@[j].0@ && entries@[j].1@
                    == m.entries@[j].1@,
        decreases n - i,
    {
        entries.push((m.entries[i].0.clone(), Arc::clone(&m.entries[i].1)));
        i = i + 1;
    }
    let r = IdMap { entries };
    proof {
        if m.wf() {
            lemma_assoc_congruence(r.entries@, m.entries@);
        }
    }
    r
}

fn clone_entries_policy(m: &IdMap<Policy>) -> (r: IdMap<Policy>)
    ensures
        m.wf() ==> r.wf() && r@ == m@,
{
    let n = m.entries.len();
    let mut entries: Vec<(PolicyID, Policy)> = Vec::new();
    let mut i: usize = 0;
    while i < n
        invariant
            n == m.entries@.len(),
            0 <= i <= n,
            entries@.len() == i,
            forall|j: int|
                0 <= j < i ==> entries@[j].0@ == m.entries@[j].0@ && entries@[j].1@
                    == m.entries@[j].1@,
        decreases n - i,
    {
        entries.push((m.entries[i].0.clone(), m.entries[i].1.clone()));
        i = i + 1;
    }
    let r = IdMap { entries };
    proof {
        if m.wf() {
            lemma_assoc_congruence(r.entries@, m.entries@);
        }
    }
    r
}

proof fn lemma_assoc_congruence<V: View>(s1: Seq<(PolicyID, V)>, s2: Seq<(PolicyID, V)>)
    requires
        s1.len() == s2.len(),
        forall|j: int| 0 <= j < s1.len() ==> s1[j].0@ == s2[j].0@ && s1[j].1@ == s2[j].1@,
        unique_keys(s2),
    ensures
        unique_keys(s1),
        assoc_view(s1) == assoc_view(s2),
    decreases s1.len(),
{
    if s1.len() > 0 {
        lemma_assoc_congruence(s1.drop_last(), s2.drop_last());
        assert(assoc_view(s1) == assoc_view(s1.drop_last()).insert(s1.last().0@, s1.last().1@));
        assert(s1.last().0@ == s2.last().0@ && s1.last().1@ == s2.last().1@);
    }
}

} // verus!
