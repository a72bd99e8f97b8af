//! Session parameters: a map from names to values that keeps the order of first insertion.
use vstd::prelude::*;
use crate::text::str_eq;

verus! {

/// The map that a list of entries with distinct keys stands for.
pub open spec fn map_of(s: Seq<(Seq<char>, Seq<char>)>) -> Map<Seq<char>, Seq<char>>
    decreases s.len(),
{
    if s.len() == 0 {
        Map::empty()
    } else {
        map_of(s.drop_last()).insert(s.last().0, s.last().1)
    }
}

/// No key occurs twice.
pub open spec fn keys_unique(s: Seq<(Seq<char>, Seq<char>)>) -> bool {
    forall|i: int, j: int| 0 <= i < j < s.len() ==> (#[trigger] s[i]).0 != (#[trigger] s[j]).0
}

pub open spec fn entries_view(v: Seq<(String, String)>) -> Seq<(Seq<char>, Seq<char>)> {
    v.map_values(|e: (String, String)| (e.0@, e.1@))
}

proof fn lemma_map_of_absent(s: Seq<(Seq<char>, Seq<char>)>, k: Seq<char>)
    requires
        forall|i: int| 0 <= i < s.len() ==> (#[trigger] s[i]).0 != k,
    ensures
        !map_of(s).contains_key(k),
    decreases s.len(),
{
    if s.len() > 0 {
        lemma_map_of_absent(s.drop_last(), k);
    }
}

proof fn lemma_map_of_index(s: Seq<(Seq<char>, Seq<char>)>, i: int)
    requires
        keys_unique(s),
        0 <= i < s.len(),
    ensures
        map_of(s).contains_key(s[i].0),
        map_of(s)[s[i].0] == s[i].1,
    decreases s.len(),
{
    if i < s.len() - 1 {
        assert(s.drop_last()[i] == s[i]);
        lemma_map_of_index(s.drop_last(), i);
        assert(s[i].0 != s[s.len() - 1].0);
    }
}

proof fn lemma_map_of_update(s: Seq<(Seq<char>, Seq<char>)>, i: int, v: Seq<char>)
    requires
        keys_unique(s),
        0 <= i < s.len(),
    ensures
        map_of(s.update(i, (s[i].0, v))) == map_of(s).insert(s[i].0, v),
    decreases s.len(),
{
    let t = s.update(i, (s[i].0, v));
    if i == s.len() - 1 {
        assert(t.drop_last() =~= s.drop_last());
        assert(map_of(t) =~= map_of(s).insert(s[i].0, v));
    } else {
        assert(t.drop_last() =~= s.drop_last().update(i, (s[i].0, v)));
        assert(s.drop_last()[i] == s[i]);
        lemma_map_of_update(s.drop_last(), i, v);
        assert(s[i].0 != s[s.len() - 1].0);
        assert(map_of(t) =~= map_of(s).insert(s[i].0, v));
    }
}

proof fn lemma_map_of_remove(s: Seq<(Seq<char>, Seq<char>)>, i: int)
    requires
        keys_unique(s),
        0 <= i < s.len(),
    ensures
        map_of(s.remove(i)) == map_of(s).remove(s[i].0),
        keys_unique(s.remove(i)),
    decreases s.len(),
{
    let t = s.remove(i);
    assert(keys_unique(t)) by {
        assert forall|a: int, b: int| 0 <= a < b < t.len() implies (#[trigger] t[a]).0 != (#[trigger] t[b]).0 by {
            let a2 = if a < i { a } else { a + 1 };
            let b2 = if b < i { b } else { b + 1 };
            assert(t[a] == s[a2] && t[b] == s[b2]);
        }
    }
    if i == s.len() - 1 {
        assert(t =~= s.drop_last());
        assert forall|m: int| 0 <= m < s.drop_last().len() implies (#[trigger] s.drop_last()[m]).0 != s[i].0 by {
            assert(s.drop_last()[m] == s[m]);
        }
        lemma_map_of_absent(s.drop_last(), s[i].0);
        assert(map_of(t) =~= map_of(s).remove(s[i].0));
    } else {
        assert(t.drop_last() =~= s.drop_last().remove(i));
        assert(t.last() == s.last());
        assert(s.drop_last()[i] == s[i]);
        lemma_map_of_remove(s.drop_last(), i);
        assert(s[i].0 != s[s.len() - 1].0);
        assert(map_of(t) =~= map_of(s).remove(s[i].0));
    }
}

proof fn lemma_map_of_len(s: Seq<(Seq<char>, Seq<char>)>)
    requires
        keys_unique(s),
    ensures
        map_of(s).dom().finite(),
        map_of(s).dom().len() == s.len(),
    decreases s.len(),
{
    if s.len() > 0 {
        let d = s.drop_last();
        lemma_map_of_len(d);
        assert forall|m: int| 0 <= m < d.len() implies (#[trigger] d[m]).0 != s.last().0 by {
            assert(d[m] == s[m]);
        }
        lemma_map_of_absent(d, s.last().0);
    }
}

/// Named string values, each name once.
#[derive(Debug)]
pub struct Parameters {
    entries: Vec<(String, String)>,
}

impl View for Parameters {
    type V = Map<Seq<char>, Seq<char>>;

    closed spec fn view(&self) -> Map<Seq<char>, Seq<char>> {
        map_of(entries_view(self.entries@))
    }
}

impl Parameters {
    /// No name occurs twice among the entries.
    pub closed spec fn wf(&self) -> bool {
        keys_unique(entries_view(self.entries@))
    }

    /// No parameters.
    pub fn new() -> (r: Parameters)
        ensures
            r.wf(),
            r@ == Map::<Seq<char>, Seq<char>>::empty(),
    {
        let r = Parameters { entries: Vec::new() };
        assert(entries_view(r.entries@) =~= Seq::empty());
        r
    }

    /// The position of `key` among the entries.
    fn position(&self, key: &str) -> (r: Option<usize>)
        requires
            self.wf(),
        ensures
            match r {
                Some(i) => i < self.entries.len() && self.entries@[i as int].0@ == key@,
                None => !self@.contains_key(key@),
            },
    {
        let ghost ev = entries_view(self.entries@);
        let mut i: usize = 0;
        while i < self.entries.len()
            invariant
                i <= self.entries.len(),
                ev == entries_view(self.entries@),
                forall|k: int| 0 <= k < i ==> (#[trigger] ev[k]).0 != key@,
            decreases self.entries.len() - i,
        {
            if str_eq(self.entries[i].0.as_str(), key) {
                return Some(i);
            }
            i = i + 1;
        }
        proof {
            lemma_map_of_absent(ev, key@);
        }
        None
    }

    /// The value of `key`.
    pub fn get(&self, key: &str) -> (r: Option<&String>)
        requires
            self.wf(),
        ensures
            match r {
                Some(v) => self@.contains_key(key@) && self@[key@] == v@,
                None => !self@.contains_key(key@),
            },
    {
        match self.position(key) {
            Some(i) => {
                proof {
                    lemma_map_of_index(entries_view(self.entries@), i as int);
                }
                Some(&self.entries[i].1)
            },
            None => None,
        }
    }

    /// Sets `key` to `value`, in place when `key` is there already.
    pub fn insert(&mut self, key: String, value: String)
        requires
            old(self).wf(),
        ensures
            final(self).wf(),
            final(self)@ == old(self)@.insert(key@, value@),
    {
        let ghost ev = entries_view(self.entries@);
        match self.position(key.as_str()) {
            Some(i) => {
                proof {
                    lemma_map_of_update(ev, i as int, value@);
                }
                let ghost v = value@;
                self.entries.set(i, (key, value));
                assert(entries_view(self.entries@) =~= ev.update(i as int, (ev[i as int].0, v)));
            },
            None => {
                let ghost k = key@;
                let ghost v = value@;
                proof {
                    assert forall|m: int| 0 <= m < ev.len() implies (#[trigger] ev[m]).0 != k by {
                        if ev[m].0 == k {
                            lemma_map_of_index(ev, m);
                        }
                    }
                }
                self.entries.push((key, value));
                assert(entries_view(self.entries@) =~= ev.push((k, v)));
                assert(entries_view(self.entries@).drop_last() =~= ev);
            },
        }
    }

    /// Drops `key`, when it is there.
    pub fn remove(&mut self, key: &str)
        requires
            old(self).wf(),
        ensures
            final(self).wf(),
            final(self)@ == old(self)@.remove(key@),
    {
        let ghost ev = entries_view(self.entries@);
        match self.position(key) {
            Some(i) => {
                proof {
                    lemma_map_of_remove(ev, i as int);
                }
                self.entries.remove(i);
                assert(entries_view(self.entries@) =~= ev.remove(i as int));
            },
            None => {
                assert(self@ =~= self@.remove(key@));
            },
        }
    }

    /// Drops every parameter.
    pub fn clear(&mut self)
        requires
            old(self).wf(),
        ensures
            final(self).wf(),
            final(self)@ == Map::<Seq<char>, Seq<char>>::empty(),
    {
        self.entries = Vec::new();
        assert(entries_view(self.entries@) =~= Seq::empty());
    }

    /// The number of parameters.
    pub fn len(&self) -> (r: usize)
        requires
            self.wf(),
        ensures
            r == self@.len(),
            self@.dom().finite(),
    {
        proof {
            lemma_map_of_len(entries_view(self.entries@));
        }
        self.entries.len()
    }

    /// Whether there are no parameters.
    pub fn is_empty(&self) -> (r: bool)
        requires
            self.wf(),
        ensures
            r == (self@.len() == 0),
    {
        self.len() == 0
    }

    /// The parameters as name and value pairs, each name once.
    pub fn entries(&self) -> (r: &Vec<(String, String)>)
        requires
            self.wf(),
        ensures
            map_of(entries_view(r@)) == self@,
            keys_unique(entries_view(r@)),
    {
        &self.entries
    }

    /// A copy of the parameters.
    pub fn duplicate(&self) -> (r: Parameters)
        requires
            self.wf(),
        ensures
            r.wf(),
            r@ == self@,
    {
        let mut out: Vec<(String, String)> = Vec::new();
        let mut i: usize = 0;
        while i < self.entries.len()
            invariant
                i <= self.entries.len(),
                out.len() == i,
                keys_unique(entries_view(self.entries@)),
                entries_view(out@) == entries_view(self.entries@).subrange(0, i as int),
            decreases self.entries.len() - i,
        {
            let e = (self.entries[i].0.clone(), self.entries[i].1.clone());
            out.push(e);
            i = i + 1;
            assert(entries_view(out@) =~= entries_view(self.entries@).subrange(0, i as int));
        }
        assert(entries_view(self.entries@).subrange(0, i as int) =~= entries_view(self.entries@));
        Parameters { entries: out }
    }
}

} // verus!
