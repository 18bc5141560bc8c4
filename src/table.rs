use vstd::prelude::*;
use vstd::string::StrSliceExecFns;

verus! {

/// The map that an association list of keys and values stands for.
pub open spec fn map_of<V>(keys: Seq<String>, vals: Seq<V>) -> Map<Seq<char>, V>
    decreases keys.len(),
{
    if keys.len() == 0 || vals.len() == 0 {
        Map::empty()
    } else {
        map_of(keys.drop_last(), vals.drop_last()).insert(keys.last()@, vals.last())
    }
}

pub open spec fn unique_keys(keys: Seq<String>) -> bool {
    forall|i: int, j: int| 0 <= i < keys.len() && 0 <= j < keys.len() && i != j ==> keys[i]@ != keys[j]@
}

proof fn lemma_lookup<V>(keys: Seq<String>, vals: Seq<V>, i: int)
    requires
        keys.len() == vals.len(),
        unique_keys(keys),
        0 <= i < keys.len(),
    ensures
        map_of(keys, vals).contains_key(keys[i]@),
        map_of(keys, vals)[keys[i]@] == vals[i],
    decreases keys.len(),
{
    if i < keys.len() - 1 {
        assert(keys.last()@ != keys[i]@);
        lemma_lookup(keys.drop_last(), vals.drop_last(), i);
    }
}

proof fn lemma_absent<V>(keys: Seq<String>, vals: Seq<V>, k: Seq<char>)
    requires
        keys.len() == vals.len(),
        forall|i: int| 0 <= i < keys.len() ==> keys[i]@ != k,
    ensures
        !map_of(keys, vals).contains_key(k),
    decreases keys.len(),
{
    if keys.len() > 0 {
        lemma_absent(keys.drop_last(), vals.drop_last(), k);
    }
}

pub proof fn lemma_update<V>(keys: Seq<String>, vals: Seq<V>, i: int, v: V)
    requires
        keys.len() == vals.len(),
        unique_keys(keys),
        0 <= i < keys.len(),
    ensures
        map_of(keys, vals.update(i, v)) == map_of(keys, vals).insert(keys[i]@, v),
    decreases keys.len(),
{
    let n = keys.len() - 1;
    let inner = map_of(keys.drop_last(), vals.drop_last());
    if i == n {
        assert(vals.update(i, v).drop_last() == vals.drop_last());
        assert(map_of(keys, vals.update(i, v)) =~= map_of(keys, vals).insert(keys[i]@, v));
    } else {
        assert(vals.update(i, v).drop_last() == vals.drop_last().update(i, v));
        lemma_update(keys.drop_last(), vals.drop_last(), i, v);
        assert(keys[n]@ != keys[i]@);
        assert(map_of(keys, vals.update(i, v)) =~= map_of(keys, vals).insert(keys[i]@, v));
    }
}

/// Character-wise equality of two strings.
pub fn same_text(a: &str, b: &str) -> (r: bool)
    ensures
        r == (a@ == b@),
{
    let n = a.unicode_len();
    if n != b.unicode_len() {
        return false;
    }
    let mut i: usize = 0;
    while i < n
        invariant
            n == a@.len(),
            n == b@.len(),
            i <= n,
            forall|j: int| 0 <= j < i ==> a@[j] == b@[j],
        decreases n - i,
    {
        if a.get_char(i) != b.get_char(i) {
            return false;
        }
        i = i + 1;
    }
    assert(a@ =~= b@);
    true
}

/// A map keyed by strings, kept as two lists of equal length with distinct keys.
pub struct Table<V> {
    pub keys: Vec<String>,
    pub vals: Vec<V>,
}

impl<V> Table<V> {
    pub open spec fn wf(&self) -> bool {
        self.keys@.len() == self.vals@.len() && unique_keys(self.keys@)
    }

    pub open spec fn view(&self) -> Map<Seq<char>, V> {
        map_of(self.keys@, self.vals@)
    }

    pub fn new() -> (t: Table<V>)
        ensures
            t.wf(),
            t.view() == Map::<Seq<char>, V>::empty(),
    {
        Table { keys: Vec::new(), vals: Vec::new() }
    }

    pub fn len(&self) -> (n: usize)
        requires
            self.wf(),
        ensures
            n == self.view().dom().len(),
    {
        proof {
            self.lemma_len();
        }
        self.keys.len()
    }

    proof fn lemma_len(&self)
        requires
            self.wf(),
        ensures
            self.view().dom().len() == self.keys@.len(),
            self.view().dom().finite(),
        decreases self.keys@.len(),
    {
        if self.keys@.len() > 0 {
            lemma_len_seq(self.keys@, self.vals@);
        }
    }

    /// Position of `k` among the keys.
    pub fn find(&self, k: &str) -> (r: Option<usize>)
        requires
            self.wf(),
        ensures
            match r {
                Some(i) => i < self.keys@.len() && self.keys@[i as int]@ == k@ && self.view().contains_key(k@)
                    && self.view()[k@] == self.vals@[i as int],
                None => !self.view().contains_key(k@),
            },
    {
        let mut i: usize = 0;
        while i < self.keys.len()
            invariant
                self.wf(),
                i <= self.keys@.len(),
                forall|j: int| 0 <= j < i ==> self.keys@[j]@ != k@,
            decreases self.keys@.len() - i,
        {
            if same_text(self.keys[i].as_str(), k) {
                proof {
                    lemma_lookup(self.keys@, self.vals@, i as int);
                }
                return Some(i);
            }
            i = i + 1;
        }
        proof {
            lemma_absent(self.keys@, self.vals@, k@);
        }
        None
    }

    pub fn get(&self, k: &str) -> (r: Option<&V>)
        requires
            self.wf(),
        ensures
            match r {
                Some(v) => self.view().contains_key(k@) && self.view()[k@] == *v,
                None => !self.view().contains_key(k@),
            },
    {
        match self.find(k) {
            Some(i) => Some(&self.vals[i]),
            None => None,
        }
    }

    /// Sets `k` to `v`, replacing any earlier value of `k`.
    pub fn insert(&mut self, k: String, v: V)
        requires
            old(self).wf(),
        ensures
            final(self).wf(),
            final(self).view() == old(self).view().insert(k@, v),
    {
        match self.find(k.as_str()) {
            Some(i) => {
                proof {
                    lemma_update(self.keys@, self.vals@, i as int, v);
                }
                self.vals.set(i, v);
            },
            None => {
                let ghost ks = self.keys@;
                let ghost vs = self.vals@;
                proof {
                    if ks.len() > 0 {
                        lemma_absent_all(ks, vs, k@);
                    }
                }
                self.keys.push(k);
                self.vals.push(v);
                assert(self.keys@.drop_last() == ks);
                assert(self.vals@.drop_last() == vs);
            },
        }
    }
}

proof fn lemma_len_seq<V>(keys: Seq<String>, vals: Seq<V>)
    requires
        keys.len() == vals.len(),
        unique_keys(keys),
    ensures
        map_of(keys, vals).dom().len() == keys.len(),
        map_of(keys, vals).dom().finite(),
    decreases keys.len(),
{
    if keys.len() > 0 {
        let ks = keys.drop_last();
        let vs = vals.drop_last();
        lemma_len_seq(ks, vs);
        assert forall|i: int| 0 <= i < ks.len() implies ks[i]@ != keys.last()@ by {
            assert(keys[i]@ != keys[keys.len() - 1]@);
        }
        lemma_absent(ks, vs, keys.last()@);
    }
}

proof fn lemma_absent_all<V>(keys: Seq<String>, vals: Seq<V>, k: Seq<char>)
    requires
        keys.len() == vals.len(),
        !map_of(keys, vals).contains_key(k),
    ensures
        forall|i: int| 0 <= i < keys.len() ==> keys[i]@ != k,
{
    assert forall|i: int| 0 <= i < keys.len() implies keys[i]@ != k by {
        if keys[i]@ == k {
            lemma_contains(keys, vals, i);
        }
    }
}

proof fn lemma_contains<V>(keys: Seq<String>, vals: Seq<V>, i: int)
    requires
        keys.len() == vals.len(),
        0 <= i < keys.len(),
    ensures
        map_of(keys, vals).contains_key(keys[i]@),
    decreases keys.len(),
{
    if i < keys.len() - 1 {
        lemma_contains(keys.drop_last(), vals.drop_last(), i);
    }
}

} // verus!
