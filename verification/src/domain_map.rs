//! A value per domain, with a default for the domains that have none.

use vstd::prelude::*;

verus! {

/// Values that can be copied into an equal value.
pub trait Duplicate: Sized {
    fn duplicate(&self) -> (r: Self)
        ensures r == *self;
}

impl Duplicate for Option<String> {
    fn duplicate(&self) -> (r: Self) {
        match self {
            Some(s) => Some(s.clone()),
            None => None,
        }
    }
}

impl Duplicate for String {
    fn duplicate(&self) -> (r: Self) {
        self.clone()
    }
}

/// The value that the last pair with the key `key` carries, if any pair has it.
pub open spec fn last_value_for<V>(pairs: Seq<(String, V)>, key: Seq<char>) -> Option<V>
    decreases pairs.len(),
{
    if pairs.len() == 0 {
        None
    } else if pairs.last().0@ == key {
        Some(pairs.last().1)
    } else {
        last_value_for(pairs.drop_last(), key)
    }
}

/// The value for `key` after the pairs were applied in order over the default.
pub open spec fn resolve<V>(default: V, pairs: Seq<(String, V)>, key: Seq<char>) -> V {
    match last_value_for(pairs, key) {
        Some(v) => v,
        None => default,
    }
}

/// The pairs after `(key, value)` was set: an existing pair for `key` gets the value,
/// otherwise the pair is appended.
pub proof fn lemma_last_value_after_update<V>(pairs: Seq<(String, V)>, i: int, k: String, v: V, key: Seq<char>)
    requires
        0 <= i < pairs.len(),
        pairs[i].0@ == k@,
        forall|j: int| i < j < pairs.len() ==> pairs[j].0@ != k@,
    ensures
        last_value_for(pairs.update(i, (k, v)), key)
            == if key == k@ { Some(v) } else { last_value_for(pairs, key) },
    decreases pairs.len(),
{
    let upd = pairs.update(i, (k, v));
    if i == pairs.len() - 1 {
        assert(upd.drop_last() =~= pairs.drop_last());
    } else {
        assert(upd.drop_last() =~= pairs.drop_last().update(i, (k, v)));
        lemma_last_value_after_update(pairs.drop_last(), i, k, v, key);
    }
}

/// A value per domain over a default value.
#[derive(Debug)]
pub struct DomainMappingManager<V> {
    default: V,
    entries: Vec<(String, V)>,
}

impl<V: Duplicate> DomainMappingManager<V> {
    /// The default value.
    pub closed spec fn default_value(&self) -> V {
        self.default
    }

    /// The pairs that were set, in order.
    pub closed spec fn pairs(&self) -> Seq<(String, V)> {
        self.entries@
    }

    /// The value that holds for `key`.
    pub open spec fn lookup(&self, key: Seq<char>) -> V {
        resolve(self.default_value(), self.pairs(), key)
    }

    pub fn new(default: V) -> (r: Self)
        ensures
            r.default_value() == default,
            r.pairs() == Seq::<(String, V)>::empty(),
            forall|k: Seq<char>| #[trigger] r.lookup(k) == default,
    {
        Self { default, entries: Vec::new() }
    }

    /// The default value.
    pub fn get_default(&self) -> (r: &V)
        ensures *r == self.default_value(),
    {
        &self.default
    }

    /// The value for `domain`: the one set for it, else the default.
    pub fn get_for(&self, domain: &str) -> (r: &V)
        ensures *r == self.lookup(domain@),
    {
        let wanted: String = domain.to_owned();
        let mut i = self.entries.len();
        assert(self.entries@.take(i as int) =~= self.entries@);
        while i > 0
            invariant
                i <= self.entries.len(),
                wanted@ == domain@,
                last_value_for(self.entries@.take(i as int), domain@)
                    == last_value_for(self.entries@, domain@),
            decreases i,
        {
            let ghost prefix = self.entries@.take(i as int);
            assert(prefix.drop_last() =~= self.entries@.take(i - 1));
            if self.entries[i - 1].0 == wanted {
                return &self.entries[i - 1].1;
            }
            i = i - 1;
        }
        assert(self.entries@.take(0) =~= Seq::<(String, V)>::empty());
        &self.default
    }

    /// The index of the last pair for `domain`, if any.
    fn position_of(&self, domain: &str) -> (r: Option<usize>)
        ensures
            match r {
                Some(i) => i < self.entries@.len() && self.entries@[i as int].0@ == domain@
                    && forall|j: int| i < j < self.entries@.len() ==> self.entries@[j].0@ != domain@,
                None => forall|j: int| 0 <= j < self.entries@.len() ==> self.entries@[j].0@ != domain@,
            },
    {
        let wanted: String = domain.to_owned();
        let mut i = self.entries.len();
        while i > 0
            invariant
                i <= self.entries.len(),
                wanted@ == domain@,
                forall|j: int| i <= j < self.entries@.len() ==> self.entries@[j].0@ != domain@,
            decreases i,
        {
            if self.entries[i - 1].0 == wanted {
                return Some(i - 1);
            }
            i = i - 1;
        }
        None
    }

    /// Sets the value for `key`.
    pub fn set(&mut self, key: String, value: V)
        ensures
            final(self).default_value() == old(self).default_value(),
            forall|k: Seq<char>| #[trigger] final(self).lookup(k)
                == if k == key@ { value } else { old(self).lookup(k) },
    {
        match self.position_of(key.as_str()) {
            Some(i) => {
                proof {
                    assert forall|k: Seq<char>| #[trigger] last_value_for(self.entries@.update(i as int, (key, value)), k)
                        == if k == key@ { Some(value) } else { last_value_for(self.entries@, k) } by {
                        lemma_last_value_after_update(self.entries@, i as int, key, value, k);
                    }
                }
                self.entries.set(i, (key, value));
            }
            None => {
                let ghost old_entries = self.entries@;
                self.entries.push((key, value));
                proof {
                    assert(self.entries@.drop_last() =~= old_entries);
                }
            }
        }
    }

    /// Sets the default value.
    pub fn set_default(&mut self, value: V)
        ensures
            final(self).default_value() == value,
            final(self).pairs() == old(self).pairs(),
    {
        self.default = value;
    }

    /// The default value and the pairs that were set, in order; `None` where no pair was set.
    pub fn get_content(&self) -> (r: (V, Option<Vec<(String, V)>>))
        ensures
            r.0 == self.default_value(),
            match r.1 {
                Some(v) => v@ == self.pairs() && self.pairs().len() > 0,
                None => self.pairs().len() == 0,
            },
    {
        let default = self.default.duplicate();
        if self.entries.len() == 0 {
            return (default, None);
        }
        let mut out: Vec<(String, V)> = Vec::new();
        let mut i: usize = 0;
        while i < self.entries.len()
            invariant
                i <= self.entries.len(),
                out@ == self.entries@.take(i as int),
            decreases self.entries.len() - i,
        {
            let k = self.entries[i].0.clone();
            let v = self.entries[i].1.duplicate();
            out.push((k, v));
            proof {
                assert(self.entries@.take(i + 1) =~= self.entries@.take(i as int).push(self.entries@[i as int]));
            }
            i = i + 1;
        }
        assert(self.entries@.take(self.entries.len() as int) =~= self.entries@);
        (default, Some(out))
    }
}

} // verus!
