use vstd::prelude::*;

verus! {

/// The map that a list of (name, count) pairs stands for; where a name occurs
/// twice, the later pair wins.
pub open spec fn map_of(pairs: Seq<(String, u32)>) -> Map<Seq<char>, u32>
    decreases pairs.len(),
{
    if pairs.len() == 0 {
        Map::empty()
    } else {
        map_of(pairs.drop_last()).insert(pairs.last().0@, pairs.last().1)
    }
}

/// No name occurs in two pairs.
pub open spec fn distinct_keys(pairs: Seq<(String, u32)>) -> bool {
    forall|i: int, j: int| 0 <= i < j < pairs.len() ==> pairs[i].0@ != pairs[j].0@
}

/// The sum of the counts of a list of pairs.
pub open spec fn sum_counts(pairs: Seq<(String, u32)>) -> nat
    decreases pairs.len(),
{
    if pairs.len() == 0 {
        0
    } else {
        sum_counts(pairs.drop_last()) + pairs.last().1 as nat
    }
}

/// The count a tally holds for a name: 0 for a name it has never seen.
pub open spec fn uses_in(tally: Map<Seq<char>, u32>, name: Seq<char>) -> nat {
    if tally.contains_key(name) {
        tally[name] as nat
    } else {
        0
    }
}

/// A tally answers for a name the count last set for it, other names keep
/// their counts, and an empty tally counts nothing.
pub proof fn lemma_uses_in_laws(tally: Map<Seq<char>, u32>, name: Seq<char>, other: Seq<char>, count: u32)
    ensures
        uses_in(tally.insert(name, count), name) == count,
        other != name ==> uses_in(tally.insert(name, count), other) == uses_in(tally, other),
        uses_in(Map::<Seq<char>, u32>::empty(), name) == 0,
{
}

/// In a list of pairs with distinct names, each pair's name maps to its count,
/// names that occur in no pair are absent, appending a pair sets its name, and
/// the counts add up pair by pair.
pub proof fn lemma_pairs_laws(pairs: Seq<(String, u32)>, name: Seq<char>, extra: (String, u32))
    ensures
        distinct_keys(pairs) ==> forall|i: int|
            0 <= i < pairs.len() ==> #[trigger] map_of(pairs).contains_key(pairs[i].0@) && map_of(
                pairs,
            )[pairs[i].0@] == pairs[i].1,
        (forall|i: int| 0 <= i < pairs.len() ==> pairs[i].0@ != name) ==> !map_of(
            pairs,
        ).contains_key(name),
        uses_in(map_of(pairs.push(extra)), extra.0@) == extra.1,
        sum_counts(pairs.push(extra)) == sum_counts(pairs) + extra.1,
        map_of(Seq::<(String, u32)>::empty()) == Map::<Seq<char>, u32>::empty(),
{
    assert(pairs.push(extra).drop_last() =~= pairs);
    if distinct_keys(pairs) {
        assert forall|i: int| 0 <= i < pairs.len() implies #[trigger] map_of(pairs).contains_key(
            pairs[i].0@,
        ) && map_of(pairs)[pairs[i].0@] == pairs[i].1 by {
            lemma_map_of_at(pairs, i);
        }
    }
    if forall|i: int| 0 <= i < pairs.len() ==> pairs[i].0@ != name {
        lemma_map_of_absent(pairs, name);
    }
}

/// How often each model name was used: a map from names to counts, each name
/// held once.
pub struct UsageTally {
    entries: Vec<(String, u32)>,
}

impl View for UsageTally {
    type V = Map<Seq<char>, u32>;

    closed spec fn view(&self) -> Map<Seq<char>, u32> {
        map_of(self.entries@)
    }
}

proof fn lemma_map_of_at(pairs: Seq<(String, u32)>, i: int)
    requires
        distinct_keys(pairs),
        0 <= i < pairs.len(),
    ensures
        map_of(pairs).contains_key(pairs[i].0@),
        map_of(pairs)[pairs[i].0@] == pairs[i].1,
    decreases pairs.len(),
{
    if i < pairs.len() - 1 {
        lemma_map_of_at(pairs.drop_last(), i);
    }
}

proof fn lemma_map_of_absent(pairs: Seq<(String, u32)>, name: Seq<char>)
    requires
        forall|i: int| 0 <= i < pairs.len() ==> pairs[i].0@ != name,
    ensures
        !map_of(pairs).contains_key(name),
    decreases pairs.len(),
{
    if pairs.len() > 0 {
        lemma_map_of_absent(pairs.drop_last(), name);
    }
}

proof fn lemma_map_of_update(pairs: Seq<(String, u32)>, i: int, count: u32)
    requires
        distinct_keys(pairs),
        0 <= i < pairs.len(),
    ensures
        map_of(pairs.update(i, (pairs[i].0, count))) == map_of(pairs).insert(pairs[i].0@, count),
        sum_counts(pairs.update(i, (pairs[i].0, count))) + pairs[i].1 == sum_counts(pairs) + count,
    decreases pairs.len(),
{
    let updated = pairs.update(i, (pairs[i].0, count));
    if i == pairs.len() - 1 {
        assert(updated.drop_last() =~= pairs.drop_last());
        assert(map_of(updated) =~= map_of(pairs).insert(pairs[i].0@, count));
    } else {
        lemma_map_of_update(pairs.drop_last(), i, count);
        assert(updated.drop_last() =~= pairs.drop_last().update(i, (pairs[i].0, count)));
        assert(pairs.last().0@ != pairs[i].0@);
        assert(map_of(updated) =~= map_of(pairs).insert(pairs[i].0@, count));
    }
}

impl UsageTally {
    /// The tally holds each name once.
    pub closed spec fn wf(&self) -> bool {
        distinct_keys(self.entries@)
    }

    /// The sum of all counts.
    pub closed spec fn total(&self) -> nat {
        sum_counts(self.entries@)
    }

    /// An empty tally.
    pub fn new() -> (tally: Self)
        ensures
            tally.wf(),
            tally@ == Map::<Seq<char>, u32>::empty(),
            tally.total() == 0,
    {
        UsageTally { entries: Vec::new() }
    }

    /// The index of the pair for `name`, if there is one.
    fn find(&self, name: &String) -> (found: Option<usize>)
        requires
            self.wf(),
        ensures
            match found {
                Some(i) => i < self.entries@.len() && self.entries@[i as int].0@ == name@,
                None => forall|i: int|
                    0 <= i < self.entries@.len() ==> self.entries@[i].0@ != name@,
            },
    {
        let mut i: usize = 0;
        while i < self.entries.len()
            invariant
                i <= self.entries@.len(),
                forall|k: int| 0 <= k < i ==> self.entries@[k].0@ != name@,
            decreases self.entries@.len() - i,
        {
            if self.entries[i].0 == *name {
                return Some(i);
            }
            i = i + 1;
        }
        None
    }

    /// How often `name` was counted: 0 for a name never counted.
    pub fn count_of(&self, name: &str) -> (count: u32)
        requires
            self.wf(),
        ensures
            count == uses_in(self@, name@),
    {
        let key = name.to_owned();
        match self.find(&key) {
            Some(i) => {
                proof {
                    lemma_map_of_at(self.entries@, i as int);
                }
                self.entries[i].1
            },
            None => {
                proof {
                    lemma_map_of_absent(self.entries@, name@);
                }
                0
            },
        }
    }

    /// Sets the count of `name`, adding the name if the tally lacks it.
    pub fn set_count(&mut self, name: &str, count: u32)
        requires
            old(self).wf(),
        ensures
            final(self).wf(),
            final(self)@ == old(self)@.insert(name@, count),
            final(self).total() + uses_in(old(self)@, name@) == old(self).total() + count,
    {
        let key = name.to_owned();
        match self.find(&key) {
            Some(i) => {
                proof {
                    lemma_map_of_at(self.entries@, i as int);
                    lemma_map_of_update(self.entries@, i as int, count);
                }
                let kept = self.entries[i].0.clone();
                self.entries.set(i, (kept, count));
                assert(self.entries@ =~= old(self).entries@.update(
                    i as int,
                    (old(self).entries@[i as int].0, count),
                ));
            },
            None => {
                proof {
                    lemma_map_of_absent(self.entries@, name@);
                }
                self.entries.push((key, count));
                assert(self.entries@.drop_last() =~= old(self).entries@);
            },
        }
    }

    /// Counts one more use of `name`.
    pub fn increment(&mut self, name: &str)
        requires
            old(self).wf(),
            uses_in(old(self)@, name@) < u32::MAX,
        ensures
            final(self).wf(),
            final(self)@ == old(self)@.insert(name@, (uses_in(old(self)@, name@) + 1) as u32),
            final(self).total() == old(self).total() + 1,
    {
        let current: u32 = self.count_of(name);
        self.set_count(name, current + 1);
    }

    /// The (name, count) pairs of the tally, each name once.
    pub fn pairs(&self) -> (pairs: Vec<(String, u32)>)
        requires
            self.wf(),
        ensures
            distinct_keys(pairs@),
            map_of(pairs@) == self@,
    {
        let mut out: Vec<(String, u32)> = Vec::new();
        let mut i: usize = 0;
        while i < self.entries.len()
            invariant
                i <= self.entries@.len(),
                out@ == self.entries@.take(i as int),
            decreases self.entries@.len() - i,
        {
            let name = self.entries[i].0.clone();
            out.push((name, self.entries[i].1));
            assert(out@ =~= self.entries@.take(i + 1));
            i = i + 1;
        }
        assert(self.entries@.take(i as int) =~= self.entries@);
        out
    }
}

} // verus!
