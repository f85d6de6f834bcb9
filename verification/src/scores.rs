use vstd::prelude::*;

verus! {

/// The table that a sequence of recorded pairs denotes: each key maps to
/// the value of the last pair that carries it.
pub open spec fn spec_table(entries: Seq<(String, i32)>) -> Map<Seq<char>, int>
    decreases entries.len(),
{
    if entries.len() == 0 {
        Map::<Seq<char>, int>::empty()
    } else {
        spec_table(entries.drop_last()).insert(entries.last().0@, entries.last().1 as int)
    }
}

/// A score table built the way the map-building convenience builds one:
/// pairs go in in the order given, and a later pair overwrites an earlier
/// one that carries the same key.
pub struct Scores {
    entries: Vec<(String, i32)>,
}

impl View for Scores {
    type V = Map<Seq<char>, int>;

    closed spec fn view(&self) -> Map<Seq<char>, int> {
        spec_table(self.entries@)
    }
}

impl Scores {
    /// The pairs recorded so far, oldest first, overwritten ones included.
    pub closed spec fn spec_entries(&self) -> Seq<(String, i32)> {
        self.entries@
    }

    /// An empty table.
    pub fn new() -> (r: Scores)
        ensures
            r@ == Map::<Seq<char>, int>::empty(),
            r.spec_entries().len() == 0,
    {
        Scores { entries: Vec::new() }
    }

    /// Records one pair; in the table it overwrites whatever the key was
    /// mapped to before.
    pub fn insert(&mut self, key: String, value: i32)
        ensures
            final(self)@ == old(self)@.insert(key@, value as int),
            final(self).spec_entries() == old(self).spec_entries().push((key, value)),
    {
        self.entries.push((key, value));
        proof {
            assert(self.entries@.drop_last() =~= old(self).entries@);
        }
    }

    /// How many pairs were recorded, overwritten ones included.
    pub fn recorded(&self) -> (r: usize)
        ensures
            r == self.spec_entries().len(),
    {
        self.entries.len()
    }

    /// The value the key is mapped to, or `None` for a key no recorded
    /// pair carries. The latest pair with the key decides.
    pub fn get(&self, key: &String) -> (r: Option<i32>)
        ensures
            self@.contains_key(key@) ==> (r matches Some(v) && v as int == self@[key@]),
            !self@.contains_key(key@) ==> r is None,
    {
        let mut j: usize = self.entries.len();
        proof {
            assert(self.entries@.take(j as int) =~= self.entries@);
        }
        while j > 0
            invariant
                j <= self.entries@.len(),
                self@.contains_key(key@) == spec_table(self.entries@.take(j as int)).contains_key(
                    key@,
                ),
                self@.contains_key(key@) ==> self@[key@] == spec_table(
                    self.entries@.take(j as int),
                )[key@],
            decreases j,
        {
            proof {
                assert(self.entries@.take(j as int).drop_last() =~= self.entries@.take(
                    j as int - 1,
                ));
            }
            if self.entries[j - 1].0 == *key {
                return Some(self.entries[j - 1].1);
            }
            j = j - 1;
        }
        proof {
            assert(self.entries@.take(0) =~= Seq::<(String, i32)>::empty());
        }
        None
    }

    /// Builds a table from a listing of pairs, recording them in the
    /// listed order, as the map-building convenience does.
    pub fn from_pairs(pairs: &Vec<(String, i32)>) -> (r: Scores)
        ensures
            r@ == spec_table(pairs@),
            r.spec_entries() == pairs@,
    {
        let mut r = Scores::new();
        let mut i: usize = 0;
        while i < pairs.len()
            invariant
                i <= pairs@.len(),
                r.spec_entries() == pairs@.take(i as int),
                r@ == spec_table(pairs@.take(i as int)),
            decreases pairs@.len() - i,
        {
            let key = pairs[i].0.clone();
            r.insert(key, pairs[i].1);
            proof {
                assert(pairs@.take(i as int + 1).drop_last() =~= pairs@.take(i as int));
                assert(r.spec_entries() =~= pairs@.take(i as int + 1));
            }
            i = i + 1;
        }
        proof {
            assert(pairs@.take(pairs@.len() as int) =~= pairs@);
        }
        r
    }
}

} // verus!
