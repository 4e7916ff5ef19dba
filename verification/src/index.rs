//! The name-to-position mapping of a materialized table.
//!
//! Column names may repeat; the mapping keeps, for each name, the highest
//! position carrying it — the entry recorded last wins, as it would in a
//! hash map filled in schema order.

use vstd::prelude::*;

verus! {

/// The mapping that results from recording the pairs of `entries` in
/// order, each newer pair overwriting any older one with the same name.
spec fn map_of_entries(entries: Seq<(String, usize)>) -> Map<Seq<char>, usize>
    decreases entries.len(),
{
    if entries.len() == 0 {
        Map::empty()
    } else {
        map_of_entries(entries.drop_last()).insert(entries.last().0@, entries.last().1)
    }
}

/// A mapping from column name to column position, last write winning.
pub struct ColumnIndexMap {
    entries: Vec<(String, usize)>,
}

impl View for ColumnIndexMap {
    type V = Map<Seq<char>, usize>;

    closed spec fn view(&self) -> Map<Seq<char>, usize> {
        map_of_entries(self.entries@)
    }
}

impl ColumnIndexMap {
    pub fn new() -> (r: ColumnIndexMap)
        ensures
            r@ == Map::<Seq<char>, usize>::empty(),
    {
        ColumnIndexMap { entries: Vec::new() }
    }

    /// Records `name` at position `index`, overwriting what any earlier
    /// record gave that name.
    pub fn record(&mut self, name: String, index: usize)
        ensures
            final(self)@ == old(self)@.insert(name@, index),
    {
        let ghost before = self.entries@;
        self.entries.push((name, index));
        proof {
            assert(self.entries@.drop_last() =~= before);
        }
    }

    /// The position recorded for `name`, if any.
    pub fn get(&self, name: &String) -> (r: Option<usize>)
        ensures
            match r {
                Some(i) => self@.contains_key(name@) && self@[name@] == i,
                None => !self@.contains_key(name@),
            },
    {
        let mut i: usize = self.entries.len();
        proof {
            assert(self.entries@.take(i as int) =~= self.entries@);
        }
        while i > 0
            invariant
                i <= self.entries@.len(),
                map_of_entries(self.entries@.take(i as int)).contains_key(name@)
                    == self@.contains_key(name@),
                self@.contains_key(name@) ==> map_of_entries(self.entries@.take(i as int))[name@]
                    == self@[name@],
            decreases i,
        {
            i = i - 1;
            let ghost upto = self.entries@.take(i as int + 1);
            proof {
                assert(upto.drop_last() =~= self.entries@.take(i as int));
            }
            if self.entries[i].0.eq(name) {
                return Some(self.entries[i].1);
            }
        }
        proof {
            assert(self.entries@.take(0) =~= Seq::<(String, usize)>::empty());
        }
        None
    }
}

} // verus!
