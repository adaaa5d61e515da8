use vstd::prelude::*;

verus! {

/// The neighbours listed for `id` in `entries`; where `id` is listed more than
/// once, the last listing wins.
pub open spec fn lookup(entries: Seq<(String, Vec<String>)>, id: Seq<char>) -> Option<Seq<String>>
    decreases entries.len(),
{
    if entries.len() == 0 {
        None
    } else if entries.last().0@ == id {
        Some(entries.last().1@)
    } else {
        lookup(entries.drop_last(), id)
    }
}

/// Who gossips to whom: for each node id, the ordered ids of its neighbours.
pub struct Topology {
    /// The node ids with their neighbours.
    pub entries: Vec<(String, Vec<String>)>,
}

impl Topology {
    /// The neighbours of the node `id`, if the topology lists it.
    pub open spec fn neighbours_of(&self, id: Seq<char>) -> Option<Seq<String>> {
        lookup(self.entries@, id)
    }

    /// Looks up the neighbours of the node `id`.
    pub fn neighbours(&self, id: &String) -> (r: Option<&Vec<String>>)
        ensures
            match r {
                Some(ns) => self.neighbours_of(id@) == Some(ns@),
                None => self.neighbours_of(id@) is None,
            },
    {
        let mut i: usize = self.entries.len();
        assert(self.entries@.subrange(0, i as int) =~= self.entries@);
        while i > 0
            invariant
                i <= self.entries.len(),
                lookup(self.entries@, id@) == lookup(self.entries@.subrange(0, i as int), id@),
            decreases i,
        {
            i = i - 1;
            assert(self.entries@.subrange(0, i + 1).drop_last() =~= self.entries@.subrange(0, i as int));
            if self.entries[i].0 == *id {
                return Some(&self.entries[i].1);
            }
        }
        None
    }
}

} // verus!
