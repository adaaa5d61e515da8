use vstd::prelude::*;

verus! {

/// Merging two known-value sets: their union.
pub open spec fn merge(a: Set<usize>, b: Set<usize>) -> Set<usize> {
    a.union(b)
}

/// Merging is associative, commutative and idempotent: replicas that exchange
/// their sets in any order, any number of times, agree on the result.
pub proof fn lemma_merge_laws(a: Set<usize>, b: Set<usize>, c: Set<usize>)
    ensures
        merge(a, merge(b, c)) == merge(merge(a, b), c),
        merge(a, b) == merge(b, a),
        merge(a, a) == a,
{
    assert(merge(a, merge(b, c)) =~= merge(merge(a, b), c));
    assert(merge(a, b) =~= merge(b, a));
    assert(merge(a, a) =~= a);
}

/// Merging never loses a value: both inputs are contained in the result.
pub proof fn lemma_merge_grows(a: Set<usize>, b: Set<usize>)
    ensures
        a.subset_of(merge(a, b)),
        b.subset_of(merge(a, b)),
{
}

/// The set of values a node knows, held without repetition in the order in
/// which the values were learned.
pub struct KnownValues {
    values: Vec<usize>,
}

impl View for KnownValues {
    type V = Set<usize>;

    closed spec fn view(&self) -> Set<usize> {
        self.values@.to_set()
    }
}

impl KnownValues {
    /// The set holds each value once.
    pub closed spec fn wf(&self) -> bool {
        self.values@.no_duplicates()
    }

    /// The empty set.
    pub fn new() -> (r: Self)
        ensures
            r.wf(),
            r@ == Set::<usize>::empty(),
    {
        let r = KnownValues { values: Vec::new() };
        assert(r@ =~= Set::<usize>::empty());
        r
    }

    /// Whether `v` is known.
    pub fn contains(&self, v: usize) -> (r: bool)
        requires
            self.wf(),
        ensures
            r == self@.contains(v),
    {
        let mut i: usize = 0;
        while i < self.values.len()
            invariant
                i <= self.values.len(),
                forall|k: int| 0 <= k < i ==> self.values@[k] != v,
            decreases self.values.len() - i,
        {
            if self.values[i] == v {
                assert(self.values@.contains(v));
                return true;
            }
            i = i + 1;
        }
        false
    }

    /// Adds `v`; nothing changes if it is already known.
    pub fn insert(&mut self, v: usize)
        requires
            old(self).wf(),
        ensures
            final(self).wf(),
            final(self)@ == old(self)@.insert(v),
    {
        if !self.contains(v) {
            proof {
                let ghost before = self.values@;
                assert(before.push(v).to_set() =~= before.to_set().insert(v)) by {
                    assert forall|x: usize| before.push(v).contains(x) <==> before.contains(x) || x == v by {
                        if before.push(v).contains(x) {
                            let k = choose|k: int| 0 <= k < before.len() + 1 && before.push(v)[k] == x;
                            if k < before.len() {
                                assert(before[k] == x);
                            }
                        }
                        if before.contains(x) {
                            let k = choose|k: int| 0 <= k < before.len() && before[k] == x;
                            assert(before.push(v)[k] == x);
                        }
                        assert(before.push(v)[before.len() as int] == v);
                    }
                }
            }
            self.values.push(v);
        } else {
            assert(old(self)@.insert(v) =~= old(self)@);
        }
    }

    /// Adds every value of `incoming`: afterwards the set is the merge of the
    /// old set and the values of `incoming`.
    pub fn merge_from(&mut self, incoming: &Vec<usize>)
        requires
            old(self).wf(),
        ensures
            final(self).wf(),
            final(self)@ == merge(old(self)@, incoming@.to_set()),
    {
        let mut i: usize = 0;
        while i < incoming.len()
            invariant
                i <= incoming.len(),
                self.wf(),
                self@ == merge(old(self)@, incoming@.subrange(0, i as int).to_set()),
            decreases incoming.len() - i,
        {
            let ghost prefix = incoming@.subrange(0, i as int);
            assert(incoming@.subrange(0, i + 1) == prefix.push(incoming@[i as int]));
            proof {
                assert(prefix.push(incoming@[i as int]).to_set() =~= prefix.to_set().insert(incoming@[i as int])) by {
                    let p = prefix.push(incoming@[i as int]);
                    assert forall|x: usize| p.contains(x) <==> prefix.contains(x) || x == incoming@[i as int] by {
                        if p.contains(x) {
                            let k = choose|k: int| 0 <= k < p.len() && p[k] == x;
                            if k < prefix.len() {
                                assert(prefix[k] == x);
                            }
                        }
                        if prefix.contains(x) {
                            let k = choose|k: int| 0 <= k < prefix.len() && prefix[k] == x;
                            assert(p[k] == x);
                        }
                        assert(p[prefix.len() as int] == incoming@[i as int]);
                    }
                }
            }
            self.insert(incoming[i]);
            assert(self@ =~= merge(old(self)@, incoming@.subrange(0, i + 1).to_set()));
            i = i + 1;
        }
        assert(incoming@.subrange(0, incoming.len() as int) =~= incoming@);
    }

    /// A copy of the known values, each once.
    pub fn snapshot(&self) -> (r: Vec<usize>)
        requires
            self.wf(),
        ensures
            r@.no_duplicates(),
            r@.to_set() == self@,
    {
        let mut r: Vec<usize> = Vec::new();
        let mut i: usize = 0;
        while i < self.values.len()
            invariant
                i <= self.values.len(),
                r@ == self.values@.subrange(0, i as int),
            decreases self.values.len() - i,
        {
            r.push(self.values[i]);
            i = i + 1;
            assert(r@ =~= self.values@.subrange(0, i as int));
        }
        assert(r@ =~= self.values@);
        r
    }
}

} // verus!
