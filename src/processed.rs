use vstd::prelude::*;

verus! {

/// The views of a sequence of hashes.
pub open spec fn hash_views(hashes: Seq<String>) -> Seq<Seq<char>> {
    hashes.map_values(|h: String| h@)
}

/// The hashes of the other chain's transactions whose settlement has completed.
/// A hash once added is never removed.
pub struct ProcessedTransactions {
    hashes: Vec<String>,
}

impl View for ProcessedTransactions {
    type V = Set<Seq<char>>;

    closed spec fn view(&self) -> Set<Seq<char>> {
        Set::new(|h: Seq<char>| exists|i: int| 0 <= i < self.hashes@.len() && #[trigger] self.hashes@[i]@ == h)
    }
}

impl ProcessedTransactions {
    pub fn new() -> (r: ProcessedTransactions)
        ensures
            r@ == Set::<Seq<char>>::empty(),
    {
        let r = ProcessedTransactions { hashes: Vec::new() };
        assert(r@ =~= Set::<Seq<char>>::empty());
        r
    }

    /// The recorded hashes, each once.
    pub fn hashes(&self) -> (r: Vec<String>)
        ensures
            hash_views(r@).to_set() == self@,
    {
        let mut r: Vec<String> = Vec::new();
        let mut i: usize = 0;
        while i < self.hashes.len()
            invariant
                i <= self.hashes@.len(),
                r@ == self.hashes@.take(i as int),
            decreases self.hashes@.len() - i,
        {
            r.push(self.hashes[i].clone());
            i += 1;
            assert(r@ =~= self.hashes@.take(i as int));
        }
        assert(r@ =~= self.hashes@);
        assert(hash_views(r@).to_set() =~= self@) by {
            assert forall|x: Seq<char>| #[trigger] self@.contains(x) implies hash_views(r@).contains(x) by {
                let j = choose|j: int| 0 <= j < self.hashes@.len() && #[trigger] self.hashes@[j]@ == x;
                assert(hash_views(r@)[j] == x);
            }
            assert forall|x: Seq<char>| #[trigger] hash_views(r@).contains(x) implies self@.contains(
                x,
            ) by {
                let j = choose|j: int| 0 <= j < r@.len() && #[trigger] hash_views(r@)[j] == x;
                assert(self.hashes@[j]@ == x);
            }
        }
        r
    }

    /// The set of the given hashes.
    pub fn from_hashes(hashes: Vec<String>) -> (r: ProcessedTransactions)
        ensures
            r@ == hash_views(hashes@).to_set(),
    {
        let r = ProcessedTransactions { hashes };
        assert(r@ =~= hash_views(hashes@).to_set()) by {
            assert forall|x: Seq<char>| #[trigger] r@.contains(x) implies hash_views(hashes@).contains(x) by {
                let j = choose|j: int| 0 <= j < hashes@.len() && #[trigger] hashes@[j]@ == x;
                assert(hash_views(hashes@)[j] == x);
            }
            assert forall|x: Seq<char>| #[trigger] hash_views(hashes@).contains(x) implies r@.contains(
                x,
            ) by {
                let j = choose|j: int| 0 <= j < hashes@.len() && #[trigger] hash_views(hashes@)[j] == x;
                assert(hashes@[j]@ == x);
            }
        }
        r
    }

    pub fn contains(&self, hash: &String) -> (r: bool)
        ensures
            r == self@.contains(hash@),
    {
        let mut i: usize = 0;
        while i < self.hashes.len()
            invariant
                i <= self.hashes@.len(),
                forall|j: int| 0 <= j < i ==> #[trigger] self.hashes@[j]@ != hash@,
            decreases self.hashes@.len() - i,
        {
            if self.hashes[i] == *hash {
                assert(self.hashes@[i as int]@ == hash@);
                return true;
            }
            i += 1;
        }
        false
    }

    pub fn insert(&mut self, hash: String)
        ensures
            final(self)@ == old(self)@.insert(hash@),
    {
        if !self.contains(&hash) {
            let ghost old_hashes = self.hashes@;
            let ghost h = hash@;
            self.hashes.push(hash);
            assert forall|x: Seq<char>| #[trigger] self@.contains(x) == old(self)@.insert(h).contains(x) by {
                if old(self)@.contains(x) {
                    let i = choose|i: int| 0 <= i < old_hashes.len() && #[trigger] old_hashes[i]@ == x;
                    assert(self.hashes@[i]@ == x);
                }
                if x == h {
                    assert(self.hashes@[old_hashes.len() as int]@ == x);
                }
                if self@.contains(x) {
                    let i = choose|i: int| 0 <= i < self.hashes@.len() && #[trigger] self.hashes@[i]@ == x;
                    if i < old_hashes.len() {
                        assert(old_hashes[i]@ == x);
                    }
                }
            }
            assert(self@ =~= old(self)@.insert(h));
        } else {
            assert(old(self)@.insert(hash@) =~= old(self)@);
        }
    }
}

} // verus!
