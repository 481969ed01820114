use vstd::prelude::*;

verus! {

/// A work-list of entity ids with insert-if-absent semantics.
/// The ids are kept in the order in which they were first inserted.
pub struct IdSet {
    items: Vec<u64>,
}

impl View for IdSet {
    type V = Set<u64>;

    closed spec fn view(&self) -> Set<u64> {
        Set::new(|x: u64| self.items@.contains(x))
    }
}

impl IdSet {
    /// The ids in the order in which they are walked.
    pub closed spec fn order(&self) -> Seq<u64> {
        self.items@
    }

    pub closed spec fn wf(&self) -> bool {
        self.items@.no_duplicates()
    }

    pub proof fn lemma_order_matches(&self)
        requires
            self.wf(),
        ensures
            self.order().no_duplicates(),
            forall|x: u64| self@.contains(x) <==> self.order().contains(x),
    {
    }

    pub fn new() -> (r: IdSet)
        ensures
            r.wf(),
            r@ == Set::<u64>::empty(),
            r.order() == Seq::<u64>::empty(),
    {
        let r = IdSet { items: Vec::new() };
        assert(r@ =~= Set::<u64>::empty());
        r
    }

    pub fn len(&self) -> (r: usize)
        requires
            self.wf(),
        ensures
            r == self.order().len(),
    {
        self.items.len()
    }

    pub fn contains(&self, x: u64) -> (r: bool)
        ensures
            r == self@.contains(x),
    {
        let mut i: usize = 0;
        while i < self.items.len()
            invariant
                0 <= i <= self.items@.len(),
                forall|j: int| 0 <= j < i ==> self.items@[j] != x,
            decreases self.items@.len() - i,
        {
            if self.items[i] == x {
                return true;
            }
            i = i + 1;
        }
        false
    }

    pub fn insert(&mut self, x: u64)
        requires
            old(self).wf(),
        ensures
            final(self).wf(),
            final(self)@ == old(self)@.insert(x),
            final(self).order() == if old(self)@.contains(x) {
                old(self).order()
            } else {
                old(self).order().push(x)
            },
    {
        if !self.contains(x) {
            let ghost before = self.items@;
            self.items.push(x);
            proof {
                lemma_push_contains(before, x);
            }
            assert(self@ =~= old(self)@.insert(x));
        } else {
            assert(self@ =~= old(self)@.insert(x));
        }
    }

    pub fn remove(&mut self, x: u64)
        requires
            old(self).wf(),
        ensures
            final(self).wf(),
            final(self)@ == old(self)@.remove(x),
    {
        let mut i: usize = 0;
        while i < self.items.len()
            invariant
                0 <= i <= self.items@.len(),
                self.items@ == old(self).items@,
                self.items@.no_duplicates(),
                forall|j: int| 0 <= j < i ==> self.items@[j] != x,
            decreases self.items@.len() - i,
        {
            if self.items[i] == x {
                let ghost before = self.items@;
                self.items.remove(i);
                proof {
                    lemma_remove_contains(before, i as int);
                }
                assert(self@ =~= old(self)@.remove(x));
                return;
            }
            i = i + 1;
        }
        assert(self@ =~= old(self)@.remove(x));
    }

    pub fn clear(&mut self)
        ensures
            final(self).wf(),
            final(self)@ == Set::<u64>::empty(),
            final(self).order() == Seq::<u64>::empty(),
    {
        self.items.clear();
        assert(self@ =~= Set::<u64>::empty());
    }

    /// The ids, in walking order.
    pub fn to_vec(&self) -> (r: Vec<u64>)
        ensures
            r@ == self.order(),
    {
        self.items.clone()
    }
}

proof fn lemma_push_contains(s: Seq<u64>, x: u64)
    requires
        s.no_duplicates(),
        !s.contains(x),
    ensures
        s.push(x).no_duplicates(),
        forall|y: u64| s.push(x).contains(y) <==> (s.contains(y) || y == x),
{
    let t = s.push(x);
    assert forall|y: u64| t.contains(y) <==> (s.contains(y) || y == x) by {
        if t.contains(y) {
            let k = choose|k: int| 0 <= k < t.len() && t[k] == y;
            if k < s.len() {
                assert(s[k] == y);
            }
        }
        if s.contains(y) {
            let k = choose|k: int| 0 <= k < s.len() && s[k] == y;
            assert(t[k] == y);
        }
        if y == x {
            assert(t[s.len() as int] == y);
        }
    }
    assert forall|i: int, j: int| 0 <= i < t.len() && 0 <= j < t.len() && i != j implies t[i] != t[j] by {
        if i == s.len() {
            assert(s[j] == t[j]);
        } else if j == s.len() {
            assert(s[i] == t[i]);
        }
    }
}

proof fn lemma_remove_contains(s: Seq<u64>, i: int)
    requires
        s.no_duplicates(),
        0 <= i < s.len(),
    ensures
        s.remove(i).no_duplicates(),
        forall|y: u64| s.remove(i).contains(y) <==> (s.contains(y) && y != s[i]),
{
    let t = s.remove(i);
    assert forall|y: u64| t.contains(y) <==> (s.contains(y) && y != s[i]) by {
        if t.contains(y) {
            let k = choose|k: int| 0 <= k < t.len() && t[k] == y;
            if k < i {
                assert(s[k] == y);
            } else {
                assert(s[k + 1] == y);
            }
        }
        if s.contains(y) && y != s[i] {
            let k = choose|k: int| 0 <= k < s.len() && s[k] == y;
            if k < i {
                assert(t[k] == y);
            } else {
                assert(t[k - 1] == y);
            }
        }
    }
    assert forall|a: int, b: int| 0 <= a < t.len() && 0 <= b < t.len() && a != b implies t[a] != t[b] by {
        let a2 = if a < i { a } else { a + 1 };
        let b2 = if b < i { b } else { b + 1 };
        assert(t[a] == s[a2]);
        assert(t[b] == s[b2]);
    }
}

} // verus!
