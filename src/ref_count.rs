use vstd::prelude::*;

verus! {

/// The position of `rid` among the counted ids, or `-1`.
pub open spec fn count_index(d: Seq<(u64, u32)>, rid: u64) -> int
    decreases d.len(),
{
    if d.len() == 0 {
        -1
    } else if d.last().0 == rid {
        d.len() - 1
    } else {
        count_index(d.drop_last(), rid)
    }
}

/// The count of `rid`; zero when it is not counted.
pub open spec fn count_of(d: Seq<(u64, u32)>, rid: u64) -> nat {
    let i = count_index(d, rid);
    if i >= 0 {
        d[i].1 as nat
    } else {
        0
    }
}

/// Each id appears once, and never with a count of zero.
pub open spec fn counts_wf(d: Seq<(u64, u32)>) -> bool {
    &&& forall|i: int, j: int| 0 <= i < j < d.len() ==> d[i].0 != d[j].0
    &&& forall|i: int| 0 <= i < d.len() ==> d[i].1 > 0
}

pub open spec fn saturating_inc(n: u32) -> u32 {
    if n < u32::MAX {
        (n + 1) as u32
    } else {
        u32::MAX
    }
}

pub open spec fn saturating_dec(n: u32) -> u32 {
    if n > 0 {
        (n - 1) as u32
    } else {
        0
    }
}

/// The counts after one more reference to `rid` (saturating).
pub open spec fn counts_after_inc(d: Seq<(u64, u32)>, rid: u64) -> Seq<(u64, u32)> {
    let i = count_index(d, rid);
    if i >= 0 {
        d.update(i, (rid, saturating_inc(d[i].1)))
    } else {
        d.push((rid, 1))
    }
}

/// The counts after one reference to `rid` fewer: an entry whose count
/// reaches zero is erased.
pub open spec fn counts_after_dec(d: Seq<(u64, u32)>, rid: u64) -> Seq<(u64, u32)> {
    let i = count_index(d, rid);
    if i >= 0 {
        if d[i].1 <= 1 {
            d.remove(i)
        } else {
            d.update(i, (rid, (d[i].1 - 1) as u32))
        }
    } else {
        d
    }
}

pub proof fn lemma_count_index(d: Seq<(u64, u32)>, rid: u64)
    ensures
        -1 <= count_index(d, rid) < d.len(),
        count_index(d, rid) >= 0 ==> d[count_index(d, rid)].0 == rid,
        count_index(d, rid) < 0 ==> forall|i: int| 0 <= i < d.len() ==> d[i].0 != rid,
    decreases d.len(),
{
    if d.len() > 0 {
        lemma_count_index(d.drop_last(), rid);
        if d.last().0 != rid {
            assert forall|i: int| 0 <= i < d.len() - 1 implies d[i] == d.drop_last()[i] by {}
        }
    }
}

pub proof fn lemma_count_index_unique(d: Seq<(u64, u32)>, rid: u64, i: int)
    requires
        counts_wf(d),
        0 <= i < d.len(),
        d[i].0 == rid,
    ensures
        count_index(d, rid) == i,
{
    lemma_count_index(d, rid);
    let j = count_index(d, rid);
    if j != i {
        if j < i {
            assert(d[j].0 != d[i].0);
        } else {
            assert(d[i].0 != d[j].0);
        }
    }
}

pub proof fn lemma_counts_inc_wf(d: Seq<(u64, u32)>, rid: u64)
    requires
        counts_wf(d),
    ensures
        counts_wf(counts_after_inc(d, rid)),
{
    lemma_count_index(d, rid);
}

pub proof fn lemma_counts_dec_wf(d: Seq<(u64, u32)>, rid: u64)
    requires
        counts_wf(d),
    ensures
        counts_wf(counts_after_dec(d, rid)),
{
    lemma_count_index(d, rid);
    let i = count_index(d, rid);
    if i >= 0 && d[i].1 <= 1 {
        let t = d.remove(i);
        assert forall|a: int, b: int| 0 <= a < b < t.len() implies t[a].0 != t[b].0 by {
            let a2 = if a < i { a } else { a + 1 };
            let b2 = if b < i { b } else { b + 1 };
            assert(t[a] == d[a2]);
            assert(t[b] == d[b2]);
        }
        assert forall|a: int| 0 <= a < t.len() implies t[a].1 > 0 by {
            let a2 = if a < i { a } else { a + 1 };
            assert(t[a] == d[a2]);
        }
    }
}

/// The counted ids, in order.
pub open spec fn count_ids(d: Seq<(u64, u32)>) -> Seq<u64> {
    d.map_values(|e: (u64, u32)| e.0)
}

/// Reference counts keyed by entity id, in the order in which the ids were
/// first counted.
pub struct RefCounts {
    entries: Vec<(u64, u32)>,
}

impl View for RefCounts {
    type V = Seq<(u64, u32)>;

    closed spec fn view(&self) -> Seq<(u64, u32)> {
        self.entries@
    }
}

impl RefCounts {
    pub fn new() -> (r: RefCounts)
        ensures
            r@ == Seq::<(u64, u32)>::empty(),
    {
        RefCounts { entries: Vec::new() }
    }

    fn find(&self, rid: u64) -> (r: Option<usize>)
        ensures
            match r {
                Some(i) => count_index(self@, rid) == i as int,
                None => count_index(self@, rid) < 0,
            },
    {
        let mut i: usize = self.entries.len();
        assert(self.entries@.take(i as int) =~= self.entries@);
        while i > 0
            invariant
                i <= self.entries@.len(),
                count_index(self.entries@, rid) == count_index(self.entries@.take(i as int), rid),
            decreases i,
        {
            let ghost pre = self.entries@.take(i as int);
            assert(pre.drop_last() =~= self.entries@.take(i - 1));
            if self.entries[i - 1].0 == rid {
                return Some(i - 1);
            }
            i = i - 1;
        }
        None
    }

    /// Counts one more reference to `rid`; returns whether it was not
    /// counted before.
    pub fn increment(&mut self, rid: u64) -> (r: bool)
        requires
            counts_wf(old(self)@),
        ensures
            counts_wf(final(self)@),
            r == (count_index(old(self)@, rid) < 0),
            final(self)@ == counts_after_inc(old(self)@, rid),
    {
        proof {
            lemma_counts_inc_wf(self@, rid);
        }
        match self.find(rid) {
            Some(i) => {
                proof {
                    lemma_count_index(self@, rid);
                }
                let n = self.entries[i].1;
                let n2 = if n < u32::MAX { n + 1 } else { u32::MAX };
                self.entries.set(i, (rid, n2));
                false
            },
            None => {
                self.entries.push((rid, 1));
                true
            },
        }
    }

    /// Counts one reference to `rid` fewer; returns whether its entry was
    /// erased.
    pub fn decrement(&mut self, rid: u64) -> (r: bool)
        requires
            counts_wf(old(self)@),
        ensures
            counts_wf(final(self)@),
            r == (count_index(old(self)@, rid) >= 0 && old(self)@[count_index(old(self)@, rid)].1 <= 1),
            final(self)@ == counts_after_dec(old(self)@, rid),
    {
        proof {
            lemma_counts_dec_wf(self@, rid);
        }
        match self.find(rid) {
            Some(i) => {
                proof {
                    lemma_count_index(self@, rid);
                }
                let n = self.entries[i].1;
                if n <= 1 {
                    self.entries.remove(i);
                    true
                } else {
                    self.entries.set(i, (rid, n - 1));
                    false
                }
            },
            None => false,
        }
    }

    pub fn count(&self, rid: u64) -> (r: u32)
        ensures
            r == count_of(self@, rid),
    {
        match self.find(rid) {
            Some(i) => {
                proof {
                    lemma_count_index(self@, rid);
                }
                self.entries[i].1
            },
            None => 0,
        }
    }

    pub fn ids(&self) -> (r: Vec<u64>)
        ensures
            r@ == count_ids(self@),
    {
        let mut r: Vec<u64> = Vec::new();
        let mut i: usize = 0;
        while i < self.entries.len()
            invariant
                0 <= i <= self.entries@.len(),
                r@ == self.entries@.take(i as int).map_values(|e: (u64, u32)| e.0),
            decreases self.entries@.len() - i,
        {
            r.push(self.entries[i].0);
            i = i + 1;
            assert(r@ =~= self.entries@.take(i as int).map_values(|e: (u64, u32)| e.0));
        }
        assert(self.entries@.take(i as int) =~= self.entries@);
        r
    }

    pub fn len(&self) -> (r: usize)
        ensures
            r == self@.len(),
    {
        self.entries.len()
    }

    pub fn clear(&mut self)
        ensures
            final(self)@ == Seq::<(u64, u32)>::empty(),
    {
        self.entries.clear();
        assert(self@ =~= Seq::<(u64, u32)>::empty());
    }
}

} // verus!
