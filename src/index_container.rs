use vstd::prelude::*;

verus! {

/// The abstract state of a slot pool: the slots, and the free list of
/// tombstoned indices whose last entry is reused first.
pub struct SlotModel<T> {
    pub slots: Seq<Option<T>>,
    pub tombs: Seq<usize>,
}

impl<T> SlotModel<T> {
    pub open spec fn occupied(self, i: int) -> bool {
        0 <= i < self.slots.len() && self.slots[i] is Some
    }

    /// Every tombstone names an empty slot, at most once, and every empty
    /// slot is tombstoned.
    pub open spec fn wf(self) -> bool {
        &&& self.slots.len() <= usize::MAX
        &&& self.tombs.no_duplicates()
        &&& forall|k: int|
            0 <= k < self.tombs.len() ==> #[trigger] self.tombs[k] < self.slots.len()
                && self.slots[self.tombs[k] as int] is None
        &&& forall|i: int|
            0 <= i < self.slots.len() && #[trigger] self.slots[i] is None ==> self.tombs.contains(
                i as usize,
            )
    }

    /// The index the next insertion takes: the most recently freed one, or
    /// the end of the slot sequence when nothing is free.
    pub open spec fn next_index(self) -> int {
        if self.tombs.len() > 0 {
            self.tombs.last() as int
        } else {
            self.slots.len() as int
        }
    }

    pub open spec fn insert(self, item: T) -> SlotModel<T> {
        if self.tombs.len() > 0 {
            SlotModel {
                slots: self.slots.update(self.tombs.last() as int, Some(item)),
                tombs: self.tombs.drop_last(),
            }
        } else {
            SlotModel { slots: self.slots.push(Some(item)), tombs: self.tombs }
        }
    }

    pub open spec fn remove(self, i: usize) -> SlotModel<T> {
        SlotModel { slots: self.slots.update(i as int, None), tombs: self.tombs.push(i) }
    }
}

/// An insertion never hands out an index that is still occupied, keeps the
/// pool well formed, and leaves the new value at the index it returns.
pub proof fn lemma_insert_takes_free_slot<T>(m: SlotModel<T>, item: T)
    requires
        m.wf(),
        m.slots.len() < usize::MAX,
    ensures
        !m.occupied(m.next_index()),
        m.insert(item).wf(),
        m.insert(item).slots[m.next_index()] == Some(item),
        forall|j: int| j != m.next_index() && 0 <= j < m.slots.len()
            ==> #[trigger] m.insert(item).slots[j] == m.slots[j],
{
    let n = m.insert(item);
    if m.tombs.len() > 0 {
        let t = m.tombs.last();
        assert(m.tombs[m.tombs.len() - 1] == t);
        assert forall|a: int, b: int| 0 <= a < b < n.tombs.len() implies n.tombs[a] != n.tombs[b] by {
            assert(n.tombs[a] == m.tombs[a] && n.tombs[b] == m.tombs[b]);
        }
        assert forall|k: int| 0 <= k < n.tombs.len() implies #[trigger] n.tombs[k] < n.slots.len()
            && n.slots[n.tombs[k] as int] is None by {
            assert(n.tombs[k] == m.tombs[k]);
            assert(m.tombs[k] != t);
        }
        assert forall|i: int| 0 <= i < n.slots.len() && #[trigger] n.slots[i] is None implies n.tombs.contains(
            i as usize,
        ) by {
            assert(m.slots[i] is None);
            assert(m.tombs.contains(i as usize));
            let k = choose|k: int| 0 <= k < m.tombs.len() && m.tombs[k] == i as usize;
            assert(k != m.tombs.len() - 1);
            assert(n.tombs[k] == i as usize);
        }
    } else {
        assert forall|i: int| 0 <= i < n.slots.len() && #[trigger] n.slots[i] is None implies n.tombs.contains(
            i as usize,
        ) by {
            if i < m.slots.len() {
                assert(m.slots[i] is None);
                assert(m.tombs.contains(i as usize));
            }
        }
    }
}

/// Removing an occupied index keeps the pool well formed, empties that slot,
/// and makes the very next insertion reuse it.
pub proof fn lemma_remove_then_insert_reuses<T>(m: SlotModel<T>, i: usize, item: T)
    requires
        m.wf(),
        m.occupied(i as int),
    ensures
        m.remove(i).wf(),
        !m.remove(i).occupied(i as int),
        m.remove(i).next_index() == i,
        m.remove(i).insert(item).slots == m.slots.update(i as int, Some(item)),
        m.remove(i).insert(item).tombs == m.tombs,
{
    let r = m.remove(i);
    assert(!m.tombs.contains(i)) by {
        if m.tombs.contains(i) {
            let k = choose|k: int| 0 <= k < m.tombs.len() && m.tombs[k] == i;
            assert(m.slots[m.tombs[k] as int] is None);
        }
    }
    assert forall|k: int| 0 <= k < r.tombs.len() implies #[trigger] r.tombs[k] < r.slots.len()
        && r.slots[r.tombs[k] as int] is None by {
        if k < m.tombs.len() {
            assert(r.tombs[k] == m.tombs[k]);
        }
    }
    assert forall|j: int| 0 <= j < r.slots.len() && #[trigger] r.slots[j] is None implies r.tombs.contains(
        j as usize,
    ) by {
        if j == i {
            assert(r.tombs[r.tombs.len() - 1] == i);
        } else {
            assert(m.slots[j] is None);
            let k = choose|k: int| 0 <= k < m.tombs.len() && m.tombs[k] == j as usize;
            assert(r.tombs[k] == j as usize);
        }
    }
    assert(r.tombs.drop_last() =~= m.tombs);
    assert(r.slots.update(i as int, Some(item)) =~= m.slots.update(i as int, Some(item)));
}

/// A pool of values addressed by stable indices. A removed index is
/// tombstoned and handed out again by a later insertion, most recently
/// removed first.
pub struct IndexContainer<T> {
    data: Vec<Option<T>>,
    tomb_list: Vec<usize>,
}

impl<T> View for IndexContainer<T> {
    type V = SlotModel<T>;

    closed spec fn view(&self) -> SlotModel<T> {
        SlotModel { slots: self.data@, tombs: self.tomb_list@ }
    }
}

impl<T> IndexContainer<T> {
    pub open spec fn wf(&self) -> bool {
        self@.wf()
    }

    pub fn new() -> (r: IndexContainer<T>)
        ensures
            r@.slots.len() == 0,
            r@.tombs.len() == 0,
            r.wf(),
    {
        IndexContainer { data: Vec::new(), tomb_list: Vec::new() }
    }

    /// Whether `index` currently holds a value.
    pub fn contains(&self, index: usize) -> (r: bool)
        ensures
            r == self@.occupied(index as int),
    {
        index < self.data.len() && self.data[index].is_some()
    }

    pub fn get_mut(&mut self, index: usize) -> (r: &mut T)
        requires
            old(self)@.occupied(index as int),
        ensures
            Some(*r) == old(self)@.slots[index as int],
            final(self)@ == (SlotModel {
                slots: old(self)@.slots.update(index as int, Some(*final(r))),
                tombs: old(self)@.tombs,
            }),
    {
        match &mut self.data[index] {
            Some(d) => d,
            None => unreached(),
        }
    }

    pub fn get(&self, index: usize) -> (r: &T)
        requires
            self@.occupied(index as int),
        ensures
            Some(*r) == self@.slots[index as int],
    {
        match &self.data[index] {
            Some(d) => d,
            None => unreached(),
        }
    }

    /// Stores `item` in the most recently freed slot, or in a new slot at the
    /// end when none is free, and returns its index.
    pub fn set_item(&mut self, item: T) -> (r: usize)
        requires
            old(self).wf(),
            old(self)@.slots.len() < usize::MAX,
        ensures
            r == old(self)@.next_index(),
            final(self)@ == old(self)@.insert(item),
            final(self).wf(),
            !old(self)@.occupied(r as int),
    {
        proof {
            lemma_insert_takes_free_slot(self@, item);
        }
        let free_index = self.get_free_index();
        if free_index >= self.data.len() {
            self.data.push(Some(item));
        } else {
            self.data.set(free_index, Some(item));
        }
        free_index
    }

    fn get_free_index(&mut self) -> (r: usize)
        requires
            old(self).wf(),
        ensures
            r == old(self)@.next_index(),
            final(self).data@ == old(self).data@,
            old(self)@.tombs.len() > 0 ==> final(self)@.tombs == old(self)@.tombs.drop_last(),
            old(self)@.tombs.len() == 0 ==> final(self)@.tombs == old(self)@.tombs,
    {
        match self.tomb_list.pop() {
            Some(i) => i,
            None => self.data.len(),
        }
    }

    /// Empties the slot at `index` and tombstones it for reuse.
    pub fn delete_item(&mut self, index: usize)
        requires
            old(self).wf(),
            old(self)@.occupied(index as int),
        ensures
            final(self)@ == old(self)@.remove(index),
            final(self).wf(),
            !final(self)@.occupied(index as int),
            final(self)@.next_index() == index,
    {
        proof {
            lemma_remove_then_insert_reuses(self@, index, arbitrary::<T>());
        }
        self.data.set(index, None);
        self.tomb_list.push(index);
    }
}

} // verus!
