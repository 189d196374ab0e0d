//! A list of counters that grows and shrinks while it is shown. Every counter
//! has an id that no other counter of the list ever had, so a keyed list can
//! follow each one through additions and removals.

use vstd::prelude::*;

verus! {

/// One counter of the list: its id and what it has counted.
#[derive(Clone, Copy, Debug, PartialEq, Eq, Structural)]
pub struct CounterEntry {
    pub id: usize,
    pub count: usize,
}

/// The entry that a list makes for the id `id`: it starts one above its id.
pub open spec fn fresh_entry(id: int) -> CounterEntry {
    CounterEntry { id: id as usize, count: (id + 1) as usize }
}

/// `entry` after a click on the counter `id`: one more if it is that counter,
/// unchanged if not.
pub open spec fn clicked(entry: CounterEntry, id: usize) -> CounterEntry {
    if entry.id == id {
        CounterEntry { id: entry.id, count: (entry.count + 1) as usize }
    } else {
        entry
    }
}

/// Whether the ids of `entries` rise strictly from one entry to the next.
pub open spec fn ids_increase(entries: Seq<CounterEntry>) -> bool {
    forall|i: int, j: int| 0 <= i < j < entries.len() ==> entries[i].id < entries[j].id
}

/// Whether every id of `entries` lies below `bound`.
pub open spec fn ids_below(entries: Seq<CounterEntry>, bound: int) -> bool {
    forall|i: int| 0 <= i < entries.len() ==> (#[trigger] entries[i]).id < bound
}

/// Whether a click on the counter `id` fits: no entry with that id is at the
/// top of `usize`.
pub open spec fn click_fits(entries: Seq<CounterEntry>, id: usize) -> bool {
    forall|i: int|
        0 <= i < entries.len() && (#[trigger] entries[i]).id == id ==> entries[i].count
            < usize::MAX
}

/// The counters on display, in the order in which they were added, and the id
/// that the next new counter will get.
#[derive(Debug)]
pub struct CounterList {
    next_id: usize,
    counters: Vec<CounterEntry>,
}

impl View for CounterList {
    type V = Seq<CounterEntry>;

    closed spec fn view(&self) -> Seq<CounterEntry> {
        self.counters@
    }
}

impl Clone for CounterList {
    fn clone(&self) -> (copy: Self)
        ensures
            copy@ == self@,
            copy.spec_next_id() == self.spec_next_id(),
    {
        let counters = self.counters.clone();
        assert(counters@ =~= self.counters@);
        CounterList { next_id: self.next_id, counters }
    }
}

impl CounterList {
    /// The id that the next new counter will get.
    pub closed spec fn spec_next_id(&self) -> usize {
        self.next_id
    }

    /// The invariant of the list: ids rise along the list and stay below the
    /// next id, so no two entries share one and a new entry never reuses one.
    pub open spec fn well_formed(&self) -> bool {
        &&& ids_increase(self@)
        &&& ids_below(self@, self.spec_next_id() as int)
    }

    /// A list of `initial_len` counters with the ids `0..initial_len`.
    pub fn new(initial_len: usize) -> (list: Self)
        ensures
            list.well_formed(),
            list.spec_next_id() == initial_len,
            list@ == Seq::new(initial_len as nat, |i: int| fresh_entry(i)),
    {
        let mut counters: Vec<CounterEntry> = Vec::new();
        let mut id: usize = 0;
        while id < initial_len
            invariant
                id <= initial_len,
                counters@ == Seq::new(id as nat, |i: int| fresh_entry(i)),
            decreases initial_len - id,
        {
            counters.push(CounterEntry { id, count: id + 1 });
            id = id + 1;
        }
        CounterList { next_id: initial_len, counters }
    }

    /// The id that the next new counter will get.
    pub fn next_id(&self) -> (id: usize)
        ensures
            id == self.spec_next_id(),
    {
        self.next_id
    }

    /// The counters, in the order in which they are shown.
    pub fn entries(&self) -> (entries: &Vec<CounterEntry>)
        ensures
            entries@ == self@,
    {
        &self.counters
    }

    /// What the counter `id` has counted, or `None` where the list holds no
    /// counter with that id.
    pub fn count_of(&self, id: usize) -> (count: Option<usize>)
        ensures
            match count {
                Some(c) => self@.contains(CounterEntry { id, count: c }),
                None => forall|i: int| 0 <= i < self@.len() ==> self@[i].id != id,
            },
    {
        let mut i: usize = 0;
        while i < self.counters.len()
            invariant
                i <= self.counters.len(),
                forall|j: int| 0 <= j < i ==> self@[j].id != id,
            decreases self.counters.len() - i,
        {
            if self.counters[i].id == id {
                assert(self@[i as int] == CounterEntry { id, count: self.counters[i as int].count });
                return Some(self.counters[i].count);
            }
            i = i + 1;
        }
        None
    }

    /// Whether a new counter can still be added: the next id has a successor.
    pub fn can_add_counter(&self) -> (fits: bool)
        ensures
            fits == (self.spec_next_id() < usize::MAX),
    {
        self.next_id < usize::MAX
    }

    /// Adds a counter at the end of the list. It takes the next id and starts
    /// one above it.
    pub fn add_counter(&mut self)
        requires
            old(self).well_formed(),
            old(self).spec_next_id() < usize::MAX,
        ensures
            final(self).well_formed(),
            final(self)@ == old(self)@.push(fresh_entry(old(self).spec_next_id() as int)),
            final(self).spec_next_id() == old(self).spec_next_id() + 1,
    {
        self.counters.push(CounterEntry { id: self.next_id, count: self.next_id + 1 });
        self.next_id = self.next_id + 1;
    }

    /// Removes the counter `id`. The others keep their order; a list without
    /// that id stays as it is. The id is not given out again.
    pub fn remove(&mut self, id: usize)
        requires
            old(self).well_formed(),
        ensures
            final(self).well_formed(),
            final(self)@ == old(self)@.filter(|entry: CounterEntry| entry.id != id),
            forall|i: int| 0 <= i < final(self)@.len() ==> (#[trigger] final(self)@[i]).id != id,
            final(self).spec_next_id() == old(self).spec_next_id(),
    {
        let ghost keeps = |entry: CounterEntry| entry.id != id;
        let mut kept: Vec<CounterEntry> = Vec::new();
        let mut i: usize = 0;
        proof {
            reveal(Seq::filter);
            assert(self@.take(0) =~= Seq::<CounterEntry>::empty());
        }
        while i < self.counters.len()
            invariant
                i <= self.counters.len(),
                self == old(self),
                self.well_formed(),
                keeps == |entry: CounterEntry| entry.id != id,
                kept@ == self@.take(i as int).filter(keeps),
                ids_increase(kept@),
                ids_below(kept@, self.spec_next_id() as int),
                forall|j: int| 0 <= j < kept@.len() && i < self@.len() ==> (#[trigger] kept@[j]).id < self@[i as int].id,
            decreases self.counters.len() - i,
        {
            let entry = self.counters[i];
            proof {
                reveal(Seq::filter);
                assert(self@.take(i + 1).drop_last() =~= self@.take(i as int));
                assert(self@.take(i + 1).last() == entry);
            }
            if entry.id != id {
                kept.push(entry);
            }
            i = i + 1;
        }
        assert(self@.take(i as int) =~= self@);
        assert forall|j: int| 0 <= j < kept@.len() implies (#[trigger] kept@[j]).id != id by {
            self@.lemma_filter_pred(keeps, j);
        }
        self.counters = kept;
    }

    /// Whether a click on the counter `id` fits in its count.
    pub fn can_increment(&self, id: usize) -> (fits: bool)
        ensures
            fits == click_fits(self@, id),
    {
        let mut i: usize = 0;
        while i < self.counters.len()
            invariant
                i <= self.counters.len(),
                click_fits(self@.take(i as int), id),
            decreases self.counters.len() - i,
        {
            if self.counters[i].id == id && self.counters[i].count == usize::MAX {
                assert(self@[i as int].id == id);
                return false;
            }
            assert(self@.take(i + 1).drop_last() =~= self@.take(i as int));
            assert forall|j: int| 0 <= j < i + 1 && (#[trigger] self@.take(i + 1)[j]).id == id implies self@.take(i + 1)[j].count < usize::MAX by {
                if j < i {
                    assert(self@.take(i as int)[j] == self@.take(i + 1)[j]);
                }
            }
            i = i + 1;
        }
        assert(self@.take(i as int) =~= self@);
        true
    }

    /// A click on the counter `id`: its count goes up by one. Ids, order and
    /// the other counts stay; a list without that id stays as it is.
    pub fn increment(&mut self, id: usize)
        requires
            old(self).well_formed(),
            click_fits(old(self)@, id),
        ensures
            final(self).well_formed(),
            final(self)@ == old(self)@.map_values(|entry: CounterEntry| clicked(entry, id)),
            final(self).spec_next_id() == old(self).spec_next_id(),
    {
        let mut i: usize = 0;
        while i < self.counters.len()
            invariant
                i <= self.counters.len(),
                self.counters.len() == old(self).counters.len(),
                self.next_id == old(self).next_id,
                click_fits(old(self)@, id),
                forall|j: int| 0 <= j < i ==> #[trigger] self@[j] == clicked(old(self)@[j], id),
                forall|j: int| i <= j < self@.len() ==> #[trigger] self@[j] == old(self)@[j],
            decreases self.counters.len() - i,
        {
            assert(self@[i as int] == old(self)@[i as int]);
            if self.counters[i].id == id {
                self.counters[i].count = self.counters[i].count + 1;
            }
            i = i + 1;
        }
        assert(self@ =~= old(self)@.map_values(|entry: CounterEntry| clicked(entry, id)));
        assert forall|a: int, b: int| 0 <= a < b < self@.len() implies self@[a].id < self@[b].id by {
            assert(self@[a] == clicked(old(self)@[a], id));
            assert(self@[b] == clicked(old(self)@[b], id));
        }
        assert forall|a: int| 0 <= a < self@.len() implies (#[trigger] self@[a]).id < self.spec_next_id() by {
            assert(self@[a] == clicked(old(self)@[a], id));
        }
    }
}

} // verus!
