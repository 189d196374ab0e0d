//! Rows of a small table, each a name and a number, and the keys under which a
//! keyed list can track them.

use vstd::prelude::*;

verus! {

/// What a row is to a contract: its name as characters, its number unbounded.
pub struct EntryView {
    pub key: Seq<char>,
    pub value: int,
}

/// One row of the table.
#[derive(Debug, PartialEq, Eq)]
pub struct DatabaseEntry {
    pub key: String,
    pub value: i32,
}

impl View for DatabaseEntry {
    type V = EntryView;

    open spec fn view(&self) -> EntryView {
        EntryView { key: self.key@, value: self.value as int }
    }
}

impl Clone for DatabaseEntry {
    fn clone(&self) -> (copy: Self)
        ensures
            copy@ == self@,
    {
        DatabaseEntry { key: self.key.clone(), value: self.value }
    }
}

/// The rows of a vector as contracts read them.
pub open spec fn entries_view(entries: Seq<DatabaseEntry>) -> Seq<EntryView> {
    entries.map_values(|entry: DatabaseEntry| entry@)
}

/// Whether twice `value` is still an `i32`.
pub open spec fn doubling_fits(value: int) -> bool {
    i32::MIN <= 2 * value <= i32::MAX
}

/// A row after its number was doubled: same name, twice the number.
pub open spec fn doubled_entry(entry: EntryView) -> EntryView {
    EntryView { key: entry.key, value: 2 * entry.value }
}

/// Every row of `rows` doubled, in place.
pub open spec fn doubled_rows(rows: Seq<EntryView>) -> Seq<EntryView> {
    rows.map_values(|entry: EntryView| doubled_entry(entry))
}

/// Whether every number in `rows` can be doubled.
pub open spec fn all_doubling_fits(rows: Seq<EntryView>) -> bool {
    forall|i: int| 0 <= i < rows.len() ==> doubling_fits(#[trigger] rows[i].value)
}

/// The names of `rows`, in order: the keys of a list that is keyed by name.
pub open spec fn name_keys(rows: Seq<EntryView>) -> Seq<Seq<char>> {
    rows.map_values(|entry: EntryView| entry.key)
}

/// Doubling moves no name: a list that is keyed by name sees the same keys
/// before and after, whatever the numbers were, and so has nothing to redraw.
pub proof fn lemma_doubling_keeps_name_keys(rows: Seq<EntryView>)
    ensures
        name_keys(doubled_rows(rows)) == name_keys(rows),
{
    assert(name_keys(doubled_rows(rows)) =~= name_keys(rows));
}

/// Doubling changes a row, and with it the row's key by name and number,
/// exactly when the number is not 0.
pub proof fn lemma_doubling_changes_nonzero(entry: EntryView)
    ensures
        doubled_entry(entry) != entry <==> entry.value != 0,
{
}

/// Whether `value` can be doubled without leaving `i32`.
pub fn can_double_value(value: i32) -> (fits: bool)
    ensures
        fits == doubling_fits(value as int),
{
    -1073741824 <= value && value <= 1073741823
}

/// Twice `value`.
pub fn double_value(value: i32) -> (twice: i32)
    requires
        doubling_fits(value as int),
    ensures
        twice == 2 * value,
{
    value * 2
}

impl DatabaseEntry {
    /// The key of a row in a list that tracks rows by name alone. It stays the
    /// same when the number changes.
    pub fn key_by_name(&self) -> (key: String)
        ensures
            key@ == self@.key,
    {
        self.key.clone()
    }

    /// The key of a row in a list that tracks rows by name and number. It
    /// changes whenever the number does.
    pub fn key_by_name_and_value(&self) -> (key: (String, i32))
        ensures
            key.0@ == self@.key,
            key.1 == self@.value,
    {
        (self.key.clone(), self.value)
    }
}

/// A table of rows that remembers the rows it started with.
#[derive(Debug)]
pub struct Table {
    initial: Vec<DatabaseEntry>,
    rows: Vec<DatabaseEntry>,
}

impl Clone for Table {
    fn clone(&self) -> (copy: Self)
        ensures
            copy.initial() == self.initial(),
            copy.current() == self.current(),
    {
        let initial = self.initial.clone();
        let rows = self.rows.clone();
        assert(entries_view(initial@) =~= entries_view(self.initial@));
        assert(entries_view(rows@) =~= entries_view(self.rows@));
        Table { initial, rows }
    }
}

impl Table {
    /// The rows the table started with.
    pub closed spec fn initial(&self) -> Seq<EntryView> {
        entries_view(self.initial@)
    }

    /// The rows the table holds now.
    pub closed spec fn current(&self) -> Seq<EntryView> {
        entries_view(self.rows@)
    }

    /// A table that holds `initial` and goes back to it on `reset`.
    pub fn new(initial: Vec<DatabaseEntry>) -> (table: Self)
        ensures
            table.initial() == entries_view(initial@),
            table.current() == entries_view(initial@),
    {
        let rows = initial.clone();
        assert(entries_view(rows@) =~= entries_view(initial@));
        Table { initial, rows }
    }

    /// The rows the table holds now.
    pub fn rows(&self) -> (rows: &Vec<DatabaseEntry>)
        ensures
            entries_view(rows@) == self.current(),
    {
        &self.rows
    }

    /// The number in the row at `index`, or 0 where the table has no such row.
    pub fn value_at(&self, index: usize) -> (value: i32)
        ensures
            value == if index < self.current().len() {
                self.current()[index as int].value
            } else {
                0
            },
    {
        if index < self.rows.len() {
            self.rows[index].value
        } else {
            0
        }
    }

    /// Whether every number in the table can be doubled.
    pub fn can_double_values(&self) -> (fits: bool)
        ensures
            fits == all_doubling_fits(self.current()),
    {
        let mut i: usize = 0;
        while i < self.rows.len()
            invariant
                i <= self.rows.len(),
                forall|j: int| 0 <= j < i ==> doubling_fits(#[trigger] self.current()[j].value),
            decreases self.rows.len() - i,
        {
            if !can_double_value(self.rows[i].value) {
                assert(!doubling_fits(self.current()[i as int].value));
                return false;
            }
            i = i + 1;
        }
        true
    }

    /// Doubles the number in every row. Names and order stay as they are.
    pub fn double_values(&mut self)
        requires
            all_doubling_fits(old(self).current()),
        ensures
            final(self).current() == doubled_rows(old(self).current()),
            final(self).initial() == old(self).initial(),
    {
        let mut i: usize = 0;
        while i < self.rows.len()
            invariant
                i <= self.rows.len(),
                self.rows.len() == old(self).rows.len(),
                self.initial == old(self).initial,
                forall|j: int| 0 <= j < i ==> #[trigger] self.rows[j]@ == doubled_entry(old(self).rows[j]@),
                forall|j: int| i <= j < self.rows.len() ==> #[trigger] self.rows[j] == old(self).rows[j],
                all_doubling_fits(old(self).current()),
            decreases self.rows.len() - i,
        {
            assert(doubling_fits(old(self).current()[i as int].value));
            self.rows[i].value = double_value(self.rows[i].value);
            i = i + 1;
        }
        assert(self.current() =~= doubled_rows(old(self).current()));
    }

    /// Puts back the rows the table started with.
    pub fn reset(&mut self)
        ensures
            final(self).current() == old(self).initial(),
            final(self).initial() == old(self).initial(),
    {
        self.rows = self.initial.clone();
        assert(entries_view(self.rows@) =~= entries_view(self.initial@));
    }
}

} // verus!
