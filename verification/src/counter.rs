//! A click counter and the two readings a progress bar takes from it.

use vstd::prelude::*;

verus! {

/// The upper end of a progress bar's scale when none is given.
pub const DEFAULT_PROGRESS_MAX: u16 = 100;

/// A number that a button click raises by one.
#[derive(Clone, Copy, Debug, PartialEq, Eq, Structural)]
pub struct Counter {
    count: i32,
}

impl View for Counter {
    type V = int;

    open spec fn view(&self) -> int {
        self.spec_count() as int
    }
}

impl Counter {
    /// The number held, as contracts read it.
    pub closed spec fn spec_count(&self) -> i32 {
        self.count
    }

    /// A counter that starts at `initial`.
    pub fn new(initial: i32) -> (counter: Self)
        ensures
            counter@ == initial,
    {
        Counter { count: initial }
    }

    /// The current count.
    pub fn count(&self) -> (count: i32)
        ensures
            count == self@,
    {
        self.count
    }

    /// Whether one more click still fits in the counter.
    pub fn can_increment(&self) -> (fits: bool)
        ensures
            fits == (self@ < i32::MAX),
    {
        self.count < i32::MAX
    }

    /// A click: the count goes up by one.
    pub fn increment(&mut self)
        requires
            old(self)@ < i32::MAX,
        ensures
            final(self)@ == old(self)@ + 1,
    {
        self.count = self.count + 1;
    }

    /// Whether twice the count is still an `i32`.
    pub fn can_double(&self) -> (fits: bool)
        ensures
            fits == (i32::MIN <= 2 * self@ <= i32::MAX),
    {
        -1073741824 <= self.count && self.count <= 1073741823
    }

    /// Twice the count, the reading of the second progress bar.
    pub fn doubled(&self) -> (twice: i32)
        requires
            i32::MIN <= 2 * self@ <= i32::MAX,
        ensures
            twice == 2 * self@,
    {
        self.count * 2
    }
}

/// A row of `length` counters that start at 1, 2, 3 and so on. The row itself
/// never changes; each counter in it counts on its own.
pub fn counter_row(length: i32) -> (row: Vec<Counter>)
    ensures
        row@.len() == if length > 0 { length as int } else { 0 },
        forall|i: int| 0 <= i < row@.len() ==> (#[trigger] row@[i])@ == i + 1,
{
    let mut row: Vec<Counter> = Vec::new();
    let mut start: i32 = 0;
    while start < length
        invariant
            0 <= start,
            start <= length || start == 0,
            row@.len() == start,
            forall|i: int| 0 <= i < row@.len() ==> (#[trigger] row@[i])@ == i + 1,
        decreases length - start,
    {
        start = start + 1;
        row.push(Counter::new(start));
    }
    row
}

} // verus!
