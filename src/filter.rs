//! Scan filters: predicates over a value as read now and as read by the
//! previous pass.
use vstd::prelude::*;

use crate::primitive::{Compare, Integer, Primitive};

verus! {

/// Distance between two numbers.
pub open spec fn abs_diff(a: int, b: int) -> int {
    if a >= b {
        a - b
    } else {
        b - a
    }
}

/// Scan filter used when diffing memory and updating scan results.
///
/// All arithmetic in a filter is exact: `IncreasedBy(d)` holds when the new
/// value is the old value plus `d` as numbers, and never through wrap-around.
#[derive(Clone, Copy, Debug)]
pub enum ScanFilter<T> {
    Exact(T),
    /// Approximately equals, within a threshold
    Approximate(T, T),
    Increased,
    Decreased,
    IncreasedBy(T),
    DecreasedBy(T),
    IncreasedByAtLeast(T),
    IncreasedByAtMost(T),
    DecreasedByAtLeast(T),
    DecreasedByAtMost(T),
    Changed,
    Unchanged,
    ChangedByAtLeast(T),
    ChangedByAtMost(T),
    Unknown,
}

impl<T: Primitive> ScanFilter<T> {
    /// Whether the filter accepts the value `n`, given that the previous pass
    /// saw `o` at the same place.
    pub open spec fn holds(self, n: int, o: int) -> bool {
        match self {
            ScanFilter::Exact(v) => n == v.num(),
            ScanFilter::Approximate(v, e) => abs_diff(n, v.num()) <= e.num(),
            ScanFilter::Increased => n > o,
            ScanFilter::Decreased => n < o,
            ScanFilter::IncreasedBy(d) => n == o + d.num(),
            ScanFilter::DecreasedBy(d) => n == o - d.num(),
            ScanFilter::IncreasedByAtLeast(d) => n >= o && n - o >= d.num(),
            ScanFilter::IncreasedByAtMost(d) => n >= o && n - o <= d.num(),
            ScanFilter::DecreasedByAtLeast(d) => n <= o && o - n >= d.num(),
            ScanFilter::DecreasedByAtMost(d) => n <= o && o - n <= d.num(),
            ScanFilter::Changed => n != o,
            ScanFilter::Unchanged => n == o,
            ScanFilter::ChangedByAtLeast(d) => abs_diff(n, o) >= d.num(),
            ScanFilter::ChangedByAtMost(d) => abs_diff(n, o) <= d.num(),
            ScanFilter::Unknown => true,
        }
    }

    /// Filters that look at the new value alone.
    pub open spec fn value_only(self) -> bool {
        match self {
            ScanFilter::Exact(_) | ScanFilter::Approximate(_, _) | ScanFilter::Unknown => true,
            _ => false,
        }
    }

    /// Whether the filter looks at the new value alone (and so can seed a
    /// first pass without a previous snapshot).
    pub fn is_value_only(&self) -> (r: bool)
        ensures
            r == self.value_only(),
    {
        match self {
            ScanFilter::Exact(_) | ScanFilter::Approximate(_, _) | ScanFilter::Unknown => true,
            _ => false,
        }
    }
}

impl<T: Compare> ScanFilter<T> {
    /// Tests a pair of values against the filter.
    pub fn matches(&self, new_t: &T, old_t: &T) -> (r: bool)
        ensures
            r == self.holds(new_t.num(), old_t.num()),
    {
        T::test(self, *new_t, *old_t)
    }
}

fn wide_abs_diff(a: i128, b: i128) -> (r: i128)
    requires
        -0x1_0000_0000_0000_0000 <= a <= 0x1_0000_0000_0000_0000,
        -0x1_0000_0000_0000_0000 <= b <= 0x1_0000_0000_0000_0000,
    ensures
        r == abs_diff(a as int, b as int),
{
    if a >= b {
        a - b
    } else {
        b - a
    }
}

/// The filter test for integer types, computed on 128-bit numbers so that no
/// sum or difference can overflow.
pub fn int_matches<T: Integer>(filter: &ScanFilter<T>, new_t: T, old_t: T) -> (r: bool)
    ensures
        r == filter.holds(new_t.num(), old_t.num()),
{
    let n = new_t.wide();
    let o = old_t.wide();
    match filter {
        ScanFilter::Exact(v) => n == v.wide(),
        ScanFilter::Approximate(v, e) => wide_abs_diff(n, v.wide()) <= e.wide(),
        ScanFilter::Increased => n > o,
        ScanFilter::Decreased => n < o,
        ScanFilter::IncreasedBy(d) => n == o + d.wide(),
        ScanFilter::DecreasedBy(d) => n == o - d.wide(),
        ScanFilter::IncreasedByAtLeast(d) => n >= o && n - o >= d.wide(),
        ScanFilter::IncreasedByAtMost(d) => n >= o && n - o <= d.wide(),
        ScanFilter::DecreasedByAtLeast(d) => n <= o && o - n >= d.wide(),
        ScanFilter::DecreasedByAtMost(d) => n <= o && o - n <= d.wide(),
        ScanFilter::Changed => n != o,
        ScanFilter::Unchanged => n == o,
        ScanFilter::ChangedByAtLeast(d) => wide_abs_diff(n, o) >= d.wide(),
        ScanFilter::ChangedByAtMost(d) => wide_abs_diff(n, o) <= d.wide(),
        ScanFilter::Unknown => true,
    }
}

} // verus!
