//! The scan session: the first pass seeds every readable region, later passes
//! narrow the hits of the regions already tracked.
use vstd::prelude::*;

use crate::filter::ScanFilter;
use crate::primitive::{Compare, Primitive};
use crate::region::{entries, numbered, region_wf, updated, RegionResults, RegionView};
use crate::{MemoryRegion, Process};

verus! {

/// What a scanner's state is made of, for contracts.
pub struct ScannerView {
    /// The tracked regions, in the order they were first read.
    pub regions: Seq<RegionView>,
    /// No pass has run since the last reset.
    pub is_new_scan: bool,
    /// Width in bytes of the values of the last pass.
    pub width: nat,
}

/// A region that no pass has touched.
pub open spec fn untouched(region: MemoryRegion) -> RegionView {
    RegionView { region, hits: None, snapshot: None }
}

/// `c` is a fresh state of its region after a first pass that read some
/// full-size buffer under `f`.
pub open spec fn seeded<T: Primitive>(c: RegionView, f: ScanFilter<T>) -> bool {
    exists|b: Seq<u8>| b.len() == c.region.size && #[trigger] updated(untouched(c.region), b, f) == c
}

/// The hits of `a` are known to be empty (such a region is not read again).
pub open spec fn exhausted(a: RegionView) -> bool {
    a.hits matches Some(h) && h.len() == 0
}

/// `c` is `a` left as it was, or, when the hits of `a` are not known to be
/// empty, `a` after a pass that read some full-size buffer under `f`.
pub open spec fn refined<T: Primitive>(a: RegionView, c: RegionView, f: ScanFilter<T>) -> bool {
    c == a || (!exhausted(a) && exists|b: Seq<u8>| b.len() == a.region.size && #[trigger] updated(a, b, f) == c)
}

/// The read at index `i` came back whole: `size` bytes.
pub open spec fn full_read(reads: Seq<Option<Seq<u8>>>, i: int, size: usize) -> bool {
    0 <= i < reads.len() && reads[i] is Some && reads[i].unwrap().len() == size
}

/// No region listed before index `i` has the base address of the one at `i`.
pub open spec fn first_listing(listed: Seq<MemoryRegion>, i: int) -> bool {
    forall|k: int| 0 <= k < i ==> #[trigger] listed[k].base_address != listed[i].base_address
}

/// `j` is the first index at which `r` is listed.
pub open spec fn is_position(listed: Seq<MemoryRegion>, r: MemoryRegion, j: int) -> bool {
    &&& 0 <= j < listed.len()
    &&& listed[j] == r
    &&& forall|k: int| 0 <= k < j ==> #[trigger] listed[k] != r
}

/// The first index at which `r` is listed, if it is listed.
pub open spec fn listed_at(listed: Seq<MemoryRegion>, r: MemoryRegion) -> Option<int> {
    if exists|j: int| is_position(listed, r, j) {
        Some(choose|j: int| is_position(listed, r, j))
    } else {
        None
    }
}

/// The regions that a first pass of `f` seeds from the first `n` listed
/// regions: each valid region listed for the first time under its base
/// address whose read (`reads[i]` for `listed[i]`) came back whole, in
/// listing order.
pub open spec fn seeded_upto<T: Primitive>(
    listed: Seq<MemoryRegion>,
    reads: Seq<Option<Seq<u8>>>,
    f: ScanFilter<T>,
    n: nat,
) -> Seq<RegionView>
    decreases n,
{
    if n == 0 {
        Seq::empty()
    } else {
        let prev = seeded_upto(listed, reads, f, (n - 1) as nat);
        let i = n - 1;
        let r = listed[i];
        if r.valid() && first_listing(listed, i) && full_read(reads, i, r.size) {
            prev.push(updated(untouched(r), reads[i].unwrap(), f))
        } else {
            prev
        }
    }
}

/// What a later pass of `f` makes of the first `n` tracked regions, in
/// order: a region no longer listed is dropped; one still listed is narrowed
/// by the bytes read at its first listing when its hits are not known to be
/// empty and that read came back whole, and stays as it was otherwise.
pub open spec fn refined_upto<T: Primitive>(
    kept: Seq<RegionView>,
    listed: Seq<MemoryRegion>,
    reads: Seq<Option<Seq<u8>>>,
    f: ScanFilter<T>,
    n: nat,
) -> Seq<RegionView>
    decreases n,
{
    if n == 0 {
        Seq::empty()
    } else {
        let prev = refined_upto(kept, listed, reads, f, (n - 1) as nat);
        let a = kept[n - 1];
        match listed_at(listed, a.region) {
            None => prev,
            Some(j) => prev.push(
                if !exhausted(a) && full_read(reads, j, a.region.size) {
                    updated(a, reads[j].unwrap(), f)
                } else {
                    a
                },
            ),
        }
    }
}

/// The scanner after a pass of `f` from state `s`, given what the process
/// listed and what each read returned (`reads[i]` for `listed[i]`).
pub open spec fn pass_result<T: Primitive>(
    s: ScannerView,
    listed: Seq<MemoryRegion>,
    reads: Seq<Option<Seq<u8>>>,
    f: ScanFilter<T>,
) -> ScannerView {
    ScannerView {
        regions: if s.is_new_scan {
            seeded_upto(listed, reads, f, listed.len())
        } else {
            refined_upto(s.regions, listed, reads, f, s.regions.len())
        },
        is_new_scan: false,
        width: s.width,
    }
}

/// Whether a pass from state `s` reads the region listed at `i`: on a first
/// pass, each valid region listed for the first time under its base
/// address; on a later pass, the first listing of each tracked region whose
/// hits are not known to be empty.
pub open spec fn needs_read(s: ScannerView, listed: Seq<MemoryRegion>, i: int) -> bool {
    if s.is_new_scan {
        listed[i].valid() && first_listing(listed, i)
    } else {
        &&& listed_at(listed, listed[i]) == Some(i)
        &&& exists|k: int|
            0 <= k < s.regions.len() && #[trigger] s.regions[k].region == listed[i] && !exhausted(
                s.regions[k],
            )
    }
}

/// The contents of reads, for contracts.
pub open spec fn read_views(reads: Seq<Option<Vec<u8>>>) -> Seq<Option<Seq<u8>>> {
    reads.map_values(
        |o: Option<Vec<u8>>|
            match o {
                Some(v) => Some(v@),
                None => None,
            },
    )
}

/// The next pass starts from scratch: a reset was asked for, or the width
/// of the values changes while regions are tracked.
pub open spec fn starts_fresh(s: ScannerView, w: nat) -> bool {
    s.is_new_scan || (w != s.width && s.regions.len() > 0)
}

/// Scanner state that a pass can work from.
pub open spec fn scanner_wf(s: ScannerView) -> bool {
    &&& forall|i: int| 0 <= i < s.regions.len() ==> region_wf(#[trigger] s.regions[i], s.width)
    &&& forall|i: int, j: int|
        0 <= i < j < s.regions.len() ==> (#[trigger] s.regions[i]).region.base_address
            != (#[trigger] s.regions[j]).region.base_address
    &&& s.is_new_scan ==> s.regions.len() == 0
}

/// Some tracked region has its hits known.
pub open spec fn known_hits(rs: Seq<RegionView>) -> bool {
    exists|i: int| 0 <= i < rs.len() && (#[trigger] rs[i]).hits is Some
}

/// The number of hits over all regions whose hits are known.
pub open spec fn total_hits(rs: Seq<RegionView>) -> nat
    decreases rs.len(),
{
    if rs.len() == 0 {
        0
    } else {
        total_hits(rs.drop_last()) + match rs.last().hits {
            Some(h) => h.len(),
            None => 0,
        }
    }
}

/// Every `(address, value)` result, region after region, values read as `T`.
pub open spec fn all_entries<T: Primitive>(rs: Seq<RegionView>) -> Seq<(usize, int)>
    decreases rs.len(),
{
    if rs.len() == 0 {
        Seq::empty()
    } else {
        all_entries::<T>(rs.drop_last()) + entries::<T>(rs.last())
    }
}

/// The results from index `lo` through index `hi`, both included, as far
/// as they go.
pub open spec fn window<A>(s: Seq<A>, lo: int, hi: int) -> Seq<A> {
    if lo > hi || lo >= s.len() {
        Seq::empty()
    } else if hi >= s.len() {
        s.subrange(lo, s.len() as int)
    } else {
        s.subrange(lo, hi + 1)
    }
}

/// Copies `all[lo..hi]`.
fn copy_range<T: Copy>(all: &Vec<(usize, T)>, lo: usize, hi: usize) -> (r: Vec<(usize, T)>)
    requires
        lo <= hi <= all@.len(),
    ensures
        r@ == all@.subrange(lo as int, hi as int),
{
    let mut out: Vec<(usize, T)> = Vec::new();
    let mut k: usize = lo;
    while k < hi
        invariant
            lo <= k <= hi <= all@.len(),
            out@ =~= all@.subrange(lo as int, k as int),
        decreases hi - k,
    {
        out.push(all[k]);
        k = k + 1;
    }
    out
}

/// The scanner as a pass with values `w` bytes wide finds it: emptied when
/// the pass starts fresh, and with the pass's width.
pub open spec fn prepared(s: ScannerView, w: nat) -> ScannerView {
    if starts_fresh(s, w) {
        ScannerView { regions: Seq::empty(), is_new_scan: true, width: w }
    } else {
        ScannerView { regions: s.regions, is_new_scan: s.is_new_scan, width: w }
    }
}

/// What a pass of `f` makes of a scanner in state `s0`: `s1` is well formed
/// and is the pass result from the prepared state, for what the process
/// listed and what the reads returned, reads being issued only where
/// `needs_read` asks for them.
pub open spec fn scanned<T: Primitive>(s0: ScannerView, s1: ScannerView, f: ScanFilter<T>) -> bool {
    &&& scanner_wf(s1)
    &&& exists|listed: Seq<MemoryRegion>, reads: Seq<Option<Seq<u8>>>|
        #[trigger] pass_result(prepared(s0, T::byte_width()), listed, reads, f) == s1 && reads_asked(
            prepared(s0, T::byte_width()),
            listed,
            reads,
        )
}

/// One read slot per listed region, filled only where the pass needs a read.
pub open spec fn reads_asked(s: ScannerView, listed: Seq<MemoryRegion>, reads: Seq<Option<Seq<u8>>>) -> bool {
    &&& reads.len() == listed.len()
    &&& forall|i: int| 0 <= i < reads.len() && #[trigger] reads[i] is Some ==> needs_read(s, listed, i)
}

pub struct Scanner<P> {
    process: P,
    results: Vec<RegionResults>,
    is_new_scan: bool,
    width: usize,
}

impl<P> View for Scanner<P> {
    type V = ScannerView;

    closed spec fn view(&self) -> ScannerView {
        ScannerView {
            regions: self.results@.map_values(|r: RegionResults| r@),
            is_new_scan: self.is_new_scan,
            width: self.width as nat,
        }
    }
}

/// The first index at which `r` is listed.
fn position_in(listed: &Vec<MemoryRegion>, r: MemoryRegion) -> (p: Option<usize>)
    ensures
        p matches Some(j) ==> listed_at(listed@, r) == Some(j as int),
        p is None ==> listed_at(listed@, r) is None,
{
    let mut i: usize = 0;
    while i < listed.len()
        invariant
            0 <= i <= listed@.len(),
            forall|k: int| 0 <= k < i ==> #[trigger] listed@[k] != r,
        decreases listed@.len() - i,
    {
        if listed[i] == r {
            proof {
                assert(is_position(listed@, r, i as int));
                let j = choose|j: int| is_position(listed@, r, j);
                if j < i {
                    assert(listed@[j] != r);
                }
                if j > i {
                    assert(listed@[i as int] != r);
                }
            }
            return Some(i);
        }
        i = i + 1;
    }
    proof {
        if exists|j: int| is_position(listed@, r, j) {
            let j = choose|j: int| is_position(listed@, r, j);
            assert(listed@[j] != r);
        }
    }
    None
}

/// Whether no region listed before `i` has the base address of the one at `i`.
fn first_base(listed: &Vec<MemoryRegion>, i: usize) -> (r: bool)
    requires
        i < listed@.len(),
    ensures
        r == first_listing(listed@, i as int),
{
    let mut k: usize = 0;
    while k < i
        invariant
            0 <= k <= i < listed@.len(),
            forall|m: int| 0 <= m < k ==> #[trigger] listed@[m].base_address != listed@[i as int].base_address,
        decreases i - k,
    {
        if listed[k].base_address == listed[i].base_address {
            return false;
        }
        k = k + 1;
    }
    true
}

impl<P> Scanner<P> {
    /// The process being scanned.
    pub closed spec fn target(&self) -> P {
        self.process
    }
}

impl<P: Process> Scanner<P> {
    pub fn new(process: P) -> (r: Self)
        ensures
            r@ == (ScannerView { regions: Seq::empty(), is_new_scan: true, width: 0 }),
            r.target() == process,
            scanner_wf(r@),
    {
        let r = Scanner { process, results: Vec::new(), is_new_scan: true, width: 0 };
        proof {
            assert(r@.regions =~= Seq::<RegionView>::empty());
        }
        r
    }

    /// The process being scanned.
    pub fn process(&self) -> (r: &P)
        ensures
            *r == self.target(),
    {
        &self.process
    }

    /// Width in bytes of the values of the last pass.
    pub fn width(&self) -> (r: usize)
        ensures
            r == self@.width,
    {
        self.width
    }

    /// The tracked regions' states.
    pub fn regions(&self) -> (r: &Vec<RegionResults>)
        ensures
            r@.map_values(|x: RegionResults| x@) == self@.regions,
    {
        &self.results
    }

    /// The process being scanned, for changing it between passes.
    pub fn process_mut(&mut self) -> &mut P {
        &mut self.process
    }

    /// Count the number of results so far: `None` while no region has its
    /// hits known (the count saturates at `usize::MAX`).
    pub fn count_results(&self) -> (r: Option<usize>)
        ensures
            r is None <==> (self@.is_new_scan || !known_hits(self@.regions)),
            r matches Some(n) ==> n == if total_hits(self@.regions) > usize::MAX {
                usize::MAX as nat
            } else {
                total_hits(self@.regions)
            },
    {
        if self.is_new_scan {
            return None;
        }
        let ghost rs = self@.regions;
        let mut total: usize = 0;
        let mut any = false;
        let mut i: usize = 0;
        while i < self.results.len()
            invariant
                rs == self@.regions,
                rs.len() == self.results@.len(),
                0 <= i <= rs.len(),
                any == known_hits(rs.take(i as int)),
                total == if total_hits(rs.take(i as int)) > usize::MAX {
                    usize::MAX as nat
                } else {
                    total_hits(rs.take(i as int))
                },
            decreases rs.len() - i,
        {
            proof {
                assert(rs.take(i + 1).drop_last() =~= rs.take(i as int));
                assert(rs.take(i + 1).last() == rs[i as int]);
                if known_hits(rs.take(i + 1)) && !known_hits(rs.take(i as int)) {
                    let k = choose|k: int| 0 <= k < i + 1 && (#[trigger] rs.take(i + 1)[k]).hits is Some;
                    if k < i {
                        assert(rs.take(i as int)[k].hits is Some);
                    }
                }
            }
            match self.results[i].hit_count() {
                Some(n) => {
                    any = true;
                    proof {
                        assert(rs.take(i + 1)[i as int].hits is Some);
                    }
                    total = total.saturating_add(n);
                },
                None => {},
            }
            i = i + 1;
        }
        proof {
            assert(rs.take(rs.len() as int) =~= rs);
        }
        if any {
            Some(total)
        } else {
            None
        }
    }

    /// Gets all scan results: for each region, the address and value of
    /// every hit, the value read from the region's snapshot.
    pub fn get_results<T: Compare>(&self) -> (r: Vec<(usize, T)>)
        requires
            scanner_wf(self@),
        ensures
            numbered(r@) == all_entries::<T>(self@.regions),
    {
        let ghost rs = self@.regions;
        let mut out: Vec<(usize, T)> = Vec::new();
        let mut i: usize = 0;
        while i < self.results.len()
            invariant
                rs == self@.regions,
                scanner_wf(self@),
                rs.len() == self.results@.len(),
                0 <= i <= rs.len(),
                numbered(out@) == all_entries::<T>(rs.take(i as int)),
            decreases rs.len() - i,
        {
            proof {
                assert(rs.take(i + 1).drop_last() =~= rs.take(i as int));
                assert(rs.take(i + 1).last() == rs[i as int]);
                assert(region_wf(rs[i as int], self@.width));
            }
            match self.results[i].get_results::<T>() {
                Some(part) => {
                    let ghost before = out@;
                    let mut part = part;
                    let ghost p = part@;
                    out.append(&mut part);
                    proof {
                        assert(out@ == before + p);
                        assert(numbered(before + p) =~= numbered(before) + numbered(p));
                    }
                },
                None => {
                    proof {
                        assert(entries::<T>(rs[i as int]) =~= Seq::<(usize, int)>::empty());
                        assert(all_entries::<T>(rs.take(i + 1)) =~= all_entries::<T>(rs.take(i as int)));
                    }
                },
            }
            i = i + 1;
        }
        proof {
            assert(rs.take(rs.len() as int) =~= rs);
        }
        out
    }

    /// Gets the first `n` scan results.
    pub fn get_first_results<T: Compare>(&self, n: usize) -> (r: Vec<(usize, T)>)
        requires
            scanner_wf(self@),
        ensures
            numbered(r@) == if n < all_entries::<T>(self@.regions).len() {
                all_entries::<T>(self@.regions).take(n as int)
            } else {
                all_entries::<T>(self@.regions)
            },
    {
        let all = self.get_results::<T>();
        let end = if n < all.len() {
            n
        } else {
            all.len()
        };
        let r = copy_range(&all, 0, end);
        proof {
            assert(numbered(r@) =~= if n < all@.len() {
                numbered(all@).take(n as int)
            } else {
                numbered(all@)
            });
        }
        r
    }

    /// Gets the result at index `n`, if there is one.
    pub fn get_nth_result<T: Compare>(&self, n: usize) -> (r: Option<(usize, T)>)
        requires
            scanner_wf(self@),
        ensures
            r is Some <==> n < all_entries::<T>(self@.regions).len(),
            r matches Some(p) ==> (p.0, p.1.num()) == all_entries::<T>(self@.regions)[n as int],
    {
        let all = self.get_results::<T>();
        proof {
            assert(numbered(all@).len() == all@.len());
        }
        if n < all.len() {
            proof {
                assert(numbered(all@)[n as int] == (all@[n as int].0, all@[n as int].1.num()));
            }
            Some(all[n])
        } else {
            None
        }
    }

    /// Gets the results from index `start_index` through `end_index`, both
    /// included, as far as there are results.
    pub fn get_results_range<T: Compare>(&self, start_index: usize, end_index: usize) -> (r: Vec<(usize, T)>)
        requires
            scanner_wf(self@),
        ensures
            numbered(r@) == window(all_entries::<T>(self@.regions), start_index as int, end_index as int),
    {
        let all = self.get_results::<T>();
        proof {
            assert(numbered(all@).len() == all@.len());
        }
        if start_index > end_index || start_index >= all.len() {
            let none: Vec<(usize, T)> = Vec::new();
            proof {
                assert(numbered(none@) =~= Seq::<(usize, int)>::empty());
            }
            return none;
        }
        let end = if end_index >= all.len() {
            all.len()
        } else {
            end_index + 1
        };
        let r = copy_range(&all, start_index, end);
        proof {
            assert(numbered(r@) =~= numbered(all@).subrange(start_index as int, end as int));
        }
        r
    }

    /// Clears all results and initializes the scanner for the first scan
    pub fn new_scan(&mut self)
        ensures
            final(self)@ == (ScannerView { regions: Seq::empty(), is_new_scan: true, width: old(self)@.width }),
            final(self).target() == old(self).target(),
    {
        self.results.clear();
        self.is_new_scan = true;
        proof {
            assert(self@.regions =~= Seq::<RegionView>::empty());
        }
    }

    /// Whether a pass with values of type `T` reads each listed region (see
    /// `needs_read`).
    pub fn regions_to_read<T: Primitive>(&self, listed: &Vec<MemoryRegion>) -> (r: Vec<bool>)
        requires
            scanner_wf(self@),
        ensures
            r@.len() == listed@.len(),
            forall|i: int|
                0 <= i < listed@.len() ==> #[trigger] r@[i] == needs_read(
                    prepared(self@, T::byte_width()),
                    listed@,
                    i,
                ),
    {
        let fresh = self.is_new_scan || (T::width() != self.width && self.results.len() > 0);
        let ghost p = prepared(self@, T::byte_width());
        assert(fresh == p.is_new_scan);
        let mut wanted: Vec<bool> = Vec::new();
        let mut i: usize = 0;
        while i < listed.len()
            invariant
                0 <= i <= listed@.len(),
                wanted@.len() == i,
                self@.regions.len() == self.results@.len(),
                p == prepared(self@, T::byte_width()),
                fresh == p.is_new_scan,
                !fresh ==> p.regions == self@.regions,
                forall|k: int| 0 <= k < i ==> #[trigger] wanted@[k] == needs_read(p, listed@, k),
            decreases listed@.len() - i,
        {
            let region = listed[i];
            let want = if fresh {
                region.is_valid() && first_base(listed, i)
            } else {
                match position_in(listed, region) {
                    Some(j) if j == i => {
                        let mut found = false;
                        let mut k: usize = 0;
                        while k < self.results.len()
                            invariant
                                0 <= k <= self@.regions.len(),
                                self@.regions.len() == self.results@.len(),
                                found == exists|m: int|
                                    0 <= m < k && #[trigger] self@.regions[m].region == region && !exhausted(
                                        self@.regions[m],
                                    ),
                            decreases self@.regions.len() - k,
                        {
                            if self.results[k].region() == region && !self.results[k].is_exhausted() {
                                assert(self@.regions[k as int].region == region);
                                found = true;
                            }
                            k = k + 1;
                        }
                        found
                    },
                    _ => false,
                }
            };
            wanted.push(want);
            i = i + 1;
        }
        wanted
    }

    /// Readies the scanner for a pass with values `w` bytes wide: a pass
    /// whose width differs from the last one's, while regions are tracked,
    /// starts fresh.
    fn prepare(&mut self, w: usize)
        requires
            scanner_wf(old(self)@),
        ensures
            final(self)@ == prepared(old(self)@, w as nat),
            scanner_wf(final(self)@),
            final(self).target() == old(self).target(),
    {
        if w != self.width && self.results.len() > 0 {
            self.new_scan();
        }
        self.width = w;
        proof {
            if starts_fresh(old(self)@, w as nat) {
                assert(self@.regions =~= Seq::<RegionView>::empty());
            }
        }
    }

    /// Applies a pass of `filter` given what the process listed and what the
    /// read of each listed region returned (`reads[i]` for `listed[i]`, `None`
    /// where it failed or was not made). A pass whose width differs from the
    /// last one's, while regions are tracked, starts fresh. The new state is
    /// exactly `pass_result` from the state so prepared.
    pub fn apply_pass<T: Compare>(
        &mut self,
        listed: &Vec<MemoryRegion>,
        reads: &Vec<Option<Vec<u8>>>,
        filter: ScanFilter<T>,
    )
        requires
            scanner_wf(old(self)@),
            reads@.len() == listed@.len(),
        ensures
            final(self)@ == pass_result(prepared(old(self)@, T::byte_width()), listed@, read_views(reads@), filter),
            scanner_wf(final(self)@),
            final(self).target() == old(self).target(),
    {
        let w = T::width();
        self.prepare(w);
        self.apply_prepared(listed, reads, filter);
    }

    fn apply_prepared<T: Compare>(
        &mut self,
        listed: &Vec<MemoryRegion>,
        reads: &Vec<Option<Vec<u8>>>,
        filter: ScanFilter<T>,
    )
        requires
            scanner_wf(old(self)@),
            old(self)@.width == T::byte_width(),
            reads@.len() == listed@.len(),
        ensures
            final(self)@ == pass_result(old(self)@, listed@, read_views(reads@), filter),
            scanner_wf(final(self)@),
            final(self).target() == old(self).target(),
    {
        let ghost rv = read_views(reads@);
        if self.is_new_scan {
            self.is_new_scan = false;
            let mut i: usize = 0;
            proof {
                assert(self@.regions =~= seeded_upto(listed@, rv, filter, 0));
            }
            while i < listed.len()
                invariant
                    scanner_wf(self@),
                    !self.is_new_scan,
                    self@.width == T::byte_width(),
                    0 <= i <= listed@.len(),
                    reads@.len() == listed@.len(),
                    rv == read_views(reads@),
                    self.process == old(self).process,
                    self@.regions == seeded_upto(listed@, rv, filter, i as nat),
                    forall|m: int|
                        0 <= m < self@.regions.len() ==> exists|k: int|
                            0 <= k < i && (#[trigger] self@.regions[m]).region == listed@[k],
                decreases listed@.len() - i,
            {
                let region = listed[i];
                let ghost before = self@.regions;
                if region.is_valid() && first_base(listed, i) {
                    match &reads[i] {
                        Some(b) => {
                            if b.len() == region.size {
                                let bytes = b.clone();
                                assert(bytes@ =~= b@);
                                assert(rv[i as int] == Some(b@));
                                let mut fresh = RegionResults::new(region);
                                fresh.update_results(bytes, filter);
                                self.results.push(fresh);
                                proof {
                                    assert(self@.regions =~= before.push(fresh@));
                                    assert forall|m: int| 0 <= m < before.len() implies (#[trigger] before[m]).region.base_address
                                        != region.base_address by {
                                        let k = choose|k: int| 0 <= k < i && before[m].region == listed@[k];
                                        assert(listed@[k].base_address != listed@[i as int].base_address);
                                    }
                                    assert forall|m: int| 0 <= m < self@.regions.len() implies exists|k: int|
                                        0 <= k < i + 1 && (#[trigger] self@.regions[m]).region == listed@[k] by {
                                        if m < before.len() {
                                            assert(self@.regions[m] == before[m]);
                                        } else {
                                            assert(self@.regions[m].region == listed@[i as int]);
                                        }
                                    }
                                }
                            }
                        },
                        None => {},
                    }
                }
                i = i + 1;
            }
        } else {
            let ghost orig = self@.regions;
            let total = self.results.len();
            let mut pending: Vec<RegionResults> = Vec::new();
            std::mem::swap(&mut pending, &mut self.results);
            let mut consumed: usize = 0;
            proof {
                assert(self@.regions =~= refined_upto(orig, listed@, rv, filter, 0));
                assert(pending@.map_values(|r: RegionResults| r@) =~= orig.skip(0));
            }
            while pending.len() > 0
                invariant
                    pending@.map_values(|r: RegionResults| r@) =~= orig.skip(consumed as int),
                    consumed + pending@.len() == orig.len(),
                    orig.len() == total,
                    scanner_wf(ScannerView { regions: orig, is_new_scan: false, width: self@.width }),
                    scanner_wf(self@),
                    !self@.is_new_scan,
                    self@.width == T::byte_width(),
                    reads@.len() == listed@.len(),
                    rv == read_views(reads@),
                    self.process == old(self).process,
                    self@.regions == refined_upto(orig, listed@, rv, filter, consumed as nat),
                    forall|i: int, j: int|
                        0 <= i < self@.regions.len() && consumed <= j < orig.len() ==> (
                        #[trigger] self@.regions[i]).region.base_address != (#[trigger] orig[j]).region.base_address,
                decreases pending@.len(),
            {
                assert(pending@.map_values(|r: RegionResults| r@)[0] == orig.skip(consumed as int)[0]);
                let ghost old_pending = pending@;
                let mut entry = pending.remove(0);
                assert forall|k: int| 0 <= k < pending@.len() implies pending@[k] == old_pending[k + 1] by {}
                assert forall|k: int| 0 <= k < pending@.len() implies pending@[k]@ == orig[consumed + 1 + k] by {
                    assert(old_pending.map_values(|r: RegionResults| r@)[k + 1] == orig.skip(consumed as int)[k + 1]);
                }
                let ghost a = entry@;
                assert(a == orig[consumed as int]);
                let region = entry.region();
                let ghost before = self@.regions;
                match position_in(listed, region) {
                    None => {},
                    Some(j) => {
                        if !entry.is_exhausted() {
                            match &reads[j] {
                                Some(b) => {
                                    if b.len() == region.size {
                                        let bytes = b.clone();
                                        assert(bytes@ =~= b@);
                                        assert(rv[j as int] == Some(b@));
                                        entry.update_results(bytes, filter);
                                    }
                                },
                                None => {},
                            }
                        }
                        self.results.push(entry);
                        proof {
                            assert(self@.regions =~= before.push(entry@));
                        }
                    },
                }
                consumed = consumed + 1;
            }
            proof {
                assert(orig.len() == consumed);
            }
        }
    }

    /// Runs one pass of `filter` over the process's writable regions: lists
    /// them, reads those that `needs_read` asks for, and applies the pass.
    /// A pass whose width differs from the last one's starts fresh.
    pub fn scan<T: Compare>(&mut self, filter: ScanFilter<T>)
        requires
            scanner_wf(old(self)@),
        ensures
            scanned(old(self)@, final(self)@, filter),
            final(self).target() == old(self).target(),
    {
        let ghost start = prepared(old(self)@, T::byte_width());
        let listed = self.process.get_writable_regions();
        let wanted = self.regions_to_read::<T>(&listed);
        let mut reads: Vec<Option<Vec<u8>>> = Vec::new();
        let mut i: usize = 0;
        while i < listed.len()
            invariant
                0 <= i <= listed@.len(),
                wanted@.len() == listed@.len(),
                reads@.len() == i,
                forall|k: int| 0 <= k < i && (#[trigger] reads@[k]) is Some ==> wanted@[k],
            decreases listed@.len() - i,
        {
            if wanted[i] {
                match self.process.read_memory_bytes(listed[i].base_address, listed[i].size) {
                    Ok(bytes) => reads.push(Some(bytes)),
                    Err(_) => reads.push(None),
                }
            } else {
                reads.push(None);
            }
            i = i + 1;
        }
        self.apply_pass(&listed, &reads, filter);
        proof {
            let rv = read_views(reads@);
            assert forall|k: int| 0 <= k < rv.len() && #[trigger] rv[k] is Some implies needs_read(
                start,
                listed@,
                k,
            ) by {
                assert(reads@[k] is Some);
            }
            assert(reads_asked(start, listed@, rv));
            assert(pass_result(prepared(old(self)@, T::byte_width()), listed@, rv, filter) == self@);
        }
    }
}

} // verus!
