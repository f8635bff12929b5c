//! What holds of every pass, whatever memory holds.
use vstd::prelude::*;

use crate::filter::ScanFilter;
use crate::primitive::{read_num, Primitive};
use crate::region::{entries, passes, region_wf, updated, RegionView};
use crate::scanner::{
    all_entries, exhausted, first_listing, full_read, listed_at, pass_result, prepared, reads_asked, refined,
    refined_upto, scanned, scanner_wf, seeded, seeded_upto, starts_fresh, untouched, ScannerView,
};
use crate::seqs::{ascending, lemma_filter_ascending, lemma_span_ascending, span};
use crate::MemoryRegion;

verus! {

/// Filtering with a predicate that every element satisfies changes nothing.
pub proof fn lemma_filter_all<A>(s: Seq<A>, p: spec_fn(A) -> bool)
    requires
        forall|i: int| 0 <= i < s.len() ==> p(#[trigger] s[i]),
    ensures
        s.filter(p) == s,
    decreases s.len(),
{
    reveal(Seq::filter);
    if s.len() > 0 {
        lemma_filter_all(s.drop_last(), p);
        assert(s.drop_last().push(s.last()) =~= s);
    }
}

/// Keeping the offsets of `span(m)` at which a `w`-byte value fits in `len`
/// bytes leaves the offsets below `len - w + 1`.
proof fn lemma_filter_fitting(m: nat, len: nat, w: nat, p: spec_fn(usize) -> bool)
    requires
        m <= len <= usize::MAX,
        1 <= w,
        forall|o: usize| #[trigger] p(o) <==> o + w <= len,
    ensures
        span(m).filter(p) == span(if m + w <= len + 1 { m } else if len + 1 >= w { (len + 1 - w) as nat } else { 0 }),
    decreases m,
{
    reveal(Seq::filter);
    if m > 0 {
        let k = (m - 1) as nat;
        lemma_filter_fitting(k, len, w, p);
        assert(span(m).drop_last() =~= span(k));
        assert(span(m).last() == k as usize);
        if m + w <= len + 1 {
            assert(span(k).push(k as usize) =~= span(m));
        }
    }
}

/// A first `Exact(v)` pass over a region that read `b` leaves as hits exactly
/// the offsets, in ascending order, at which a value fits in `b` and equals
/// `v`; the snapshot is `b` when there is a hit and absent otherwise.
pub proof fn lemma_first_exact_scan<T: Primitive>(region: MemoryRegion, b: Seq<u8>, v: T)
    requires
        1 <= T::byte_width(),
        b.len() <= usize::MAX,
    ensures
        ({
            let c = updated(untouched(region), b, ScanFilter::Exact(v));
            &&& (c.hits matches Some(h) && ascending(h) && forall|o: usize|
                #[trigger] h.contains(o) <==> (o + T::byte_width() <= b.len() && read_num::<T>(b, o as int) == v.num()))
            &&& c.snapshot == if c.hits.unwrap().len() > 0 {
                Some(b)
            } else {
                None
            }
        }),
{
    let f = ScanFilter::Exact(v);
    let p = passes(f, b, b);
    lemma_span_ascending(b.len());
    lemma_filter_ascending(span(b.len()), p);
    let h = span(b.len()).filter(p);
    assert forall|o: usize| #[trigger] h.contains(o) <==> (o + T::byte_width() <= b.len() && read_num::<T>(b, o as int) == v.num()) by {
        if o + T::byte_width() <= b.len() && read_num::<T>(b, o as int) == v.num() {
            assert(span(b.len())[o as int] == o);
            assert(span(b.len()).contains(o));
        }
        if h.contains(o) {
            let k = choose|k: int| 0 <= k < h.len() && h[k] == o;
            assert(p(h[k]));
        }
    }
}


/// Every region a first pass seeds is a fresh state of its region after a
/// full read.
pub proof fn lemma_seeded_upto<T: Primitive>(
    listed: Seq<MemoryRegion>,
    reads: Seq<Option<Seq<u8>>>,
    f: ScanFilter<T>,
    n: nat,
)
    requires
        n <= listed.len(),
    ensures
        forall|i: int|
            0 <= i < seeded_upto(listed, reads, f, n).len() ==> seeded(
                #[trigger] seeded_upto(listed, reads, f, n)[i],
                f,
            ),
    decreases n,
{
    if n > 0 {
        lemma_seeded_upto(listed, reads, f, (n - 1) as nat);
        let k = n - 1;
        let r = listed[k];
        let prev = seeded_upto(listed, reads, f, (n - 1) as nat);
        let cur = seeded_upto(listed, reads, f, n);
        if r.valid() && first_listing(listed, k) && full_read(reads, k, r.size) {
            let b = reads[k].unwrap();
            let c = updated(untouched(r), b, f);
            assert(c.region == r);
            assert(updated(untouched(c.region), b, f) == c);
            assert(seeded(c, f));
            assert forall|i: int| 0 <= i < cur.len() implies seeded(#[trigger] cur[i], f) by {
                if i < prev.len() {
                    assert(cur[i] == prev[i]);
                }
            }
        }
    }
}

/// Every region a later pass keeps is a region it started with, left as it
/// was or narrowed by a full read.
pub proof fn lemma_refined_upto<T: Primitive>(
    kept: Seq<RegionView>,
    listed: Seq<MemoryRegion>,
    reads: Seq<Option<Seq<u8>>>,
    f: ScanFilter<T>,
    n: nat,
)
    requires
        n <= kept.len(),
    ensures
        forall|i: int|
            0 <= i < refined_upto(kept, listed, reads, f, n).len() ==> exists|k: int|
                0 <= k < n && kept[k].region == (#[trigger] refined_upto(kept, listed, reads, f, n)[i]).region
                    && refined(kept[k], refined_upto(kept, listed, reads, f, n)[i], f),
    decreases n,
{
    if n > 0 {
        lemma_refined_upto(kept, listed, reads, f, (n - 1) as nat);
        let prev = refined_upto(kept, listed, reads, f, (n - 1) as nat);
        let cur = refined_upto(kept, listed, reads, f, n);
        let a = kept[n - 1];
        assert forall|i: int| 0 <= i < cur.len() implies exists|k: int|
            0 <= k < n && kept[k].region == (#[trigger] cur[i]).region && refined(kept[k], cur[i], f) by {
            if i < prev.len() {
                assert(cur[i] == prev[i]);
            } else {
                let j = listed_at(listed, a.region).unwrap();
                if !exhausted(a) && full_read(reads, j, a.region.size) {
                    assert(updated(a, reads[j].unwrap(), f) == cur[i]);
                }
                assert(refined(kept[n - 1], cur[i], f));
            }
        }
    }
}

/// After a pass, on a first pass every region is a fresh state after a full
/// read; on a later pass every region is one the scanner tracked before,
/// left as it was or narrowed by a full read.
pub proof fn lemma_scanned_regions<T: Primitive>(s0: ScannerView, s1: ScannerView, f: ScanFilter<T>)
    requires
        scanned(s0, s1, f),
    ensures
        starts_fresh(s0, T::byte_width()) ==> forall|i: int| 0 <= i < s1.regions.len() ==> seeded(#[trigger] s1.regions[i], f),
        !starts_fresh(s0, T::byte_width()) ==> forall|i: int|
            0 <= i < s1.regions.len() ==> exists|j: int|
                0 <= j < s0.regions.len() && s0.regions[j].region == (#[trigger] s1.regions[i]).region
                    && refined(s0.regions[j], s1.regions[i], f),
{
    let w = T::byte_width();
    let p = prepared(s0, w);
    let (listed, reads) = choose|listed: Seq<MemoryRegion>, reads: Seq<Option<Seq<u8>>>|
        #[trigger] pass_result(p, listed, reads, f) == s1 && reads_asked(p, listed, reads);
    if starts_fresh(s0, w) {
        lemma_seeded_upto(listed, reads, f, listed.len());
    } else {
        lemma_refined_upto(s0.regions, listed, reads, f, s0.regions.len());
    }
}

/// The hits of `c` are the offsets at which a value fits in its snapshot
/// and equals `v`; none when there is no snapshot.
pub open spec fn exact_hits<T: Primitive>(c: RegionView, v: T) -> bool {
    &&& c.hits is Some
    &&& forall|o: usize|
        #[trigger] c.hits.unwrap().contains(o) <==> (c.snapshot is Some && o + T::byte_width()
            <= c.snapshot.unwrap().len() && read_num::<T>(c.snapshot.unwrap(), o as int) == v.num())
}

/// After a first `Exact(v)` scan, every region's hits are the offsets at
/// which a value fits in its snapshot and equals `v` (no offset at all when
/// the snapshot was released).
pub proof fn lemma_first_exact_scan_regions<T: Primitive>(s0: ScannerView, s1: ScannerView, v: T)
    requires
        1 <= T::byte_width(),
        starts_fresh(s0, T::byte_width()),
        scanned(s0, s1, ScanFilter::Exact(v)),
    ensures
        forall|i: int| 0 <= i < s1.regions.len() ==> exact_hits(#[trigger] s1.regions[i], v),
{
    lemma_scanned_regions(s0, s1, ScanFilter::Exact(v));
    assert forall|i: int| 0 <= i < s1.regions.len() implies exact_hits(#[trigger] s1.regions[i], v) by {
        let c = s1.regions[i];
        assert(seeded(c, ScanFilter::Exact(v)));
        let b = choose|b: Seq<u8>| b.len() == c.region.size && #[trigger] updated(untouched(c.region), b, ScanFilter::Exact(v)) == c;
        lemma_first_exact_scan(c.region, b, v);
    }
}

/// A pass never adds hits to a region whose hits are known and not empty:
/// the new hits are among the old ones, in the same ascending order.
pub proof fn lemma_pass_monotone<T: Primitive>(a: RegionView, b: Seq<u8>, f: ScanFilter<T>)
    requires
        region_wf(a, T::byte_width()),
        a.hits is Some,
        !exhausted(a),
    ensures
        (updated(a, b, f).hits matches Some(h) && ascending(h) && forall|o: usize|
            #[trigger] h.contains(o) ==> a.hits.unwrap().contains(o)),
{
    let h0 = a.hits.unwrap();
    match a.snapshot {
        None => {},
        Some(old) => {
            lemma_filter_ascending(h0, passes(f, b, old));
            let h = h0.filter(passes(f, b, old));
            assert forall|o: usize| #[trigger] h.contains(o) implies h0.contains(o) by {
                let k = choose|k: int| 0 <= k < h.len() && h[k] == o;
            }
        },
    }
}

/// Between two passes after the first, a region's hits only shrink: what a
/// scan keeps of a tracked region holds no hit that the region did not hold.
pub proof fn lemma_refinement_monotone<T: Primitive>(a: RegionView, c: RegionView, f: ScanFilter<T>)
    requires
        region_wf(a, T::byte_width()),
        a.hits is Some,
        refined(a, c, f),
    ensures
        (c.hits matches Some(h) && forall|o: usize| #[trigger] h.contains(o) ==> a.hits.unwrap().contains(o)),
{
    if c != a {
        let b = choose|b: Seq<u8>| b.len() == a.region.size && #[trigger] updated(a, b, f) == c;
        lemma_pass_monotone(a, b, f);
    }
}

/// Between two scans after the first, every region's hits only shrink: each
/// region after the scan was tracked before, and where its hits were known
/// the new hits are among them.
pub proof fn lemma_scan_monotone<T: Primitive>(s0: ScannerView, s1: ScannerView, f: ScanFilter<T>)
    requires
        scanner_wf(s0),
        s0.width == T::byte_width(),
        !s0.is_new_scan,
        scanned(s0, s1, f),
    ensures
        forall|i: int|
            0 <= i < s1.regions.len() ==> exists|j: int|
                0 <= j < s0.regions.len() && s0.regions[j].region == (#[trigger] s1.regions[i]).region && (
                s0.regions[j].hits is Some ==> (s1.regions[i].hits matches Some(h) && forall|o: usize|
                    #[trigger] h.contains(o) ==> s0.regions[j].hits.unwrap().contains(o))),
{
    lemma_scanned_regions(s0, s1, f);
    assert forall|i: int| 0 <= i < s1.regions.len() implies exists|j: int|
        0 <= j < s0.regions.len() && s0.regions[j].region == (#[trigger] s1.regions[i]).region && (
        s0.regions[j].hits is Some ==> (s1.regions[i].hits matches Some(h) && forall|o: usize|
            #[trigger] h.contains(o) ==> s0.regions[j].hits.unwrap().contains(o))) by {
        let j = choose|j: int|
            0 <= j < s0.regions.len() && s0.regions[j].region == (#[trigger] s1.regions[i]).region
                && refined(s0.regions[j], s1.regions[i], f);
        assert(region_wf(s0.regions[j], s0.width));
        if s0.regions[j].hits is Some {
            lemma_refinement_monotone(s0.regions[j], s1.regions[i], f);
        }
    }
}

/// A pass that reads `b` and leaves hits (or leaves every offset open) keeps
/// `b` as the snapshot.
pub proof fn lemma_snapshot_fresh<T: Primitive>(a: RegionView, b: Seq<u8>, f: ScanFilter<T>)
    ensures
        (updated(a, b, f).hits matches Some(h) ==> h.len() > 0) ==> updated(a, b, f).snapshot == Some(b),
{
}

/// A pass that leaves no hit releases the snapshot.
pub proof fn lemma_empty_hits_release<T: Primitive>(a: RegionView, b: Seq<u8>, f: ScanFilter<T>)
    ensures
        (updated(a, b, f).hits matches Some(h) && h.len() == 0) ==> updated(a, b, f).snapshot is None,
{
}

/// Every result is the value of its type read from the snapshot of a tracked
/// region, at the result's offset within that region.
pub proof fn lemma_results_consistent<T: Primitive>(rs: Seq<RegionView>)
    requires
        forall|i: int| 0 <= i < rs.len() ==> region_wf(#[trigger] rs[i], T::byte_width()),
    ensures
        forall|k: int| 0 <= k < all_entries::<T>(rs).len() ==> read_from_some::<T>(#[trigger] all_entries::<T>(rs)[k], rs),
    decreases rs.len(),
{
    if rs.len() > 0 {
        let d = rs.drop_last();
        lemma_results_consistent::<T>(d);
        let all = all_entries::<T>(rs);
        let head = all_entries::<T>(d);
        let tail = entries::<T>(rs.last());
        assert(all == head + tail);
        assert forall|k: int| 0 <= k < all.len() implies read_from_some::<T>(#[trigger] all[k], rs) by {
            if k < head.len() {
                assert(all[k] == head[k]);
                assert(read_from_some::<T>(head[k], d));
                let i = choose|i: int| 0 <= i < d.len() && #[trigger] result_read_from::<T>(head[k], d[i]);
                assert(rs[i] == d[i]);
            } else {
                let r = rs[rs.len() - 1];
                assert(region_wf(r, T::byte_width()));
                assert(all[k] == tail[k - head.len()]);
                let j = k - head.len();
                let o = r.hits.unwrap()[j];
                assert(o + T::byte_width() <= r.snapshot.unwrap().len());
                assert(result_read_from::<T>(all[k], r));
            }
        }
    }
}

/// `e` was read from the snapshot of one of the regions `rs`.
pub open spec fn read_from_some<T: Primitive>(e: (usize, int), rs: Seq<RegionView>) -> bool {
    exists|i: int| 0 <= i < rs.len() && #[trigger] result_read_from::<T>(e, rs[i])
}

/// `e` is the value of type `T` read from `r`'s snapshot at `e`'s address
/// taken relative to the region's base.
pub open spec fn result_read_from<T: Primitive>(e: (usize, int), r: RegionView) -> bool {
    &&& r.snapshot is Some
    &&& r.region.base_address <= e.0
    &&& e.1 == read_num::<T>(r.snapshot.unwrap(), e.0 - r.region.base_address)
}

/// Once a region has been through a pass, two `Unchanged` passes in a row
/// that read the same bytes leave the same hits.
pub proof fn lemma_unchanged_idempotent<T: Primitive>(a: RegionView, b: Seq<u8>)
    requires
        b.len() <= usize::MAX,
        region_wf(a, T::byte_width()),
        a.hits is Some || a.snapshot is Some,
    ensures
        updated(updated(a, b, ScanFilter::<T>::Unchanged), b, ScanFilter::<T>::Unchanged).hits == updated(
            a,
            b,
            ScanFilter::<T>::Unchanged,
        ).hits,
{
    let f = ScanFilter::<T>::Unchanged;
    let c1 = updated(a, b, f);
    match a.snapshot {
        None => {},
        Some(old) => {
            let h1 = c1.hits.unwrap();
            let p = passes(f, b, old);
            if h1.len() > 0 {
                let src = match a.hits {
                    Some(h) => h,
                    None => span(b.len()),
                };
                lemma_span_ascending(b.len());
                lemma_filter_ascending(src, p);
                assert forall|i: int| 0 <= i < h1.len() implies #[trigger] passes(f, b, b)(h1[i]) by {
                    assert(p(h1[i]));
                }
                lemma_filter_all(h1, passes(f, b, b));
            }
        },
    }
}

/// A first `Unknown` pass leaves as hits every offset at which a value fits
/// in the bytes read: `0` through `len - width`.
pub proof fn lemma_first_unknown_scan<T: Primitive>(region: MemoryRegion, b: Seq<u8>)
    requires
        1 <= T::byte_width(),
        b.len() <= usize::MAX,
    ensures
        updated(untouched(region), b, ScanFilter::<T>::Unknown).hits == Some(
            span(if b.len() + 1 >= T::byte_width() { (b.len() + 1 - T::byte_width()) as nat } else { 0 }),
        ),
{
    let p = passes(ScanFilter::<T>::Unknown, b, b);
    lemma_filter_fitting(b.len(), b.len(), T::byte_width(), p);
}

} // verus!
