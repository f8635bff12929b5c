//! The state of one region across a scan: its last snapshot and its hits.
use vstd::prelude::*;

use rayon::iter::{IntoParallelIterator, IntoParallelRefIterator, ParallelIterator};

use crate::filter::ScanFilter;
use crate::primitive::{read_from_buffer, read_num, Compare, Primitive};
use crate::seqs::{ascending, lemma_filter_ascending, lemma_filter_push, lemma_span_ascending, span};
use crate::MemoryRegion;

verus! {

/// Whether the value of type `T` at `o` fits in both buffers and passes the
/// filter, `new` being read now and `old` by the previous pass.
pub open spec fn passes<T: Primitive>(f: ScanFilter<T>, new: Seq<u8>, old: Seq<u8>) -> spec_fn(
    usize,
) -> bool {
    |o: usize|
        o + T::byte_width() <= new.len() && o + T::byte_width() <= old.len() && f.holds(
            read_num::<T>(new, o as int),
            read_num::<T>(old, o as int),
        )
}

/// What a region's state is made of, for contracts.
pub struct RegionView {
    pub region: MemoryRegion,
    /// Offsets of current hits; `None` stands for every offset.
    pub hits: Option<Seq<usize>>,
    /// The bytes seen by the last pass that left hits.
    pub snapshot: Option<Seq<u8>>,
}

/// The region state after a pass that read `b` under filter `f`.
pub open spec fn updated<T: Primitive>(s: RegionView, b: Seq<u8>, f: ScanFilter<T>) -> RegionView {
    let hits = match s.snapshot {
        None => if f.value_only() {
            Some(span(b.len()).filter(passes(f, b, b)))
        } else {
            s.hits
        },
        Some(old) => match s.hits {
            None => Some(span(b.len()).filter(passes(f, b, old))),
            Some(h) => Some(h.filter(passes(f, b, old))),
        },
    };
    let snapshot = match hits {
        Some(h) => if h.len() > 0 {
            Some(b)
        } else {
            None
        },
        None => Some(b),
    };
    RegionView { region: s.region, hits, snapshot }
}

/// The region ends inside the address space and the snapshot fits in it.
pub open spec fn region_shape(v: RegionView) -> bool {
    &&& v.region.valid()
    &&& v.snapshot matches Some(s) ==> s.len() <= v.region.size
}

/// Region state that a scan with values `w` bytes wide can work from.
pub open spec fn region_wf(v: RegionView, w: nat) -> bool {
    &&& region_shape(v)
    &&& v.hits matches Some(h) ==> {
        &&& ascending(h)
        &&& h.len() > 0 ==> v.snapshot is Some
        &&& forall|i: int|
            0 <= i < h.len() ==> #[trigger] h[i] + w <= v.snapshot.unwrap().len()
    }
}

/// Whether a value of type `T` at `o` fits in `s`.
pub open spec fn fits<T: Primitive>(s: Seq<u8>) -> spec_fn(usize) -> bool {
    |o: usize| o + T::byte_width() <= s.len()
}

/// The address of offset `o` in a region based at `base`, with the value
/// of type `T` read from `s` there.
pub open spec fn entry_at<T: Primitive>(base: usize, s: Seq<u8>) -> spec_fn(usize) -> (usize, int) {
    |o: usize| ((base + o) as usize, read_num::<T>(s, o as int))
}

/// The `(address, value)` pairs of a region's hits at which a `T` fits in
/// the snapshot, each value read from the snapshot as a `T`; empty unless
/// the region has both hits and a snapshot.
pub open spec fn entries<T: Primitive>(v: RegionView) -> Seq<(usize, int)> {
    match v.hits {
        Some(h) => match v.snapshot {
            Some(s) => h.filter(fits::<T>(s)).map_values(entry_at::<T>(v.region.base_address, s)),
            None => Seq::empty(),
        },
        None => Seq::empty(),
    }
}

/// Pairs with their values taken as numbers.
pub open spec fn numbered<T: Primitive>(s: Seq<(usize, T)>) -> Seq<(usize, int)> {
    s.map_values(|p: (usize, T)| (p.0, p.1.num()))
}

/// Region scan results.
///
/// Stores the whole of the region's memory as of the last pass that left hits.
pub struct RegionResults {
    /// The region
    region: MemoryRegion,
    /// Offsets of current hits within this region
    hit_offsets: Option<Vec<usize>>,
    /// The last snapshot of this memory region (prev values)
    buffer: Option<Vec<u8>>,
}

impl View for RegionResults {
    type V = RegionView;

    closed spec fn view(&self) -> RegionView {
        RegionView {
            region: self.region,
            hits: match self.hit_offsets {
                Some(h) => Some(h@),
                None => None,
            },
            snapshot: match self.buffer {
                Some(b) => Some(b@),
                None => None,
            },
        }
    }
}

/// Whether the value of type `T` at `off` fits in both buffers and passes
/// the filter.
fn passes_at<T: Compare>(filter: &ScanFilter<T>, new: &[u8], old: &[u8], off: usize) -> (r: bool)
    ensures
        r == passes(*filter, new@, old@)(off),
{
    let w = T::width();
    if w <= new.len() && w <= old.len() && off <= new.len() - w && off <= old.len() - w {
        let n: T = read_from_buffer(new, off);
        let o: T = read_from_buffer(old, off);
        filter.matches(&n, &o)
    } else {
        false
    }
}

/// Relies on rayon's `into_par_iter` over a range, `filter` and `collect`
/// into a `Vec`: the offsets kept are those below `n` that pass, in
/// ascending order.
#[verifier::external_body]
fn par_keep_span<T: Compare>(n: usize, new: &[u8], old: &[u8], filter: ScanFilter<T>) -> (r: Vec<usize>)
    ensures
        r@ == span(n as nat).filter(passes(filter, new@, old@)),
{
    (0..n).into_par_iter().filter(|off| passes_at(&filter, new, old, *off)).collect()
}

/// Relies on rayon's `par_iter` over a slice, `filter` and `collect` into a
/// `Vec`: the offsets kept are those of `cands` that pass, in their order.
#[verifier::external_body]
fn par_keep_listed<T: Compare>(cands: &Vec<usize>, new: &[u8], old: &[u8], filter: ScanFilter<T>) -> (r: Vec<usize>)
    ensures
        r@ == cands@.filter(passes(filter, new@, old@)),
{
    cands.par_iter().copied().filter(|off| passes_at(&filter, new, old, *off)).collect()
}

impl RegionResults {
    /// Creates a new RegionResults object
    pub fn new(region: MemoryRegion) -> (r: Self)
        ensures
            r@ == (RegionView { region, hits: None, snapshot: None }),
    {
        RegionResults { region, hit_offsets: None, buffer: None }
    }

    /// The region these results belong to.
    pub fn region(&self) -> (r: MemoryRegion)
        ensures
            r == self@.region,
    {
        self.region
    }

    /// Whether the hits are known to be empty (such a region is not read
    /// again).
    pub fn is_exhausted(&self) -> (r: bool)
        ensures
            r == (self@.hits matches Some(h) && h.len() == 0),
    {
        match &self.hit_offsets {
            Some(h) => h.len() == 0,
            None => false,
        }
    }

    /// The number of hits, where the hits are known.
    pub fn hit_count(&self) -> (r: Option<usize>)
        ensures
            r matches Some(n) ==> self@.hits matches Some(h) && n == h.len(),
            r is None ==> self@.hits is None,
    {
        match &self.hit_offsets {
            Some(h) => Some(h.len()),
            None => None,
        }
    }

    /// The length of the snapshot, when there is one.
    pub fn snapshot_len(&self) -> (r: Option<usize>)
        ensures
            r matches Some(n) ==> self@.snapshot matches Some(b) && n == b.len(),
            r is None ==> self@.snapshot is None,
    {
        match &self.buffer {
            Some(b) => Some(b.len()),
            None => None,
        }
    }

    /// The `(address, value)` pair of every hit at which a `T` fits in the
    /// snapshot, values read from the snapshot.
    pub fn get_results<T: Compare>(&self) -> (r: Option<Vec<(usize, T)>>)
        requires
            region_shape(self@),
        ensures
            r is Some <==> (self@.hits is Some && self@.snapshot is Some),
            r matches Some(v) ==> numbered(v@) == entries::<T>(self@),
    {
        match &self.hit_offsets {
            None => None,
            Some(h) => match &self.buffer {
                None => None,
                Some(buf) => {
                    let ghost base = self.region.base_address;
                    let ghost g = entry_at::<T>(base, buf@);
                    let w = T::width();
                    let mut out: Vec<(usize, T)> = Vec::new();
                    let mut i: usize = 0;
                    while i < h.len()
                        invariant
                            region_shape(self@),
                            self.hit_offsets == Some(*h),
                            self.buffer == Some(*buf),
                            base == self.region.base_address,
                            w == T::byte_width(),
                            g == entry_at::<T>(base, buf@),
                            0 <= i <= h@.len(),
                            numbered(out@) == h@.take(i as int).filter(fits::<T>(buf@)).map_values(g),
                        decreases h@.len() - i,
                    {
                        let o = h[i];
                        proof {
                            lemma_filter_push(h@.take(i as int), o, fits::<T>(buf@));
                            assert(h@.take(i + 1) =~= h@.take(i as int).push(o));
                        }
                        let ghost before = out@;
                        if w <= buf.len() && o <= buf.len() - w {
                            let v: T = read_from_buffer(buf.as_slice(), o);
                            out.push((self.region.base_address + o, v));
                            proof {
                                assert(fits::<T>(buf@)(o));
                                assert(v.num() == read_num::<T>(buf@, o as int));
                                assert(g(o).0 == (base + o) as usize);
                                assert(g(o).1 == v.num());
                                assert(numbered(out@) =~= numbered(before).push(((base + o) as usize, v.num())));
                                assert(h@.take(i + 1).filter(fits::<T>(buf@)).map_values(g) =~= h@.take(
                                    i as int,
                                ).filter(fits::<T>(buf@)).map_values(g).push(g(o)));
                            }
                        } else {
                            assert(!fits::<T>(buf@)(o));
                        }
                        i = i + 1;
                    }
                    proof {
                        assert(h@.take(h@.len() as int) =~= h@);
                    }
                    Some(out)
                },
            },
        }
    }

    /// Clear these results for the next scan
    pub fn clear(&mut self)
        ensures
            final(self)@ == (RegionView { region: old(self)@.region, hits: None, snapshot: None }),
    {
        self.hit_offsets = None;
        self.buffer = None;
    }

    /// Updates results given a buffer of this region's new memory, and a filter
    pub fn update_results<T: Compare>(&mut self, region_buf: Vec<u8>, filter: ScanFilter<T>)
        requires
            region_wf(old(self)@, T::byte_width()),
            region_buf@.len() <= old(self)@.region.size,
        ensures
            final(self)@ == updated(old(self)@, region_buf@, filter),
            region_wf(final(self)@, T::byte_width()),
    {
        let ghost s = self@;
        let w = T::width();
        let new_hits: Option<Vec<usize>> = match &self.buffer {
            None => {
                if filter.is_value_only() {
                    let buf = region_buf.as_slice();
                    Some(par_keep_span(region_buf.len(), buf, buf, filter))
                } else {
                    match &self.hit_offsets {
                        None => None,
                        Some(_) => Some(Vec::new()),
                    }
                }
            },
            Some(prev) => match &self.hit_offsets {
                None => Some(par_keep_span(region_buf.len(), region_buf.as_slice(), prev.as_slice(), filter)),
                Some(h) => Some(par_keep_listed(h, region_buf.as_slice(), prev.as_slice(), filter)),
            },
        };
        proof {
            let b = region_buf@;
            lemma_span_ascending(b.len());
            match &new_hits {
                Some(nh) => {
                    match s.snapshot {
                        None => {
                            if filter.value_only() {
                                lemma_filter_ascending(span(b.len()), passes(filter, b, b));
                            } else {
                                assert(nh@ =~= s.hits.unwrap());
                            }
                        },
                        Some(old) => {
                            match s.hits {
                                None => {
                                    lemma_filter_ascending(span(b.len()), passes(filter, b, old));
                                },
                                Some(h) => {
                                    lemma_filter_ascending(h, passes(filter, b, old));
                                },
                            }
                        },
                    }
                },
                None => {},
            }
        }
        let keep_snapshot = match &new_hits {
            Some(h) => h.len() > 0,
            None => true,
        };
        self.hit_offsets = new_hits;
        if keep_snapshot {
            self.buffer = Some(region_buf);
        } else {
            self.buffer = None;
        }
    }
}

} // verus!
