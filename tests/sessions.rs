use hoodmem::filter::ScanFilter;
use hoodmem::memory::MemoryImage;
use hoodmem::region::RegionResults;
use hoodmem::scanner::Scanner;
use hoodmem::{MemoryRegion, Process, ReadError};

fn two_regions() -> MemoryImage {
    let mut image = MemoryImage::new();
    image.add_region(0x1000, vec![0u8; 16]);
    image.add_region(0x2000, vec![0u8; 8]);
    assert!(image.write(0x1004, &[5, 0, 5, 0]));
    assert!(image.write(0x2002, &[5]));
    image
}

#[test]
fn count_is_unknown_before_any_hits() {
    let mut scanner = Scanner::new(two_regions());
    assert_eq!(scanner.count_results(), None);
    scanner.scan::<u8>(ScanFilter::Changed);
    // a diff filter on a first pass only records a baseline
    assert_eq!(scanner.count_results(), None);
    assert!(scanner.get_results::<u8>().is_empty());
    scanner.scan::<u8>(ScanFilter::Unchanged);
    assert_eq!(scanner.count_results(), Some(24));
}

#[test]
fn unknown_first_pass_keeps_every_fitting_offset() {
    let mut scanner = Scanner::new(two_regions());
    scanner.scan::<u32>(ScanFilter::Unknown);
    // 16 - 4 + 1 and 8 - 4 + 1
    assert_eq!(scanner.count_results(), Some(13 + 5));
    let results = scanner.get_results::<u32>();
    assert_eq!(results[0], (0x1000, 0));
    assert_eq!(results[1], (0x1001, 0x0500_0000));
    assert_eq!(results[12], (0x100c, 0));
    assert_eq!(results[13], (0x2000, 0x0005_0000));
}

#[test]
fn projections_of_the_results() {
    let mut scanner = Scanner::new(two_regions());
    scanner.scan::<u8>(ScanFilter::Exact(5));
    let all = scanner.get_results::<u8>();
    assert_eq!(all, vec![(0x1004, 5), (0x1006, 5), (0x2002, 5)]);
    assert_eq!(scanner.get_first_results::<u8>(2), vec![(0x1004, 5), (0x1006, 5)]);
    assert_eq!(scanner.get_first_results::<u8>(10), all);
    assert_eq!(scanner.get_nth_result::<u8>(2), Some((0x2002, 5)));
    assert_eq!(scanner.get_nth_result::<u8>(3), None);
    assert_eq!(scanner.get_results_range::<u8>(1, 2), vec![(0x1006, 5), (0x2002, 5)]);
    assert_eq!(scanner.get_results_range::<u8>(1, usize::MAX), vec![(0x1006, 5), (0x2002, 5)]);
    assert_eq!(scanner.get_results_range::<u8>(2, 1), vec![]);
    assert_eq!(scanner.get_results_range::<u8>(5, 9), vec![]);
}

#[test]
fn refinement_only_shrinks_hits() {
    let mut scanner = Scanner::new(two_regions());
    scanner.scan::<u8>(ScanFilter::Unknown);
    assert_eq!(scanner.count_results(), Some(24));
    assert!(scanner.process_mut().write(0x1004, &[6]));
    assert!(scanner.process_mut().write(0x2000, &[1]));
    scanner.scan::<u8>(ScanFilter::Changed);
    assert_eq!(scanner.get_results::<u8>(), vec![(0x1004, 6), (0x2000, 1)]);
    // a value that changes back does not come back as a hit
    assert!(scanner.process_mut().write(0x1005, &[9]));
    scanner.scan::<u8>(ScanFilter::Changed);
    assert_eq!(scanner.get_results::<u8>(), vec![]);
    assert_eq!(scanner.count_results(), Some(0));
}

#[test]
fn empty_region_releases_snapshot_and_is_not_read_again() {
    let mut scanner = Scanner::new(two_regions());
    scanner.scan::<u8>(ScanFilter::Exact(5));
    assert_eq!(scanner.regions()[0].snapshot_len(), Some(16));
    assert!(scanner.process_mut().write(0x2002, &[4]));
    scanner.scan::<u8>(ScanFilter::Exact(5));
    assert_eq!(scanner.regions()[1].hit_count(), Some(0));
    assert_eq!(scanner.regions()[1].snapshot_len(), None);
    assert_eq!(scanner.regions()[0].snapshot_len(), Some(16));
    assert!(scanner.process_mut().write(0x2002, &[5]));
    scanner.scan::<u8>(ScanFilter::Exact(5));
    assert_eq!(scanner.regions()[1].hit_count(), Some(0));
}

#[test]
fn unchanged_twice_is_steady() {
    let mut scanner = Scanner::new(two_regions());
    scanner.scan::<u16>(ScanFilter::Unknown);
    assert!(scanner.process_mut().write(0x1004, &[7]));
    scanner.scan::<u16>(ScanFilter::Unchanged);
    let once = scanner.get_results::<u16>();
    scanner.scan::<u16>(ScanFilter::Unchanged);
    assert_eq!(scanner.get_results::<u16>(), once);
    assert_eq!(once.len(), 15 - 2 + 7);
}

#[test]
fn results_are_read_from_the_snapshot() {
    let mut scanner = Scanner::new(two_regions());
    scanner.scan::<u16>(ScanFilter::Exact(5));
    assert_eq!(scanner.get_results::<u16>(), vec![(0x1004, 5), (0x1006, 5), (0x2002, 5)]);
    // memory changes after the pass do not show until the next pass
    assert!(scanner.process_mut().write(0x1004, &[9]));
    assert_eq!(scanner.get_results::<u16>()[0], (0x1004, 5));
}

#[test]
fn vanished_regions_are_dropped() {
    let mut image = MemoryImage::new();
    image.add_region(0x1000, vec![1u8; 4]);
    let mut scanner = Scanner::new(image);
    scanner.scan::<u8>(ScanFilter::Exact(1));
    assert_eq!(scanner.count_results(), Some(4));
    // a new image in which the region is gone and another appeared
    let mut other = MemoryImage::new();
    other.add_region(0x3000, vec![1u8; 4]);
    *scanner.process_mut() = other;
    scanner.scan::<u8>(ScanFilter::Unchanged);
    assert_eq!(scanner.regions().len(), 0);
    assert_eq!(scanner.count_results(), None);
    scanner.new_scan();
    scanner.scan::<u8>(ScanFilter::Exact(1));
    assert_eq!(scanner.get_first_results::<u8>(1), vec![(0x3000, 1)]);
}

#[test]
fn region_results_by_hand() {
    let region = MemoryRegion { base_address: 0x10, size: 4 };
    let mut results = RegionResults::new(region);
    assert_eq!(results.region(), region);
    assert_eq!(results.get_results::<u8>(), None);
    results.update_results(vec![1, 2, 3, 4], ScanFilter::<u8>::Increased);
    assert_eq!(results.hit_count(), None);
    assert_eq!(results.snapshot_len(), Some(4));
    results.update_results(vec![2, 2, 3, 5], ScanFilter::<u8>::Increased);
    assert_eq!(results.get_results::<u8>(), Some(vec![(0x10, 2), (0x13, 5)]));
    assert!(!results.is_exhausted());
    results.update_results(vec![2, 2, 3, 5], ScanFilter::<u8>::Increased);
    assert!(results.is_exhausted());
    assert_eq!(results.get_results::<u8>(), None);
    results.clear();
    assert_eq!(results.hit_count(), None);
    assert_eq!(results.snapshot_len(), None);
}

#[test]
fn memory_image_reads() {
    let mut image = MemoryImage::new();
    image.add_region(0x100, vec![1, 2, 3, 4]);
    assert_eq!(image.read_memory_bytes(0x101, 2), Ok(vec![2, 3]));
    assert_eq!(image.read_memory_bytes(0x103, 2), Err(ReadError { address: 0x103, len: 2 }));
    assert!(!image.write(0x103, &[0, 0]));
    assert!(!image.set_readable(0x200, false));
    assert!(image.set_readable(0x100, false));
    assert_eq!(image.read_memory_bytes(0x100, 1), Err(ReadError { address: 0x100, len: 1 }));
    assert_eq!(image.get_writable_regions(), vec![MemoryRegion { base_address: 0x100, size: 4 }]);
}

#[test]
fn value_filter_recomputes_a_region_without_snapshot() {
    let region = MemoryRegion { base_address: 0x40, size: 1 };
    let mut results = RegionResults::new(region);
    results.update_results(vec![0], ScanFilter::Exact(1u8));
    assert_eq!(results.hit_count(), Some(0));
    assert_eq!(results.snapshot_len(), None);
    results.update_results(vec![0], ScanFilter::Exact(0u8));
    assert_eq!(results.get_results::<u8>(), Some(vec![(0x40, 0)]));
}

#[test]
fn results_read_at_another_width_skip_what_does_not_fit() {
    let mut scanner = Scanner::new(two_regions());
    scanner.scan::<u8>(ScanFilter::Exact(5));
    // 0x1004 and 0x1006 fit a u32 in the 16-byte region; 0x2002 fits in 8 bytes
    assert_eq!(
        scanner.get_results::<u32>(),
        vec![(0x1004, 0x0005_0005), (0x1006, 0x0000_0005), (0x2002, 0x0000_0005)]
    );
    assert_eq!(scanner.get_results::<u64>(), vec![(0x1004, 0x0005_0005), (0x1006, 5)]);
}

#[test]
fn which_regions_a_pass_reads() {
    let mut scanner = Scanner::new(two_regions());
    let valid = MemoryRegion { base_address: 0x1000, size: 16 };
    let other = MemoryRegion { base_address: 0x2000, size: 8 };
    let same_base = MemoryRegion { base_address: 0x1000, size: 4 };
    let wrapping = MemoryRegion { base_address: usize::MAX, size: 2 };
    let listed = vec![valid, same_base, wrapping, other];
    assert_eq!(scanner.regions_to_read::<u8>(&listed), vec![true, false, false, true]);
    scanner.scan::<u8>(ScanFilter::Exact(5));
    assert!(scanner.process_mut().write(0x2002, &[4]));
    scanner.scan::<u8>(ScanFilter::Exact(5));
    // the second region's hits are known empty: it is not read again
    assert_eq!(scanner.regions_to_read::<u8>(&vec![other, valid, valid]), vec![false, true, false]);
}

#[test]
fn applying_a_pass_from_given_reads() {
    let mut scanner = Scanner::new(MemoryImage::new());
    let a = MemoryRegion { base_address: 0x1000, size: 4 };
    let b = MemoryRegion { base_address: 0x2000, size: 4 };
    let short = MemoryRegion { base_address: 0x3000, size: 4 };
    let listed = vec![a, b, short];
    let reads = vec![Some(vec![7, 0, 0, 0]), None, Some(vec![7, 0])];
    scanner.apply_pass(&listed, &reads, ScanFilter::Exact(7u8));
    // a failed read and a short read seed nothing
    assert_eq!(scanner.regions().len(), 1);
    assert_eq!(scanner.get_results::<u8>(), vec![(0x1000, 7)]);

    // a later pass: the read of `a` fails, so it keeps its state; `b` is not tracked
    let reads = vec![None, Some(vec![7, 7, 7, 7]), None];
    scanner.apply_pass(&listed, &reads, ScanFilter::<u8>::Unchanged);
    assert_eq!(scanner.get_results::<u8>(), vec![(0x1000, 7)]);
    assert_eq!(scanner.regions()[0].snapshot_len(), Some(4));

    // `a` no longer listed: dropped
    scanner.apply_pass(&vec![b], &vec![None], ScanFilter::<u8>::Unchanged);
    assert_eq!(scanner.regions().len(), 0);
}

#[test]
fn a_width_change_reads_everything_again() {
    let mut scanner = Scanner::new(two_regions());
    scanner.scan::<u8>(ScanFilter::Exact(5));
    assert!(scanner.process_mut().write(0x2002, &[4]));
    scanner.scan::<u8>(ScanFilter::Exact(5));
    let listed = vec![MemoryRegion { base_address: 0x1000, size: 16 }, MemoryRegion { base_address: 0x2000, size: 8 }];
    assert_eq!(scanner.regions_to_read::<u8>(&listed), vec![true, false]);
    assert_eq!(scanner.regions_to_read::<u16>(&listed), vec![true, true]);
}
