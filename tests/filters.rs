use hoodmem::filter::ScanFilter;
use hoodmem::primitive::read_from_buffer;

#[test]
fn exact_and_approximate() {
    assert!(ScanFilter::Exact(7u32).matches(&7, &0));
    assert!(!ScanFilter::Exact(7u32).matches(&8, &8));
    assert!(ScanFilter::Approximate(10i32, 2).matches(&12, &0));
    assert!(ScanFilter::Approximate(10i32, 2).matches(&8, &0));
    assert!(!ScanFilter::Approximate(10i32, 2).matches(&13, &0));
    assert!(!ScanFilter::Approximate(10u8, 2).matches(&7, &0));
}

#[test]
fn increased_and_decreased() {
    assert!(ScanFilter::<u16>::Increased.matches(&5, &4));
    assert!(!ScanFilter::<u16>::Increased.matches(&4, &4));
    assert!(ScanFilter::<i16>::Decreased.matches(&-5, &4));
    assert!(!ScanFilter::<i16>::Decreased.matches(&5, &4));
}

#[test]
fn by_exact_amounts_never_wrap() {
    assert!(ScanFilter::IncreasedBy(3u8).matches(&13, &10));
    assert!(!ScanFilter::IncreasedBy(3u8).matches(&1, &254));
    assert!(ScanFilter::DecreasedBy(3u8).matches(&7, &10));
    assert!(!ScanFilter::DecreasedBy(3u8).matches(&254, &1));
    assert!(ScanFilter::IncreasedBy(-2i8).matches(&8, &10));
}

#[test]
fn at_least_and_at_most() {
    assert!(ScanFilter::IncreasedByAtLeast(5u32).matches(&15, &10));
    assert!(!ScanFilter::IncreasedByAtLeast(5u32).matches(&14, &10));
    assert!(ScanFilter::IncreasedByAtMost(5u32).matches(&15, &10));
    assert!(!ScanFilter::IncreasedByAtMost(5u32).matches(&16, &10));
    assert!(!ScanFilter::IncreasedByAtMost(5u32).matches(&9, &10));
    assert!(ScanFilter::DecreasedByAtLeast(5u32).matches(&5, &10));
    assert!(!ScanFilter::DecreasedByAtLeast(5u32).matches(&6, &10));
    assert!(ScanFilter::DecreasedByAtMost(5u32).matches(&5, &10));
    assert!(!ScanFilter::DecreasedByAtMost(5u32).matches(&4, &10));
    assert!(!ScanFilter::DecreasedByAtMost(5u32).matches(&11, &10));
}

#[test]
fn signed_differences_do_not_overflow() {
    assert!(ScanFilter::IncreasedByAtLeast(100i8).matches(&127, &-128));
    assert!(ScanFilter::ChangedByAtLeast(i64::MAX).matches(&i64::MAX, &i64::MIN));
    assert!(ScanFilter::ChangedByAtMost(0u64).matches(&u64::MAX, &u64::MAX));
}

#[test]
fn changed_unchanged_unknown() {
    assert!(ScanFilter::<u8>::Changed.matches(&1, &2));
    assert!(!ScanFilter::<u8>::Changed.matches(&2, &2));
    assert!(ScanFilter::<u8>::Unchanged.matches(&2, &2));
    assert!(!ScanFilter::<u8>::Unchanged.matches(&1, &2));
    assert!(ScanFilter::ChangedByAtLeast(3u8).matches(&1, &4));
    assert!(ScanFilter::ChangedByAtLeast(3u8).matches(&4, &1));
    assert!(!ScanFilter::ChangedByAtLeast(3u8).matches(&2, &4));
    assert!(ScanFilter::ChangedByAtMost(3u8).matches(&2, &4));
    assert!(!ScanFilter::ChangedByAtMost(3u8).matches(&0, &4));
    assert!(ScanFilter::<u8>::Unknown.matches(&0, &255));
}

#[test]
fn value_only_filters() {
    assert!(ScanFilter::Exact(1u8).is_value_only());
    assert!(ScanFilter::Approximate(1u8, 1).is_value_only());
    assert!(ScanFilter::<u8>::Unknown.is_value_only());
    assert!(!ScanFilter::<u8>::Changed.is_value_only());
    assert!(!ScanFilter::IncreasedBy(1u8).is_value_only());
}

#[test]
fn reads_are_little_endian_and_unaligned() {
    let buf = [0xff, 0x01, 0x02, 0x03, 0x04, 0x80, 0, 0, 0, 0, 0, 0x80];
    assert_eq!(read_from_buffer::<u8>(&buf, 0), 0xff);
    assert_eq!(read_from_buffer::<i8>(&buf, 0), -1);
    assert_eq!(read_from_buffer::<u16>(&buf, 1), 0x0201);
    assert_eq!(read_from_buffer::<u32>(&buf, 1), 0x0403_0201);
    assert_eq!(read_from_buffer::<i16>(&buf, 4), -32764);
    assert_eq!(read_from_buffer::<i32>(&buf, 2), 0x8004_0302u32 as i32);
    assert_eq!(read_from_buffer::<u64>(&buf, 4), 0x8000_0000_0000_8004);
    assert_eq!(read_from_buffer::<i64>(&buf, 4), 0x8000_0000_0000_8004u64 as i64);
}
