use hoodmem::engine::{AttachError, Core, CoreCommand, CoreError};
use hoodmem::filter::ScanFilter;
use hoodmem::memory::MemoryImage;
use hoodmem::scanner::Scanner;
use hoodmem::types::{AttachStatus, AttachTarget, GenericScanFilter, ScanStatus};
use hoodmem::MemoryRegion;

const BASE: usize = 0x1000;

fn image_with(writes: &[(usize, &[u8])]) -> MemoryImage {
    let mut image = MemoryImage::new();
    image.add_region(BASE, vec![0u8; 256]);
    for (offset, data) in writes {
        assert!(image.write(BASE + offset, data));
    }
    image
}

fn write(scanner: &mut Scanner<MemoryImage>, offset: usize, data: &[u8]) {
    assert!(scanner.process_mut().write(BASE + offset, data));
}

#[test]
fn exact_u32_finds_the_one_match() {
    let mut scanner = Scanner::new(image_with(&[(0x40, &[0x41, 0x41, 0x41, 0x41])]));
    scanner.new_scan();
    scanner.scan::<u32>(ScanFilter::Exact(0x4141_4141));
    assert_eq!(scanner.get_results::<u32>(), vec![(0x1040, 0x4141_4141)]);
    assert_eq!(scanner.count_results(), Some(1));
}

#[test]
fn decreased_chain_narrows_then_releases() {
    let mut scanner = Scanner::new(image_with(&[(0x80, &0x0064u16.to_le_bytes())]));
    scanner.new_scan();
    scanner.scan::<u16>(ScanFilter::Unknown);
    // every offset at which a u16 fits
    assert_eq!(scanner.count_results(), Some(255));

    write(&mut scanner, 0x80, &0x0063u16.to_le_bytes());
    scanner.scan::<u16>(ScanFilter::Decreased);
    let results = scanner.get_results::<u16>();
    assert!(results.contains(&(0x1080, 0x0063)));

    write(&mut scanner, 0x80, &0x0063u16.to_le_bytes());
    scanner.scan::<u16>(ScanFilter::Decreased);
    assert!(scanner.get_results::<u16>().is_empty());
    assert_eq!(scanner.count_results(), Some(0));
    assert_eq!(scanner.regions().len(), 1);
    assert_eq!(scanner.regions()[0].snapshot_len(), None);
}

#[test]
fn increased_by_exact_delta_persists() {
    let mut scanner = Scanner::new(image_with(&[(0, &10u32.to_le_bytes())]));
    scanner.new_scan();
    scanner.scan::<u32>(ScanFilter::Unknown);
    write(&mut scanner, 0, &13u32.to_le_bytes());
    scanner.scan::<u32>(ScanFilter::IncreasedBy(3));
    assert_eq!(scanner.get_results::<u32>(), vec![(0x1000, 13)]);
    write(&mut scanner, 0, &16u32.to_le_bytes());
    scanner.scan::<u32>(ScanFilter::IncreasedBy(3));
    assert_eq!(scanner.get_results::<u32>(), vec![(0x1000, 16)]);
}

#[test]
fn width_change_starts_over() {
    let mut scanner = Scanner::new(image_with(&[(0x40, &[0x41, 0x41, 0x41, 0x41])]));
    scanner.new_scan();
    scanner.scan::<u32>(ScanFilter::Exact(0x4141_4141));
    assert_eq!(scanner.count_results(), Some(1));
    scanner.scan::<u8>(ScanFilter::Exact(0x41));
    assert_eq!(
        scanner.get_results::<u8>(),
        vec![(0x1040, 0x41), (0x1041, 0x41), (0x1042, 0x41), (0x1043, 0x41)]
    );
}

#[test]
fn read_failure_keeps_prior_state() {
    let mut core: Core<MemoryImage> = Core::new();
    let image = image_with(&[(0x40, &[0x41, 0x41, 0x41, 0x41])]);
    assert_eq!(CoreCommand::Attach(AttachTarget::Process(7), Ok(image)).execute(&mut core), Ok(()));
    let exact = GenericScanFilter::U32(ScanFilter::Exact(0x4141_4141));
    assert_eq!(CoreCommand::Scan(exact).execute(&mut core), Ok(()));
    assert!(matches!(core.scan_status(), ScanStatus::Done(1)));

    assert!(core.process_mut().unwrap().set_readable(BASE, false));
    let unchanged = GenericScanFilter::U32(ScanFilter::Unchanged);
    assert_eq!(CoreCommand::Scan(unchanged).execute(&mut core), Ok(()));
    assert!(matches!(core.scan_status(), ScanStatus::Done(1)));
    let scanner = core.scanner().unwrap();
    assert_eq!(scanner.get_results::<u32>(), vec![(0x1040, 0x4141_4141)]);
    assert_eq!(scanner.regions()[0].snapshot_len(), Some(256));
}

#[test]
fn attach_rules() {
    let mut core: Core<MemoryImage> = Core::new();
    assert!(!core.check_attached());
    let other = CoreCommand::Attach(AttachTarget::Other("x".to_string()), Ok(MemoryImage::new()));
    assert_eq!(other.execute(&mut core), Err(CoreError::Unsupported));
    assert!(matches!(core.attach_status(), AttachStatus::Detached));
    let scan = GenericScanFilter::U8(ScanFilter::Unknown);
    assert_eq!(CoreCommand::Scan(scan).execute(&mut core), Err(CoreError::NotAttached));
    let first = CoreCommand::Attach(AttachTarget::Window("game".to_string()), Ok(MemoryImage::new()));
    assert_eq!(first.execute(&mut core), Ok(()));
    assert!(core.check_attached());
    let second = CoreCommand::Attach(AttachTarget::Process(3), Ok(MemoryImage::new()));
    assert_eq!(second.execute(&mut core), Err(CoreError::AlreadyAttached));
    assert_eq!(CoreCommand::<MemoryImage>::Detach.execute(&mut core), Ok(()));
    assert!(!core.check_attached());
}

#[test]
fn region_validity() {
    assert!(MemoryRegion { base_address: 0x1000, size: 0x100 }.is_valid());
    assert!(!MemoryRegion { base_address: usize::MAX, size: 2 }.is_valid());
}

#[test]
fn new_scan_command_resets_the_session() {
    let mut core: Core<MemoryImage> = Core::default();
    let image = image_with(&[(0x40, &[0x41, 0x41, 0x41, 0x41])]);
    assert_eq!(core.attach(&AttachTarget::Process(9), Ok(image)), Ok(()));
    assert!(matches!(core.attach_status(), AttachStatus::Attached(AttachTarget::Process(9))));
    assert_eq!(core.scan_with(ScanFilter::Exact(0x41u8)), Ok(()));
    assert!(matches!(core.scan_status(), ScanStatus::Done(4)));
    assert_eq!(CoreCommand::<MemoryImage>::NewScan.execute(&mut core), Ok(()));
    assert!(matches!(core.scan_status(), ScanStatus::Ready));
    assert_eq!(core.scanner().unwrap().count_results(), None);
    assert_eq!(CoreCommand::<MemoryImage>::Unknown.execute(&mut core), Ok(()));
    assert_eq!(CoreCommand::<MemoryImage>::Stop.execute(&mut core), Ok(()));
    assert!(core.check_attached());
    core.detach();
    assert!(core.scanner().is_none());
    assert_eq!(core.scan_with(ScanFilter::Exact(0x41u8)), Err(CoreError::NotAttached));
}

#[test]
fn failed_open_changes_nothing() {
    let mut core: Core<MemoryImage> = Core::new();
    let opened: Result<MemoryImage, AttachError> = Err(AttachError::PermissionDenied);
    assert_eq!(core.attach(&AttachTarget::Process(1), opened), Err(CoreError::Open(AttachError::PermissionDenied)));
    assert!(!core.check_attached());
    assert!(matches!(core.scan_status(), ScanStatus::Ready));
}

#[test]
fn scan_with_no_hits_anywhere_reports_zero() {
    let mut core: Core<MemoryImage> = Core::new();
    assert_eq!(core.attach(&AttachTarget::Process(2), Ok(image_with(&[]))), Ok(()));
    let changed = GenericScanFilter::I16(ScanFilter::Changed);
    assert_eq!(CoreCommand::Scan(changed).execute(&mut core), Ok(()));
    assert!(matches!(core.scan_status(), ScanStatus::Done(0)));
}
