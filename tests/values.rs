use hoodmem::cheat::{Cheat, CheatSummary, CheatType};
use hoodmem::filter::ScanFilter;
use hoodmem::types::{AttachStatus, FilterError, GenericScanFilter, MemType, MemValue, ScanStatus, ScanType};

#[test]
fn parse_each_integer_type() {
    assert_eq!(MemType::U8.parse_value("255"), Ok(MemValue::U8(255)));
    assert_eq!(MemType::U16.parse_value("+513"), Ok(MemValue::U16(513)));
    assert_eq!(MemType::U32.parse_value("4294967295"), Ok(MemValue::U32(u32::MAX)));
    assert_eq!(MemType::U64.parse_value("18446744073709551615"), Ok(MemValue::U64(u64::MAX)));
    assert_eq!(MemType::I8.parse_value("-128"), Ok(MemValue::I8(-128)));
    assert_eq!(MemType::I16.parse_value("-0"), Ok(MemValue::I16(0)));
    assert_eq!(MemType::I32.parse_value("007"), Ok(MemValue::I32(7)));
    assert_eq!(MemType::I64.parse_value("-9223372036854775808"), Ok(MemValue::I64(i64::MIN)));
}

#[test]
fn parse_rejections() {
    assert_eq!(MemType::U8.parse_value("256"), Err(FilterError::OutOfRange));
    assert_eq!(MemType::I8.parse_value("-129"), Err(FilterError::OutOfRange));
    assert_eq!(MemType::U64.parse_value("99999999999999999999999999"), Err(FilterError::OutOfRange));
    assert_eq!(MemType::U8.parse_value("-1"), Err(FilterError::InvalidValue));
    assert_eq!(MemType::U8.parse_value(""), Err(FilterError::InvalidValue));
    assert_eq!(MemType::I8.parse_value("-"), Err(FilterError::InvalidValue));
    assert_eq!(MemType::U8.parse_value("+"), Err(FilterError::InvalidValue));
    assert_eq!(MemType::U8.parse_value(" 1"), Err(FilterError::InvalidValue));
    assert_eq!(MemType::U8.parse_value("1a"), Err(FilterError::InvalidValue));
    assert_eq!(MemType::F32.parse_value("1.5"), Err(FilterError::Unsupported(MemType::F32)));
    assert_eq!(MemType::F64.parse_value("1.5"), Err(FilterError::Unsupported(MemType::F64)));
    assert_eq!(MemType::Unknown.parse_value("1"), Err(FilterError::UnknownType));
}

#[test]
fn filters_from_front_end_choices() {
    let exact = GenericScanFilter::new(ScanType::Exact, MemType::U8, Some(MemValue::I32(-4)));
    assert!(matches!(exact, Ok(GenericScanFilter::I32(ScanFilter::Exact(-4)))));
    let unknown = GenericScanFilter::new(ScanType::Unknown, MemType::U16, None);
    assert!(matches!(unknown, Ok(GenericScanFilter::U16(ScanFilter::Unknown))));
    let increased = GenericScanFilter::new(ScanType::Increased, MemType::I64, None);
    assert!(matches!(increased, Ok(GenericScanFilter::I64(ScanFilter::Increased))));
    let decreased = GenericScanFilter::new(ScanType::Decreased, MemType::U64, Some(MemValue::U8(1)));
    assert!(matches!(decreased, Ok(GenericScanFilter::U64(ScanFilter::Decreased))));
}

#[test]
fn filter_construction_errors() {
    assert!(matches!(GenericScanFilter::new(ScanType::Exact, MemType::U8, None), Err(FilterError::MissingValue)));
    assert!(matches!(
        GenericScanFilter::new(ScanType::Exact, MemType::U8, Some(MemValue::Null)),
        Err(FilterError::UnknownType)
    ));
    assert!(matches!(GenericScanFilter::new(ScanType::Unknown, MemType::Unknown, None), Err(FilterError::UnknownType)));
    assert!(matches!(
        GenericScanFilter::new(ScanType::Increased, MemType::F32, None),
        Err(FilterError::Unsupported(MemType::F32))
    ));
    assert!(matches!(
        GenericScanFilter::new(ScanType::Decreased, MemType::F64, None),
        Err(FilterError::Unsupported(MemType::F64))
    ));
}

#[test]
fn labels() {
    assert_eq!(MemType::U8.label(), "8-bit Integer (unsigned)");
    assert_eq!(MemType::I64.label(), "64-bit Integer (signed)");
    assert_eq!(MemType::F32.label(), "Float (32-bit)");
    assert_eq!(MemType::Unknown.label(), "Unknown");
    assert_eq!(ScanType::Exact.label(), "Exact");
    assert_eq!(ScanType::Decreased.label(), "Decreased");
}

#[test]
fn status_text() {
    assert_eq!(ScanStatus::Ready.describe(), "Ready to scan");
    assert_eq!(ScanStatus::Scanning.describe(), "Scanning...");
    assert_eq!(ScanStatus::Done(1234).describe(), "Scan complete (1234 Results)");
    assert_eq!(ScanStatus::Done(0).describe(), "Scan complete (0 Results)");
    assert_eq!(ScanStatus::Failed("no".to_string()).describe(), "Scan Failed (no)");
    assert_eq!(ScanStatus::Unknown.describe(), "");
    assert!(matches!(ScanStatus::default(), ScanStatus::Ready));
    assert!(matches!(AttachStatus::default(), AttachStatus::Detached));
}

#[test]
fn value_text() {
    assert_eq!(MemValue::U8(0).describe(), "0");
    assert_eq!(MemValue::U64(u64::MAX).describe(), "18446744073709551615");
    assert_eq!(MemValue::I8(-128).describe(), "-128");
    assert_eq!(MemValue::I64(i64::MIN).describe(), "-9223372036854775808");
    assert_eq!(MemValue::I32(42).describe(), "42");
    assert_eq!(MemValue::Null.describe(), "null");
}

#[test]
fn cheat_summaries() {
    let simple = CheatType::Simple { addr: 0x1040, mem_type: MemType::U32 };
    assert_eq!(simple.get_summary(), "[32-bit Integer (unsigned)] 0x0000000000001040");
    assert_eq!(simple.describe(), "Simple (32-bit Integer (unsigned))");
    let cheat = Cheat {
        enabled: true,
        name: "gold".to_string(),
        cheat_type: CheatType::Simple { addr: u64::MAX, mem_type: MemType::I8 },
    };
    assert_eq!(cheat.get_summary(), "[8-bit Integer (signed)] 0xffffffffffffffff");
}

#[test]
fn type_of_a_value() {
    assert!(MemType::from(MemValue::I16(-3)) == MemType::I16);
    assert!(MemType::from(MemValue::U64(3)) == MemType::U64);
    assert!(MemType::from(MemValue::Null) == MemType::Unknown);
    assert!(MemType::I8.is_signed());
    assert!(!MemType::U32.is_signed());
}
