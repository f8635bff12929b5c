//! The vocabulary a front-end uses to talk to the engine: what to attach to,
//! what to scan for, and how things stand.
use vstd::prelude::*;

use vstd::string::StringExecFns;

use crate::filter::ScanFilter;
use crate::parse::{decimal, parse_decimal, MAGNITUDE_CAP};
use crate::scanner::{scanned, scanner_wf, Scanner, ScannerView};
use crate::text::{decimal_text, push_decimal};
use crate::Process;

verus! {

/// What to attach to.
#[derive(Debug, Clone)]
pub enum AttachTarget {
    Process(u32),
    Window(String),
    Other(String),
}

impl AttachTarget {
    /// A copy of the target.
    pub fn duplicate(&self) -> (r: Self)
        ensures
            r == *self,
    {
        match self {
            AttachTarget::Process(pid) => AttachTarget::Process(*pid),
            AttachTarget::Window(title) => AttachTarget::Window(title.clone()),
            AttachTarget::Other(tag) => AttachTarget::Other(tag.clone()),
        }
    }
}

/// Whether the engine is attached, and to what.
#[derive(Debug, Clone)]
pub enum AttachStatus {
    Detached,
    Attached(AttachTarget),
    Unknown,
}

impl Default for AttachStatus {
    fn default() -> (r: Self)
        ensures
            r == AttachStatus::Detached,
    {
        AttachStatus::Detached
    }
}

/// How the last scan went.
#[derive(Debug, Clone)]
pub enum ScanStatus {
    /// Ready to scan
    Ready,
    /// A scan is currently in progress
    Scanning,
    /// Done scanning, with this many results.
    Done(u64),
    /// Scan failed for some reason
    Failed(String),
    /// Unknown status
    Unknown,
}

impl Default for ScanStatus {
    fn default() -> (r: Self)
        ensures
            r == ScanStatus::Ready,
    {
        ScanStatus::Ready
    }
}

/// How a front-end names the process to attach to.
#[derive(Debug, Default, PartialEq, Eq, Clone, Copy, Structural)]
pub enum AttachType {
    #[default]
    ByPID,
    ByWindowName,
}

/// The kinds of scan a front-end offers.
#[derive(Default, PartialEq, Eq, Debug, Clone, Copy, Structural)]
pub enum ScanType {
    #[default]
    Exact,
    Unknown,
    Increased,
    Decreased,
}

/// The numeric types a front-end offers.
#[derive(Default, PartialEq, Eq, Debug, Clone, Copy, Structural)]
pub enum MemType {
    #[default]
    U8,
    U16,
    U32,
    U64,
    I8,
    I16,
    I32,
    I64,
    F32,
    F64,
    Unknown,
}

impl MemType {
    /// Whether values of the type can be negative.
    pub open spec fn signed(self) -> bool {
        match self {
            MemType::I8 | MemType::I16 | MemType::I32 | MemType::I64 => true,
            _ => false,
        }
    }

    /// The least value of an integer type.
    pub open spec fn min_value(self) -> int {
        match self {
            MemType::U8 => 0,
            MemType::U16 => 0,
            MemType::U32 => 0,
            MemType::U64 => 0,
            MemType::I8 => -0x80,
            MemType::I16 => -0x8000,
            MemType::I32 => -0x8000_0000,
            MemType::I64 => -0x8000_0000_0000_0000,
            _ => 0,
        }
    }

    /// The greatest value of an integer type.
    pub open spec fn max_value(self) -> int {
        match self {
            MemType::U8 => 0xff,
            MemType::U16 => 0xffff,
            MemType::U32 => 0xffff_ffff,
            MemType::U64 => 0xffff_ffff_ffff_ffff,
            MemType::I8 => 0x7f,
            MemType::I16 => 0x7fff,
            MemType::I32 => 0x7fff_ffff,
            MemType::I64 => 0x7fff_ffff_ffff_ffff,
            _ => -1,
        }
    }

    /// The value `v` of an integer type.
    pub open spec fn value_of(self, v: int) -> MemValue {
        match self {
            MemType::U8 => MemValue::U8(v as u8),
            MemType::U16 => MemValue::U16(v as u16),
            MemType::U32 => MemValue::U32(v as u32),
            MemType::U64 => MemValue::U64(v as u64),
            MemType::I8 => MemValue::I8(v as i8),
            MemType::I16 => MemValue::I16(v as i16),
            MemType::I32 => MemValue::I32(v as i32),
            MemType::I64 => MemValue::I64(v as i64),
            _ => MemValue::Null,
        }
    }

    /// Whether values of the type can be negative.
    pub fn is_signed(&self) -> (r: bool)
        ensures
            r == self.signed(),
    {
        match self {
            MemType::I8 | MemType::I16 | MemType::I32 | MemType::I64 => true,
            _ => false,
        }
    }

    /// The value `v` of an integer type, when it fits.
    fn fit(&self, v: i128) -> (r: Result<MemValue, FilterError>)
        requires
            self.min_value() <= self.max_value(),
        ensures
            r == if self.min_value() <= v <= self.max_value() {
                Ok::<MemValue, FilterError>(self.value_of(v as int))
            } else {
                Err(FilterError::OutOfRange)
            },
    {
        match self {
            MemType::U8 => if 0 <= v && v <= 0xff {
                Ok(MemValue::U8(v as u8))
            } else {
                Err(FilterError::OutOfRange)
            },
            MemType::U16 => if 0 <= v && v <= 0xffff {
                Ok(MemValue::U16(v as u16))
            } else {
                Err(FilterError::OutOfRange)
            },
            MemType::U32 => if 0 <= v && v <= 0xffff_ffff {
                Ok(MemValue::U32(v as u32))
            } else {
                Err(FilterError::OutOfRange)
            },
            MemType::U64 => if 0 <= v && v <= 0xffff_ffff_ffff_ffff {
                Ok(MemValue::U64(v as u64))
            } else {
                Err(FilterError::OutOfRange)
            },
            MemType::I8 => if -0x80 <= v && v <= 0x7f {
                Ok(MemValue::I8(v as i8))
            } else {
                Err(FilterError::OutOfRange)
            },
            MemType::I16 => if -0x8000 <= v && v <= 0x7fff {
                Ok(MemValue::I16(v as i16))
            } else {
                Err(FilterError::OutOfRange)
            },
            MemType::I32 => if -0x8000_0000 <= v && v <= 0x7fff_ffff {
                Ok(MemValue::I32(v as i32))
            } else {
                Err(FilterError::OutOfRange)
            },
            MemType::I64 => if -0x8000_0000_0000_0000 <= v && v <= 0x7fff_ffff_ffff_ffff {
                Ok(MemValue::I64(v as i64))
            } else {
                Err(FilterError::OutOfRange)
            },
            _ => Err(FilterError::OutOfRange),
        }
    }

    /// Reads `value` as a decimal integer of this type.
    pub fn parse_value(&self, value: &str) -> (r: Result<MemValue, FilterError>)
        ensures
            r == parsed(*self, value@),
    {
        match self {
            MemType::F32 => {
                return Err(FilterError::Unsupported(MemType::F32));
            },
            MemType::F64 => {
                return Err(FilterError::Unsupported(MemType::F64));
            },
            MemType::Unknown => {
                return Err(FilterError::UnknownType);
            },
            _ => {},
        }
        match parse_decimal(value, self.is_signed()) {
            None => Err(FilterError::InvalidValue),
            Some((neg, mag)) => {
                if mag >= MAGNITUDE_CAP {
                    Err(FilterError::OutOfRange)
                } else {
                    let v: i128 = if neg {
                        -(mag as i128)
                    } else {
                        mag as i128
                    };
                    self.fit(v)
                }
            },
        }
    }
}

impl MemType {
    /// The name a front-end shows for the type.
    pub open spec fn label_text(self) -> Seq<char> {
        match self {
            MemType::U8 => "8-bit Integer (unsigned)"@,
            MemType::U16 => "16-bit Integer (unsigned)"@,
            MemType::U32 => "32-bit Integer (unsigned)"@,
            MemType::U64 => "64-bit Integer (unsigned)"@,
            MemType::I8 => "8-bit Integer (signed)"@,
            MemType::I16 => "16-bit Integer (signed)"@,
            MemType::I32 => "32-bit Integer (signed)"@,
            MemType::I64 => "64-bit Integer (signed)"@,
            MemType::F32 => "Float (32-bit)"@,
            MemType::F64 => "Float (64-bit)"@,
            MemType::Unknown => "Unknown"@,
        }
    }

    /// The name a front-end shows for the type.
    pub fn label(&self) -> (r: &'static str)
        ensures
            r@ == self.label_text(),
    {
        match self {
            MemType::U8 => {
                proof {
                    reveal_strlit("8-bit Integer (unsigned)");
                }
                "8-bit Integer (unsigned)"
            },
            MemType::U16 => {
                proof {
                    reveal_strlit("16-bit Integer (unsigned)");
                }
                "16-bit Integer (unsigned)"
            },
            MemType::U32 => {
                proof {
                    reveal_strlit("32-bit Integer (unsigned)");
                }
                "32-bit Integer (unsigned)"
            },
            MemType::U64 => {
                proof {
                    reveal_strlit("64-bit Integer (unsigned)");
                }
                "64-bit Integer (unsigned)"
            },
            MemType::I8 => {
                proof {
                    reveal_strlit("8-bit Integer (signed)");
                }
                "8-bit Integer (signed)"
            },
            MemType::I16 => {
                proof {
                    reveal_strlit("16-bit Integer (signed)");
                }
                "16-bit Integer (signed)"
            },
            MemType::I32 => {
                proof {
                    reveal_strlit("32-bit Integer (signed)");
                }
                "32-bit Integer (signed)"
            },
            MemType::I64 => {
                proof {
                    reveal_strlit("64-bit Integer (signed)");
                }
                "64-bit Integer (signed)"
            },
            MemType::F32 => {
                proof {
                    reveal_strlit("Float (32-bit)");
                }
                "Float (32-bit)"
            },
            MemType::F64 => {
                proof {
                    reveal_strlit("Float (64-bit)");
                }
                "Float (64-bit)"
            },
            MemType::Unknown => {
                proof {
                    reveal_strlit("Unknown");
                }
                "Unknown"
            },
        }
    }
}

impl ScanType {
    /// The name a front-end shows for the kind of scan.
    pub open spec fn label_text(self) -> Seq<char> {
        match self {
            ScanType::Exact => "Exact"@,
            ScanType::Unknown => "Unknown"@,
            ScanType::Increased => "Increased"@,
            ScanType::Decreased => "Decreased"@,
        }
    }

    /// The name a front-end shows for the kind of scan.
    pub fn label(&self) -> (r: &'static str)
        ensures
            r@ == self.label_text(),
    {
        match self {
            ScanType::Exact => {
                proof {
                    reveal_strlit("Exact");
                }
                "Exact"
            },
            ScanType::Unknown => {
                proof {
                    reveal_strlit("Unknown");
                }
                "Unknown"
            },
            ScanType::Increased => {
                proof {
                    reveal_strlit("Increased");
                }
                "Increased"
            },
            ScanType::Decreased => {
                proof {
                    reveal_strlit("Decreased");
                }
                "Decreased"
            },
        }
    }
}

/// `v` in decimal, with a minus sign when negative.
pub open spec fn signed_text(v: int) -> Seq<char> {
    if v < 0 {
        seq!['-'] + decimal_text((-v) as nat)
    } else {
        decimal_text(v as nat)
    }
}

impl MemValue {
    /// The value as a front-end shows it.
    pub open spec fn text(self) -> Seq<char> {
        match self {
            MemValue::U8(x) => signed_text(x as int),
            MemValue::U16(x) => signed_text(x as int),
            MemValue::U32(x) => signed_text(x as int),
            MemValue::U64(x) => signed_text(x as int),
            MemValue::I8(x) => signed_text(x as int),
            MemValue::I16(x) => signed_text(x as int),
            MemValue::I32(x) => signed_text(x as int),
            MemValue::I64(x) => signed_text(x as int),
            MemValue::Null => "null"@,
        }
    }

    /// The value as a front-end shows it.
    pub fn describe(&self) -> (r: String)
        ensures
            r@ == self.text(),
    {
        proof {
            reveal_strlit("-");
            reveal_strlit("null");
        }
        let mut s = String::new();
        match self {
            MemValue::U8(x) => push_decimal(&mut s, *x as u64),
            MemValue::U16(x) => push_decimal(&mut s, *x as u64),
            MemValue::U32(x) => push_decimal(&mut s, *x as u64),
            MemValue::U64(x) => push_decimal(&mut s, *x as u64),
            MemValue::I8(x) => {
                if *x < 0 {
                    s.append("-");
                    push_decimal(&mut s, (-(*x as i128)) as u64);
                } else {
                    push_decimal(&mut s, *x as u64);
                }
            },
            MemValue::I16(x) => {
                if *x < 0 {
                    s.append("-");
                    push_decimal(&mut s, (-(*x as i128)) as u64);
                } else {
                    push_decimal(&mut s, *x as u64);
                }
            },
            MemValue::I32(x) => {
                if *x < 0 {
                    s.append("-");
                    push_decimal(&mut s, (-(*x as i128)) as u64);
                } else {
                    push_decimal(&mut s, *x as u64);
                }
            },
            MemValue::I64(x) => {
                if *x < 0 {
                    s.append("-");
                    push_decimal(&mut s, (-(*x as i128)) as u64);
                } else {
                    push_decimal(&mut s, *x as u64);
                }
            },
            MemValue::Null => s.append("null"),
        }
        proof {
            assert(s@ =~= self.text());
        }
        s
    }
}

impl ScanStatus {
    /// The status as a front-end shows it.
    pub open spec fn text(self) -> Seq<char> {
        match self {
            ScanStatus::Ready => "Ready to scan"@,
            ScanStatus::Scanning => "Scanning..."@,
            ScanStatus::Done(n) => "Scan complete ("@ + decimal_text(n as nat) + " Results)"@,
            ScanStatus::Failed(reason) => "Scan Failed ("@ + reason@ + ")"@,
            ScanStatus::Unknown => Seq::empty(),
        }
    }

    /// The status as a front-end shows it.
    pub fn describe(&self) -> (r: String)
        ensures
            r@ == self.text(),
    {
        proof {
            reveal_strlit("Ready to scan");
            reveal_strlit("Scanning...");
            reveal_strlit("Scan complete (");
            reveal_strlit(" Results)");
            reveal_strlit("Scan Failed (");
            reveal_strlit(")");
        }
        let mut s = String::new();
        match self {
            ScanStatus::Ready => s.append("Ready to scan"),
            ScanStatus::Scanning => s.append("Scanning..."),
            ScanStatus::Done(n) => {
                s.append("Scan complete (");
                push_decimal(&mut s, *n);
                s.append(" Results)");
            },
            ScanStatus::Failed(reason) => {
                s.append("Scan Failed (");
                s.append(reason.as_str());
                s.append(")");
            },
            ScanStatus::Unknown => {},
        }
        proof {
            assert(s@ =~= self.text());
        }
        s
    }
}

/// What `MemType::parse_value` makes of the text `s` for type `t`: a decimal
/// integer (an optional sign, `-` only for signed types, then digits) that
/// fits the type.
pub open spec fn parsed(t: MemType, s: Seq<char>) -> Result<MemValue, FilterError> {
    match t {
        MemType::F32 => Err(FilterError::Unsupported(MemType::F32)),
        MemType::F64 => Err(FilterError::Unsupported(MemType::F64)),
        MemType::Unknown => Err(FilterError::UnknownType),
        _ => match decimal(s, t.signed()) {
            None => Err(FilterError::InvalidValue),
            Some(v) => if t.min_value() <= v <= t.max_value() {
                Ok(t.value_of(v))
            } else {
                Err(FilterError::OutOfRange)
            },
        },
    }
}

/// An integer value of one of the scannable integer types.
#[derive(Debug, Clone, Copy, PartialEq, Eq, Structural)]
pub enum MemValue {
    U8(u8),
    U16(u16),
    U32(u32),
    U64(u64),
    I8(i8),
    I16(i16),
    I32(i32),
    I64(i64),
    Null,
}

/// The type of a value (`Unknown` for `Null`).
pub open spec fn type_of(value: MemValue) -> MemType {
    match value {
            MemValue::U8(_) => MemType::U8,
            MemValue::U16(_) => MemType::U16,
            MemValue::U32(_) => MemType::U32,
            MemValue::U64(_) => MemType::U64,
            MemValue::I8(_) => MemType::I8,
            MemValue::I16(_) => MemType::I16,
            MemValue::I32(_) => MemType::I32,
            MemValue::I64(_) => MemType::I64,
        MemValue::Null => MemType::Unknown,
    }
}

impl From<MemValue> for MemType {
    fn from(value: MemValue) -> (r: Self)
        ensures
            r == type_of(value),
    {
        match value {
            MemValue::U8(_) => MemType::U8,
            MemValue::U16(_) => MemType::U16,
            MemValue::U32(_) => MemType::U32,
            MemValue::U64(_) => MemType::U64,
            MemValue::I8(_) => MemType::I8,
            MemValue::I16(_) => MemType::I16,
            MemValue::I32(_) => MemType::I32,
            MemValue::I64(_) => MemType::I64,
            MemValue::Null => MemType::Unknown,
        }
    }
}

impl vstd::std_specs::convert::FromSpecImpl<MemValue> for MemType {
    open spec fn obeys_from_spec() -> bool {
        true
    }

    open spec fn from_spec(v: MemValue) -> MemType {
        type_of(v)
    }
}

/// Why a filter, or the value it needs, could not be built.
#[derive(Debug, Clone, Copy, PartialEq, Eq, Structural)]
pub enum FilterError {
    /// An exact scan was asked for without a value.
    MissingValue,
    /// The text is not a decimal integer.
    InvalidValue,
    /// The number does not fit the type.
    OutOfRange,
    /// The type of the values is not known.
    UnknownType,
    /// The type is not one that this library scans with.
    Unsupported(MemType),
}

/// A scan filter together with the integer type it reads memory as.
#[derive(Debug, Clone, Copy)]
pub enum GenericScanFilter {
    U8(ScanFilter<u8>),
    U16(ScanFilter<u16>),
    U32(ScanFilter<u32>),
    U64(ScanFilter<u64>),
    I8(ScanFilter<i8>),
    I16(ScanFilter<i16>),
    I32(ScanFilter<i32>),
    I64(ScanFilter<i64>),
}

/// The filter of kind `k` for values of type `T`, when the kind needs no value.
pub open spec fn valueless<T>(k: ScanType) -> ScanFilter<T> {
    match k {
        ScanType::Increased => ScanFilter::Increased,
        ScanType::Decreased => ScanFilter::Decreased,
        _ => ScanFilter::Unknown,
    }
}

fn valueless_filter<T>(k: ScanType) -> (r: ScanFilter<T>)
    ensures
        r == valueless::<T>(k),
{
    match k {
        ScanType::Increased => ScanFilter::Increased,
        ScanType::Decreased => ScanFilter::Decreased,
        _ => ScanFilter::Unknown,
    }
}

/// The filter that `GenericScanFilter::new` builds from its arguments.
pub open spec fn filter_for(scan_type: ScanType, mem_type: MemType, mem_value: Option<MemValue>) -> Result<
    GenericScanFilter,
    FilterError,
> {
    match scan_type {
        ScanType::Exact => match mem_value {
            None => Err(FilterError::MissingValue),
            Some(MemValue::U8(v)) => Ok(GenericScanFilter::U8(ScanFilter::Exact(v))),
            Some(MemValue::U16(v)) => Ok(GenericScanFilter::U16(ScanFilter::Exact(v))),
            Some(MemValue::U32(v)) => Ok(GenericScanFilter::U32(ScanFilter::Exact(v))),
            Some(MemValue::U64(v)) => Ok(GenericScanFilter::U64(ScanFilter::Exact(v))),
            Some(MemValue::I8(v)) => Ok(GenericScanFilter::I8(ScanFilter::Exact(v))),
            Some(MemValue::I16(v)) => Ok(GenericScanFilter::I16(ScanFilter::Exact(v))),
            Some(MemValue::I32(v)) => Ok(GenericScanFilter::I32(ScanFilter::Exact(v))),
            Some(MemValue::I64(v)) => Ok(GenericScanFilter::I64(ScanFilter::Exact(v))),
            Some(MemValue::Null) => Err(FilterError::UnknownType),
        },
        _ => match mem_type {
            MemType::U8 => Ok(GenericScanFilter::U8(valueless(scan_type))),
            MemType::U16 => Ok(GenericScanFilter::U16(valueless(scan_type))),
            MemType::U32 => Ok(GenericScanFilter::U32(valueless(scan_type))),
            MemType::U64 => Ok(GenericScanFilter::U64(valueless(scan_type))),
            MemType::I8 => Ok(GenericScanFilter::I8(valueless(scan_type))),
            MemType::I16 => Ok(GenericScanFilter::I16(valueless(scan_type))),
            MemType::I32 => Ok(GenericScanFilter::I32(valueless(scan_type))),
            MemType::I64 => Ok(GenericScanFilter::I64(valueless(scan_type))),
            MemType::F32 => Err(FilterError::Unsupported(MemType::F32)),
            MemType::F64 => Err(FilterError::Unsupported(MemType::F64)),
            MemType::Unknown => Err(FilterError::UnknownType),
        },
    }
}

impl GenericScanFilter {
    /// What a pass of this filter makes of a scanner in state `s0`.
    pub open spec fn applied(self, s0: ScannerView, s1: ScannerView) -> bool {
        match self {
            GenericScanFilter::U8(f) => scanned(s0, s1, f),
            GenericScanFilter::U16(f) => scanned(s0, s1, f),
            GenericScanFilter::U32(f) => scanned(s0, s1, f),
            GenericScanFilter::U64(f) => scanned(s0, s1, f),
            GenericScanFilter::I8(f) => scanned(s0, s1, f),
            GenericScanFilter::I16(f) => scanned(s0, s1, f),
            GenericScanFilter::I32(f) => scanned(s0, s1, f),
            GenericScanFilter::I64(f) => scanned(s0, s1, f),
        }
    }

    /// Performs a scan pass with this filter, reading memory as its type.
    pub fn scan<P: Process>(&self, scanner: &mut Scanner<P>)
        requires
            scanner_wf(old(scanner)@),
        ensures
            self.applied(old(scanner)@, final(scanner)@),
            final(scanner).target() == old(scanner).target(),
    {
        match self {
            GenericScanFilter::U8(f) => scanner.scan(*f),
            GenericScanFilter::U16(f) => scanner.scan(*f),
            GenericScanFilter::U32(f) => scanner.scan(*f),
            GenericScanFilter::U64(f) => scanner.scan(*f),
            GenericScanFilter::I8(f) => scanner.scan(*f),
            GenericScanFilter::I16(f) => scanner.scan(*f),
            GenericScanFilter::I32(f) => scanner.scan(*f),
            GenericScanFilter::I64(f) => scanner.scan(*f),
        }
    }

    /// Create a scan filter for the given memory type, and optionally a value.
    ///
    /// An exact scan takes its type from the value; the other kinds take it
    /// from `mem_type`.
    pub fn new(scan_type: ScanType, mem_type: MemType, mem_value: Option<MemValue>) -> (r: Result<Self, FilterError>)
        ensures
            r == filter_for(scan_type, mem_type, mem_value),
    {
        match scan_type {
            ScanType::Exact => match mem_value {
                None => Err(FilterError::MissingValue),
                Some(MemValue::U8(v)) => Ok(GenericScanFilter::U8(ScanFilter::Exact(v))),
                Some(MemValue::U16(v)) => Ok(GenericScanFilter::U16(ScanFilter::Exact(v))),
                Some(MemValue::U32(v)) => Ok(GenericScanFilter::U32(ScanFilter::Exact(v))),
                Some(MemValue::U64(v)) => Ok(GenericScanFilter::U64(ScanFilter::Exact(v))),
                Some(MemValue::I8(v)) => Ok(GenericScanFilter::I8(ScanFilter::Exact(v))),
                Some(MemValue::I16(v)) => Ok(GenericScanFilter::I16(ScanFilter::Exact(v))),
                Some(MemValue::I32(v)) => Ok(GenericScanFilter::I32(ScanFilter::Exact(v))),
                Some(MemValue::I64(v)) => Ok(GenericScanFilter::I64(ScanFilter::Exact(v))),
                Some(MemValue::Null) => Err(FilterError::UnknownType),
            },
            _ => match mem_type {
                MemType::U8 => Ok(GenericScanFilter::U8(valueless_filter(scan_type))),
                MemType::U16 => Ok(GenericScanFilter::U16(valueless_filter(scan_type))),
                MemType::U32 => Ok(GenericScanFilter::U32(valueless_filter(scan_type))),
                MemType::U64 => Ok(GenericScanFilter::U64(valueless_filter(scan_type))),
                MemType::I8 => Ok(GenericScanFilter::I8(valueless_filter(scan_type))),
                MemType::I16 => Ok(GenericScanFilter::I16(valueless_filter(scan_type))),
                MemType::I32 => Ok(GenericScanFilter::I32(valueless_filter(scan_type))),
                MemType::I64 => Ok(GenericScanFilter::I64(valueless_filter(scan_type))),
                MemType::F32 => Err(FilterError::Unsupported(MemType::F32)),
                MemType::F64 => Err(FilterError::Unsupported(MemType::F64)),
                MemType::Unknown => Err(FilterError::UnknownType),
            },
        }
    }
}

} // verus!
