//! The engine a front-end drives by commands: attachment, the scan session
//! and the statuses it reports.
use vstd::prelude::*;

use crate::filter::ScanFilter;
use crate::primitive::Compare;
use crate::scanner::{known_hits, scanned, scanner_wf, total_hits, Scanner, ScannerView};
use crate::types::{AttachStatus, AttachTarget, GenericScanFilter, ScanStatus};
use crate::Process;

verus! {

/// Why a process could not be opened.
#[derive(Debug, Clone, Copy, PartialEq, Eq, Structural)]
pub enum AttachError {
    NotFound,
    PermissionDenied,
}

/// Why a command was refused.
#[derive(Debug, Clone, Copy, PartialEq, Eq, Structural)]
pub enum CoreError {
    /// Attach while attached.
    AlreadyAttached,
    /// The attach status is not known.
    StatusUnknown,
    /// The kind of target has no way of attaching yet.
    Unsupported,
    /// The process could not be opened.
    Open(AttachError),
    /// Scan while detached.
    NotAttached,
}

/// A command to the engine. An attach command carries the outcome of opening
/// the target, which the platform provides.
pub enum CoreCommand<P> {
    /// Attach to a process
    Attach(AttachTarget, Result<P, AttachError>),
    /// Detach from the current process
    Detach,
    /// The unknown command. Does nothing
    Unknown,
    /// Shut down the worker that runs the commands
    Stop,
    /// Initializes a new scan
    NewScan,
    /// Performs a scan with the given `GenericScanFilter`
    Scan(GenericScanFilter),
}

/// What an engine's state is made of, for contracts.
pub struct CoreView {
    pub scanner: Option<ScannerView>,
    pub attach_status: AttachStatus,
    pub scan_status: ScanStatus,
}

/// The engine state: attached to at most one process, with a scan session on
/// it while attached.
pub struct Core<P> {
    scanner: Option<Scanner<P>>,
    attach_status: AttachStatus,
    scan_status: ScanStatus,
}

impl<P> View for Core<P> {
    type V = CoreView;

    closed spec fn view(&self) -> CoreView {
        CoreView {
            scanner: match self.scanner {
                Some(s) => Some(s@),
                None => None,
            },
            attach_status: self.attach_status,
            scan_status: self.scan_status,
        }
    }
}

/// An engine state that commands can work from: a session exactly while
/// attached.
pub open spec fn core_wf(c: CoreView) -> bool {
    &&& (c.scanner is Some <==> c.attach_status is Attached)
    &&& c.scanner matches Some(s) ==> scanner_wf(s)
}

/// The session of a scanner that has not scanned yet.
pub open spec fn pristine() -> ScannerView {
    ScannerView { regions: Seq::empty(), is_new_scan: true, width: 0 }
}

/// What an attach to `target` answers, given the outcome of opening it.
pub open spec fn attach_result<P>(c: CoreView, target: AttachTarget, opened: Result<P, AttachError>) -> Result<
    (),
    CoreError,
> {
    match c.attach_status {
        AttachStatus::Attached(_) => Err(CoreError::AlreadyAttached),
        AttachStatus::Unknown => Err(CoreError::StatusUnknown),
        AttachStatus::Detached => match target {
            AttachTarget::Other(_) => Err(CoreError::Unsupported),
            _ => match opened {
                Err(e) => Err(CoreError::Open(e)),
                Ok(_) => Ok(()),
            },
        },
    }
}

/// The count a finished scan reports.
pub open spec fn reported_count(s: ScannerView) -> u64 {
    if !known_hits(s.regions) {
        0
    } else if total_hits(s.regions) > usize::MAX {
        usize::MAX as u64
    } else {
        total_hits(s.regions) as u64
    }
}

impl<P> Core<P> {
    /// The attached process, while attached.
    pub closed spec fn target(&self) -> Option<P> {
        match self.scanner {
            Some(s) => Some(s.target()),
            None => None,
        }
    }
}

impl<P: Process> Core<P> {
    /// A detached engine, ready to scan once attached.
    pub fn new() -> (r: Self)
        ensures
            r@.scanner is None,
            r@.attach_status == AttachStatus::Detached,
            r@.scan_status == ScanStatus::Ready,
            core_wf(r@),
            r.target() is None,
    {
        Core { scanner: None, attach_status: AttachStatus::Detached, scan_status: ScanStatus::Ready }
    }

    pub fn attach_status(&self) -> (r: &AttachStatus)
        ensures
            *r == self@.attach_status,
    {
        &self.attach_status
    }

    pub fn scan_status(&self) -> (r: &ScanStatus)
        ensures
            *r == self@.scan_status,
    {
        &self.scan_status
    }

    /// The scan session, while attached.
    pub fn scanner(&self) -> (r: Option<&Scanner<P>>)
        ensures
            r matches Some(s) ==> self@.scanner == Some(s@),
            r is None ==> self@.scanner is None,
    {
        match &self.scanner {
            Some(s) => Some(s),
            None => None,
        }
    }

    /// The attached process, for changing it between commands.
    pub fn process_mut(&mut self) -> Option<&mut P> {
        match &mut self.scanner {
            Some(s) => Some(s.process_mut()),
            None => None,
        }
    }

    /// Attempt to attach to the target process, `opened` being the outcome
    /// of opening it. Refused while attached or while the status is unknown,
    /// and for a target of kind `Other`; then nothing changes.
    pub fn attach(&mut self, target: &AttachTarget, opened: Result<P, AttachError>) -> (r: Result<(), CoreError>)
        requires
            core_wf(old(self)@),
        ensures
            r == attach_result(old(self)@, *target, opened),
            core_wf(final(self)@),
            r is Err ==> final(self)@ == old(self)@ && final(self).target() == old(self).target(),
            opened matches Ok(p) ==> (r is Ok ==> final(self).target() == Some(p)),
            r is Ok ==> final(self)@ == (CoreView {
                scanner: Some(pristine()),
                attach_status: AttachStatus::Attached(*target),
                scan_status: old(self)@.scan_status,
            }),
    {
        match &self.attach_status {
            AttachStatus::Detached => match target {
                AttachTarget::Other(_) => Err(CoreError::Unsupported),
                _ => match opened {
                    Err(e) => Err(CoreError::Open(e)),
                    Ok(process) => {
                        self.scanner = Some(Scanner::new(process));
                        self.attach_status = AttachStatus::Attached(target.duplicate());
                        Ok(())
                    },
                },
            },
            AttachStatus::Attached(_) => Err(CoreError::AlreadyAttached),
            AttachStatus::Unknown => Err(CoreError::StatusUnknown),
        }
    }

    /// Detach from the current process
    pub fn detach(&mut self)
        ensures
            final(self)@ == (CoreView {
                scanner: None,
                attach_status: AttachStatus::Detached,
                scan_status: old(self)@.scan_status,
            }),
            core_wf(final(self)@),
            final(self).target() is None,
    {
        self.scanner = None;
        self.attach_status = AttachStatus::Detached;
    }

    /// Runs a scan pass with a filter of any scannable type, reporting
    /// `Done` with the number of hits; refused while detached.
    pub fn scan_with<T: Compare>(&mut self, filter: ScanFilter<T>) -> (r: Result<(), CoreError>)
        requires
            core_wf(old(self)@),
        ensures
            core_wf(final(self)@),
            final(self)@.attach_status == old(self)@.attach_status,
            final(self).target() == old(self).target(),
            match old(self)@.scanner {
                None => r == Err::<(), CoreError>(CoreError::NotAttached) && final(self)@ == old(self)@,
                Some(s0) => {
                    &&& r is Ok
                    &&& final(self)@.scanner matches Some(s1) && scanned(s0, s1, filter)
                        && final(self)@.scan_status == ScanStatus::Done(reported_count(s1))
                },
            },
    {
        match &mut self.scanner {
            Some(scanner) => {
                self.scan_status = ScanStatus::Scanning;
                scanner.scan(filter);
                let count: u64 = match scanner.count_results() {
                    Some(n) => n as u64,
                    None => 0,
                };
                self.scan_status = ScanStatus::Done(count);
                Ok(())
            },
            None => Err(CoreError::NotAttached),
        }
    }

    /// Whether the engine is attached to something.
    pub fn check_attached(&self) -> (r: bool)
        ensures
            r == self@.attach_status is Attached,
    {
        match &self.attach_status {
            AttachStatus::Attached(_) => true,
            _ => false,
        }
    }
}

impl<P: Process> Default for Core<P> {
    fn default() -> (r: Self)
        ensures
            r@.scanner is None,
            r@.attach_status == AttachStatus::Detached,
            r@.scan_status == ScanStatus::Ready,
            core_wf(r@),
    {
        Core::new()
    }
}

impl<P: Process> CoreCommand<P> {
    /// Runs the command on the engine.
    ///
    /// A scan while detached is refused and changes nothing; a new scan
    /// while detached does nothing. A scan reports `Done` with the number of
    /// hits (zero while no region has its hits known).
    pub fn execute(self, core: &mut Core<P>) -> (r: Result<(), CoreError>)
        requires
            core_wf(old(core)@),
        ensures
            core_wf(final(core)@),
            match self {
                CoreCommand::Attach(_, Ok(p)) => r is Ok ==> final(core).target() == Some(p),
                CoreCommand::Attach(_, Err(_)) => final(core).target() == old(core).target(),
                CoreCommand::Detach => final(core).target() is None,
                _ => final(core).target() == old(core).target(),
            },
            match self {
                CoreCommand::Attach(target, opened) => {
                    &&& r == attach_result(old(core)@, target, opened)
                    &&& r is Err ==> final(core)@ == old(core)@ && final(core).target() == old(core).target()
                    &&& r is Ok ==> final(core)@ == (CoreView {
                        scanner: Some(pristine()),
                        attach_status: AttachStatus::Attached(target),
                        scan_status: old(core)@.scan_status,
                    })
                },
                CoreCommand::Detach => r is Ok && final(core)@ == (CoreView {
                    scanner: None,
                    attach_status: AttachStatus::Detached,
                    scan_status: old(core)@.scan_status,
                }),
                CoreCommand::Unknown | CoreCommand::Stop => r is Ok && final(core)@ == old(core)@,
                CoreCommand::NewScan => r is Ok && match old(core)@.scanner {
                    None => final(core)@ == old(core)@,
                    Some(s) => final(core)@ == (CoreView {
                        scanner: Some(ScannerView { regions: Seq::empty(), is_new_scan: true, width: s.width }),
                        attach_status: old(core)@.attach_status,
                        scan_status: ScanStatus::Ready,
                    }),
                },
                CoreCommand::Scan(filter) => match old(core)@.scanner {
                    None => r == Err::<(), CoreError>(CoreError::NotAttached) && final(core)@ == old(core)@,
                    Some(s0) => {
                        &&& r is Ok
                        &&& final(core)@.scanner matches Some(s1) && filter.applied(s0, s1)
                            && final(core)@.scan_status == ScanStatus::Done(reported_count(s1))
                        &&& final(core)@.attach_status == old(core)@.attach_status
                    },
                },
            },
    {
        match self {
            CoreCommand::Attach(target, opened) => core.attach(&target, opened),
            CoreCommand::Detach => {
                core.detach();
                Ok(())
            },
            CoreCommand::Unknown | CoreCommand::Stop => Ok(()),
            CoreCommand::NewScan => {
                match &mut core.scanner {
                    Some(scanner) => {
                        scanner.new_scan();
                        core.scan_status = ScanStatus::Ready;
                    },
                    None => {},
                }
                Ok(())
            },
            CoreCommand::Scan(filter) => {
                match &mut core.scanner {
                    Some(scanner) => {
                        core.scan_status = ScanStatus::Scanning;
                        filter.scan(scanner);
                        let count: u64 = match scanner.count_results() {
                            Some(n) => n as u64,
                            None => 0,
                        };
                        core.scan_status = ScanStatus::Done(count);
                        Ok(())
                    },
                    None => Err(CoreError::NotAttached),
                }
            },
        }
    }
}

} // verus!
