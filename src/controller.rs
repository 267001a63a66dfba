//! The virtualization mode controller: the enable and disable protocols as a
//! state machine that asks for one hardware operation at a time.
use crate::feature_control::{plan_write, write_plan, FeatureControlState};
use crate::fixed_bits::{cr_is_valid, satisfies, ControlRegister, FixedBitsConstraint};
use crate::region::{revision_id_of, revision_of};
use vstd::prelude::*;
use x86_64::registers::control::Cr4Flags;

verus! {

/// CR4 bit that enables the virtualization extensions.
pub const CR4_VMXE: u64 = 0x2000;

/// Relies on x86_64's `Cr4Flags::contains` over `from_bits_retain`: true when
/// the virtualization-extensions bit (bit 13) is set in `bits`.
#[verifier::external_body]
fn cr4_vmx_enabled(bits: u64) -> (r: bool)
    ensures
        r == (bits & CR4_VMXE == CR4_VMXE),
{
    Cr4Flags::from_bits_retain(bits).contains(Cr4Flags::VIRTUAL_MACHINE_EXTENSIONS)
}

/// Relies on x86_64's `Cr4Flags::set` over `from_bits_retain`: sets or clears
/// the virtualization-extensions bit (bit 13) and keeps every other bit.
#[verifier::external_body]
fn cr4_with_vmx(bits: u64, enabled: bool) -> (r: u64)
    ensures
        r == (if enabled { bits | CR4_VMXE } else { bits & !CR4_VMXE }),
{
    let mut flags = Cr4Flags::from_bits_retain(bits);
    flags.set(Cr4Flags::VIRTUAL_MACHINE_EXTENSIONS, enabled);
    flags.bits()
}

/// Whether the virtualization-extensions bit is set in the CR4 value `cr4`.
pub open spec fn vmx_bit(cr4: u64) -> bool {
    cr4 & CR4_VMXE == CR4_VMXE
}

/// `cr4` with the virtualization-extensions bit set or cleared.
pub open spec fn with_vmx_bit(cr4: u64, enabled: bool) -> u64 {
    if enabled {
        cr4 | CR4_VMXE
    } else {
        cr4 & !CR4_VMXE
    }
}

/// The processor's virtualization state as this core tracks it.
#[derive(Clone, Copy, Debug, PartialEq, Eq, Structural)]
pub enum VmxState {
    Unsupported,
    Disabled,
    RootOperation,
}

/// How an enable or disable call ended.
#[derive(Clone, Copy, Debug, PartialEq, Eq, Structural)]
pub enum Outcome {
    HardwareUnsupported,
    AlreadyEnabled,
    AlreadyDisabled,
    PlatformLockDenied,
    Cr0Invalid,
    Cr4Invalid,
    RegionAllocFailed,
    EnterRootSucceeded,
    EnterRootFailed,
    ExitRootSucceeded,
    ExitRootFailed,
}

/// A hardware operation that the controller asks its caller to perform.
#[derive(Clone, Copy, Debug, PartialEq, Eq, Structural)]
pub enum Action {
    /// Query processor identification; answer `Probed`.
    ProbeSupport,
    /// Read CR4; answer `Value`.
    ReadCr4,
    /// Read the feature-control register; answer `Value`.
    ReadFeatureControl,
    /// Write the feature-control register; answer `Done`.
    WriteFeatureControl(u64),
    /// Read the control register and its two fixed-bit registers; answer `Constraint`.
    ReadConstraint(ControlRegister),
    /// Read the capability register that holds the revision identifier; answer `Value`.
    ReadVmxBasic,
    /// Allocate a zeroed page and stamp it with this revision identifier;
    /// answer `Allocated`.
    AllocateRegion(u32),
    /// Write CR4; answer `Done`.
    WriteCr4(u64),
    /// Execute the mode-entry instruction with the region at this physical
    /// address; answer `Status`.
    EnterRoot(u64),
    /// Execute the mode-exit instruction; answer `Status`.
    ExitRoot,
    /// Give the page at this physical address back to the allocator; answer `Done`.
    ReleaseRegion(u64),
    /// The call is over.
    Finish(Outcome),
}

/// The hardware's answer to the last action.
#[derive(Clone, Copy, Debug, PartialEq, Eq, Structural)]
pub enum Event {
    /// Whether the processor supports hardware virtualization.
    Probed(bool),
    /// The value of the register that was read.
    Value(u64),
    /// A control register's value and its constraint.
    Constraint(u64, FixedBitsConstraint),
    /// The physical address of the stamped page, or `None` when no page was free.
    Allocated(Option<u64>),
    /// The write or release was made.
    Done,
    /// Whether the privileged instruction succeeded.
    Status(bool),
}

/// Where a call stands between two actions.
#[derive(Clone, Copy, Debug, PartialEq, Eq, Structural)]
pub enum Phase {
    Idle,
    Probing,
    CheckingEnableBit,
    Unlocking,
    Locking,
    CheckingCr0,
    CheckingCr4,
    ReadingRevision { cr4: u64 },
    Allocating { cr4: u64 },
    SettingEnableBit { cr4: u64, region: u64 },
    Entering { cr4: u64, region: u64 },
    Restoring { region: u64 },
    Releasing { outcome: Outcome },
    CheckingDisableBit,
    Exiting { cr4: u64 },
    Clearing,
}

/// The mode controller of one processor.
///
/// An enable call probes for support, reads the enable bit in CR4, settles
/// the feature-control register, checks CR0 and then CR4 against their
/// fixed bits, reads the revision identifier, has a stamped region allocated,
/// sets the enable bit and executes the mode-entry instruction. When that
/// instruction fails, CR4 is written back as it was and the region is
/// released. A disable call reads the enable bit, executes the mode-exit
/// instruction, clears the bit and releases the region held since entry.
#[derive(Clone, Copy, Debug, PartialEq, Eq, Structural)]
pub struct ModeController {
    /// The tracked virtualization state.
    pub state: VmxState,
    /// The call in progress, `Idle` between calls.
    pub phase: Phase,
    /// Physical address of the control region while in root operation.
    pub region: Option<u64>,
}

/// The answer that `phase` waits for has the shape of `e`.
pub open spec fn accepts_spec(phase: Phase, e: Event) -> bool {
    match phase {
        Phase::Probing => e is Probed,
        Phase::CheckingEnableBit | Phase::Unlocking | Phase::ReadingRevision { .. }
        | Phase::CheckingDisableBit => e is Value,
        Phase::CheckingCr0 | Phase::CheckingCr4 => e is Constraint,
        Phase::Allocating { .. } => e is Allocated,
        Phase::Locking | Phase::SettingEnableBit { .. } | Phase::Restoring { .. }
        | Phase::Releasing { .. } | Phase::Clearing => e is Done,
        Phase::Entering { .. } | Phase::Exiting { .. } => e is Status,
        Phase::Idle => false,
    }
}

/// The feature-control request of the enable protocol: locked, with
/// root operation allowed outside secure mode.
pub open spec fn enable_request() -> FeatureControlState {
    FeatureControlState { locked: true, enabled_outside_secure_mode: true }
}

impl ModeController {
    /// The controller and action that finish a call with outcome `o` in state `s`.
    pub open spec fn finish(self, s: VmxState, o: Outcome) -> (ModeController, Action) {
        (ModeController { state: s, phase: Phase::Idle, ..self }, Action::Finish(o))
    }

    /// The controller in phase `p` and the action `a`.
    pub open spec fn ask(self, p: Phase, a: Action) -> (ModeController, Action) {
        (ModeController { phase: p, ..self }, a)
    }

    /// The transition on the hardware's answer `e`.
    pub open spec fn next(self, e: Event) -> (ModeController, Action) {
        match (self.phase, e) {
            (Phase::Probing, Event::Probed(supported)) => if supported {
                self.ask(Phase::CheckingEnableBit, Action::ReadCr4)
            } else {
                self.finish(VmxState::Unsupported, Outcome::HardwareUnsupported)
            },
            (Phase::CheckingEnableBit, Event::Value(cr4)) => if vmx_bit(cr4) {
                self.finish(self.state, Outcome::AlreadyEnabled)
            } else {
                self.ask(Phase::Unlocking, Action::ReadFeatureControl)
            },
            (Phase::Unlocking, Event::Value(raw)) => match write_plan(raw, enable_request()) {
                Err(_) => self.finish(VmxState::Disabled, Outcome::PlatformLockDenied),
                Ok(None) => self.ask(
                    Phase::CheckingCr0,
                    Action::ReadConstraint(ControlRegister::Cr0),
                ),
                Ok(Some(w)) => self.ask(Phase::Locking, Action::WriteFeatureControl(w)),
            },
            (Phase::Locking, Event::Done) => self.ask(
                Phase::CheckingCr0,
                Action::ReadConstraint(ControlRegister::Cr0),
            ),
            (Phase::CheckingCr0, Event::Constraint(v, c)) => if satisfies(v, c.fixed0, c.fixed1) {
                self.ask(Phase::CheckingCr4, Action::ReadConstraint(ControlRegister::Cr4))
            } else {
                self.finish(VmxState::Disabled, Outcome::Cr0Invalid)
            },
            (Phase::CheckingCr4, Event::Constraint(v, c)) => if satisfies(v, c.fixed0, c.fixed1) {
                self.ask(Phase::ReadingRevision { cr4: v }, Action::ReadVmxBasic)
            } else {
                self.finish(VmxState::Disabled, Outcome::Cr4Invalid)
            },
            (Phase::ReadingRevision { cr4 }, Event::Value(basic)) => self.ask(
                Phase::Allocating { cr4 },
                Action::AllocateRegion(revision_of(basic)),
            ),
            (Phase::Allocating { cr4 }, Event::Allocated(page)) => match page {
                None => self.finish(VmxState::Disabled, Outcome::RegionAllocFailed),
                Some(region) => self.ask(
                    Phase::SettingEnableBit { cr4, region },
                    Action::WriteCr4(with_vmx_bit(cr4, true)),
                ),
            },
            (Phase::SettingEnableBit { cr4, region }, Event::Done) => self.ask(
                Phase::Entering { cr4, region },
                Action::EnterRoot(region),
            ),
            (Phase::Entering { cr4, region }, Event::Status(ok)) => if ok {
                let (c, a) = self.finish(VmxState::RootOperation, Outcome::EnterRootSucceeded);
                (ModeController { region: Some(region), ..c }, a)
            } else {
                self.ask(Phase::Restoring { region }, Action::WriteCr4(cr4))
            },
            (Phase::Restoring { region }, Event::Done) => self.ask(
                Phase::Releasing { outcome: Outcome::EnterRootFailed },
                Action::ReleaseRegion(region),
            ),
            (Phase::Releasing { outcome }, Event::Done) => self.finish(VmxState::Disabled, outcome),
            (Phase::CheckingDisableBit, Event::Value(cr4)) => if vmx_bit(cr4) {
                self.ask(Phase::Exiting { cr4 }, Action::ExitRoot)
            } else {
                self.finish(self.state, Outcome::AlreadyDisabled)
            },
            (Phase::Exiting { cr4 }, Event::Status(ok)) => if ok {
                self.ask(Phase::Clearing, Action::WriteCr4(with_vmx_bit(cr4, false)))
            } else {
                self.finish(VmxState::RootOperation, Outcome::ExitRootFailed)
            },
            (Phase::Clearing, Event::Done) => match self.region {
                Some(region) => (
                    ModeController {
                        phase: Phase::Releasing { outcome: Outcome::ExitRootSucceeded },
                        region: None,
                        ..self
                    },
                    Action::ReleaseRegion(region),
                ),
                None => self.finish(VmxState::Disabled, Outcome::ExitRootSucceeded),
            },
            // An answer of a shape that the phase does not wait for; `step`
            // never takes one.
            _ => (self, Action::Finish(Outcome::AlreadyDisabled)),
        }
    }

    /// A controller for a processor that is not in root operation.
    pub fn new() -> (r: ModeController)
        ensures
            r.state == VmxState::Disabled,
            r.phase == Phase::Idle,
            r.region is None,
    {
        ModeController { state: VmxState::Disabled, phase: Phase::Idle, region: None }
    }

    /// The tracked virtualization state.
    pub fn state(&self) -> (r: VmxState)
        ensures
            r == self.state,
    {
        self.state
    }

    /// Whether no call is in progress.
    pub fn is_idle(&self) -> (r: bool)
        ensures
            r == (self.phase == Phase::Idle),
    {
        match self.phase {
            Phase::Idle => true,
            _ => false,
        }
    }

    /// Whether `e` has the shape of the answer that the controller waits for.
    pub fn accepts(&self, e: &Event) -> (r: bool)
        ensures
            r == accepts_spec(self.phase, *e),
    {
        match self.phase {
            Phase::Probing => matches!(e, Event::Probed(_)),
            Phase::CheckingEnableBit | Phase::Unlocking | Phase::ReadingRevision { .. }
            | Phase::CheckingDisableBit => matches!(e, Event::Value(_)),
            Phase::CheckingCr0 | Phase::CheckingCr4 => matches!(e, Event::Constraint(..)),
            Phase::Allocating { .. } => matches!(e, Event::Allocated(_)),
            Phase::Locking | Phase::SettingEnableBit { .. } | Phase::Restoring { .. }
            | Phase::Releasing { .. } | Phase::Clearing => matches!(e, Event::Done),
            Phase::Entering { .. } | Phase::Exiting { .. } => matches!(e, Event::Status(_)),
            Phase::Idle => false,
        }
    }

    /// Starts an enable call: the first step is to probe for support.
    pub fn begin_enable(&mut self) -> (r: Action)
        requires
            old(self).phase == Phase::Idle,
        ensures
            (*final(self), r) == old(self).ask(Phase::Probing, Action::ProbeSupport),
    {
        self.phase = Phase::Probing;
        Action::ProbeSupport
    }

    /// Starts a disable call: the first step is to read the enable bit.
    pub fn begin_disable(&mut self) -> (r: Action)
        requires
            old(self).phase == Phase::Idle,
        ensures
            (*final(self), r) == old(self).ask(Phase::CheckingDisableBit, Action::ReadCr4),
    {
        self.phase = Phase::CheckingDisableBit;
        Action::ReadCr4
    }
    /// Advances the call in progress on the hardware's answer `e` to the last
    /// action, and returns the next action.
    pub fn step(&mut self, e: Event) -> (r: Action)
        requires
            accepts_spec(old(self).phase, e),
        ensures
            (*final(self), r) == old(self).next(e),
    {
        match (self.phase, e) {
            (Phase::Probing, Event::Probed(supported)) => if supported {
                self.phase = Phase::CheckingEnableBit;
                Action::ReadCr4
            } else {
                self.finish_with(VmxState::Unsupported, Outcome::HardwareUnsupported)
            },
            (Phase::CheckingEnableBit, Event::Value(cr4)) => if cr4_vmx_enabled(cr4) {
                let s = self.state;
                self.finish_with(s, Outcome::AlreadyEnabled)
            } else {
                self.phase = Phase::Unlocking;
                Action::ReadFeatureControl
            },
            (Phase::Unlocking, Event::Value(raw)) => {
                let request = FeatureControlState {
                    locked: true,
                    enabled_outside_secure_mode: true,
                };
                match plan_write(raw, request) {
                    Err(_) => self.finish_with(VmxState::Disabled, Outcome::PlatformLockDenied),
                    Ok(None) => {
                        self.phase = Phase::CheckingCr0;
                        Action::ReadConstraint(ControlRegister::Cr0)
                    },
                    Ok(Some(w)) => {
                        self.phase = Phase::Locking;
                        Action::WriteFeatureControl(w)
                    },
                }
            },
            (Phase::Locking, Event::Done) => {
                self.phase = Phase::CheckingCr0;
                Action::ReadConstraint(ControlRegister::Cr0)
            },
            (Phase::CheckingCr0, Event::Constraint(v, c)) => if cr_is_valid(v, c) {
                self.phase = Phase::CheckingCr4;
                Action::ReadConstraint(ControlRegister::Cr4)
            } else {
                self.finish_with(VmxState::Disabled, Outcome::Cr0Invalid)
            },
            (Phase::CheckingCr4, Event::Constraint(v, c)) => if cr_is_valid(v, c) {
                self.phase = Phase::ReadingRevision { cr4: v };
                Action::ReadVmxBasic
            } else {
                self.finish_with(VmxState::Disabled, Outcome::Cr4Invalid)
            },
            (Phase::ReadingRevision { cr4 }, Event::Value(basic)) => {
                self.phase = Phase::Allocating { cr4 };
                Action::AllocateRegion(revision_id_of(basic))
            },
            (Phase::Allocating { cr4 }, Event::Allocated(page)) => match page {
                None => self.finish_with(VmxState::Disabled, Outcome::RegionAllocFailed),
                Some(region) => {
                    self.phase = Phase::SettingEnableBit { cr4, region };
                    Action::WriteCr4(cr4_with_vmx(cr4, true))
                },
            },
            (Phase::SettingEnableBit { cr4, region }, Event::Done) => {
                self.phase = Phase::Entering { cr4, region };
                Action::EnterRoot(region)
            },
            (Phase::Entering { cr4, region }, Event::Status(ok)) => if ok {
                self.region = Some(region);
                self.finish_with(VmxState::RootOperation, Outcome::EnterRootSucceeded)
            } else {
                self.phase = Phase::Restoring { region };
                Action::WriteCr4(cr4)
            },
            (Phase::Restoring { region }, Event::Done) => {
                self.phase = Phase::Releasing { outcome: Outcome::EnterRootFailed };
                Action::ReleaseRegion(region)
            },
            (Phase::Releasing { outcome }, Event::Done) => self.finish_with(
                VmxState::Disabled,
                outcome,
            ),
            (Phase::CheckingDisableBit, Event::Value(cr4)) => if cr4_vmx_enabled(cr4) {
                self.phase = Phase::Exiting { cr4 };
                Action::ExitRoot
            } else {
                let s = self.state;
                self.finish_with(s, Outcome::AlreadyDisabled)
            },
            (Phase::Exiting { cr4 }, Event::Status(ok)) => if ok {
                self.phase = Phase::Clearing;
                Action::WriteCr4(cr4_with_vmx(cr4, false))
            } else {
                self.finish_with(VmxState::RootOperation, Outcome::ExitRootFailed)
            },
            (Phase::Clearing, Event::Done) => match self.region {
                Some(region) => {
                    self.phase = Phase::Releasing { outcome: Outcome::ExitRootSucceeded };
                    self.region = None;
                    Action::ReleaseRegion(region)
                },
                None => self.finish_with(VmxState::Disabled, Outcome::ExitRootSucceeded),
            },
            _ => Action::Finish(Outcome::AlreadyDisabled),
        }
    }

    /// Ends the call in progress with outcome `o` in state `s`.
    fn finish_with(&mut self, s: VmxState, o: Outcome) -> (r: Action)
        ensures
            (*final(self), r) == old(self).finish(s, o),
    {
        self.state = s;
        self.phase = Phase::Idle;
        Action::Finish(o)
    }
}

} // verus!
