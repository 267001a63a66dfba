//! A model of the hardware that answers the controller's actions, and what
//! whole enable and disable calls come to against it.
use crate::controller::{vmx_bit, with_vmx_bit, Action, Event, ModeController, Outcome, Phase, VmxState};
use crate::feature_control::state_of;
use crate::fixed_bits::{satisfies, ControlRegister, FixedBitsConstraint};
use vstd::prelude::*;

verus! {

/// What the hardware reports during one call: fixed register contents, and
/// the results of the allocation and of the two privileged instructions.
#[derive(Clone, Copy, Debug, PartialEq, Eq, Structural)]
pub struct Platform {
    pub supported: bool,
    pub cr0: u64,
    pub cr4: u64,
    pub feature_control: u64,
    pub cr0_fixed: FixedBitsConstraint,
    pub cr4_fixed: FixedBitsConstraint,
    pub vmx_basic: u64,
    pub free_page: Option<u64>,
    pub enter_ok: bool,
    pub exit_ok: bool,
}

/// The answer of `hw` to the action `a`.
pub open spec fn respond(hw: Platform, a: Action) -> Event {
    match a {
        Action::ProbeSupport => Event::Probed(hw.supported),
        Action::ReadCr4 => Event::Value(hw.cr4),
        Action::ReadFeatureControl => Event::Value(hw.feature_control),
        Action::ReadConstraint(ControlRegister::Cr0) => Event::Constraint(hw.cr0, hw.cr0_fixed),
        Action::ReadConstraint(ControlRegister::Cr4) => Event::Constraint(hw.cr4, hw.cr4_fixed),
        Action::ReadVmxBasic => Event::Value(hw.vmx_basic),
        Action::AllocateRegion(_) => Event::Allocated(hw.free_page),
        Action::EnterRoot(_) => Event::Status(hw.enter_ok),
        Action::ExitRoot => Event::Status(hw.exit_ok),
        _ => Event::Done,
    }
}

/// Drives `c`, which has just asked for `a`, against `hw` for at most `fuel`
/// steps: the controller at the end, the last action, and the actions asked
/// for on the way (from `a` on, without the final one).
pub open spec fn run(c: ModeController, a: Action, hw: Platform, fuel: nat) -> (
    ModeController,
    Action,
    Seq<Action>,
)
    decreases fuel,
{
    if fuel == 0 || a is Finish {
        (c, a, Seq::empty())
    } else {
        let (c2, a2) = c.next(respond(hw, a));
        let (c3, a3, t) = run(c2, a2, hw, (fuel - 1) as nat);
        (c3, a3, seq![a] + t)
    }
}

/// The action changes hardware or memory state.
pub open spec fn is_write(a: Action) -> bool {
    match a {
        Action::WriteFeatureControl(_) | Action::AllocateRegion(_) | Action::WriteCr4(_)
        | Action::EnterRoot(_) | Action::ExitRoot | Action::ReleaseRegion(_) => true,
        _ => false,
    }
}

/// None of the actions changes hardware or memory state.
pub open spec fn no_writes(t: Seq<Action>) -> bool {
    forall|i: int| 0 <= i < t.len() ==> !is_write(#[trigger] t[i])
}

/// The outcome of enabling against `hw`, checked in the protocol's order.
pub open spec fn enable_outcome(hw: Platform) -> Outcome {
    let fc = state_of(hw.feature_control);
    if !hw.supported {
        Outcome::HardwareUnsupported
    } else if vmx_bit(hw.cr4) {
        Outcome::AlreadyEnabled
    } else if fc.locked && !fc.enabled_outside_secure_mode {
        Outcome::PlatformLockDenied
    } else if !satisfies(hw.cr0, hw.cr0_fixed.fixed0, hw.cr0_fixed.fixed1) {
        Outcome::Cr0Invalid
    } else if !satisfies(hw.cr4, hw.cr4_fixed.fixed0, hw.cr4_fixed.fixed1) {
        Outcome::Cr4Invalid
    } else if hw.free_page is None {
        Outcome::RegionAllocFailed
    } else if !hw.enter_ok {
        Outcome::EnterRootFailed
    } else {
        Outcome::EnterRootSucceeded
    }
}

/// The state after an enable call from `Disabled` that ended with `o`.
pub open spec fn state_after_enable(o: Outcome) -> VmxState {
    match o {
        Outcome::HardwareUnsupported => VmxState::Unsupported,
        Outcome::EnterRootSucceeded => VmxState::RootOperation,
        _ => VmxState::Disabled,
    }
}

/// The number of steps that bounds every call.
pub open spec fn step_bound() -> nat {
    16
}

/// A whole enable call of `c` against `hw`.
pub open spec fn enable_run(c: ModeController, hw: Platform) -> (ModeController, Action, Seq<Action>) {
    let (c1, a1) = c.ask(Phase::Probing, Action::ProbeSupport);
    run(c1, a1, hw, step_bound())
}

/// A whole disable call of `c` against `hw`.
pub open spec fn disable_run(c: ModeController, hw: Platform) -> (ModeController, Action, Seq<Action>) {
    let (c1, a1) = c.ask(Phase::CheckingDisableBit, Action::ReadCr4);
    run(c1, a1, hw, step_bound())
}

/// The end of an enable call once both control registers have passed: the
/// region, the enable bit and the mode-entry instruction.
proof fn lemma_run_from_revision(c: ModeController, hw: Platform, fuel: nat)
    requires
        c.phase == (Phase::ReadingRevision { cr4: hw.cr4 }),
        fuel >= 7,
    ensures
        ({
            let (c2, fin, trace) = run(c, Action::ReadVmxBasic, hw, fuel);
            let o = if hw.free_page is None {
                Outcome::RegionAllocFailed
            } else if !hw.enter_ok {
                Outcome::EnterRootFailed
            } else {
                Outcome::EnterRootSucceeded
            };
            &&& fin == Action::Finish(o)
            &&& c2.phase == Phase::Idle
            &&& c2.state == state_after_enable(o)
            &&& (o == Outcome::EnterRootSucceeded ==> c2.region == hw.free_page)
            &&& (o != Outcome::EnterRootSucceeded ==> c2.region == c.region)
        }),
{
    reveal_with_fuel(run, 8);
}

/// The part of an enable call from the check of CR0 on.
proof fn lemma_run_from_cr0(c: ModeController, hw: Platform, fuel: nat)
    requires
        c.phase == Phase::CheckingCr0,
        fuel >= 9,
    ensures
        ({
            let (c2, fin, trace) = run(c, Action::ReadConstraint(ControlRegister::Cr0), hw, fuel);
            let o = if !satisfies(hw.cr0, hw.cr0_fixed.fixed0, hw.cr0_fixed.fixed1) {
                Outcome::Cr0Invalid
            } else if !satisfies(hw.cr4, hw.cr4_fixed.fixed0, hw.cr4_fixed.fixed1) {
                Outcome::Cr4Invalid
            } else if hw.free_page is None {
                Outcome::RegionAllocFailed
            } else if !hw.enter_ok {
                Outcome::EnterRootFailed
            } else {
                Outcome::EnterRootSucceeded
            };
            &&& fin == Action::Finish(o)
            &&& c2.phase == Phase::Idle
            &&& c2.state == state_after_enable(o)
            &&& (o == Outcome::EnterRootSucceeded ==> c2.region == hw.free_page)
            &&& (o != Outcome::EnterRootSucceeded ==> c2.region == c.region)
        }),
{
    reveal_with_fuel(run, 3);
    if satisfies(hw.cr0, hw.cr0_fixed.fixed0, hw.cr0_fixed.fixed1) && satisfies(
        hw.cr4,
        hw.cr4_fixed.fixed0,
        hw.cr4_fixed.fixed1,
    ) {
        let c1 = ModeController { phase: Phase::ReadingRevision { cr4: hw.cr4 }, ..c };
        lemma_run_from_revision(c1, hw, (fuel - 2) as nat);
    }
}

/// From `Disabled`, every combination of hardware answers ends an enable call
/// with exactly the outcome that the protocol's order of checks gives, back
/// in `Idle`, in the state that outcome calls for, holding the region only on
/// success. The calls that stop before the feature-control register is settled write
/// nothing.
#[verifier::rlimit(50)]
pub proof fn lemma_enable_total(c: ModeController, hw: Platform)
    requires
        c.phase == Phase::Idle,
        c.state == VmxState::Disabled,
    ensures
        ({
            let (c2, fin, trace) = enable_run(c, hw);
            let o = enable_outcome(hw);
            &&& fin == Action::Finish(o)
            &&& c2.phase == Phase::Idle
            &&& c2.state == state_after_enable(o)
            &&& (o == Outcome::EnterRootSucceeded ==> c2.region == hw.free_page)
            &&& (o != Outcome::EnterRootSucceeded ==> c2.region == c.region)
            &&& (o == Outcome::HardwareUnsupported || o == Outcome::AlreadyEnabled || o
                == Outcome::PlatformLockDenied) ==> no_writes(trace)
        }),
{
    reveal_with_fuel(run, 5);
    let fc = state_of(hw.feature_control);
    if hw.supported && !vmx_bit(hw.cr4) && !(fc.locked && !fc.enabled_outside_secure_mode) {
        let c1 = ModeController { phase: Phase::CheckingCr0, ..c };
        if fc.locked {
            lemma_run_from_cr0(c1, hw, (step_bound() - 3) as nat);
        } else {
            lemma_run_from_cr0(c1, hw, (step_bound() - 4) as nat);
        }
    } else {
        let (c2, fin, trace) = enable_run(c, hw);
        assert(no_writes(trace));
    }
}

/// Enabling a supported processor whose enable bit is already set is a
/// no-op: the call reads the probe and CR4, writes nothing, reports
/// `AlreadyEnabled` and leaves the controller as it was.
pub proof fn lemma_enable_idempotent(c: ModeController, hw: Platform)
    requires
        c.phase == Phase::Idle,
        hw.supported,
        vmx_bit(hw.cr4),
    ensures
        enable_run(c, hw) == (c, Action::Finish(Outcome::AlreadyEnabled), seq![
            Action::ProbeSupport,
            Action::ReadCr4,
        ]),
{
    reveal_with_fuel(run, 3);
    assert(seq![Action::ProbeSupport] + (seq![Action::ReadCr4] + Seq::<Action>::empty()) =~= seq![
        Action::ProbeSupport,
        Action::ReadCr4,
    ]);
}

/// Disabling when the enable bit is clear is a no-op: the call reads CR4,
/// writes nothing, reports `AlreadyDisabled` and leaves the controller as it was.
pub proof fn lemma_disable_idempotent(c: ModeController, hw: Platform)
    requires
        c.phase == Phase::Idle,
        !vmx_bit(hw.cr4),
    ensures
        disable_run(c, hw) == (c, Action::Finish(Outcome::AlreadyDisabled), seq![Action::ReadCr4]),
{
    reveal_with_fuel(run, 2);
    assert(seq![Action::ReadCr4] + Seq::<Action>::empty() =~= seq![Action::ReadCr4]);
}

/// Disabling with the enable bit set executes the mode-exit instruction before
/// clearing the bit. When the instruction succeeds the call clears the bit,
/// gives the region back, and ends in `Disabled`; when it fails nothing more is
/// done and the controller stays in `RootOperation` with its region.
pub proof fn lemma_disable_total(c: ModeController, hw: Platform)
    requires
        c.phase == Phase::Idle,
        vmx_bit(hw.cr4),
    ensures
        ({
            let (c2, fin, trace) = disable_run(c, hw);
            let cleared = Action::WriteCr4(with_vmx_bit(hw.cr4, false));
            &&& c2.phase == Phase::Idle
            &&& hw.exit_ok ==> {
                &&& fin == Action::Finish(Outcome::ExitRootSucceeded)
                &&& c2.state == VmxState::Disabled
                &&& c2.region is None
                &&& trace == match c.region {
                    Some(r) => seq![Action::ReadCr4, Action::ExitRoot, cleared, Action::ReleaseRegion(r)],
                    None => seq![Action::ReadCr4, Action::ExitRoot, cleared],
                }
            }
            &&& !hw.exit_ok ==> {
                &&& fin == Action::Finish(Outcome::ExitRootFailed)
                &&& c2.state == VmxState::RootOperation
                &&& c2.region == c.region
                &&& trace == seq![Action::ReadCr4, Action::ExitRoot]
            }
        }),
{
    reveal_with_fuel(run, 6);
    let cleared = Action::WriteCr4(with_vmx_bit(hw.cr4, false));
    let e = Seq::<Action>::empty();
    assert(seq![Action::ReadCr4] + (seq![Action::ExitRoot] + e) =~= seq![Action::ReadCr4, Action::ExitRoot]);
    assert(seq![Action::ReadCr4] + (seq![Action::ExitRoot] + (seq![cleared] + e)) =~= seq![
        Action::ReadCr4,
        Action::ExitRoot,
        cleared,
    ]);
    if let Some(r) = c.region {
        assert(seq![Action::ReadCr4] + (seq![Action::ExitRoot] + (seq![cleared] + (seq![
            Action::ReleaseRegion(r),
        ] + e))) =~= seq![Action::ReadCr4, Action::ExitRoot, cleared, Action::ReleaseRegion(r)]);
    }
}

/// After an enable call that entered root operation, a disable call whose
/// exit instruction succeeds, against the CR4 that the enable call wrote,
/// writes CR4 back to its value before the enable call, releases the region
/// that the enable call acquired, and ends in `Disabled`.
pub proof fn lemma_enable_disable_round_trip(c: ModeController, hw: Platform, later: Platform)
    requires
        c.phase == Phase::Idle,
        c.state == VmxState::Disabled,
        enable_outcome(hw) == Outcome::EnterRootSucceeded,
        later.cr4 == with_vmx_bit(hw.cr4, true),
        later.exit_ok,
    ensures
        ({
            let (c2, _, _) = enable_run(c, hw);
            let (c3, fin, trace) = disable_run(c2, later);
            &&& fin == Action::Finish(Outcome::ExitRootSucceeded)
            &&& c3.state == VmxState::Disabled
            &&& c3.region is None
            &&& trace == seq![
                Action::ReadCr4,
                Action::ExitRoot,
                Action::WriteCr4(hw.cr4),
                Action::ReleaseRegion(hw.free_page.unwrap()),
            ]
        }),
{
    lemma_enable_total(c, hw);
    let (c2, _, _) = enable_run(c, hw);
    let cr4 = hw.cr4;
    assert(((cr4 | 0x2000u64) & 0x2000u64 == 0x2000u64) && ((cr4 | 0x2000u64) & !0x2000u64 == cr4))
        by (bit_vector)
        requires
            cr4 & 0x2000u64 != 0x2000u64,
    ;
    lemma_disable_total(c2, later);
}

} // verus!
