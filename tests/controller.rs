use vmx_core::controller::{Action, Event, ModeController, Outcome, VmxState};
use vmx_core::fixed_bits::{ControlRegister, FixedBitsConstraint};
use vmx_core::region::ControlRegion;

/// A simulated processor that answers the controller's actions and records them.
struct Sim {
    supported: bool,
    cr0: u64,
    cr4: u64,
    feature_control: u64,
    cr0_fixed: FixedBitsConstraint,
    cr4_fixed: FixedBitsConstraint,
    vmx_basic: u64,
    free_page: Option<u64>,
    enter_ok: bool,
    exit_ok: bool,
    actions: Vec<Action>,
    stamped: Option<ControlRegion>,
    released: Vec<u64>,
}

const CR0_OK: u64 = 0x8000_0031;
const CR4_OK: u64 = 0x0000_06f0;

fn good_sim() -> Sim {
    Sim {
        supported: true,
        cr0: CR0_OK,
        cr4: CR4_OK,
        feature_control: 0,
        cr0_fixed: FixedBitsConstraint { fixed0: 0x8000_0021, fixed1: 0xffff_ffff },
        cr4_fixed: FixedBitsConstraint { fixed0: 0x20, fixed1: 0x3727ff },
        vmx_basic: 0x00da_0400_0000_0004,
        free_page: Some(0x20_0000),
        enter_ok: true,
        exit_ok: true,
        actions: Vec::new(),
        stamped: None,
        released: Vec::new(),
    }
}

impl Sim {
    fn answer(&mut self, a: Action) -> Event {
        self.actions.push(a);
        match a {
            Action::ProbeSupport => Event::Probed(self.supported),
            Action::ReadCr4 => Event::Value(self.cr4),
            Action::ReadFeatureControl => Event::Value(self.feature_control),
            Action::WriteFeatureControl(v) => {
                self.feature_control = v;
                Event::Done
            }
            Action::ReadConstraint(ControlRegister::Cr0) => Event::Constraint(self.cr0, self.cr0_fixed),
            Action::ReadConstraint(ControlRegister::Cr4) => Event::Constraint(self.cr4, self.cr4_fixed),
            Action::ReadVmxBasic => Event::Value(self.vmx_basic),
            Action::AllocateRegion(rev) => {
                if self.free_page.is_some() {
                    self.stamped = Some(ControlRegion::prepare(rev));
                }
                Event::Allocated(self.free_page)
            }
            Action::WriteCr4(v) => {
                self.cr4 = v;
                Event::Done
            }
            Action::EnterRoot(_) => Event::Status(self.enter_ok),
            Action::ExitRoot => Event::Status(self.exit_ok),
            Action::ReleaseRegion(p) => {
                self.released.push(p);
                Event::Done
            }
            Action::Finish(_) => panic!("no answer to a finished call"),
        }
    }

    fn writes(&self) -> usize {
        self.actions
            .iter()
            .filter(|a| {
                matches!(
                    a,
                    Action::WriteFeatureControl(_)
                        | Action::WriteCr4(_)
                        | Action::AllocateRegion(_)
                        | Action::EnterRoot(_)
                        | Action::ExitRoot
                        | Action::ReleaseRegion(_)
                )
            })
            .count()
    }
}

fn drive(c: &mut ModeController, sim: &mut Sim, first: Action) -> Outcome {
    let mut a = first;
    loop {
        if let Action::Finish(o) = a {
            return o;
        }
        let e = sim.answer(a);
        assert!(c.accepts(&e));
        a = c.step(e);
    }
}

fn enable(c: &mut ModeController, sim: &mut Sim) -> Outcome {
    let first = c.begin_enable();
    drive(c, sim, first)
}

fn disable(c: &mut ModeController, sim: &mut Sim) -> Outcome {
    let first = c.begin_disable();
    drive(c, sim, first)
}

#[test]
fn unsupported_hardware_stops_at_the_probe() {
    let mut sim = good_sim();
    sim.supported = false;
    let mut c = ModeController::new();
    assert_eq!(enable(&mut c, &mut sim), Outcome::HardwareUnsupported);
    assert_eq!(c.state(), VmxState::Unsupported);
    assert_eq!(sim.actions, vec![Action::ProbeSupport]);
    assert!(c.is_idle());
}

#[test]
fn enable_bit_already_set_is_a_no_op() {
    let mut sim = good_sim();
    sim.cr4 = CR4_OK | 0x2000;
    let mut c = ModeController::new();
    assert_eq!(enable(&mut c, &mut sim), Outcome::AlreadyEnabled);
    assert_eq!(c.state(), VmxState::Disabled);
    assert_eq!(sim.writes(), 0);
    assert_eq!(sim.actions, vec![Action::ProbeSupport, Action::ReadCr4]);
    assert_eq!(enable(&mut c, &mut sim), Outcome::AlreadyEnabled);
    assert_eq!(sim.writes(), 0);
}

#[test]
fn enable_then_disable_round_trip() {
    let mut sim = good_sim();
    let mut c = ModeController::new();
    assert_eq!(enable(&mut c, &mut sim), Outcome::EnterRootSucceeded);
    assert_eq!(c.state(), VmxState::RootOperation);
    assert_eq!(sim.feature_control, 0x5);
    assert_eq!(sim.cr4, CR4_OK | 0x2000);
    let region = sim.stamped.as_ref().unwrap();
    assert_eq!(region.read_header(), 0x4);
    assert_eq!(region.as_bytes().len(), 4096);
    assert_eq!(disable(&mut c, &mut sim), Outcome::ExitRootSucceeded);
    assert_eq!(c.state(), VmxState::Disabled);
    assert_eq!(sim.cr4, CR4_OK);
    assert_eq!(sim.released, vec![0x20_0000]);
    let n = sim.actions.len();
    assert_eq!(
        sim.actions[n - 4..].to_vec(),
        vec![Action::ReadCr4, Action::ExitRoot, Action::WriteCr4(CR4_OK), Action::ReleaseRegion(0x20_0000)]
    );
}

#[test]
fn enable_order_of_operations() {
    let mut sim = good_sim();
    let mut c = ModeController::new();
    enable(&mut c, &mut sim);
    assert_eq!(
        sim.actions,
        vec![
            Action::ProbeSupport,
            Action::ReadCr4,
            Action::ReadFeatureControl,
            Action::WriteFeatureControl(0x5),
            Action::ReadConstraint(ControlRegister::Cr0),
            Action::ReadConstraint(ControlRegister::Cr4),
            Action::ReadVmxBasic,
            Action::AllocateRegion(0x4),
            Action::WriteCr4(CR4_OK | 0x2000),
            Action::EnterRoot(0x20_0000),
        ]
    );
}

#[test]
fn locked_register_without_outside_mode_is_denied() {
    let mut sim = good_sim();
    sim.feature_control = 0x1;
    let mut c = ModeController::new();
    assert_eq!(enable(&mut c, &mut sim), Outcome::PlatformLockDenied);
    assert_eq!(c.state(), VmxState::Disabled);
    assert_eq!(sim.writes(), 0);
    assert_eq!(sim.feature_control, 0x1);
}

#[test]
fn locked_register_with_outside_mode_is_not_written() {
    let mut sim = good_sim();
    sim.feature_control = 0x5;
    let mut c = ModeController::new();
    assert_eq!(enable(&mut c, &mut sim), Outcome::EnterRootSucceeded);
    assert!(!sim.actions.iter().any(|a| matches!(a, Action::WriteFeatureControl(_))));
}

#[test]
fn unlocked_register_keeps_other_bits() {
    let mut sim = good_sim();
    sim.feature_control = 0x2;
    let mut c = ModeController::new();
    enable(&mut c, &mut sim);
    assert_eq!(sim.feature_control, 0x7);
}

#[test]
fn invalid_cr0_stops_before_cr4() {
    let mut sim = good_sim();
    sim.cr0 = 0x31;
    let mut c = ModeController::new();
    assert_eq!(enable(&mut c, &mut sim), Outcome::Cr0Invalid);
    assert_eq!(c.state(), VmxState::Disabled);
    assert_eq!(sim.actions.last(), Some(&Action::ReadConstraint(ControlRegister::Cr0)));
}

#[test]
fn invalid_cr4_is_reported() {
    let mut sim = good_sim();
    sim.cr4 = CR4_OK | 0x0100_0000;
    let mut c = ModeController::new();
    assert_eq!(enable(&mut c, &mut sim), Outcome::Cr4Invalid);
    assert_eq!(c.state(), VmxState::Disabled);
    assert_eq!(sim.cr4, CR4_OK | 0x0100_0000);
}

#[test]
fn allocation_failure_is_recoverable() {
    let mut sim = good_sim();
    sim.free_page = None;
    let mut c = ModeController::new();
    assert_eq!(enable(&mut c, &mut sim), Outcome::RegionAllocFailed);
    assert_eq!(c.state(), VmxState::Disabled);
    assert_eq!(sim.cr4, CR4_OK);
    sim.free_page = Some(0x30_0000);
    assert_eq!(enable(&mut c, &mut sim), Outcome::EnterRootSucceeded);
}

#[test]
fn failed_entry_restores_cr4_and_releases_region() {
    let mut sim = good_sim();
    sim.enter_ok = false;
    let mut c = ModeController::new();
    assert_eq!(enable(&mut c, &mut sim), Outcome::EnterRootFailed);
    assert_eq!(c.state(), VmxState::Disabled);
    assert_eq!(sim.cr4, CR4_OK);
    assert_eq!(sim.released, vec![0x20_0000]);
}

#[test]
fn failed_exit_stays_in_root_operation() {
    let mut sim = good_sim();
    let mut c = ModeController::new();
    enable(&mut c, &mut sim);
    sim.exit_ok = false;
    assert_eq!(disable(&mut c, &mut sim), Outcome::ExitRootFailed);
    assert_eq!(c.state(), VmxState::RootOperation);
    assert_eq!(sim.cr4, CR4_OK | 0x2000);
    assert!(sim.released.is_empty());
}

#[test]
fn disable_when_disabled_is_a_no_op() {
    let mut sim = good_sim();
    let mut c = ModeController::new();
    assert_eq!(disable(&mut c, &mut sim), Outcome::AlreadyDisabled);
    assert_eq!(c.state(), VmxState::Disabled);
    assert_eq!(sim.actions, vec![Action::ReadCr4]);
    assert_eq!(disable(&mut c, &mut sim), Outcome::AlreadyDisabled);
    assert_eq!(sim.writes(), 0);
}

#[test]
fn answer_of_wrong_shape_is_not_accepted() {
    let mut c = ModeController::new();
    assert!(!c.accepts(&Event::Done));
    c.begin_enable();
    assert!(c.accepts(&Event::Probed(true)));
    assert!(!c.accepts(&Event::Value(0)));
}
