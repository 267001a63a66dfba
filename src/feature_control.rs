//! The platform's lockable virtualization-enable register (IA32_FEATURE_CONTROL).
use vstd::prelude::*;

verus! {

/// Address of the feature-control model-specific register.
pub const IA32_FEATURE_CONTROL: u32 = 0x3a;

/// Lock bit: once set, the register cannot change until the next power cycle.
pub const LOCKED: u64 = 0x1;

/// Virtualization-root operation may be entered outside secure mode.
pub const VMXON_ENABLED_OUTSIDE_SMX: u64 = 0x4;

/// The two flags of the feature-control register that this core reads.
#[derive(Clone, Copy, Debug, PartialEq, Eq, Structural)]
pub struct FeatureControlState {
    pub locked: bool,
    pub enabled_outside_secure_mode: bool,
}

/// Why a write of the feature-control register was not made.
#[derive(Clone, Copy, Debug, PartialEq, Eq, Structural)]
pub enum FeatureControlError {
    /// The register is locked and the request would change a flag.
    PermissionDenied,
}

/// The flags that the raw register value `raw` holds.
pub open spec fn state_of(raw: u64) -> FeatureControlState {
    FeatureControlState {
        locked: raw & LOCKED != 0,
        enabled_outside_secure_mode: raw & VMXON_ENABLED_OUTSIDE_SMX != 0,
    }
}

/// `raw` with the two flags replaced by those of `s`, every other bit kept.
pub open spec fn with_state(raw: u64, s: FeatureControlState) -> u64 {
    let cleared = raw & !(LOCKED | VMXON_ENABLED_OUTSIDE_SMX);
    cleared | (if s.locked { LOCKED } else { 0 }) | (if s.enabled_outside_secure_mode {
        VMXON_ENABLED_OUTSIDE_SMX
    } else {
        0
    })
}

/// What writing `requested` over the register value `current` comes to:
/// `Ok(Some(w))` writes `w`, `Ok(None)` needs no write.
pub open spec fn write_plan(current: u64, requested: FeatureControlState) -> Result<
    Option<u64>,
    FeatureControlError,
> {
    if state_of(current).locked {
        if state_of(current) == requested {
            Ok(None)
        } else {
            Err(FeatureControlError::PermissionDenied)
        }
    } else {
        Ok(Some(with_state(current, requested)))
    }
}

impl FeatureControlState {
    /// Decodes the flags of the raw register value `raw`.
    pub fn from_bits(raw: u64) -> (r: FeatureControlState)
        ensures
            r == state_of(raw),
    {
        FeatureControlState {
            locked: raw & LOCKED != 0,
            enabled_outside_secure_mode: raw & VMXON_ENABLED_OUTSIDE_SMX != 0,
        }
    }
}

/// Decides the single register write that sets the flags to `requested`.
///
/// A locked register is never written: the request is granted without a write
/// when it changes nothing, and denied otherwise. An unlocked register gets both
/// flags in one write, with its other bits kept.
pub fn plan_write(current: u64, requested: FeatureControlState) -> (r: Result<
    Option<u64>,
    FeatureControlError,
>)
    ensures
        r == write_plan(current, requested),
        r matches Ok(Some(w)) ==> state_of(w) == requested,
{
    let now = FeatureControlState::from_bits(current);
    if now.locked {
        if now.locked == requested.locked && now.enabled_outside_secure_mode
            == requested.enabled_outside_secure_mode {
            Ok(None)
        } else {
            Err(FeatureControlError::PermissionDenied)
        }
    } else {
        let cleared = current & !(LOCKED | VMXON_ENABLED_OUTSIDE_SMX);
        let lock_bit: u64 = if requested.locked { LOCKED } else { 0 };
        let outside_bit: u64 = if requested.enabled_outside_secure_mode {
            VMXON_ENABLED_OUTSIDE_SMX
        } else {
            0
        };
        let w = cleared | lock_bit | outside_bit;
        assert(w & LOCKED != 0 <==> lock_bit != 0) by (bit_vector)
            requires
                w == cleared | lock_bit | outside_bit,
                cleared == current & !(1u64 | 4u64),
                lock_bit == 0 || lock_bit == 1,
                outside_bit == 0 || outside_bit == 4,
        ;
        assert(w & VMXON_ENABLED_OUTSIDE_SMX != 0 <==> outside_bit != 0) by (bit_vector)
            requires
                w == cleared | lock_bit | outside_bit,
                cleared == current & !(1u64 | 4u64),
                lock_bit == 0 || lock_bit == 1,
                outside_bit == 0 || outside_bit == 4,
        ;
        Ok(Some(w))
    }
}

} // verus!
