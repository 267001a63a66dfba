//! Control-register validation against the processor's fixed-bit masks.
use vstd::prelude::*;

verus! {

/// Model-specific register that reports the bits of CR0 that must be 1.
pub const IA32_VMX_CR0_FIXED0: u32 = 0x486;

/// Model-specific register whose clear bits must be 0 in CR0.
pub const IA32_VMX_CR0_FIXED1: u32 = 0x487;

/// Model-specific register that reports the bits of CR4 that must be 1.
pub const IA32_VMX_CR4_FIXED0: u32 = 0x488;

/// Model-specific register whose clear bits must be 0 in CR4.
pub const IA32_VMX_CR4_FIXED1: u32 = 0x489;

/// The control registers whose contents are checked before entering
/// virtualization-root operation.
#[derive(Clone, Copy, Debug, PartialEq, Eq, Structural)]
pub enum ControlRegister {
    Cr0,
    Cr4,
}

impl ControlRegister {
    /// The pair `(fixed0, fixed1)` of model-specific registers that holds the
    /// constraint on this control register.
    pub fn fixed_msrs(self) -> (r: (u32, u32))
        ensures
            r == (match self {
                ControlRegister::Cr0 => (IA32_VMX_CR0_FIXED0, IA32_VMX_CR0_FIXED1),
                ControlRegister::Cr4 => (IA32_VMX_CR4_FIXED0, IA32_VMX_CR4_FIXED1),
            }),
    {
        match self {
            ControlRegister::Cr0 => (IA32_VMX_CR0_FIXED0, IA32_VMX_CR0_FIXED1),
            ControlRegister::Cr4 => (IA32_VMX_CR4_FIXED0, IA32_VMX_CR4_FIXED1),
        }
    }
}

/// The two masks that the processor advertises for one control register:
/// a bit set in `fixed0` must be 1, a bit clear in `fixed1` must be 0.
#[derive(Clone, Copy, Debug, PartialEq, Eq, Structural)]
pub struct FixedBitsConstraint {
    pub fixed0: u64,
    pub fixed1: u64,
}

/// Every bit forced to one by `fixed0` is set in `value`, and every bit that
/// `fixed1` does not allow is clear in `value`.
pub open spec fn satisfies(value: u64, fixed0: u64, fixed1: u64) -> bool {
    (!fixed0 | value) == 0xFFFF_FFFF_FFFF_FFFFu64 && (fixed1 | !value) == 0xFFFF_FFFF_FFFF_FFFFu64
}

/// Checks `value` against both masks of `c`; one violating bit fails the check.
pub fn cr_is_valid(value: u64, c: FixedBitsConstraint) -> (r: bool)
    ensures
        r == satisfies(value, c.fixed0, c.fixed1),
{
    let forced_ones_present = (!c.fixed0 | value) == 0xFFFF_FFFF_FFFF_FFFFu64;
    let forbidden_ones_absent = (c.fixed1 | !value) == 0xFFFF_FFFF_FFFF_FFFFu64;
    forced_ones_present && forbidden_ones_absent
}

/// On 32-bit registers and masks, widened to 64 bits, the check is exactly the
/// 32-bit mask test `(!fixed0 | v) == 0xFFFF_FFFF && (fixed1 | !v) == 0xFFFF_FFFF`.
pub proof fn lemma_satisfies_32(v: u32, fixed0: u32, fixed1: u32)
    ensures
        satisfies(v as u64, fixed0 as u64, fixed1 as u64) <==> ((!fixed0 | v) == 0xFFFF_FFFFu32 && (
        fixed1 | !v) == 0xFFFF_FFFFu32),
{
    assert(((!(fixed0 as u64) | (v as u64)) == 0xFFFF_FFFF_FFFF_FFFFu64 && ((fixed1 as u64) | !(
    v as u64)) == 0xFFFF_FFFF_FFFF_FFFFu64) <==> ((!fixed0 | v) == 0xFFFF_FFFFu32 && (fixed1 | !v)
        == 0xFFFF_FFFFu32)) by (bit_vector);
}

} // verus!
