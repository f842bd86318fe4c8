//! The register state the interrupt and exception handlers save.
use vstd::prelude::*;

verus! {

/// The registers saved on entry to an interrupt handler, in the order
/// they are pushed, the error code and the interrupt frame last.
#[derive(Debug, Clone, Copy, PartialEq, Eq, Structural)]
pub struct MachineContext {
    pub previous_context: u64,
    pub r15: u64,
    pub r14: u64,
    pub r13: u64,
    pub r12: u64,
    pub r11: u64,
    pub r10: u64,
    pub r9: u64,
    pub r8: u64,
    pub rdi: u64,
    pub rsi: u64,
    pub rbp: u64,
    pub rbx: u64,
    pub rdx: u64,
    pub rcx: u64,
    pub rax: u64,
    pub error_code: u64,
    pub rip: u64,
    pub cs: u64,
    pub rflags: u64,
    pub rsp: u64,
    pub ss: u64,
}

impl MachineContext {
    /// A context with every register zero.
    pub fn empty() -> (r: MachineContext)
        ensures
            r == (MachineContext {
                previous_context: 0,
                r15: 0,
                r14: 0,
                r13: 0,
                r12: 0,
                r11: 0,
                r10: 0,
                r9: 0,
                r8: 0,
                rdi: 0,
                rsi: 0,
                rbp: 0,
                rbx: 0,
                rdx: 0,
                rcx: 0,
                rax: 0,
                error_code: 0,
                rip: 0,
                cs: 0,
                rflags: 0,
                rsp: 0,
                ss: 0,
            }),
    {
        MachineContext {
            rax: 0,
            rcx: 0,
            rdx: 0,
            rbx: 0,
            rsi: 0,
            rdi: 0,
            rbp: 0,
            rsp: 0,
            r8: 0,
            r9: 0,
            r10: 0,
            r11: 0,
            r12: 0,
            r13: 0,
            r14: 0,
            r15: 0,
            rflags: 0,
            rip: 0,
            cs: 0,
            ss: 0,
            error_code: 0,
            previous_context: 0,
        }
    }
}

/// Why the processor cannot run guests.
#[derive(Debug, Clone, Copy, PartialEq, Eq, Structural)]
pub enum HypervisorError {
    /// Virtual Machine Extentions unsupported
    VMXUnsupported,
    /// VCPU vendor is not `GenuineIntel`
    CPUUnsupported,
    /// VMXON outside SMX is disabled
    VMXBIOSLock,
}

/// The lock bit of `IA32_FEATURE_CONTROL`.
pub const VMX_LOCK_BIT: u64 = 0x1;

/// The bit of `IA32_FEATURE_CONTROL` that enables VMXON outside SMX.
pub const VMXON_OUTSIDE_SMX: u64 = 0x4;

/// What to do with `IA32_FEATURE_CONTROL` holding `value`: where it is not
/// locked, the value to write, which locks it with VMXON enabled outside
/// SMX; where it is locked with VMXON enabled, nothing; where it is locked
/// with VMXON disabled, the firmware's lock is an error.
pub fn adjust_feature_control_msr(value: u64) -> (r: Result<Option<u64>, HypervisorError>)
    ensures
        value & VMX_LOCK_BIT == 0 ==> r == Ok::<Option<u64>, HypervisorError>(Some(VMXON_OUTSIDE_SMX | VMX_LOCK_BIT | value)),
        value & VMX_LOCK_BIT != 0 && value & VMXON_OUTSIDE_SMX == 0 ==> r == Err::<Option<u64>, HypervisorError>(
            HypervisorError::VMXBIOSLock,
        ),
        value & VMX_LOCK_BIT != 0 && value & VMXON_OUTSIDE_SMX != 0 ==> r == Ok::<Option<u64>, HypervisorError>(None),
{
    if (value & VMX_LOCK_BIT) == 0 {
        Ok(Some(VMXON_OUTSIDE_SMX | VMX_LOCK_BIT | value))
    } else if (value & VMXON_OUTSIDE_SMX) == 0 {
        Err(HypervisorError::VMXBIOSLock)
    } else {
        Ok(None)
    }
}

/// `CR0` with write protection (bit 16), native floating-point errors
/// (bit 5) and paging (bit 31) enabled.
pub fn updated_cr0(cr0: u64) -> (r: u64)
    ensures
        r == cr0 | 0x8001_0020,
{
    cr0 | 0x8001_0020
}

/// `CR4` with `FSGSBASE` (bit 16), page size extensions (bit 4), global
/// pages (bit 7) and VMX (bit 13) enabled, and `SMEP` (bit 20) disabled.
pub fn updated_cr4(cr4: u64) -> (r: u64)
    ensures
        r == (cr4 | 0x0001_2090) & !0x0010_0000u64,
{
    (cr4 | 0x0001_2090) & !0x0010_0000u64
}

/// `EFER` with system call extensions (bit 0) enabled.
pub fn updated_efer(efer: u64) -> (r: u64)
    ensures
        r == efer | 1,
{
    efer | 1
}

/// Where a failed assert of translated code was: the interned name of
/// the function, the block and the statement, as packed in `r15`.
#[derive(Debug, Clone, Copy, PartialEq, Eq, Structural)]
pub struct AssertLocation {
    pub function: u32,
    pub block: u16,
    pub statement: u16,
}

/// Unpacks the location of a failed assert: the function's name key plus
/// one in bits 32 to 63, the block in bits 16 to 31, the statement in bits
/// 0 to 15.
pub fn decode_assert_meta(meta: u64) -> (r: AssertLocation)
    requires
        meta >> 32u64 != 0,
    ensures
        r.function == (meta >> 32u64) - 1,
        r.block == (meta >> 16u64) as u16,
        r.statement == meta as u16,
{
    let key = (meta >> 32u64) as u32;
    proof {
        assert(meta >> 32u64 <= 0xffff_ffffu64) by (bit_vector);
    }
    AssertLocation { function: key - 1, block: (meta >> 16u64) as u16, statement: meta as u16 }
}

} // verus!
