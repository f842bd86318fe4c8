//! The virtual-machine control structure's bookkeeping and the values the
//! hypervisor computes for it: control fields from the capability MSRs,
//! control registers from their fixed bits, exit reasons and instruction
//! errors from the numbers the processor reports.
use vstd::prelude::*;

verus! {

/// Why a VMCS operation failed.
#[derive(Debug, Clone, Copy, PartialEq, Eq, Structural)]
pub enum VmcsError {
    /// VMCS was not active
    NotActive,
    /// Operation failed
    Failed,
}

/// The state of a VMCS: whether it is the current one, and whether a
/// guest was launched from it.
pub struct Vmcs {
    active: bool,
    launched: bool,
}

impl Vmcs {
    /// Whether the VMCS is the processor's current one.
    pub closed spec fn spec_active(&self) -> bool {
        self.active
    }

    /// Whether a guest was launched from the VMCS.
    pub closed spec fn spec_launched(&self) -> bool {
        self.launched
    }

    /// A cleared VMCS: not current, not launched.
    pub fn new() -> (r: Vmcs)
        ensures
            !r.spec_active(),
            !r.spec_launched(),
    {
        Vmcs { active: false, launched: false }
    }

    /// Records the outcome of loading the VMCS (`vmptrld`): it becomes the
    /// current one where loading succeeded.
    pub fn activate(&mut self, loaded: bool) -> (r: Result<(), VmcsError>)
        ensures
            loaded ==> r is Ok && final(self).spec_active(),
            !loaded ==> r == Err::<(), VmcsError>(VmcsError::Failed) && final(self).spec_active() == old(self).spec_active(),
            final(self).spec_launched() == old(self).spec_launched(),
    {
        if !loaded {
            return Err(VmcsError::Failed);
        }
        self.active = true;
        Ok(())
    }

    /// Records the outcome of clearing the VMCS (`vmclear`), which is only
    /// attempted on the current VMCS: it stops being current where
    /// clearing succeeded.
    pub fn deactivate(&mut self, cleared: bool) -> (r: Result<(), VmcsError>)
        ensures
            !old(self).spec_active() ==> r == Err::<(), VmcsError>(VmcsError::NotActive) && final(self).spec_active()
                == old(self).spec_active(),
            old(self).spec_active() && !cleared ==> r == Err::<(), VmcsError>(VmcsError::Failed)
                && final(self).spec_active(),
            old(self).spec_active() && cleared ==> r is Ok && !final(self).spec_active(),
            final(self).spec_launched() == old(self).spec_launched(),
    {
        match self.ensure_active() {
            Ok(()) => {},
            Err(e) => return Err(e),
        }
        if !cleared {
            return Err(VmcsError::Failed);
        }
        self.active = false;
        Ok(())
    }

    /// Whether a guest was launched from the VMCS.
    pub fn is_launched(&self) -> (r: bool)
        ensures
            r == self.spec_launched(),
    {
        self.launched
    }

    /// Records that a guest was launched from the VMCS.
    pub fn set_launched(&mut self)
        ensures
            final(self).spec_launched(),
            final(self).spec_active() == old(self).spec_active(),
    {
        self.launched = true;
    }

    /// Refuses unless the VMCS is the current one.
    pub fn ensure_active(&self) -> (r: Result<(), VmcsError>)
        ensures
            r is Ok <==> self.spec_active(),
            r is Err ==> r == Err::<(), VmcsError>(VmcsError::NotActive),
    {
        if !self.active {
            Err(VmcsError::NotActive)
        } else {
            Ok(())
        }
    }

    /// The message of the error number the processor left in the
    /// VM-instruction error field; `field` is what reading that field gave,
    /// none where the read failed.
    pub fn read_vm_instruction_error(&self, field: Option<u64>) -> (r: Result<&'static str, VmcsError>)
        requires
            self.spec_active() ==> (field matches Some(n) ==> n < 18),
        ensures
            !self.spec_active() ==> r == Err::<&'static str, VmcsError>(VmcsError::NotActive),
            self.spec_active() && field is None ==> r == Err::<&'static str, VmcsError>(VmcsError::Failed),
            self.spec_active() && field is Some ==> r is Ok,
            r matches Ok(m) ==> field matches Some(n) && m@ == error_message(n),
    {
        match self.ensure_active() {
            Ok(()) => {},
            Err(e) => return Err(e),
        }
        match field {
            Some(n) => Ok(instruction_error_message(n)),
            None => Err(VmcsError::Failed),
        }
    }

    /// The exit reason the processor left in the exit-reason field (read
    /// as `field`).
    pub fn read_vm_exit_reason(&self, field: u64) -> (r: Result<VmxExitReason, VmcsError>)
        requires
            self.spec_active() ==> is_exit_code(field),
        ensures
            r is Err <==> !self.spec_active(),
            r is Err ==> r == Err::<VmxExitReason, VmcsError>(VmcsError::NotActive),
            r matches Ok(reason) ==> reason.code() == field,
    {
        match self.ensure_active() {
            Ok(()) => {},
            Err(e) => return Err(e),
        }
        Ok(VmxExitReason::from(field))
    }
}

/// The message of VM-instruction error `number`, as text.
pub open spec fn error_message(number: u64) -> Seq<char> {
    if number == 0 {
        "No error"@
    } else if number == 1 {
        "vmcall executed in vmx root operation"@
    } else if number == 2 {
        "vmclear with invalid physical address"@
    } else if number == 3 {
        "vmclear with vmxon pointer"@
    } else if number == 4 {
        "vmlaunch with non-clear vmcs"@
    } else if number == 5 {
        "vmresume with non-launched vmcs"@
    } else if number == 6 {
        "vmresume after vmxoff (vmxoff and vmxon between vmlaunch and vmresume)"@
    } else if number == 7 {
        "vm entry with invalid control field(s)"@
    } else if number == 8 {
        "vm entry with invalid host-state field(s)"@
    } else if number == 9 {
        "vmptrld with invalid physical address"@
    } else if number == 10 {
        "vmptrld with vmxon pointer"@
    } else if number == 11 {
        "vmptrld with incorrect vmcs revision identifier"@
    } else if number == 12 {
        "vmread/vmwrite from/to unsupported vmcs component"@
    } else if number == 13 {
        "vmwrite to read-only vmcs component"@
    } else if number == 14 {
        "vmxon executed in vmx root operation"@
    } else if number == 15 {
        "vm entry with invalid executive-vmcs pointer"@
    } else if number == 16 {
        "vm entry with non-launched executive vmcs"@
    } else {
        "vm entry with executive-vmcs pointer not vmxon pointer"@
    }
}

/// The messages of the VM-instruction error numbers, by number.
pub fn instruction_error_message(number: u64) -> (r: &'static str)
    requires
        number < 18,
    ensures
        r@ == error_message(number),
{
    if number == 0 {
        "No error"
    } else if number == 1 {
        "vmcall executed in vmx root operation"
    } else if number == 2 {
        "vmclear with invalid physical address"
    } else if number == 3 {
        "vmclear with vmxon pointer"
    } else if number == 4 {
        "vmlaunch with non-clear vmcs"
    } else if number == 5 {
        "vmresume with non-launched vmcs"
    } else if number == 6 {
        "vmresume after vmxoff (vmxoff and vmxon between vmlaunch and vmresume)"
    } else if number == 7 {
        "vm entry with invalid control field(s)"
    } else if number == 8 {
        "vm entry with invalid host-state field(s)"
    } else if number == 9 {
        "vmptrld with invalid physical address"
    } else if number == 10 {
        "vmptrld with vmxon pointer"
    } else if number == 11 {
        "vmptrld with incorrect vmcs revision identifier"
    } else if number == 12 {
        "vmread/vmwrite from/to unsupported vmcs component"
    } else if number == 13 {
        "vmwrite to read-only vmcs component"
    } else if number == 14 {
        "vmxon executed in vmx root operation"
    } else if number == 15 {
        "vm entry with invalid executive-vmcs pointer"
    } else if number == 16 {
        "vm entry with non-launched executive vmcs"
    } else {
        "vm entry with executive-vmcs pointer not vmxon pointer"
    }
}

/// The errors a VMX instruction reports, in the order of their numbers.
#[derive(Debug, Clone, Copy, PartialEq, Eq, Structural)]
pub enum VmInstructionError {
    NoError,
    VmCallExecInVmxRootOp,
    VmClearInvalidPhysicalAddress,
    VmClearVmxOnPointerEqual,
    VmLaunchNonClearVmcs,
    VmresumeNonLaunchedVmcs,
    VmresumeAfterVmxoff,
    VmEntryInvalidControlFields,
    VmEntryInvalidHostStateFields,
    VmptrldInvalidPhysAddr,
    VmptrldVmxonPtrEqual,
    VmptrldIncorrectVmcsRevision,
    VmreadwriteUnsupportedVmcsComponent,
    VmwriteOnReadonlyVmcsComponent,
    VmxOnExecInVmxRootOp,
    VmEntryInvalidExecutiveVmcsPtr,
    VmEntryNonlaunchedExecutiveVmcs,
    VmentryExecutiveVmcsPtrNotVmxon,
}

/// Why the guest exited, with the basic exit reason numbers of the Intel
/// manual.
#[derive(Debug, Clone, Copy, PartialEq, Eq, Structural)]
pub enum VmxExitReason {
    Exception,
    ExternalInterrupt,
    TripleFault,
    InitSignal,
    StartupIpi,
    SystemManagementInterrupt,
    OtherSmi,
    InterruptWindow,
    NmiWindow,
    TaskSwitch,
    CpuId,
    GetSec,
    Hlt,
    Invd,
    InvlPg,
    RdPmc,
    RdTsc,
    Rsm,
    VmCall,
    VmClear,
    VmLaunch,
    VmPtrLd,
    VmPtrSt,
    VmRead,
    IoInstruction,
    RdMsr,
    WrMsr,
    VmEntryFailureInvalidGuestState,
    EptViolation,
    VmxPreemptionTimerExpired,
}

/// Whether `value` is the number of an exit reason the hypervisor knows.
pub open spec fn is_exit_code(value: u64) -> bool {
    value <= 23 || (30 <= value && value <= 33) || value == 48 || value == 52
}

impl VmxExitReason {
    /// The basic exit reason number.
    pub open spec fn code(self) -> u64 {
        match self {
            VmxExitReason::Exception => 0,
            VmxExitReason::ExternalInterrupt => 1,
            VmxExitReason::TripleFault => 2,
            VmxExitReason::InitSignal => 3,
            VmxExitReason::StartupIpi => 4,
            VmxExitReason::SystemManagementInterrupt => 5,
            VmxExitReason::OtherSmi => 6,
            VmxExitReason::InterruptWindow => 7,
            VmxExitReason::NmiWindow => 8,
            VmxExitReason::TaskSwitch => 9,
            VmxExitReason::CpuId => 10,
            VmxExitReason::GetSec => 11,
            VmxExitReason::Hlt => 12,
            VmxExitReason::Invd => 13,
            VmxExitReason::InvlPg => 14,
            VmxExitReason::RdPmc => 15,
            VmxExitReason::RdTsc => 16,
            VmxExitReason::Rsm => 17,
            VmxExitReason::VmCall => 18,
            VmxExitReason::VmClear => 19,
            VmxExitReason::VmLaunch => 20,
            VmxExitReason::VmPtrLd => 21,
            VmxExitReason::VmPtrSt => 22,
            VmxExitReason::VmRead => 23,
            VmxExitReason::IoInstruction => 30,
            VmxExitReason::RdMsr => 31,
            VmxExitReason::WrMsr => 32,
            VmxExitReason::VmEntryFailureInvalidGuestState => 33,
            VmxExitReason::EptViolation => 48,
            VmxExitReason::VmxPreemptionTimerExpired => 52,
        }
    }

    /// The exit reason with number `value`.
    pub fn from(value: u64) -> (r: VmxExitReason)
        requires
            is_exit_code(value),
        ensures
            r.code() == value,
    {
        match value {
            0 => VmxExitReason::Exception,
            1 => VmxExitReason::ExternalInterrupt,
            2 => VmxExitReason::TripleFault,
            3 => VmxExitReason::InitSignal,
            4 => VmxExitReason::StartupIpi,
            5 => VmxExitReason::SystemManagementInterrupt,
            6 => VmxExitReason::OtherSmi,
            7 => VmxExitReason::InterruptWindow,
            8 => VmxExitReason::NmiWindow,
            9 => VmxExitReason::TaskSwitch,
            10 => VmxExitReason::CpuId,
            11 => VmxExitReason::GetSec,
            12 => VmxExitReason::Hlt,
            13 => VmxExitReason::Invd,
            14 => VmxExitReason::InvlPg,
            15 => VmxExitReason::RdPmc,
            16 => VmxExitReason::RdTsc,
            17 => VmxExitReason::Rsm,
            18 => VmxExitReason::VmCall,
            19 => VmxExitReason::VmClear,
            20 => VmxExitReason::VmLaunch,
            21 => VmxExitReason::VmPtrLd,
            22 => VmxExitReason::VmPtrSt,
            23 => VmxExitReason::VmRead,
            30 => VmxExitReason::IoInstruction,
            31 => VmxExitReason::RdMsr,
            32 => VmxExitReason::WrMsr,
            33 => VmxExitReason::VmEntryFailureInvalidGuestState,
            48 => VmxExitReason::EptViolation,
            _ => VmxExitReason::VmxPreemptionTimerExpired,
        }
    }
}

/// The control value that sets the `required` bits, given a capability
/// MSR whose low half has the bits that must be one and whose high half
/// the bits that may be one.
pub open spec fn vmx_control_value(control: u64, required: u32) -> u32 {
    (required & ((control >> 32u64) & 0xffff_ffff) as u32) | (control & 0xffff_ffff) as u32
}

/// Whether the capability MSR `control` allows every bit of `required`.
pub open spec fn vmx_control_supported(control: u64, required: u32) -> bool {
    required & !vmx_control_value(control, required) == 0
}

/// Whether the capability MSR `control` allows every bit of `required`.
pub fn supports_vmx_control(control: u64, required: u32) -> (r: bool)
    ensures
        r == vmx_control_supported(control, required),
{
    let value = compute_value(control, required);
    (required & !value) == 0
}

fn compute_value(control: u64, required: u32) -> (r: u32)
    ensures
        r == vmx_control_value(control, required),
{
    let allowed_zero_setting = (control & 0xffff_ffff) as u32;
    let allowed_one_setting = ((control >> 32u64) & 0xffff_ffff) as u32;
    (required & allowed_one_setting) | allowed_zero_setting
}

/// The value of a VM-execution, VM-entry or VM-exit control field that
/// sets the `required` bits, from the capability MSR `control` read for
/// it.
pub fn compute_vmx_control(control: u64, required: u32) -> (r: u32)
    requires
        vmx_control_supported(control, required),
    ensures
        r == vmx_control_value(control, required),
        r & required == required,
{
    let value = compute_value(control, required);
    proof {
        let v = value;
        assert(required & !v == 0u32 ==> v & required == required) by (bit_vector);
    }
    value
}

/// A control register value made valid for VMX operation: the bits of
/// `host` that `fixed1` allows, with the bits `fixed0` requires set.
pub open spec fn fixed_control_register(host: u64, fixed0: u64, fixed1: u64) -> u64 {
    (host & !(!fixed1)) | fixed0
}

/// The guest value of CR0 or CR4 from the host value and the two fixed-bit
/// MSRs.
pub fn guest_control_register(host: u64, fixed0: u64, fixed1: u64) -> (r: u64)
    ensures
        r == fixed_control_register(host, fixed0, fixed1),
        r & fixed0 == fixed0,
        r & !fixed1 & !fixed0 == 0,
{
    let fixed_set = fixed0;
    let fixed_clr = !fixed1;
    let r = (host & !fixed_clr) | fixed_set;
    proof {
        assert(r & fixed0 == fixed0) by (bit_vector)
            requires
                r == (host & !(!fixed1)) | fixed0,
        ;
        assert(r & !fixed1 & !fixed0 == 0) by (bit_vector)
            requires
                r == (host & !(!fixed1)) | fixed0,
        ;
    }
    r
}

/// A 4-KByte VMXON or VMCS region: the revision identifier, then data
/// that belongs to the processor.
pub struct VmcsRegion {
    /// Revision identifier the processor requires.
    pub revision_id: u32,
    /// The rest of the region.
    pub data: Vec<u8>,
}

/// The VMXON region, which enables VMX operation.
pub type Vmxon = VmcsRegion;

impl VmcsRegion {
    /// A zeroed region with the revision identifier of `IA32_VMX_BASIC`.
    pub fn new(vmx_basic: u64) -> (r: VmcsRegion)
        ensures
            r.revision_id == (vmx_basic & 0x7fff_ffff) as u32,
            r.data@.len() == 4096 - 4,
            forall|i: int| 0 <= i < 4096 - 4 ==> r.data@[i] == 0u8,
    {
        let mut data: Vec<u8> = Vec::new();
        let mut i: usize = 0;
        while i < 4096 - 4
            invariant
                i <= 4096 - 4,
                data@.len() == i,
                forall|j: int| 0 <= j < i ==> data@[j] == 0u8,
            decreases 4096 - 4 - i,
        {
            data.push(0);
            i = i + 1;
        }
        VmcsRegion { revision_id: revision_id(vmx_basic), data }
    }
}

/// The VMCS revision identifier from `IA32_VMX_BASIC`: its low 31 bits.
pub fn revision_id(vmx_basic: u64) -> (r: u32)
    ensures
        r == (vmx_basic & 0x7fff_ffff) as u32,
{
    (vmx_basic & 0x7fff_ffff) as u32
}

/// The extended-page-table pointer for the PML4 table at `pml4`: write-back
/// memory type and a four-level walk.
pub fn ept_pointer(pml4: u64) -> (r: u64)
    ensures
        r == pml4 | 0x1e,
{
    pml4 | 0x1e
}

} // verus!
