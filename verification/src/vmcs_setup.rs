//! The fields the hypervisor writes into a fresh VMCS, and their values,
//! computed from what the host reads of its own state and of the VMX
//! capability MSRs.
use vstd::prelude::*;
use crate::vmcs::{compute_vmx_control, fixed_control_register, guest_control_register, vmx_control_supported, vmx_control_value};

verus! {

/// A field of the VMCS: those the hypervisor sets, and the guest-state
/// fields it reports.
#[derive(Debug, Clone, Copy, PartialEq, Eq, Structural)]
pub enum VmcsField {
    PinBasedVmExecControl,
    VmEntryControls,
    VmExitControls,
    CpuBasedVmExecControl,
    SecondaryVmExecControl,
    PageFaultErrorCodeMask,
    Cr3TargetCount,
    VmcsLinkPointer,
    VirtualProcessorId,
    ExceptionBitmap,
    ApicAccessAddr,
    VirtualApicPageAddr,
    VmxPreemptionTimerValue,
    IoBitmapA,
    IoBitmapB,
    EptPointer,
    HostCr0,
    HostCr3,
    HostCr4,
    HostFsBase,
    HostGsBase,
    HostRip,
    HostCsSelector,
    HostDsSelector,
    HostEsSelector,
    HostFsSelector,
    HostGsSelector,
    HostSsSelector,
    HostTrSelector,
    HostIa32Efer,
    HostIa32SysenterCs,
    HostIdtrBase,
    HostGdtrBase,
    HostTrBase,
    GuestCr0,
    GuestCr3,
    GuestCr4,
    GuestRip,
    GuestIa32Efer,
    GuestCsSelector,
    GuestCsBase,
    GuestCsLimit,
    GuestCsArBytes,
    GuestDsSelector,
    GuestDsBase,
    GuestDsLimit,
    GuestDsArBytes,
    GuestEsSelector,
    GuestEsBase,
    GuestEsLimit,
    GuestEsArBytes,
    GuestFsSelector,
    GuestFsBase,
    GuestFsLimit,
    GuestFsArBytes,
    GuestGsSelector,
    GuestGsBase,
    GuestGsLimit,
    GuestGsArBytes,
    GuestSsSelector,
    GuestSsBase,
    GuestSsLimit,
    GuestSsArBytes,
    GuestTrSelector,
    GuestTrBase,
    GuestTrLimit,
    GuestTrArBytes,
    GuestLdtrSelector,
    GuestLdtrBase,
    GuestLdtrLimit,
    GuestLdtrArBytes,
    GuestIdtrBase,
    GuestIdtrLimit,
    GuestGdtrBase,
    GuestGdtrLimit,
    GuestRflags,
    GuestActivityState,
    GuestBndcfgs,
    GuestDr7,
    GuestIa32Debugctl,
    GuestIa32Pat,
    GuestIa32PerfGlobalCtrl,
    GuestInterruptibilityState,
    GuestIntrStatus,
    GuestLinearAddress,
    GuestPdptr0,
    GuestPdptr1,
    GuestPdptr2,
    GuestPdptr3,
    GuestPendingDbgExceptions,
    GuestPhysicalAddress,
    GuestPmlIndex,
    GuestRsp,
    GuestSysenterCs,
    GuestSysenterEip,
    GuestSysenterEsp,
}

/// What the host reads of its state and of the capability MSRs before it
/// sets up a VMCS.
#[derive(Debug, Clone, Copy, PartialEq, Eq, Structural)]
pub struct VmcsHostState {
    /// `IA32_VMX_BASIC`.
    pub vmx_basic: u64,
    /// The capability MSRs of the pin-based, VM-entry, VM-exit, primary
    /// and secondary processor-based controls, read from the numbers
    /// [`control_msrs`] gives.
    pub pinbased_msr: u64,
    pub entry_msr: u64,
    pub exit_msr: u64,
    pub procbased_msr: u64,
    pub procbased2_msr: u64,
    /// The physical address of the virtual-APIC page.
    pub virtual_apic: u64,
    /// The physical address of the first I/O bitmap; the second follows it.
    pub io_bitmap_a: u64,
    /// The physical address of the top-level extended page table.
    pub ept_pml4: u64,
    pub cr0: u64,
    pub cr3: u64,
    pub cr4: u64,
    pub fs_base: u64,
    pub gs_base: u64,
    /// Where the host resumes on a VM exit.
    pub host_rip: u64,
    pub code_selector: u16,
    pub data_selector: u16,
    pub tss_selector: u16,
    pub efer: u64,
    pub idt_base: u64,
    pub idt_limit: u16,
    pub gdt_base: u64,
    pub gdt_limit: u16,
    pub tss_base: u64,
    /// The size of the task-state segment.
    pub tss_size: u64,
    /// `IA32_VMX_CR0_FIXED0`, `IA32_VMX_CR0_FIXED1`, `IA32_VMX_CR4_FIXED0`,
    /// `IA32_VMX_CR4_FIXED1`.
    pub cr0_fixed0: u64,
    pub cr0_fixed1: u64,
    pub cr4_fixed0: u64,
    pub cr4_fixed1: u64,
    /// Where the guest starts.
    pub guest_rip: u64,
}

/// The control bits the hypervisor requires: the VMX-preemption timer,
/// a 64-bit guest, a 64-bit host, secondary controls, and EPT.
pub const PINBASED_REQUIRED: u32 = 0x40;
pub const ENTRY_REQUIRED: u32 = 0x200;
pub const EXIT_REQUIRED: u32 = 0x200;
pub const PROCBASED_REQUIRED: u32 = 0x8000_0000;
pub const PROCBASED2_REQUIRED: u32 = 0x2;

/// Whether `IA32_VMX_BASIC` says the "true" capability MSRs are to be used
/// (bit 55).
pub open spec fn uses_true_controls(vmx_basic: u64) -> bool {
    (vmx_basic >> 55u64) & 1 == 1
}

/// The capability MSRs to read for the pin-based, VM-entry, VM-exit,
/// primary and secondary processor-based controls.
pub fn control_msrs(vmx_basic: u64) -> (r: (u32, u32, u32, u32, u32))
    ensures
        uses_true_controls(vmx_basic) ==> r == (0x48du32, 0x490u32, 0x48fu32, 0x48eu32, 0x48bu32),
        !uses_true_controls(vmx_basic) ==> r == (0x481u32, 0x484u32, 0x483u32, 0x482u32, 0x48bu32),
{
    if (vmx_basic >> 55u64) & 1 == 1 {
        (0x48d, 0x490, 0x48f, 0x48e, 0x48b)
    } else {
        (0x481, 0x484, 0x483, 0x482, 0x48b)
    }
}

/// Whether the capability MSRs allow every control bit the hypervisor
/// requires, and the addresses and sizes fit.
pub open spec fn setup_possible(s: VmcsHostState) -> bool {
    &&& vmx_control_supported(s.pinbased_msr, PINBASED_REQUIRED)
    &&& vmx_control_supported(s.entry_msr, ENTRY_REQUIRED)
    &&& vmx_control_supported(s.exit_msr, EXIT_REQUIRED)
    &&& vmx_control_supported(s.procbased_msr, PROCBASED_REQUIRED)
    &&& vmx_control_supported(s.procbased2_msr, PROCBASED2_REQUIRED)
    &&& s.io_bitmap_a + 4096 <= u64::MAX
    &&& s.tss_size >= 1
}

/// Part of [`vmcs_plan`].
pub open spec fn control_writes(s: VmcsHostState) -> Seq<(VmcsField, u64)> {
    let pin = vmx_control_value(s.pinbased_msr, PINBASED_REQUIRED) as u64;
    let entry = vmx_control_value(s.entry_msr, ENTRY_REQUIRED) as u64;
    let exit = vmx_control_value(s.exit_msr, EXIT_REQUIRED) as u64;
    let procbased = vmx_control_value(s.procbased_msr, PROCBASED_REQUIRED) as u64;
    let procbased2 = vmx_control_value(s.procbased2_msr, PROCBASED2_REQUIRED) as u64;
    let io_b = (s.io_bitmap_a + 4096) as u64;
    seq![
        (VmcsField::PinBasedVmExecControl, pin),
        (VmcsField::VmEntryControls, entry),
        (VmcsField::VmExitControls, exit),
        (VmcsField::CpuBasedVmExecControl, procbased),
        (VmcsField::SecondaryVmExecControl, procbased2),
        (VmcsField::PageFaultErrorCodeMask, 0u64),
        (VmcsField::PageFaultErrorCodeMask, 0u64),
        (VmcsField::Cr3TargetCount, 0u64),
        (VmcsField::VmcsLinkPointer, 0xffff_ffff_ffff_ffffu64),
        (VmcsField::VirtualProcessorId, 0u64),
        (VmcsField::ExceptionBitmap, 0u64),
        (VmcsField::ApicAccessAddr, 0xfee0_0000u64),
        (VmcsField::VirtualApicPageAddr, s.virtual_apic),
        (VmcsField::VmxPreemptionTimerValue, 0xffff_ffffu64),
        (VmcsField::IoBitmapA, s.io_bitmap_a),
        (VmcsField::IoBitmapB, io_b),
        (VmcsField::EptPointer, s.ept_pml4 | 0x1e),
        (VmcsField::HostCr0, s.cr0),
        (VmcsField::HostCr3, s.cr3),
        (VmcsField::HostCr4, s.cr4),
    ]
}

/// Part of [`vmcs_plan`].
pub open spec fn host_writes(s: VmcsHostState) -> Seq<(VmcsField, u64)> {
    let cr0val = fixed_control_register(s.cr0, s.cr0_fixed0, s.cr0_fixed1);
    let cr4val = fixed_control_register(s.cr4, s.cr4_fixed0, s.cr4_fixed1);
    seq![
        (VmcsField::HostFsBase, s.fs_base),
        (VmcsField::HostGsBase, s.gs_base),
        (VmcsField::HostRip, s.host_rip),
        (VmcsField::HostCsSelector, s.code_selector as u64),
        (VmcsField::HostDsSelector, s.data_selector as u64),
        (VmcsField::HostEsSelector, s.data_selector as u64),
        (VmcsField::HostFsSelector, s.data_selector as u64),
        (VmcsField::HostGsSelector, s.data_selector as u64),
        (VmcsField::HostSsSelector, s.data_selector as u64),
        (VmcsField::HostTrSelector, s.tss_selector as u64),
        (VmcsField::HostIa32Efer, s.efer),
        (VmcsField::HostIa32SysenterCs, 0u64),
        (VmcsField::HostIdtrBase, s.idt_base),
        (VmcsField::HostGdtrBase, s.gdt_base),
        (VmcsField::HostTrBase, s.tss_base),
        (VmcsField::GuestCr0, cr0val),
        (VmcsField::GuestCr3, s.cr3),
        (VmcsField::GuestCr4, cr4val),
        (VmcsField::GuestRip, s.guest_rip),
        (VmcsField::GuestIa32Efer, s.efer),
    ]
}

/// Part of [`vmcs_plan`].
pub open spec fn guest_control_writes(s: VmcsHostState) -> Seq<(VmcsField, u64)> {
    seq![
        (VmcsField::GuestCsSelector, s.code_selector as u64),
        (VmcsField::GuestCsBase, 0u64),
        (VmcsField::GuestCsLimit, 0xf_ffffu64),
        (VmcsField::GuestCsArBytes, 0b10_0000_1001_1011u64),
        (VmcsField::GuestDsSelector, s.data_selector as u64),
        (VmcsField::GuestDsBase, 0u64),
        (VmcsField::GuestDsLimit, 0xf_ffffu64),
        (VmcsField::GuestDsArBytes, 0b1001_0011u64),
        (VmcsField::GuestEsSelector, s.data_selector as u64),
        (VmcsField::GuestEsBase, 0u64),
        (VmcsField::GuestEsLimit, 0xf_ffffu64),
        (VmcsField::GuestEsArBytes, 0b1001_0011u64),
        (VmcsField::GuestFsSelector, s.data_selector as u64),
        (VmcsField::GuestFsBase, 0u64),
        (VmcsField::GuestFsLimit, 0xf_ffffu64),
        (VmcsField::GuestFsArBytes, 0b1001_0011u64),
        (VmcsField::GuestGsSelector, s.data_selector as u64),
        (VmcsField::GuestGsBase, 0u64),
        (VmcsField::GuestGsLimit, 0xf_ffffu64),
        (VmcsField::GuestGsArBytes, 0b1001_0011u64),
    ]
}

/// Part of [`vmcs_plan`].
pub open spec fn guest_segment_writes(s: VmcsHostState) -> Seq<(VmcsField, u64)> {
    let tr_limit = (s.tss_size - 1) as u64;
    seq![
        (VmcsField::GuestSsSelector, s.data_selector as u64),
        (VmcsField::GuestSsBase, 0u64),
        (VmcsField::GuestSsLimit, 0xf_ffffu64),
        (VmcsField::GuestSsArBytes, 0b1001_0011u64),
        (VmcsField::GuestTrSelector, s.tss_selector as u64),
        (VmcsField::GuestTrBase, s.tss_base),
        (VmcsField::GuestTrLimit, tr_limit),
        (VmcsField::GuestTrArBytes, 0x8bu64),
        (VmcsField::GuestLdtrSelector, 0u64),
        (VmcsField::GuestLdtrBase, 0u64),
        (VmcsField::GuestLdtrLimit, 0u64),
        (VmcsField::GuestLdtrArBytes, 0x82u64),
        (VmcsField::GuestIdtrBase, s.idt_base),
        (VmcsField::GuestIdtrLimit, s.idt_limit as u64),
        (VmcsField::GuestGdtrBase, s.gdt_base),
        (VmcsField::GuestGdtrLimit, s.gdt_limit as u64),
        (VmcsField::GuestRflags, 2u64),
    ]
}

/// The writes that set up a VMCS, in order.
pub open spec fn vmcs_plan(s: VmcsHostState) -> Seq<(VmcsField, u64)> {
    control_writes(s) + host_writes(s) + guest_control_writes(s) + guest_segment_writes(s)
}

fn push_control_writes(w: &mut Vec<(VmcsField, u64)>, s: &VmcsHostState)
    requires
        setup_possible(*s),
    ensures
        final(w)@ == old(w)@ + control_writes(*s),
{
    let pin = compute_vmx_control(s.pinbased_msr, PINBASED_REQUIRED) as u64;
    let entry = compute_vmx_control(s.entry_msr, ENTRY_REQUIRED) as u64;
    let exit = compute_vmx_control(s.exit_msr, EXIT_REQUIRED) as u64;
    let procbased = compute_vmx_control(s.procbased_msr, PROCBASED_REQUIRED) as u64;
    let procbased2 = compute_vmx_control(s.procbased2_msr, PROCBASED2_REQUIRED) as u64;
    let io_b = s.io_bitmap_a + 4096;
    w.push((VmcsField::PinBasedVmExecControl, pin));
    w.push((VmcsField::VmEntryControls, entry));
    w.push((VmcsField::VmExitControls, exit));
    w.push((VmcsField::CpuBasedVmExecControl, procbased));
    w.push((VmcsField::SecondaryVmExecControl, procbased2));
    w.push((VmcsField::PageFaultErrorCodeMask, 0u64));
    w.push((VmcsField::PageFaultErrorCodeMask, 0u64));
    w.push((VmcsField::Cr3TargetCount, 0u64));
    w.push((VmcsField::VmcsLinkPointer, 0xffff_ffff_ffff_ffffu64));
    w.push((VmcsField::VirtualProcessorId, 0u64));
    w.push((VmcsField::ExceptionBitmap, 0u64));
    w.push((VmcsField::ApicAccessAddr, 0xfee0_0000u64));
    w.push((VmcsField::VirtualApicPageAddr, s.virtual_apic));
    w.push((VmcsField::VmxPreemptionTimerValue, 0xffff_ffffu64));
    w.push((VmcsField::IoBitmapA, s.io_bitmap_a));
    w.push((VmcsField::IoBitmapB, io_b));
    w.push((VmcsField::EptPointer, s.ept_pml4 | 0x1e));
    w.push((VmcsField::HostCr0, s.cr0));
    w.push((VmcsField::HostCr3, s.cr3));
    w.push((VmcsField::HostCr4, s.cr4));
    proof {
        assert(w@ =~= old(w)@ + control_writes(*s));
    }
}

fn push_host_writes(w: &mut Vec<(VmcsField, u64)>, s: &VmcsHostState)
    requires
        setup_possible(*s),
    ensures
        final(w)@ == old(w)@ + host_writes(*s),
{
    let cr0val = guest_control_register(s.cr0, s.cr0_fixed0, s.cr0_fixed1);
    let cr4val = guest_control_register(s.cr4, s.cr4_fixed0, s.cr4_fixed1);
    w.push((VmcsField::HostFsBase, s.fs_base));
    w.push((VmcsField::HostGsBase, s.gs_base));
    w.push((VmcsField::HostRip, s.host_rip));
    w.push((VmcsField::HostCsSelector, s.code_selector as u64));
    w.push((VmcsField::HostDsSelector, s.data_selector as u64));
    w.push((VmcsField::HostEsSelector, s.data_selector as u64));
    w.push((VmcsField::HostFsSelector, s.data_selector as u64));
    w.push((VmcsField::HostGsSelector, s.data_selector as u64));
    w.push((VmcsField::HostSsSelector, s.data_selector as u64));
    w.push((VmcsField::HostTrSelector, s.tss_selector as u64));
    w.push((VmcsField::HostIa32Efer, s.efer));
    w.push((VmcsField::HostIa32SysenterCs, 0u64));
    w.push((VmcsField::HostIdtrBase, s.idt_base));
    w.push((VmcsField::HostGdtrBase, s.gdt_base));
    w.push((VmcsField::HostTrBase, s.tss_base));
    w.push((VmcsField::GuestCr0, cr0val));
    w.push((VmcsField::GuestCr3, s.cr3));
    w.push((VmcsField::GuestCr4, cr4val));
    w.push((VmcsField::GuestRip, s.guest_rip));
    w.push((VmcsField::GuestIa32Efer, s.efer));
    proof {
        assert(w@ =~= old(w)@ + host_writes(*s));
    }
}

fn push_guest_control_writes(w: &mut Vec<(VmcsField, u64)>, s: &VmcsHostState)
    requires
        setup_possible(*s),
    ensures
        final(w)@ == old(w)@ + guest_control_writes(*s),
{
    w.push((VmcsField::GuestCsSelector, s.code_selector as u64));
    w.push((VmcsField::GuestCsBase, 0u64));
    w.push((VmcsField::GuestCsLimit, 0xf_ffffu64));
    w.push((VmcsField::GuestCsArBytes, 0b10_0000_1001_1011u64));
    w.push((VmcsField::GuestDsSelector, s.data_selector as u64));
    w.push((VmcsField::GuestDsBase, 0u64));
    w.push((VmcsField::GuestDsLimit, 0xf_ffffu64));
    w.push((VmcsField::GuestDsArBytes, 0b1001_0011u64));
    w.push((VmcsField::GuestEsSelector, s.data_selector as u64));
    w.push((VmcsField::GuestEsBase, 0u64));
    w.push((VmcsField::GuestEsLimit, 0xf_ffffu64));
    w.push((VmcsField::GuestEsArBytes, 0b1001_0011u64));
    w.push((VmcsField::GuestFsSelector, s.data_selector as u64));
    w.push((VmcsField::GuestFsBase, 0u64));
    w.push((VmcsField::GuestFsLimit, 0xf_ffffu64));
    w.push((VmcsField::GuestFsArBytes, 0b1001_0011u64));
    w.push((VmcsField::GuestGsSelector, s.data_selector as u64));
    w.push((VmcsField::GuestGsBase, 0u64));
    w.push((VmcsField::GuestGsLimit, 0xf_ffffu64));
    w.push((VmcsField::GuestGsArBytes, 0b1001_0011u64));
    proof {
        assert(w@ =~= old(w)@ + guest_control_writes(*s));
    }
}

fn push_guest_segment_writes(w: &mut Vec<(VmcsField, u64)>, s: &VmcsHostState)
    requires
        setup_possible(*s),
    ensures
        final(w)@ == old(w)@ + guest_segment_writes(*s),
{
    let tr_limit = s.tss_size - 1;
    w.push((VmcsField::GuestSsSelector, s.data_selector as u64));
    w.push((VmcsField::GuestSsBase, 0u64));
    w.push((VmcsField::GuestSsLimit, 0xf_ffffu64));
    w.push((VmcsField::GuestSsArBytes, 0b1001_0011u64));
    w.push((VmcsField::GuestTrSelector, s.tss_selector as u64));
    w.push((VmcsField::GuestTrBase, s.tss_base));
    w.push((VmcsField::GuestTrLimit, tr_limit));
    w.push((VmcsField::GuestTrArBytes, 0x8bu64));
    w.push((VmcsField::GuestLdtrSelector, 0u64));
    w.push((VmcsField::GuestLdtrBase, 0u64));
    w.push((VmcsField::GuestLdtrLimit, 0u64));
    w.push((VmcsField::GuestLdtrArBytes, 0x82u64));
    w.push((VmcsField::GuestIdtrBase, s.idt_base));
    w.push((VmcsField::GuestIdtrLimit, s.idt_limit as u64));
    w.push((VmcsField::GuestGdtrBase, s.gdt_base));
    w.push((VmcsField::GuestGdtrLimit, s.gdt_limit as u64));
    w.push((VmcsField::GuestRflags, 2u64));
    proof {
        assert(w@ =~= old(w)@ + guest_segment_writes(*s));
    }
}

/// The writes that set up a VMCS, in order: the execution, entry and exit
/// controls from the capability MSRs, the I/O bitmaps and the EPT
/// pointer, the host state, and a guest state that copies the host's
/// segments with flat 4-GByte limits and its control registers made valid
/// by the fixed bits.
pub fn vmcs_writes(s: &VmcsHostState) -> (r: Vec<(VmcsField, u64)>)
    requires
        setup_possible(*s),
    ensures
        r@ == vmcs_plan(*s),
{
    let mut w: Vec<(VmcsField, u64)> = Vec::new();
    push_control_writes(&mut w, s);
    push_host_writes(&mut w, s);
    push_guest_control_writes(&mut w, s);
    push_guest_segment_writes(&mut w, s);
    proof {
        assert(w@ =~= vmcs_plan(*s));
    }
    w
}

} // verus!
